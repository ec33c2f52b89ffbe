use vstd::prelude::*;
use vstd::bytes::*;

use crate::ast::{Expression, SectionType, Statement};
use crate::bytecode::{Bytecode, Section, Sections};
use crate::float::FloatUnit;
use crate::immediate::{DataSize, Immediate};
use crate::opcode::Opcode;
use crate::span::Span;
use crate::vm::{ADDRESSING_LITERAL, ADDRESSING_REGISTER};

verus! {

/// Errors found while assembling a program.
#[derive(Debug, PartialEq)]
pub enum Error {
    InvalidRegister(Span),
    InvalidDataSize(Span),
    InvalidOperands { details: String, span: Span },
    UndefinedLabel { label: String, span: Span },
    DuplicateLabel { label: String, span: Span },
    UnsupportedOperation(Span),
    FixupFailure(Span),
    InvalidExpression(Span),
    InvalidEntryPoint { entry: u64, body_len: u64 },
}

/// Where execution starts: a literal address, or a label resolved at the end.
pub enum Entry {
    Address(u64),
    Fixup(String, Span),
}

/// A site that receives a label's absolute address once all labels are known.
pub struct Fixup {
    pub section: Section,
    pub offset: usize,
    pub size: DataSize,
    pub label: String,
    pub span: Span,
}

/// A label: its name and where it stands.
pub struct LabelDef {
    pub name: String,
    pub section: Section,
    pub offset: usize,
}

/// The position of the label called `name`, if there is one.
pub open spec fn find_label(labels: Seq<LabelDef>, name: Seq<char>) -> Option<(Section, usize)>
    decreases labels.len(),
{
    if labels.len() == 0 {
        None
    } else if labels.last().name@ == name {
        Some((labels.last().section, labels.last().offset))
    } else {
        find_label(labels.drop_last(), name)
    }
}

/// The address in the concatenated image of a position in a section.
pub open spec fn absolute(sections: Sections, section: Section, offset: int) -> int {
    match section {
        Section::Text => offset,
        Section::Data => sections.text.len() + offset,
    }
}

/// The bytes a fixup site of `size` holds once it is patched with `addr`.
pub open spec fn patch_bytes(size: DataSize, addr: int) -> Seq<u8> {
    Immediate::of_raw(size, addr as u64).le_bytes()
}

/// The address that `labels` give the label called `name`.
pub open spec fn label_address(labels: Seq<LabelDef>, sections: Sections, name: Seq<char>) -> Option<int> {
    match find_label(labels, name) {
        Some((s, o)) => Some(absolute(sections, s, o as int)),
        None => None,
    }
}

/// The address execution starts at, once labels are known.
pub open spec fn entry_address(entry: Entry, labels: Seq<LabelDef>, sections: Sections) -> Option<u64> {
    match entry {
        Entry::Address(a) => Some(a),
        Entry::Fixup(name, _) => match label_address(labels, sections, name@) {
            Some(a) => Some(a as u64),
            None => None,
        },
    }
}

/// Whether every fixup lies inside its section, has an integer width, and
/// fixups of one section follow each other without overlap.
pub open spec fn fixups_ok(fixups: Seq<Fixup>, sections: Sections) -> bool {
    &&& forall|i: int|
        0 <= i < fixups.len() ==> #[trigger] fixups[i].offset + fixups[i].size.bytes()
            <= sections.get(fixups[i].section).len() && fixups[i].size.is_integer()
    &&& forall|i: int, j: int|
        0 <= i < j < fixups.len() && fixups[i].section == fixups[j].section ==> #[trigger] fixups[i].offset
            + fixups[i].size.bytes() <= #[trigger] fixups[j].offset
}

/// Whether the site of fixup `f` in `sections` holds the address of its label.
pub open spec fn fixup_patched(f: Fixup, labels: Seq<LabelDef>, sections: Sections) -> bool {
    match label_address(labels, sections, f.label@) {
        Some(a) => sections.get(f.section).subrange(
            f.offset as int,
            f.offset + f.size.bytes(),
        ) == patch_bytes(f.size, a),
        None => false,
    }
}

/// An integer immediate at width `size`.
pub open spec fn int_operand(size: DataSize, v: i64) -> Seq<u8> {
    Immediate::of_raw(size, v as u64).le_bytes()
}

/// The offset of a memory operand: zero when absent.
pub open spec fn offset_value(offset: Option<Box<Expression>>) -> Option<i64> {
    match offset {
        None => Some(0),
        Some(b) => match *b {
            Expression::IntegerLiteral(v) => Some(v),
            _ => None,
        },
    }
}

/// A memory operand `[base, offset]` whose base is a register or a literal.
pub open spec fn address_encoding(base: Expression, offset: Option<Box<Expression>>) -> Option<Seq<u8>> {
    match offset_value(offset) {
        Some(o) => match base {
            Expression::Register(r) => Some(
                seq![ADDRESSING_REGISTER, r.code()] + spec_u64_to_le_bytes(o as u64),
            ),
            Expression::IntegerLiteral(v) => Some(
                seq![ADDRESSING_LITERAL] + spec_u64_to_le_bytes(v as u64) + spec_u64_to_le_bytes(o as u64),
            ),
            _ => None,
        },
        None => None,
    }
}

/// `LDR`/`STR` with a register and a label-free memory operand.
pub open spec fn memory_encoding(op: Opcode, lhs: Expression, rhs: Expression) -> Option<Seq<u8>> {
    match (lhs, rhs) {
        (Expression::Register(r), Expression::Address(b, o)) => match address_encoding(*b, o) {
            Some(a) => Some(seq![op.code(), r.code()] + a),
            None => None,
        },
        _ => None,
    }
}

/// The size named by an optional size prefix, or `default` without one.
pub open spec fn size_prefix(ds: Option<Expression>, default: DataSize) -> Option<DataSize> {
    match ds {
        None => Some(default),
        Some(Expression::DataSize(z)) => Some(z),
        _ => None,
    }
}

/// `PUSH` of a register, an integer at an integer width, or a label-free
/// memory operand.
pub open spec fn push_encoding(ds: Option<Expression>, e: Expression) -> Option<Seq<u8>> {
    match e {
        Expression::Register(r) => match size_prefix(ds, r.spec_data_size()) {
            Some(z) => Some(seq![Opcode::PushReg.code(), z.tag(), r.code()]),
            None => None,
        },
        Expression::IntegerLiteral(v) => match ds {
            Some(Expression::DataSize(z)) => if z.is_integer() {
                Some(seq![Opcode::PushImm.code(), z.tag()] + int_operand(z, v))
            } else {
                None
            },
            _ => None,
        },
        Expression::Address(b, o) => match (size_prefix(ds, DataSize::QWord), address_encoding(*b, o)) {
            (Some(z), Some(a)) => Some(seq![Opcode::PushAddr.code(), z.tag()] + a),
            _ => None,
        },
        _ => None,
    }
}

/// `POP` into a register, or into a label-free memory operand of a given size.
pub open spec fn pop_encoding(ds: Option<Expression>, e: Expression) -> Option<Seq<u8>> {
    match e {
        Expression::Register(r) => match size_prefix(ds, r.spec_data_size()) {
            Some(z) => Some(seq![Opcode::PopReg.code(), z.tag(), r.code()]),
            None => None,
        },
        Expression::Address(b, o) => match (ds, address_encoding(*b, o)) {
            (Some(Expression::DataSize(z)), Some(a)) => Some(seq![Opcode::PopAddr.code(), z.tag()] + a),
            _ => None,
        },
        _ => None,
    }
}

/// A three-operand instruction with register operands (`rr` form) or a
/// register and an integer (`ri` form) at an integer width.
pub open spec fn alu_encoding(rr: Opcode, ri: Opcode, d: Expression, a: Expression, b: Expression, bitwise: bool) -> Option<Seq<u8>> {
    match (d, a, b) {
        (Expression::Register(d), Expression::Register(a), Expression::Register(b)) => if !bitwise || (
        d.spec_data_size().is_integer() && a.spec_data_size().is_integer()
            && b.spec_data_size().is_integer()) {
            Some(seq![rr.code(), d.code(), a.code(), b.code()])
        } else {
            None
        },
        (Expression::Register(d), Expression::Register(a), Expression::IntegerLiteral(v)) => if d.spec_data_size().is_integer()
            && (!bitwise || a.spec_data_size().is_integer()) {
            Some(seq![ri.code(), d.code(), a.code()] + int_operand(d.spec_data_size(), v))
        } else {
            None
        },
        _ => None,
    }
}

/// A jump or call to a register or a literal address.
pub open spec fn jump_encoding(imm: Opcode, reg: Opcode, e: Expression) -> Option<Seq<u8>> {
    match e {
        Expression::Register(x) => Some(seq![reg.code(), x.code()]),
        Expression::IntegerLiteral(v) => Some(seq![imm.code()] + spec_u64_to_le_bytes(v as u64)),
        _ => None,
    }
}

/// A jump or call whose target is a label.
pub open spec fn jump_label_encoding(imm: Opcode, e: Expression) -> Option<(Seq<u8>, DataSize, Seq<char>)> {
    match e {
        Expression::Identifier(l) => Some((seq![imm.code()], DataSize::QWord, l@)),
        _ => None,
    }
}

/// The encoding of the instructions whose bytes depend on no label and no
/// floating-point conversion; `None` for every other statement.
pub open spec fn plain_encoding(stmt: Statement) -> Option<Seq<u8>> {
    match stmt {
        Statement::Nop(_) => Some(seq![Opcode::Nop.code()]),
        Statement::Ret(_) => Some(seq![Opcode::Ret.code()]),
        Statement::Syscall(_) => Some(seq![Opcode::Syscall.code()]),
        Statement::Hlt(_) => Some(seq![Opcode::Hlt.code()]),
        Statement::Mov(Expression::Register(d), Expression::Register(s), _) => Some(
            seq![Opcode::MovRegReg.code(), d.code(), s.code()],
        ),
        Statement::Mov(Expression::Register(d), Expression::IntegerLiteral(v), _) => if d.spec_data_size().is_integer() {
            Some(seq![Opcode::MovRegImm.code(), d.code()] + int_operand(d.spec_data_size(), v))
        } else {
            None
        },
        Statement::Ldr(a, b, _) => memory_encoding(Opcode::Ldr, a, b),
        Statement::Str(a, b, _) => memory_encoding(Opcode::Str, a, b),
        Statement::Push(ds, e, _) => push_encoding(ds, e),
        Statement::Pop(ds, e, _) => pop_encoding(ds, e),
        Statement::Add(d, a, b, _) => alu_encoding(Opcode::AddRegRegReg, Opcode::AddRegRegImm, d, a, b, false),
        Statement::Sub(d, a, b, _) => alu_encoding(Opcode::SubRegRegReg, Opcode::SubRegRegImm, d, a, b, false),
        Statement::Mul(d, a, b, _) => alu_encoding(Opcode::MulRegRegReg, Opcode::MulRegRegImm, d, a, b, false),
        Statement::Div(d, a, b, _) => alu_encoding(Opcode::DivRegRegReg, Opcode::DivRegRegImm, d, a, b, false),
        Statement::And(d, a, b, _) => alu_encoding(Opcode::AndRegRegReg, Opcode::AndRegRegImm, d, a, b, true),
        Statement::Or(d, a, b, _) => alu_encoding(Opcode::OrRegRegReg, Opcode::OrRegRegImm, d, a, b, true),
        Statement::Xor(d, a, b, _) => alu_encoding(Opcode::XorRegRegReg, Opcode::XorRegRegImm, d, a, b, true),
        Statement::Shl(d, a, b, _) => alu_encoding(Opcode::ShlRegRegReg, Opcode::ShlRegRegImm, d, a, b, true),
        Statement::Shr(d, a, b, _) => alu_encoding(Opcode::ShrRegRegReg, Opcode::ShrRegRegImm, d, a, b, true),
        Statement::Cmp(Expression::Register(a), Expression::Register(b), _) => Some(
            seq![Opcode::CmpRegReg.code(), a.code(), b.code()],
        ),
        Statement::Cmp(Expression::Register(a), Expression::IntegerLiteral(v), _) => if a.spec_data_size().is_integer() {
            Some(seq![Opcode::CmpRegImm.code(), a.code()] + int_operand(a.spec_data_size(), v))
        } else {
            None
        },
        Statement::Inc(Expression::Register(r), _) => Some(seq![Opcode::Inc.code(), r.code()]),
        Statement::Dec(Expression::Register(r), _) => Some(seq![Opcode::Dec.code(), r.code()]),
        Statement::Call(e, _) => jump_encoding(Opcode::CallImm, Opcode::CallReg, e),
        Statement::Jmp(e, _) => jump_encoding(Opcode::JmpImm, Opcode::JmpReg, e),
        Statement::Jeq(e, _) => jump_encoding(Opcode::JeqImm, Opcode::JeqReg, e),
        Statement::Jne(e, _) => jump_encoding(Opcode::JneImm, Opcode::JneReg, e),
        Statement::Jlt(e, _) => jump_encoding(Opcode::JltImm, Opcode::JltReg, e),
        Statement::Jgt(e, _) => jump_encoding(Opcode::JgtImm, Opcode::JgtReg, e),
        Statement::Jle(e, _) => jump_encoding(Opcode::JleImm, Opcode::JleReg, e),
        Statement::Jge(e, _) => jump_encoding(Opcode::JgeImm, Opcode::JgeReg, e),
        _ => None,
    }
}

/// The bytes of a program all of whose statements have a plain encoding,
/// one after the other; `None` if some statement has none.
pub open spec fn plain_program(stmts: Seq<Statement>) -> Option<Seq<u8>>
    decreases stmts.len(),
{
    if stmts.len() == 0 {
        Some(Seq::empty())
    } else {
        match (plain_program(stmts.drop_last()), plain_encoding(stmts.last())) {
            (Some(p), Some(b)) => Some(p + b),
            _ => None,
        }
    }
}

proof fn lemma_plain_prefix(stmts: Seq<Statement>, k: int)
    requires
        plain_program(stmts) is Some,
        0 <= k <= stmts.len(),
    ensures
        plain_program(stmts.subrange(0, k)) is Some,
    decreases stmts.len() - k,
{
    if k == stmts.len() {
        assert(stmts.subrange(0, k) =~= stmts);
    } else {
        lemma_plain_prefix(stmts, k + 1);
        assert(stmts.subrange(0, k + 1).drop_last() =~= stmts.subrange(0, k));
    }
}

/// The placeholder bytes of a fixup site of width `z`.
pub open spec fn zeros(z: DataSize) -> Seq<u8> {
    Immediate::of_raw(z, 0).le_bytes()
}

/// Whether `after` is `before` with one more fixup: for `label`, of width
/// `size`, at `offset` in section `cs`.
pub open spec fn fixup_recorded(
    before: Seq<Fixup>,
    after: Seq<Fixup>,
    cs: Section,
    offset: int,
    size: DataSize,
    label: Seq<char>,
) -> bool {
    &&& after.len() == before.len() + 1
    &&& forall|i: int| 0 <= i < before.len() ==> after[i] == before[i]
    &&& after.last().section == cs
    &&& after.last().offset == offset
    &&& after.last().size == size
    &&& after.last().label@ == label
}

/// For an instruction whose operand is a label: the bytes before the fixup
/// site, the site's width and the label.
pub open spec fn label_encoding(stmt: Statement) -> Option<(Seq<u8>, DataSize, Seq<char>)> {
    match stmt {
        Statement::Mov(Expression::Register(d), Expression::Identifier(l), _) => if d.spec_data_size().is_integer() {
            Some((seq![Opcode::MovRegImm.code(), d.code()], d.spec_data_size(), l@))
        } else {
            None
        },
        Statement::Push(ds, Expression::Identifier(l), _) => match size_prefix(ds, DataSize::QWord) {
            Some(z) => if z.is_integer() {
                Some((seq![Opcode::PushImm.code(), z.tag()], z, l@))
            } else {
                None
            },
            None => None,
        },
        Statement::Call(Expression::Identifier(l), _) => Some((seq![Opcode::CallImm.code()], DataSize::QWord, l@)),
        Statement::Jmp(Expression::Identifier(l), _) => Some((seq![Opcode::JmpImm.code()], DataSize::QWord, l@)),
        Statement::Jeq(Expression::Identifier(l), _) => Some((seq![Opcode::JeqImm.code()], DataSize::QWord, l@)),
        Statement::Jne(Expression::Identifier(l), _) => Some((seq![Opcode::JneImm.code()], DataSize::QWord, l@)),
        Statement::Jlt(Expression::Identifier(l), _) => Some((seq![Opcode::JltImm.code()], DataSize::QWord, l@)),
        Statement::Jgt(Expression::Identifier(l), _) => Some((seq![Opcode::JgtImm.code()], DataSize::QWord, l@)),
        Statement::Jle(Expression::Identifier(l), _) => Some((seq![Opcode::JleImm.code()], DataSize::QWord, l@)),
        Statement::Jge(Expression::Identifier(l), _) => Some((seq![Opcode::JgeImm.code()], DataSize::QWord, l@)),
        _ => None,
    }
}

/// Whether a statement is an arithmetic or bitwise instruction whose
/// operands include a floating-point register under a bitwise operator.
pub open spec fn bitwise_on_float(stmt: Statement) -> bool {
    match stmt {
        Statement::And(d, a, b, _) | Statement::Or(d, a, b, _) | Statement::Xor(d, a, b, _)
        | Statement::Shl(d, a, b, _) | Statement::Shr(d, a, b, _) => float_operand(d) || float_operand(
            a,
        ) || float_operand(b),
        _ => false,
    }
}

/// A floating-point register or a float literal.
pub open spec fn float_operand(e: Expression) -> bool {
    match e {
        Expression::Register(r) => !r.spec_data_size().is_integer(),
        Expression::FloatLiteral(_) => true,
        _ => false,
    }
}

/// The bytes of a `DB` list of integers (each contributes its low byte);
/// `None` if an item is not an integer literal.
pub open spec fn db_bytes(es: Seq<Expression>) -> Option<Seq<u8>>
    decreases es.len(),
{
    if es.len() == 0 {
        Some(Seq::empty())
    } else {
        match (db_bytes(es.drop_last()), es.last()) {
            (Some(b), Expression::IntegerLiteral(v)) => Some(b.push(v as u8)),
            _ => None,
        }
    }
}

proof fn lemma_db_bytes_prefix(es: Seq<Expression>, k: int)
    requires
        db_bytes(es) is Some,
        0 <= k <= es.len(),
    ensures
        db_bytes(es.subrange(0, k)) is Some,
        forall|i: int| 0 <= i < es.len() ==> (#[trigger] es[i]) is IntegerLiteral,
    decreases es.len(),
{
    if es.len() > 0 {
        lemma_db_bytes_prefix(es.drop_last(), if k < es.len() { k } else { es.len() - 1 });
        if k == es.len() {
            assert(es.subrange(0, k) =~= es);
        } else {
            assert(es.drop_last().subrange(0, k) =~= es.subrange(0, k));
        }
        assert forall|i: int| 0 <= i < es.len() implies (#[trigger] es[i]) is IntegerLiteral by {
            if i < es.len() - 1 {
                assert(es.drop_last()[i] == es[i]);
            }
        }
    }
}

/// Whether `after` keeps every fixup of `before`, in place, and may add more.
pub open spec fn fixups_extend(before: Seq<Fixup>, after: Seq<Fixup>) -> bool {
    &&& before.len() <= after.len()
    &&& forall|i: int| 0 <= i < before.len() ==> after[i] == before[i]
}

/// The state of the assembler, apart from the program still to assemble.
pub ghost struct CompilerModel {
    pub sections: Sections,
    pub labels: Seq<LabelDef>,
    pub fixups: Seq<Fixup>,
    pub current_section: Section,
    pub entry: Entry,
}

/// What assembling `stmt` from `m` does: `t` is the state after and `r` the
/// outcome.
pub open spec fn compiles(m: CompilerModel, stmt: Statement, t: CompilerModel, r: Result<(), Error>) -> bool {
    let cs = m.current_section;
    let len = m.sections.get(cs).len();
    &&& !(r matches Err(Error::UndefinedLabel { .. }))
    &&& r is Ok ==> fixups_extend(m.fixups, t.fixups)
    &&& r is Ok && !(stmt is Label) ==> t.labels == m.labels
    &&& r is Ok && !(stmt is Entry) ==> t.entry == m.entry
    &&& r is Ok && !(stmt is Section) ==> t.current_section == m.current_section
    &&& plain_encoding(stmt) matches Some(b) ==> r is Ok && t.sections == m.sections.with(cs, m.sections.get(cs) + b)
        && t.fixups == m.fixups
    &&& label_encoding(stmt) matches Some((p, z, l)) ==> r is Ok && t.sections == m.sections.with(
        cs,
        m.sections.get(cs) + p + zeros(z),
    ) && fixup_recorded(m.fixups, t.fixups, cs, (len + p.len()) as int, z, l)
    &&& bitwise_on_float(stmt) ==> (r matches Err(Error::InvalidOperands { span: sp, .. }) && sp == stmt.spec_span())
    &&& stmt matches Statement::Label(name, _) ==> (r is Ok <==> find_label(m.labels, name@) is None)
    &&& stmt matches Statement::Label(name, _) ==> (r is Ok ==> t.labels == m.labels.push(
        LabelDef { name, section: cs, offset: len as usize },
    ) && t.sections == m.sections && t.fixups == m.fixups)
    &&& stmt matches Statement::Db(es, sp) ==> (db_bytes(es@) matches Some(b) ==> r is Ok && t.sections == m.sections.with(
        cs,
        m.sections.get(cs) + b,
    ) && t.fixups == m.fixups)
    &&& stmt matches Statement::Db(es, sp) ==> ((exists|i: int| 0 <= i < es@.len() && !(#[trigger] es@[i] is IntegerLiteral || es@[i] is StringLiteral))
        ==> r == Err::<(), Error>(Error::InvalidExpression(sp)))
    &&& stmt matches Statement::Resb(e, sp) ==> match e {
        Expression::IntegerLiteral(n) => if n >= 0 {
            r is Ok && t.sections == m.sections.with(cs, m.sections.get(cs) + Seq::new(n as nat, |i: int| 0u8)) && t.fixups
                == m.fixups
        } else {
            r == Err::<(), Error>(Error::InvalidExpression(sp))
        },
        _ => r == Err::<(), Error>(Error::InvalidExpression(sp)),
    }
    &&& stmt matches Statement::Section(ty, _) ==> r is Ok && t == (CompilerModel {
        current_section: if ty is Text { Section::Text } else { Section::Data },
        ..m
    })
    &&& stmt matches Statement::Entry(e, sp) ==> match e {
        Expression::IntegerLiteral(v) => r is Ok && t == (CompilerModel { entry: Entry::Address(v as u64), ..m }),
        Expression::Identifier(n) => r is Ok && t == (CompilerModel { entry: Entry::Fixup(n, sp), ..m }),
        _ => (r matches Err(Error::InvalidOperands { span: x, .. }) && x == sp),
    }
}

/// Whether `trace` records assembling every statement of `program` from
/// `trace[0]`, each one successfully.
pub open spec fn assembled(program: Seq<Statement>, trace: Seq<CompilerModel>) -> bool {
    &&& trace.len() == program.len() + 1
    &&& forall|i: int| 0 <= i < program.len() ==> compiles(trace[i], #[trigger] program[i], trace[i + 1], Ok(()))
}

/// Assembles a preprocessed program into a bytecode image.
pub struct Compiler {
    pub program: Vec<Statement>,
    pub bytecode: Bytecode,
    pub labels: Vec<LabelDef>,
    pub fixups: Vec<Fixup>,
    pub current_section: Section,
    pub entry: Entry,
}

impl Compiler {
    pub open spec fn model(&self) -> CompilerModel {
        CompilerModel {
            sections: self.bytecode@,
            labels: self.labels@,
            fixups: self.fixups@,
            current_section: self.current_section,
            entry: self.entry,
        }
    }

    pub open spec fn inv(&self) -> bool {
        fixups_ok(self.fixups@, self.bytecode@)
    }

    pub fn new(program: Vec<Statement>) -> (r: Self)
        ensures
            r.inv(),
            r.program@ == program@,
            r.bytecode@.text.len() == 0,
            r.bytecode@.data.len() == 0,
            r.labels@.len() == 0,
            r.fixups@.len() == 0,
            r.current_section == Section::Text,
            r.entry == Entry::Address(0),
    {
        let n = program.len();
        let cap = if n <= usize::MAX / 4 {
            4 * n
        } else {
            n
        };
        Compiler {
            program,
            bytecode: Bytecode::new(Some(cap)),
            labels: Vec::new(),
            fixups: Vec::new(),
            current_section: Section::Text,
            entry: Entry::Address(0),
        }
    }

    /// The position of the label called `name`.
    fn lookup(&self, name: &String) -> (r: Option<(Section, usize)>)
        ensures
            r == find_label(self.labels@, name@),
    {
        let mut i = self.labels.len();
        assert(self.labels@.subrange(0, i as int) =~= self.labels@);
        while i > 0
            invariant
                i <= self.labels@.len(),
                find_label(self.labels@, name@) == find_label(self.labels@.subrange(0, i as int), name@),
            decreases i,
        {
            let l = &self.labels[i - 1];
            assert(self.labels@.subrange(0, i as int).drop_last() =~= self.labels@.subrange(0, i - 1));
            if l.name == *name {
                return Some((l.section, l.offset));
            }
            i = i - 1;
        }
        None
    }

    fn emit(&mut self, b: u8)
        requires
            old(self).inv(),
        ensures
            final(self).inv(),
            final(self).bytecode@ == old(self).bytecode@.with(
                old(self).current_section,
                old(self).bytecode@.get(old(self).current_section).push(b),
            ),
            final(self).labels@ == old(self).labels@,
            final(self).fixups@ == old(self).fixups@,
            final(self).current_section == old(self).current_section,
            final(self).entry == old(self).entry,
            fixups_extend(old(self).fixups@, final(self).fixups@),
    {
        self.bytecode.push(self.current_section, b);
    }

    fn emit_bytes(&mut self, b: &[u8])
        requires
            old(self).inv(),
        ensures
            final(self).inv(),
            final(self).bytecode@ == old(self).bytecode@.with(
                old(self).current_section,
                old(self).bytecode@.get(old(self).current_section) + b@,
            ),
            final(self).labels@ == old(self).labels@,
            final(self).fixups@ == old(self).fixups@,
            final(self).current_section == old(self).current_section,
            final(self).entry == old(self).entry,
            fixups_extend(old(self).fixups@, final(self).fixups@),
    {
        self.bytecode.extend(self.current_section, b);
    }

    /// Emits an integer immediate at width `size`.
    fn emit_int(&mut self, size: DataSize, v: i64)
        requires
            old(self).inv(),
            size.is_integer(),
        ensures
            final(self).inv(),
            final(self).bytecode@ == old(self).bytecode@.with(
                old(self).current_section,
                old(self).bytecode@.get(old(self).current_section) + int_operand(size, v),
            ),
            final(self).labels@ == old(self).labels@,
            final(self).fixups@ == old(self).fixups@,
            final(self).current_section == old(self).current_section,
            final(self).entry == old(self).entry,
            fixups_extend(old(self).fixups@, final(self).fixups@),
    {
        let imm = Immediate::int_of(size, v as u64);
        let b = imm.to_le_bytes();
        self.emit_bytes(b.as_slice());
    }

    /// Emits the 8-byte little-endian `v`.
    fn emit_u64(&mut self, v: u64)
        requires
            old(self).inv(),
        ensures
            final(self).inv(),
            final(self).bytecode@ == old(self).bytecode@.with(
                old(self).current_section,
                old(self).bytecode@.get(old(self).current_section) + spec_u64_to_le_bytes(v),
            ),
            final(self).labels@ == old(self).labels@,
            final(self).fixups@ == old(self).fixups@,
            final(self).current_section == old(self).current_section,
            final(self).entry == old(self).entry,
            fixups_extend(old(self).fixups@, final(self).fixups@),
    {
        let b = u64_to_le_bytes(v);
        self.emit_bytes(b.as_slice());
    }

    /// Records a fixup for `label` at the current position and emits `size`
    /// zero bytes in its place.
    fn emit_fixup(&mut self, size: DataSize, label: &String, span: Span)
        requires
            old(self).inv(),
            size.is_integer(),
        ensures
            final(self).inv(),
            final(self).bytecode@ == old(self).bytecode@.with(
                old(self).current_section,
                old(self).bytecode@.get(old(self).current_section) + zeros(size),
            ),
            fixup_recorded(
                old(self).fixups@,
                final(self).fixups@,
                old(self).current_section,
                old(self).bytecode@.get(old(self).current_section).len() as int,
                size,
                label@,
            ),
            final(self).labels@ == old(self).labels@,
            final(self).current_section == old(self).current_section,
            final(self).entry == old(self).entry,
            fixups_extend(old(self).fixups@, final(self).fixups@),
    {
        let offset = self.bytecode.len(self.current_section);
        let zero_bytes = Immediate::int_of(size, 0).to_le_bytes();
        self.emit_bytes(zero_bytes.as_slice());
        let f = Fixup { section: self.current_section, offset, size, label: label.clone(), span };
        self.fixups.push(f);
        assert(fixups_ok(self.fixups@, self.bytecode@)) by {
            let n = self.fixups@.len() - 1;
            assert forall|i: int, j: int|
                0 <= i < j < self.fixups@.len() && self.fixups@[i].section == self.fixups@[j].section implies
                #[trigger] self.fixups@[i].offset + self.fixups@[i].size.bytes() <= #[trigger] self.fixups@[j].offset by {
                if j == n {
                    assert(self.fixups@[i] == old(self).fixups@[i]);
                }
            }
        }
    }

    /// Emits the memory operand `[base, offset]`.
    fn emit_address(&mut self, base: &Expression, offset: &Option<Box<Expression>>, span: Span) -> (r: Result<(), Error>)
        requires
            old(self).inv(),
        ensures
            !(r matches Err(Error::UndefinedLabel { .. })),
            final(self).inv(),
            final(self).labels@ == old(self).labels@,
            final(self).current_section == old(self).current_section,
            final(self).entry == old(self).entry,
            fixups_extend(old(self).fixups@, final(self).fixups@),
            ({
                let cs = old(self).current_section;
                address_encoding(*base, *offset) matches Some(b) ==> r is Ok
                    && final(self).bytecode@ == old(self).bytecode@.with(cs, old(self).bytecode@.get(cs) + b)
                    && final(self).fixups@ == old(self).fixups@
            }),
    {
        let off: i64 = match offset {
            None => 0,
            Some(e) => match &**e {
                Expression::IntegerLiteral(v) => *v,
                _ => return Err(Error::InvalidOperands { details: "unsupported memory operand".to_owned(), span: span }),
            },
        };
        let ghost cs = self.current_section;
        let ghost start = self.bytecode@.get(cs);
        match base {
            Expression::Register(reg) => {
                self.emit(ADDRESSING_REGISTER);
                self.emit(reg.to_byte());
                self.emit_u64(off as u64);
                assert(self.bytecode@.get(cs) =~= start + (seq![ADDRESSING_REGISTER, reg.code()] + spec_u64_to_le_bytes(off as u64)));
            },
            Expression::IntegerLiteral(v) => {
                self.emit(ADDRESSING_LITERAL);
                self.emit_u64(*v as u64);
                self.emit_u64(off as u64);
                assert(self.bytecode@.get(cs) =~= start + (seq![ADDRESSING_LITERAL] + spec_u64_to_le_bytes(*v as u64) + spec_u64_to_le_bytes(off as u64)));
            },
            Expression::Identifier(name) => {
                self.emit(ADDRESSING_LITERAL);
                self.emit_fixup(DataSize::QWord, name, span);
                self.emit_u64(off as u64);
            },
            _ => return Err(Error::InvalidOperands { details: "unsupported memory operand".to_owned(), span: span }),
        }
        Ok(())
    }

    /// Emits the immediate `e` at width `size`. An integer literal at a
    /// floating-point width is converted by `fpu` where `int_to_float` allows
    /// it; a label records a fixup at an integer width.
    fn emit_immediate<F: FloatUnit>(&mut self, size: DataSize, e: &Expression, int_to_float: bool, fpu: &F, span: Span) -> (r: Result<(), Error>)
        requires
            old(self).inv(),
        ensures
            !(r matches Err(Error::UndefinedLabel { .. })),
            final(self).inv(),
            final(self).labels@ == old(self).labels@,
            final(self).current_section == old(self).current_section,
            final(self).entry == old(self).entry,
            fixups_extend(old(self).fixups@, final(self).fixups@),
            ({
                let cs = old(self).current_section;
                *e matches Expression::IntegerLiteral(v) ==> size.is_integer() ==> r is Ok
                    && final(self).bytecode@ == old(self).bytecode@.with(cs, old(self).bytecode@.get(cs) + int_operand(size, v))
                    && final(self).fixups@ == old(self).fixups@
            }),
            ({
                let cs = old(self).current_section;
                *e matches Expression::Identifier(l) ==> size.is_integer() ==> r is Ok
                    && final(self).bytecode@ == old(self).bytecode@.with(cs, old(self).bytecode@.get(cs) + zeros(size))
                    && fixup_recorded(old(self).fixups@, final(self).fixups@, cs, old(self).bytecode@.get(cs).len() as int, size, l@)
            }),
    {
        match e {
            Expression::IntegerLiteral(v) => match size {
                DataSize::Float => {
                    if !int_to_float {
                        return Err(Error::InvalidDataSize(span));
                    }
                    let b = u32_to_le_bytes(fpu.f32_from_signed(*v));
                    self.emit_bytes(b.as_slice());
                },
                DataSize::Double => {
                    if !int_to_float {
                        return Err(Error::InvalidDataSize(span));
                    }
                    let b = u64_to_le_bytes(fpu.f64_from_signed(*v));
                    self.emit_bytes(b.as_slice());
                },
                _ => self.emit_int(size, *v),
            },
            Expression::FloatLiteral(bits) => match size {
                DataSize::Float => {
                    let b = u32_to_le_bytes(fpu.f32_from_f64(*bits));
                    self.emit_bytes(b.as_slice());
                },
                DataSize::Double => {
                    let b = u64_to_le_bytes(*bits);
                    self.emit_bytes(b.as_slice());
                },
                _ => return Err(Error::InvalidDataSize(span)),
            },
            Expression::Identifier(name) => {
                if size.is_float() {
                    return Err(Error::InvalidDataSize(span));
                }
                self.emit_fixup(size, name, span);
            },
            _ => return Err(Error::InvalidOperands { details: "unsupported immediate operand".to_owned(), span: span }),
        }
        Ok(())
    }

    fn compile_mov<F: FloatUnit>(&mut self, lhs: &Expression, rhs: &Expression, fpu: &F, span: Span) -> (r: Result<(), Error>)
        requires
            old(self).inv(),
        ensures
            !(r matches Err(Error::UndefinedLabel { .. })),
            final(self).inv(),
            final(self).labels@ == old(self).labels@,
            final(self).current_section == old(self).current_section,
            final(self).entry == old(self).entry,
            fixups_extend(old(self).fixups@, final(self).fixups@),
            ({
                let cs = old(self).current_section;
                let stmt = Statement::Mov(*lhs, *rhs, span);
                plain_encoding(stmt) matches Some(b) ==> r is Ok
                    && final(self).bytecode@ == old(self).bytecode@.with(cs, old(self).bytecode@.get(cs) + b)
                    && final(self).fixups@ == old(self).fixups@
            }),
            ({
                let cs = old(self).current_section;
                label_encoding(Statement::Mov(*lhs, *rhs, span)) matches Some((p, z, l)) ==> r is Ok
                    && final(self).bytecode@ == old(self).bytecode@.with(cs, old(self).bytecode@.get(cs) + p + zeros(z))
                    && fixup_recorded(old(self).fixups@, final(self).fixups@, cs, (old(self).bytecode@.get(cs).len() + p.len()) as int, z, l)
            }),
    {
        let dest = match lhs {
            Expression::Register(d) => *d,
            _ => return Err(Error::InvalidOperands { details: "unsupported MOV operands".to_owned(), span: span }),
        };
        match rhs {
            Expression::Register(src) => {
                self.emit(Opcode::MovRegReg.to_byte());
                self.emit(dest.to_byte());
                self.emit(src.to_byte());
                proof {
                    let cs = old(self).current_section;
                    assert(self.bytecode@.get(cs) =~= old(self).bytecode@.get(cs) + seq![Opcode::MovRegReg.code(), dest.code(), src.code()]);
                }
                Ok(())
            },
            Expression::IntegerLiteral(_) | Expression::FloatLiteral(_) | Expression::Identifier(_) => {
                let size = dest.data_size();
                if size.is_float() && !matches!(rhs, Expression::FloatLiteral(_)) {
                    return Err(Error::InvalidDataSize(span));
                }
                self.emit(Opcode::MovRegImm.to_byte());
                self.emit(dest.to_byte());
                let r = self.emit_immediate(size, rhs, false, fpu, span);
                proof {
                    let cs = old(self).current_section;
                    if rhs is Identifier {
                        if size.is_integer() {
                            assert(self.bytecode@.get(cs) =~= old(self).bytecode@.get(cs) + seq![Opcode::MovRegImm.code(), dest.code()] + zeros(size));
                        }
                    }
                    if let Expression::IntegerLiteral(v) = *rhs {
                        if size.is_integer() {
                            assert(self.bytecode@.get(cs) =~= old(self).bytecode@.get(cs) + (seq![Opcode::MovRegImm.code(), dest.code()] + int_operand(size, v)));
                        }
                    }
                }
                r
            },
            _ => Err(Error::InvalidOperands { details: "unsupported MOV operands".to_owned(), span: span }),
        }
    }

    fn compile_ldr_or_str(&mut self, lhs: &Expression, rhs: &Expression, opcode: Opcode, span: Span) -> (r: Result<(), Error>)
        requires
            old(self).inv(),
        ensures
            !(r matches Err(Error::UndefinedLabel { .. })),
            final(self).inv(),
            final(self).labels@ == old(self).labels@,
            final(self).current_section == old(self).current_section,
            final(self).entry == old(self).entry,
            fixups_extend(old(self).fixups@, final(self).fixups@),
            ({
                let cs = old(self).current_section;
                memory_encoding(opcode, *lhs, *rhs) matches Some(b) ==> r is Ok
                    && final(self).bytecode@ == old(self).bytecode@.with(cs, old(self).bytecode@.get(cs) + b)
                    && final(self).fixups@ == old(self).fixups@
            }),
    {
        match (lhs, rhs) {
            (Expression::Register(reg), Expression::Address(base, offset)) => {
                let ghost cs = self.current_section;
                let ghost start = self.bytecode@.get(cs);
                self.emit(opcode.to_byte());
                self.emit(reg.to_byte());
                let ghost mid = self.bytecode@.get(cs);
                let r = self.emit_address(&**base, offset, span);
                proof {
                    if let Some(a) = address_encoding(**base, *offset) {
                        assert(self.bytecode@.get(cs) =~= start + (seq![opcode.code(), reg.code()] + a));
                    }
                }
                r
            },
            _ => Err(Error::InvalidOperands { details: "expected a register and a memory operand".to_owned(), span: span }),
        }
    }

    fn compile_push<F: FloatUnit>(&mut self, ds: &Option<Expression>, expr: &Expression, fpu: &F, span: Span) -> (r: Result<(), Error>)
        requires
            old(self).inv(),
        ensures
            !(r matches Err(Error::UndefinedLabel { .. })),
            final(self).inv(),
            final(self).labels@ == old(self).labels@,
            final(self).current_section == old(self).current_section,
            final(self).entry == old(self).entry,
            fixups_extend(old(self).fixups@, final(self).fixups@),
            ({
                let cs = old(self).current_section;
                push_encoding(*ds, *expr) matches Some(b) ==> r is Ok
                    && final(self).bytecode@ == old(self).bytecode@.with(cs, old(self).bytecode@.get(cs) + b)
                    && final(self).fixups@ == old(self).fixups@
            }),
            ({
                let cs = old(self).current_section;
                label_encoding(Statement::Push(*ds, *expr, span)) matches Some((p, z, l)) ==> r is Ok
                    && final(self).bytecode@ == old(self).bytecode@.with(cs, old(self).bytecode@.get(cs) + p + zeros(z))
                    && fixup_recorded(old(self).fixups@, final(self).fixups@, cs, (old(self).bytecode@.get(cs).len() + p.len()) as int, z, l)
            }),
    {
        let size: Option<DataSize> = match ds {
            None => None,
            Some(Expression::DataSize(s)) => Some(*s),
            Some(_) => return Err(Error::InvalidOperands { details: "unsupported PUSH operands".to_owned(), span: span }),
        };
        let ghost cs = self.current_section;
        let ghost start = self.bytecode@.get(cs);
        match expr {
            Expression::Register(src) => {
                let s = match size {
                    Some(s) => s,
                    None => src.data_size(),
                };
                self.emit(Opcode::PushReg.to_byte());
                self.emit(s.to_byte());
                self.emit(src.to_byte());
                assert(self.bytecode@.get(cs) =~= start + seq![Opcode::PushReg.code(), s.tag(), src.code()]);
                Ok(())
            },
            Expression::Address(base, offset) => {
                let s = match size {
                    Some(s) => s,
                    None => DataSize::QWord,
                };
                self.emit(Opcode::PushAddr.to_byte());
                self.emit(s.to_byte());
                let r = self.emit_address(&**base, offset, span);
                proof {
                    if let Some(a) = address_encoding(**base, *offset) {
                        assert(self.bytecode@.get(cs) =~= start + (seq![Opcode::PushAddr.code(), s.tag()] + a));
                    }
                }
                r
            },
            Expression::IntegerLiteral(_) | Expression::FloatLiteral(_) => {
                let s = match size {
                    Some(s) => s,
                    None => return Err(Error::InvalidOperands { details: "unsupported PUSH operands".to_owned(), span: span }),
                };
                if !s.is_float() && matches!(expr, Expression::FloatLiteral(_)) {
                    return Err(Error::InvalidDataSize(span));
                }
                self.emit(Opcode::PushImm.to_byte());
                self.emit(s.to_byte());
                let r = self.emit_immediate(s, expr, true, fpu, span);
                proof {
                    if let Expression::IntegerLiteral(v) = *expr {
                        if s.is_integer() {
                            assert(self.bytecode@.get(cs) =~= start + (seq![Opcode::PushImm.code(), s.tag()] + int_operand(s, v)));
                        }
                    }
                }
                r
            },
            Expression::Identifier(_) => {
                let s = match size {
                    Some(s) => s,
                    None => DataSize::QWord,
                };
                if s.is_float() {
                    return Err(Error::InvalidDataSize(span));
                }
                self.emit(Opcode::PushImm.to_byte());
                self.emit(s.to_byte());
                let r = self.emit_immediate(s, expr, false, fpu, span);
                assert(self.bytecode@.get(cs) =~= start + seq![Opcode::PushImm.code(), s.tag()] + zeros(s));
                r
            },
            _ => Err(Error::InvalidOperands { details: "unsupported PUSH operands".to_owned(), span: span }),
        }
    }

    fn compile_pop(&mut self, ds: &Option<Expression>, expr: &Expression, span: Span) -> (r: Result<(), Error>)
        requires
            old(self).inv(),
        ensures
            !(r matches Err(Error::UndefinedLabel { .. })),
            final(self).inv(),
            final(self).labels@ == old(self).labels@,
            final(self).current_section == old(self).current_section,
            final(self).entry == old(self).entry,
            fixups_extend(old(self).fixups@, final(self).fixups@),
            ({
                let cs = old(self).current_section;
                pop_encoding(*ds, *expr) matches Some(b) ==> r is Ok
                    && final(self).bytecode@ == old(self).bytecode@.with(cs, old(self).bytecode@.get(cs) + b)
                    && final(self).fixups@ == old(self).fixups@
            }),
    {
        let ghost cs = self.current_section;
        let ghost start = self.bytecode@.get(cs);
        match (ds, expr) {
            (None, Expression::Register(dest)) => {
                let s = dest.data_size();
                self.emit(Opcode::PopReg.to_byte());
                self.emit(s.to_byte());
                self.emit(dest.to_byte());
                assert(self.bytecode@.get(cs) =~= start + seq![Opcode::PopReg.code(), s.tag(), dest.code()]);
                Ok(())
            },
            (Some(Expression::DataSize(size)), Expression::Register(dest)) => {
                self.emit(Opcode::PopReg.to_byte());
                self.emit(size.to_byte());
                self.emit(dest.to_byte());
                assert(self.bytecode@.get(cs) =~= start + seq![Opcode::PopReg.code(), size.tag(), dest.code()]);
                Ok(())
            },
            (Some(Expression::DataSize(size)), Expression::Address(base, offset)) => {
                self.emit(Opcode::PopAddr.to_byte());
                self.emit(size.to_byte());
                let r = self.emit_address(&**base, offset, span);
                proof {
                    if let Some(a) = address_encoding(**base, *offset) {
                        assert(self.bytecode@.get(cs) =~= start + (seq![Opcode::PopAddr.code(), size.tag()] + a));
                    }
                }
                r
            },
            _ => Err(Error::InvalidOperands { details: "unsupported POP operands".to_owned(), span: span }),
        }
    }

    /// Arithmetic (`rr`/`ri` are the register and immediate forms of ADD,
    /// SUB, MUL or DIV).
    #[verifier::rlimit(60)]
    fn compile_arithmetic<F: FloatUnit>(&mut self, dest: &Expression, lhs: &Expression, rhs: &Expression, rr: Opcode, ri: Opcode, fpu: &F, span: Span) -> (r: Result<(), Error>)
        requires
            old(self).inv(),
        ensures
            !(r matches Err(Error::UndefinedLabel { .. })),
            final(self).inv(),
            final(self).labels@ == old(self).labels@,
            final(self).current_section == old(self).current_section,
            final(self).entry == old(self).entry,
            fixups_extend(old(self).fixups@, final(self).fixups@),
            ({
                let cs = old(self).current_section;
                alu_encoding(rr, ri, *dest, *lhs, *rhs, false) matches Some(b) ==> r is Ok
                    && final(self).bytecode@ == old(self).bytecode@.with(cs, old(self).bytecode@.get(cs) + b)
                    && final(self).fixups@ == old(self).fixups@
            }),
    {
        let d = match dest {
            Expression::Register(d) => *d,
            _ => return Err(Error::InvalidOperands { details: "unsupported arithmetic operands".to_owned(), span: span }),
        };
        match (lhs, rhs) {
            (Expression::Register(a), Expression::Register(b)) => {
                self.emit(rr.to_byte());
                self.emit(d.to_byte());
                self.emit(a.to_byte());
                self.emit(b.to_byte());
                proof {
                    let cs = old(self).current_section;
                    assert(self.bytecode@.get(cs) =~= old(self).bytecode@.get(cs) + seq![rr.code(), d.code(), a.code(), b.code()]);
                }
                Ok(())
            },
            (Expression::Register(a), Expression::IntegerLiteral(_)) | (Expression::Register(a), Expression::FloatLiteral(_)) => {
                let size = d.data_size();
                if !size.is_float() && matches!(rhs, Expression::FloatLiteral(_)) {
                    return Err(Error::InvalidDataSize(span));
                }
                let ghost cs = self.current_section;
                let ghost start = self.bytecode@.get(cs);
                self.emit(ri.to_byte());
                self.emit(d.to_byte());
                self.emit(a.to_byte());
                let r = self.emit_immediate(size, rhs, true, fpu, span);
                proof {
                    if let Expression::IntegerLiteral(v) = *rhs {
                        if size.is_integer() {
                            assert(self.bytecode@.get(cs) =~= start + (seq![ri.code(), d.code(), a.code()] + int_operand(size, v)));
                        }
                    }
                }
                r
            },
            _ => Err(Error::InvalidOperands { details: "unsupported arithmetic operands".to_owned(), span: span }),
        }
    }

    /// AND, OR, XOR, SHL or SHR; refused on floating-point operands.
    #[verifier::rlimit(60)]
    fn compile_bitwise<F: FloatUnit>(&mut self, dest: &Expression, lhs: &Expression, rhs: &Expression, rr: Opcode, ri: Opcode, fpu: &F, span: Span) -> (r: Result<(), Error>)
        requires
            old(self).inv(),
        ensures
            !(r matches Err(Error::UndefinedLabel { .. })),
            final(self).inv(),
            final(self).labels@ == old(self).labels@,
            final(self).current_section == old(self).current_section,
            final(self).entry == old(self).entry,
            fixups_extend(old(self).fixups@, final(self).fixups@),
            ({
                let cs = old(self).current_section;
                alu_encoding(rr, ri, *dest, *lhs, *rhs, true) matches Some(b) ==> r is Ok
                    && final(self).bytecode@ == old(self).bytecode@.with(cs, old(self).bytecode@.get(cs) + b)
                    && final(self).fixups@ == old(self).fixups@
            }),
            float_operand(*dest) || float_operand(*lhs) || float_operand(*rhs) ==> (r matches Err(Error::InvalidOperands { span: sp, .. }) && sp == span),
            r is Err ==> final(self).bytecode@ == old(self).bytecode@ && final(self).fixups@ == old(self).fixups@,
    {
        let d = match dest {
            Expression::Register(d) => *d,
            _ => return Err(Error::InvalidOperands { details: "bitwise operations take integer registers and integers".to_owned(), span: span }),
        };
        if d.data_size().is_float() {
            return Err(Error::InvalidOperands { details: "bitwise operations take integer registers and integers".to_owned(), span: span });
        }
        match (lhs, rhs) {
            (Expression::Register(a), Expression::Register(b)) => {
                if a.data_size().is_float() || b.data_size().is_float() {
                    return Err(Error::InvalidOperands { details: "bitwise operations take integer registers and integers".to_owned(), span: span });
                }
                let ghost cs = self.current_section;
                let ghost start = self.bytecode@.get(cs);
                self.emit(rr.to_byte());
                self.emit(d.to_byte());
                self.emit(a.to_byte());
                self.emit(b.to_byte());
                assert(self.bytecode@.get(cs) =~= start + seq![rr.code(), d.code(), a.code(), b.code()]);
                Ok(())
            },
            (Expression::Register(a), Expression::IntegerLiteral(v)) => {
                if a.data_size().is_float() {
                    return Err(Error::InvalidOperands { details: "bitwise operations take integer registers and integers".to_owned(), span: span });
                }
                let ghost cs = self.current_section;
                let ghost start = self.bytecode@.get(cs);
                self.emit(ri.to_byte());
                self.emit(d.to_byte());
                self.emit(a.to_byte());
                self.emit_int(d.data_size(), *v);
                assert(self.bytecode@.get(cs) =~= start + (seq![ri.code(), d.code(), a.code()] + int_operand(d.spec_data_size(), *v)));
                Ok(())
            },
            _ => Err(Error::InvalidOperands { details: "bitwise operations take integer registers and integers".to_owned(), span: span }),
        }
    }

    fn compile_cmp<F: FloatUnit>(&mut self, lhs: &Expression, rhs: &Expression, fpu: &F, span: Span) -> (r: Result<(), Error>)
        requires
            old(self).inv(),
        ensures
            !(r matches Err(Error::UndefinedLabel { .. })),
            final(self).inv(),
            final(self).labels@ == old(self).labels@,
            final(self).current_section == old(self).current_section,
            final(self).entry == old(self).entry,
            fixups_extend(old(self).fixups@, final(self).fixups@),
            ({
                let cs = old(self).current_section;
                plain_encoding(Statement::Cmp(*lhs, *rhs, span)) matches Some(b) ==> r is Ok
                    && final(self).bytecode@ == old(self).bytecode@.with(cs, old(self).bytecode@.get(cs) + b)
                    && final(self).fixups@ == old(self).fixups@
            }),
    {
        let a = match lhs {
            Expression::Register(a) => *a,
            _ => return Err(Error::InvalidOperands { details: "unsupported CMP operands".to_owned(), span: span }),
        };
        match rhs {
            Expression::Register(b) => {
                self.emit(Opcode::CmpRegReg.to_byte());
                self.emit(a.to_byte());
                self.emit(b.to_byte());
                proof {
                    let cs = old(self).current_section;
                    assert(self.bytecode@.get(cs) =~= old(self).bytecode@.get(cs) + seq![Opcode::CmpRegReg.code(), a.code(), b.code()]);
                }
                Ok(())
            },
            Expression::IntegerLiteral(_) | Expression::FloatLiteral(_) => {
                let size = a.data_size();
                if !size.is_float() && matches!(rhs, Expression::FloatLiteral(_)) {
                    return Err(Error::InvalidDataSize(span));
                }
                let ghost cs = self.current_section;
                let ghost start = self.bytecode@.get(cs);
                self.emit(Opcode::CmpRegImm.to_byte());
                self.emit(a.to_byte());
                let r = self.emit_immediate(size, rhs, true, fpu, span);
                proof {
                    if let Expression::IntegerLiteral(v) = *rhs {
                        if size.is_integer() {
                            assert(self.bytecode@.get(cs) =~= start + (seq![Opcode::CmpRegImm.code(), a.code()] + int_operand(size, v)));
                        }
                    }
                }
                r
            },
            _ => Err(Error::InvalidOperands { details: "unsupported CMP operands".to_owned(), span: span }),
        }
    }

    /// A jump or call: `imm` and `reg` are the opcodes of its two forms.
    fn compile_jump(&mut self, expr: &Expression, imm: Opcode, reg: Opcode, span: Span) -> (r: Result<(), Error>)
        requires
            old(self).inv(),
        ensures
            !(r matches Err(Error::UndefinedLabel { .. })),
            final(self).inv(),
            final(self).labels@ == old(self).labels@,
            final(self).current_section == old(self).current_section,
            final(self).entry == old(self).entry,
            fixups_extend(old(self).fixups@, final(self).fixups@),
            ({
                let cs = old(self).current_section;
                jump_encoding(imm, reg, *expr) matches Some(b) ==> r is Ok
                    && final(self).bytecode@ == old(self).bytecode@.with(cs, old(self).bytecode@.get(cs) + b)
                    && final(self).fixups@ == old(self).fixups@
            }),
            ({
                let cs = old(self).current_section;
                jump_label_encoding(imm, *expr) matches Some((p, z, l)) ==> r is Ok
                    && final(self).bytecode@ == old(self).bytecode@.with(cs, old(self).bytecode@.get(cs) + p + zeros(z))
                    && fixup_recorded(old(self).fixups@, final(self).fixups@, cs, (old(self).bytecode@.get(cs).len() + p.len()) as int, z, l)
            }),
    {
        match expr {
            Expression::IntegerLiteral(v) => {
                self.emit(imm.to_byte());
                self.emit_u64(*v as u64);
                proof {
                    let cs = old(self).current_section;
                    assert(self.bytecode@.get(cs) =~= old(self).bytecode@.get(cs) + (seq![imm.code()] + spec_u64_to_le_bytes(*v as u64)));
                }
                Ok(())
            },
            Expression::Register(x) => {
                self.emit(reg.to_byte());
                self.emit(x.to_byte());
                proof {
                    let cs = old(self).current_section;
                    assert(self.bytecode@.get(cs) =~= old(self).bytecode@.get(cs) + seq![reg.code(), x.code()]);
                }
                Ok(())
            },
            Expression::Identifier(name) => {
                let ghost cs = self.current_section;
                let ghost start = self.bytecode@.get(cs);
                self.emit(imm.to_byte());
                self.emit_fixup(DataSize::QWord, name, span);
                assert(self.bytecode@.get(cs) =~= start + seq![imm.code()] + zeros(DataSize::QWord));
                Ok(())
            },
            _ => Err(Error::InvalidOperands { details: "unsupported jump or call target".to_owned(), span: span }),
        }
    }

    fn compile_inc_or_dec(&mut self, expr: &Expression, opcode: Opcode, span: Span) -> (r: Result<(), Error>)
        requires
            old(self).inv(),
        ensures
            !(r matches Err(Error::UndefinedLabel { .. })),
            final(self).inv(),
            final(self).labels@ == old(self).labels@,
            final(self).current_section == old(self).current_section,
            final(self).entry == old(self).entry,
            fixups_extend(old(self).fixups@, final(self).fixups@),
            ({
                let cs = old(self).current_section;
                *expr matches Expression::Register(x) ==> r is Ok
                    && final(self).bytecode@ == old(self).bytecode@.with(cs, old(self).bytecode@.get(cs) + seq![opcode.code(), x.code()])
                    && final(self).fixups@ == old(self).fixups@
            }),
    {
        match expr {
            Expression::Register(x) => {
                self.emit(opcode.to_byte());
                self.emit(x.to_byte());
                proof {
                    let cs = old(self).current_section;
                    assert(self.bytecode@.get(cs) =~= old(self).bytecode@.get(cs) + seq![opcode.code(), x.code()]);
                }
                Ok(())
            },
            _ => Err(Error::InvalidOperands { details: "INC and DEC take a register".to_owned(), span: span }),
        }
    }

    /// Assembles one statement into the current section.
    pub fn compile_statement<F: FloatUnit>(&mut self, stmt: &Statement, fpu: &F) -> (r: Result<(), Error>)
        requires
            old(self).inv(),
        ensures
            final(self).inv(),
            compiles(old(self).model(), *stmt, final(self).model(), r),
    {
        match stmt {
            Statement::Section(t, _) => {
                self.current_section = match t {
                    SectionType::Text => Section::Text,
                    SectionType::Data => Section::Data,
                };
                Ok(())
            },
            Statement::Entry(e, span) => match e {
                Expression::IntegerLiteral(v) => {
                    self.entry = Entry::Address(#[verifier::truncate] (*v as u64));
                    Ok(())
                },
                Expression::Identifier(name) => {
                    self.entry = Entry::Fixup(name.clone(), *span);
                    Ok(())
                },
                _ => Err(Error::InvalidOperands { details: "unsupported directive operand".to_owned(), span: *span }),
            },
            Statement::Ascii(e, span) | Statement::Asciz(e, span) => match e {
                Expression::StringLiteral(text) => {
                    self.emit_bytes(text.as_str().as_bytes());
                    if matches!(stmt, Statement::Asciz(_, _)) {
                        self.emit(0);
                    }
                    Ok(())
                },
                _ => Err(Error::InvalidOperands { details: "unsupported directive operand".to_owned(), span: *span }),
            },
            Statement::Label(name, span) => {
                if self.lookup(name).is_some() {
                    return Err(Error::DuplicateLabel { label: name.clone(), span: *span });
                }
                let offset = self.bytecode.len(self.current_section);
                self.labels.push(LabelDef { name: name.clone(), section: self.current_section, offset });
                proof {
                    assert(self.labels@.drop_last() =~= old(self).labels@);
                }
                Ok(())
            },
            Statement::Nop(_) => {
                self.emit(Opcode::Nop.to_byte());
                proof {
                    let cs = old(self).current_section;
                    assert(self.bytecode@.get(cs) =~= old(self).bytecode@.get(cs) + seq![Opcode::Nop.code()]);
                }
                Ok(())
            },
            Statement::Ret(_) => {
                self.emit(Opcode::Ret.to_byte());
                proof {
                    let cs = old(self).current_section;
                    assert(self.bytecode@.get(cs) =~= old(self).bytecode@.get(cs) + seq![Opcode::Ret.code()]);
                }
                Ok(())
            },
            Statement::Syscall(_) => {
                self.emit(Opcode::Syscall.to_byte());
                proof {
                    let cs = old(self).current_section;
                    assert(self.bytecode@.get(cs) =~= old(self).bytecode@.get(cs) + seq![Opcode::Syscall.code()]);
                }
                Ok(())
            },
            Statement::Hlt(_) => {
                self.emit(Opcode::Hlt.to_byte());
                proof {
                    let cs = old(self).current_section;
                    assert(self.bytecode@.get(cs) =~= old(self).bytecode@.get(cs) + seq![Opcode::Hlt.code()]);
                }
                Ok(())
            },
            Statement::Mov(a, b, span) => self.compile_mov(a, b, fpu, *span),
            Statement::Ldr(a, b, span) => self.compile_ldr_or_str(a, b, Opcode::Ldr, *span),
            Statement::Str(a, b, span) => self.compile_ldr_or_str(a, b, Opcode::Str, *span),
            Statement::Push(ds, e, span) => self.compile_push(ds, e, fpu, *span),
            Statement::Pop(ds, e, span) => self.compile_pop(ds, e, *span),
            Statement::Add(d, a, b, span) => self.compile_arithmetic(d, a, b, Opcode::AddRegRegReg, Opcode::AddRegRegImm, fpu, *span),
            Statement::Sub(d, a, b, span) => self.compile_arithmetic(d, a, b, Opcode::SubRegRegReg, Opcode::SubRegRegImm, fpu, *span),
            Statement::Mul(d, a, b, span) => self.compile_arithmetic(d, a, b, Opcode::MulRegRegReg, Opcode::MulRegRegImm, fpu, *span),
            Statement::Div(d, a, b, span) => self.compile_arithmetic(d, a, b, Opcode::DivRegRegReg, Opcode::DivRegRegImm, fpu, *span),
            Statement::And(d, a, b, span) => self.compile_bitwise(d, a, b, Opcode::AndRegRegReg, Opcode::AndRegRegImm, fpu, *span),
            Statement::Or(d, a, b, span) => self.compile_bitwise(d, a, b, Opcode::OrRegRegReg, Opcode::OrRegRegImm, fpu, *span),
            Statement::Xor(d, a, b, span) => self.compile_bitwise(d, a, b, Opcode::XorRegRegReg, Opcode::XorRegRegImm, fpu, *span),
            Statement::Shl(d, a, b, span) => self.compile_bitwise(d, a, b, Opcode::ShlRegRegReg, Opcode::ShlRegRegImm, fpu, *span),
            Statement::Shr(d, a, b, span) => self.compile_bitwise(d, a, b, Opcode::ShrRegRegReg, Opcode::ShrRegRegImm, fpu, *span),
            Statement::Cmp(a, b, span) => self.compile_cmp(a, b, fpu, *span),
            Statement::Jmp(e, span) => self.compile_jump(e, Opcode::JmpImm, Opcode::JmpReg, *span),
            Statement::Jeq(e, span) => self.compile_jump(e, Opcode::JeqImm, Opcode::JeqReg, *span),
            Statement::Jne(e, span) => self.compile_jump(e, Opcode::JneImm, Opcode::JneReg, *span),
            Statement::Jlt(e, span) => self.compile_jump(e, Opcode::JltImm, Opcode::JltReg, *span),
            Statement::Jgt(e, span) => self.compile_jump(e, Opcode::JgtImm, Opcode::JgtReg, *span),
            Statement::Jle(e, span) => self.compile_jump(e, Opcode::JleImm, Opcode::JleReg, *span),
            Statement::Jge(e, span) => self.compile_jump(e, Opcode::JgeImm, Opcode::JgeReg, *span),
            Statement::Call(e, span) => self.compile_jump(e, Opcode::CallImm, Opcode::CallReg, *span),
            Statement::Inc(e, span) => self.compile_inc_or_dec(e, Opcode::Inc, *span),
            Statement::Dec(e, span) => self.compile_inc_or_dec(e, Opcode::Dec, *span),
            Statement::Db(exprs, span) => self.compile_db(exprs, *span),
            Statement::Resb(e, span) => self.compile_resb(e, *span),
            _ => Err(Error::UnsupportedOperation(stmt.span())),
        }
    }

    /// Writes each label's absolute address into the sites that refer to it.
    fn resolve_fixups(&mut self) -> (r: Result<(), Error>)
        requires
            old(self).inv(),
        ensures
            final(self).inv(),
            final(self).labels@ == old(self).labels@,
            final(self).fixups@ == old(self).fixups@,
            final(self).entry == old(self).entry,
            fixups_extend(old(self).fixups@, final(self).fixups@),
            final(self).bytecode@.text.len() == old(self).bytecode@.text.len(),
            final(self).bytecode@.data.len() == old(self).bytecode@.data.len(),
            old(self).fixups@.len() == 0 ==> r is Ok && final(self).bytecode@ == old(self).bytecode@,
            r is Ok ==> forall|i: int| 0 <= i < old(self).fixups@.len() ==> find_label(
                old(self).labels@,
                #[trigger] old(self).fixups@[i].label@,
            ) is Some,
            r matches Err(Error::UndefinedLabel { label, span }) ==> exists|i: int|
                0 <= i < old(self).fixups@.len() && #[trigger] old(self).fixups@[i].label@ == label@
                    && find_label(old(self).labels@, label@) is None,
            r is Ok ==> forall|i: int| 0 <= i < final(self).fixups@.len() ==> fixup_patched(
                #[trigger] final(self).fixups@[i],
                final(self).labels@,
                final(self).bytecode@,
            ),
    {
        let n = self.fixups.len();
        let mut i: usize = 0;
        while i < n
            invariant
                self.inv(),
                n == self.fixups@.len(),
                0 <= i <= n,
                self.labels@ == old(self).labels@,
                self.fixups@ == old(self).fixups@,
                self.entry == old(self).entry,
                self.bytecode@.text.len() == old(self).bytecode@.text.len(),
                self.bytecode@.data.len() == old(self).bytecode@.data.len(),
                forall|k: int| 0 <= k < i ==> find_label(self.labels@, #[trigger] self.fixups@[k].label@) is Some,
                forall|k: int| 0 <= k < i ==> fixup_patched(#[trigger] self.fixups@[k], self.labels@, self.bytecode@),
                i == 0 ==> self.bytecode@ == old(self).bytecode@,
            decreases n - i,
        {
            let section = self.fixups[i].section;
            let offset = self.fixups[i].offset;
            let size = self.fixups[i].size;
            let found = self.lookup(&self.fixups[i].label);
            let (label_section, label_offset) = match found {
                Some(p) => p,
                None => {
                    let f = &self.fixups[i];
                    return Err(Error::UndefinedLabel { label: f.label.clone(), span: f.span });
                },
            };
            let text_len = self.bytecode.len(Section::Text);
            let addr: usize = match label_section {
                Section::Text => label_offset,
                Section::Data => {
                    if label_offset > usize::MAX - text_len {
                        return Err(Error::FixupFailure(self.fixups[i].span));
                    }
                    text_len + label_offset
                },
            };
            let ghost before = self.bytecode@;
            let patch = Immediate::int_of(size, addr as u64).to_le_bytes();
            self.bytecode.write_at(section, offset, &patch);
            proof {
                assert forall|k: int| 0 <= k <= i implies fixup_patched(#[trigger] self.fixups@[k], self.labels@, self.bytecode@) by {
                    let f = self.fixups@[k];
                    if k < i {
                        assert(fixup_patched(f, self.labels@, before));
                        if f.section == section {
                            assert(f.offset + f.size.bytes() <= offset);
                        }
                        assert(self.bytecode@.get(f.section).subrange(f.offset as int, f.offset + f.size.bytes())
                            =~= before.get(f.section).subrange(f.offset as int, f.offset + f.size.bytes()));
                    } else {
                        assert(self.bytecode@.get(f.section).subrange(f.offset as int, f.offset + f.size.bytes())
                            =~= patch@);
                    }
                }
            }
            i = i + 1;
        }
        Ok(())
    }

    /// `DB`: integers emit their low byte, strings their UTF-8 bytes.
    fn compile_db(&mut self, exprs: &Vec<Expression>, span: Span) -> (r: Result<(), Error>)
        requires
            old(self).inv(),
        ensures
            !(r matches Err(Error::UndefinedLabel { .. })),
            final(self).inv(),
            final(self).labels@ == old(self).labels@,
            final(self).fixups@ == old(self).fixups@,
            final(self).entry == old(self).entry,
            final(self).current_section == old(self).current_section,
            ({
                let cs = old(self).current_section;
                db_bytes(exprs@) matches Some(b) ==> r is Ok && final(self).bytecode@ == old(self).bytecode@.with(
                    cs,
                    old(self).bytecode@.get(cs) + b,
                )
            }),
            (exists|i: int| 0 <= i < exprs@.len() && !(#[trigger] exprs@[i] is IntegerLiteral || exprs@[i] is StringLiteral))
                ==> r == Err::<(), Error>(Error::InvalidExpression(span)),
    {
        let mut k: usize = 0;
        let ghost cs = self.current_section;
        let ghost start = self.bytecode@.get(cs);
        assert(exprs@.subrange(0, 0) =~= Seq::<Expression>::empty());
        proof {
            if db_bytes(exprs@) is Some {
                lemma_db_bytes_prefix(exprs@, 0);
            }
        }
        while k < exprs.len()
            invariant
                self.inv(),
                0 <= k <= exprs@.len(),
                cs == old(self).current_section,
                start == old(self).bytecode@.get(cs),
                self.labels@ == old(self).labels@,
                self.fixups@ == old(self).fixups@,
                self.entry == old(self).entry,
                self.current_section == old(self).current_section,
                forall|i: int| 0 <= i < k ==> (#[trigger] exprs@[i] is IntegerLiteral || exprs@[i] is StringLiteral),
                db_bytes(exprs@.subrange(0, k as int)) matches Some(b) ==> self.bytecode@ == old(self).bytecode@.with(
                    cs,
                    start + b,
                ),
            decreases exprs@.len() - k,
        {
            proof {
                assert(exprs@.subrange(0, k + 1).drop_last() =~= exprs@.subrange(0, k as int));
                assert(exprs@.subrange(0, k + 1).last() == exprs@[k as int]);
            }
            match &exprs[k] {
                Expression::IntegerLiteral(v) => {
                    self.emit(#[verifier::truncate] (*v as u8));
                    proof {
                        if let Some(b) = db_bytes(exprs@.subrange(0, k as int)) {
                            assert(self.bytecode@.get(cs) =~= start + b.push(*v as u8));
                        }
                    }
                },
                Expression::StringLiteral(text) => {
                    self.emit_bytes(text.as_str().as_bytes());
                    proof {
                        if db_bytes(exprs@) is Some {
                            lemma_db_bytes_prefix(exprs@, 0);
                        }
                    }
                },
                _ => {
                    proof {
                        assert forall|i: int| 0 <= i < exprs@.len() && !(#[trigger] exprs@[i] is IntegerLiteral || exprs@[i] is StringLiteral) implies i >= k by {}
                        if db_bytes(exprs@) is Some {
                            lemma_db_bytes_prefix(exprs@, 0);
                        }
                    }
                    return Err(Error::InvalidExpression(span));
                },
            }
            k = k + 1;
        }
        assert(exprs@.subrange(0, k as int) =~= exprs@);
        Ok(())
    }

    /// `RESB n`: `n` zero bytes.
    fn compile_resb(&mut self, e: &Expression, span: Span) -> (r: Result<(), Error>)
        requires
            old(self).inv(),
        ensures
            !(r matches Err(Error::UndefinedLabel { .. })),
            final(self).inv(),
            final(self).labels@ == old(self).labels@,
            final(self).fixups@ == old(self).fixups@,
            final(self).entry == old(self).entry,
            final(self).current_section == old(self).current_section,
            ({
                let cs = old(self).current_section;
                *e matches Expression::IntegerLiteral(n) ==> n >= 0 ==> r is Ok && final(self).bytecode@
                    == old(self).bytecode@.with(cs, old(self).bytecode@.get(cs) + Seq::new(n as nat, |i: int| 0u8))
            }),
            *e matches Expression::IntegerLiteral(n) ==> n < 0 ==> r == Err::<(), Error>(Error::InvalidExpression(span)),
            !(*e is IntegerLiteral) ==> r == Err::<(), Error>(Error::InvalidExpression(span)),
    {
        match e {
            Expression::IntegerLiteral(n) => {
                if *n < 0 {
                    return Err(Error::InvalidExpression(span));
                }
                let ghost cs = self.current_section;
                let mut k: i64 = 0;
                while k < *n
                    invariant
                        self.inv(),
                        0 <= k <= *n,
                        self.labels@ == old(self).labels@,
                        self.fixups@ == old(self).fixups@,
                        self.entry == old(self).entry,
                        self.current_section == cs,
                        cs == old(self).current_section,
                        self.bytecode@ == old(self).bytecode@.with(cs, old(self).bytecode@.get(cs) + Seq::new(k as nat, |i: int| 0u8)),
                    decreases *n - k,
                {
                    self.emit(0);
                    k = k + 1;
                    assert(self.bytecode@.get(cs) =~= old(self).bytecode@.get(cs) + Seq::new(k as nat, |i: int| 0u8));
                    assert(self.bytecode@ =~= old(self).bytecode@.with(cs, old(self).bytecode@.get(cs) + Seq::new(k as nat, |i: int| 0u8)));
                }
                Ok(())
            },
            _ => Err(Error::InvalidExpression(span)),
        }
    }

    /// Assembles the whole program: every statement in order, then every
    /// fixup patched with its label's absolute address. The image is the
    /// entry point (8 bytes, little-endian), the text section, then the data
    /// section.
    pub fn compile<F: FloatUnit>(&mut self, fpu: &F) -> (r: Result<Vec<u8>, Error>)
        requires
            old(self).inv(),
        ensures
            final(self).inv(),
            r is Ok ==> exists|trace: Seq<CompilerModel>| #[trigger] assembled(old(self).program@, trace) && trace[0]
                == old(self).model() && trace.last().labels == final(self).labels@ && trace.last().fixups
                == final(self).fixups@ && trace.last().entry == final(self).entry && trace.last().sections.text.len()
                == final(self).bytecode@.text.len() && trace.last().sections.data.len() == final(self).bytecode@.data.len(),
            r matches Err(Error::UndefinedLabel { label, .. }) ==> find_label(final(self).labels@, label@) is None && (
            (exists|i: int| 0 <= i < final(self).fixups@.len() && (#[trigger] final(self).fixups@[i]).label@ == label@)
                || (final(self).entry matches Entry::Fixup(n, _) && n@ == label@)),
            r matches Ok(img) ==> {
                &&& img@.len() >= 8
                &&& crate::vm::image_entry(img@) < img@.len() - 8
                &&& crate::vm::image_body(img@) == final(self).bytecode@.text + final(self).bytecode@.data
                &&& entry_address(final(self).entry, final(self).labels@, final(self).bytecode@) == Some(
                    crate::vm::image_entry(img@),
                )
                &&& forall|i: int| 0 <= i < final(self).fixups@.len() ==> fixup_patched(
                    #[trigger] final(self).fixups@[i],
                    final(self).labels@,
                    final(self).bytecode@,
                )
            },
            ({
                let fresh = old(self).bytecode@.text.len() == 0 && old(self).bytecode@.data.len() == 0
                    && old(self).current_section == Section::Text && old(self).entry == Entry::Address(0)
                    && old(self).fixups@.len() == 0;
                fresh ==> (plain_program(old(self).program@) matches Some(body) ==> (body.len() > 0 ==> (r matches Ok(img)
                    && img@ == spec_u64_to_le_bytes(0) + body)))
            }),
    {
        let mut program: Vec<Statement> = Vec::new();
        core::mem::swap(&mut program, &mut self.program);
        let ghost fresh = self.bytecode@.text.len() == 0 && self.bytecode@.data.len() == 0
            && self.current_section == Section::Text && self.entry == Entry::Address(0) && self.fixups@.len() == 0;
        let ghost plain = plain_program(program@) is Some;
        let ghost m0 = self.model();
        let ghost mut trace: Seq<CompilerModel> = seq![m0];
        let mut i: usize = 0;
        assert(program@.subrange(0, 0) =~= Seq::<Statement>::empty());
        while i < program.len()
            invariant
                self.inv(),
                0 <= i <= program@.len(),
                program@ == old(self).program@,
                plain == (plain_program(program@) is Some),
                fresh == (old(self).bytecode@.text.len() == 0 && old(self).bytecode@.data.len() == 0
                    && old(self).current_section == Section::Text && old(self).entry == Entry::Address(0)
                    && old(self).fixups@.len() == 0),
                m0 == old(self).model(),
                trace[0] == m0,
                trace.last() == self.model(),
                assembled(program@.subrange(0, i as int), trace),
                fresh && plain ==> {
                    &&& plain_program(program@.subrange(0, i as int)) matches Some(p) && self.bytecode@.text == p
                    &&& self.bytecode@.data.len() == 0
                    &&& self.current_section == Section::Text
                    &&& self.entry == Entry::Address(0)
                    &&& self.fixups@.len() == 0
                },
            decreases program@.len() - i,
        {
            proof {
                if fresh && plain {
                    lemma_plain_prefix(program@, i as int + 1);
                    assert(program@.subrange(0, i as int + 1).drop_last() =~= program@.subrange(0, i as int));
                    assert(program@.subrange(0, i as int + 1).last() == program@[i as int]);
                    assert(plain_encoding(program@[i as int]) is Some);
                }
            }
            let ghost before = self.model();
            self.compile_statement(&program[i], fpu)?;
            proof {
                let t2 = trace.push(self.model());
                let p2 = program@.subrange(0, i as int + 1);
                assert forall|j: int| 0 <= j < p2.len() implies compiles(t2[j], #[trigger] p2[j], t2[j + 1], Ok(())) by {
                    if j < i {
                        assert(p2[j] == program@.subrange(0, i as int)[j]);
                        assert(t2[j] == trace[j] && t2[j + 1] == trace[j + 1]);
                    } else {
                        assert(p2[j] == program@[i as int]);
                    }
                }
                trace = t2;
            }
            i = i + 1;
        }
        assert(program@.subrange(0, i as int) =~= program@);
        self.resolve_fixups()?;
        let entry: u64 = match &self.entry {
            Entry::Address(a) => *a,
            Entry::Fixup(name, span) => {
                let (section, offset) = match self.lookup(name) {
                    Some(p) => p,
                    None => return Err(Error::UndefinedLabel { label: name.clone(), span: *span }),
                };
                match section {
                    Section::Text => offset as u64,
                    Section::Data => {
                        let text_len = self.bytecode.len(Section::Text) as u64;
                        if offset as u64 > u64::MAX - text_len {
                            return Err(Error::FixupFailure(*span));
                        }
                        text_len + offset as u64
                    },
                }
            },
        };
        let text_len = self.bytecode.len(Section::Text) as u64;
        let data_len = self.bytecode.len(Section::Data) as u64;
        if data_len > u64::MAX - text_len || entry >= text_len + data_len {
            return Err(Error::InvalidEntryPoint { entry, body_len: text_len.wrapping_add(data_len) });
        }
        let mut image = u64_to_le_bytes(entry);
        let body = self.bytecode.finalize();
        let ghost header = image@;
        crate::immediate::append_bytes(&mut image, body.as_slice());
        proof {
            lemma_auto_spec_u64_to_from_le_bytes();
            assert(image@.subrange(0, 8) =~= header);
            assert(crate::vm::image_body(image@) =~= body@);
            if fresh && plain {
                assert(body@ =~= self.bytecode@.text);
            }
        }
        Ok(image)
    }
}

/// An assembled image is at least its 8-byte header long; its header names
/// an entry point inside the code body whenever the program's entry point
/// lies inside the body.
pub proof fn lemma_image_shape(img: Seq<u8>, sections: Sections, entry: u64)
    requires
        img.len() >= 8,
        crate::vm::image_body(img) == sections.text + sections.data,
        crate::vm::image_entry(img) == entry,
        entry < sections.text.len() + sections.data.len(),
    ensures
        img.len() >= 8,
        crate::vm::image_entry(img) < img.len() - 8,
{
    assert(crate::vm::image_body(img).len() == img.len() - 8);
}

/// In the image, the site of a patched fixup holds the absolute address of
/// its label, and reading it back at the site's width gives that address.
pub proof fn lemma_fixup_site(sections: Sections, labels: Seq<LabelDef>, f: Fixup)
    requires
        fixup_patched(f, labels, sections),
        f.offset + f.size.bytes() <= sections.get(f.section).len(),
    ensures
        ({
            let a = label_address(labels, sections, f.label@)->Some_0;
            let body = sections.text + sections.data;
            let at = absolute(sections, f.section, f.offset as int);
            &&& body.subrange(at, at + f.size.bytes()) == patch_bytes(f.size, a)
            &&& Immediate::from_le(body.subrange(at, at + f.size.bytes()), f.size) == Immediate::of_raw(
                f.size,
                a as u64,
            )
        }),
{
    let body = sections.text + sections.data;
    let at = absolute(sections, f.section, f.offset as int);
    let n = f.size.bytes();
    assert(body.subrange(at, at + n) =~= sections.get(f.section).subrange(f.offset as int, f.offset + n));
    let a = label_address(labels, sections, f.label@)->Some_0;
    crate::immediate::lemma_le_round_trip(Immediate::of_raw(f.size, a as u64));
}

} // verus!
