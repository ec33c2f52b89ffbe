use vstd::prelude::*;

use crate::ast::{BinaryOperator, Expression, Statement};
use crate::float::{FloatOp, FloatUnit};
use crate::span::Span;

verus! {

/// Errors found while preprocessing.
#[derive(Debug, PartialEq)]
pub enum Error {
    IncludeFileNotFound { file: String, span: Span },
    CircularInclude { file: String, span: Span },
    IncludeReadError { file: String, span: Span },
    IncludeParseError { file: String, message: String, span: Span },
    IncludeTooDeep { file: String, span: Span },
    UnmatchedIfdef(Span),
    UnmatchedIfndef(Span),
    UnmatchedElse(Span),
    UnmatchedEndif(Span),
    InvalidDefineKey(Span),
    InvalidIncludePath(Span),
    InvalidConditionalExpr(Span),
    InvalidOperatorForFloat { op: BinaryOperator, span: Span },
    DivisionByZero(Span),
    DefinitionTooDeep(Span),
    UserError { message: String, span: Span },
}

impl Error {
    /// A human-readable description of the error.
    pub fn message(&self) -> (r: String)
        ensures
            self matches Error::UserError { message, .. } ==> r@ == message@,
    {
        match self {
            Error::UserError { message, .. } => message.clone(),
            Error::IncludeFileNotFound { .. } => "include file not found".to_owned(),
            Error::CircularInclude { .. } => "circular include detected".to_owned(),
            Error::IncludeReadError { .. } => "failed to read include file".to_owned(),
            Error::IncludeParseError { message, .. } => message.clone(),
            Error::IncludeTooDeep { .. } => "includes nested too deeply".to_owned(),
            Error::UnmatchedIfdef(_) => "unmatched #ifdef directive".to_owned(),
            Error::UnmatchedIfndef(_) => "unmatched #ifndef directive".to_owned(),
            Error::UnmatchedElse(_) => "unmatched #else directive".to_owned(),
            Error::UnmatchedEndif(_) => "unmatched #endif directive".to_owned(),
            Error::InvalidDefineKey(_) => "invalid define key: expected identifier".to_owned(),
            Error::InvalidIncludePath(_) => "invalid include path: expected string literal".to_owned(),
            Error::InvalidConditionalExpr(_) => "invalid conditional expression: expected identifier".to_owned(),
            Error::InvalidOperatorForFloat { .. } => "invalid operator applied to float literals".to_owned(),
            Error::DivisionByZero(_) => "division by zero in constant expression".to_owned(),
            Error::DefinitionTooDeep(_) => "definitions nested too deeply".to_owned(),
        }
    }
}

/// Why an included file could not be turned into statements.
pub enum LoadFailure {
    Unreadable,
    Malformed(String),
}

/// Finds and reads included files for the preprocessor.
///
/// The library does the include bookkeeping (search order, cycle detection,
/// definitions flowing in and out); the host finds files and parses them.
pub trait IncludeLoader {
    /// The path of `file` under the directory `dir`, if such a file exists.
    fn locate(&self, dir: &String, file: &String) -> Option<String>;

    /// The statements of the file at `path`.
    fn load(&self, path: &String) -> Result<Vec<Statement>, LoadFailure>;
}

/// The kind of an open conditional block.
#[derive(Debug, Clone, Copy, PartialEq, Eq, Structural)]
pub enum ConditionalType {
    IfDef,
    IfNDef,
}

/// An open `#ifdef` / `#ifndef` block.
#[derive(Debug, Clone, Copy, PartialEq, Eq, Structural)]
pub struct ConditionalInfo {
    pub condition_result: bool,
    pub seen_else: bool,
    pub conditional_type: ConditionalType,
    pub span: Span,
}

/// Whether a block lets statements through: before its `#else` when its
/// condition holds, after it when the condition fails.
pub open spec fn frame_admits(f: ConditionalInfo) -> bool {
    if f.seen_else {
        !f.condition_result
    } else {
        f.condition_result
    }
}

/// Whether every open block lets statements through.
pub open spec fn stack_admits(stack: Seq<ConditionalInfo>) -> bool {
    forall|i: int| 0 <= i < stack.len() ==> frame_admits(#[trigger] stack[i])
}

/// Whether `name` has a definition.
pub open spec fn is_defined(defs: Seq<(String, Expression)>, name: Seq<char>) -> bool {
    exists|i: int| 0 <= i < defs.len() && (#[trigger] defs[i]).0@ == name
}

/// The state of the conditional pass after one more statement: the new
/// stack and whether the statement is emitted.
pub open spec fn cond_step(
    defs: Seq<(String, Expression)>,
    stack: Seq<ConditionalInfo>,
    s: Statement,
) -> Result<(Seq<ConditionalInfo>, bool), Error> {
    match s {
        Statement::IfDef(e, span) => match e {
            Expression::Identifier(n) => Ok((stack.push(ConditionalInfo {
                condition_result: is_defined(defs, n@),
                seen_else: false,
                conditional_type: ConditionalType::IfDef,
                span,
            }), false)),
            _ => Err(Error::InvalidConditionalExpr(span)),
        },
        Statement::IfNDef(e, span) => match e {
            Expression::Identifier(n) => Ok((stack.push(ConditionalInfo {
                condition_result: !is_defined(defs, n@),
                seen_else: false,
                conditional_type: ConditionalType::IfNDef,
                span,
            }), false)),
            _ => Err(Error::InvalidConditionalExpr(span)),
        },
        Statement::Else(span) => if stack.len() == 0 || stack.last().seen_else {
            Err(Error::UnmatchedElse(span))
        } else {
            Ok((stack.update(stack.len() - 1, ConditionalInfo { seen_else: true, ..stack.last() }), false))
        },
        Statement::EndIf(span) => if stack.len() == 0 {
            Err(Error::UnmatchedEndif(span))
        } else {
            Ok((stack.drop_last(), false))
        },
        _ => Ok((stack, stack_admits(stack))),
    }
}

/// The conditional pass over `stmts`: the stack left open at the end and,
/// for each statement, whether it is emitted.
pub open spec fn cond_scan(defs: Seq<(String, Expression)>, stmts: Seq<Statement>) -> Result<
    (Seq<ConditionalInfo>, Seq<bool>),
    Error,
>
    decreases stmts.len(),
{
    if stmts.len() == 0 {
        Ok((Seq::empty(), Seq::empty()))
    } else {
        match cond_scan(defs, stmts.drop_last()) {
            Ok((stack, emitted)) => match cond_step(defs, stack, stmts.last()) {
                Ok((next, e)) => Ok((next, emitted.push(e))),
                Err(err) => Err(err),
            },
            Err(err) => Err(err),
        }
    }
}

/// The error for a block left open at the end of input.
pub open spec fn unmatched(f: ConditionalInfo) -> Error {
    match f.conditional_type {
        ConditionalType::IfDef => Error::UnmatchedIfdef(f.span),
        ConditionalType::IfNDef => Error::UnmatchedIfndef(f.span),
    }
}

/// The statements of `stmts` whose flag in `emitted` is set, in order.
pub open spec fn select(stmts: Seq<Statement>, emitted: Seq<bool>) -> Seq<Statement>
    decreases stmts.len(),
{
    if stmts.len() == 0 || emitted.len() == 0 {
        Seq::empty()
    } else if emitted.last() {
        select(stmts.drop_last(), emitted.drop_last()).push(stmts.last())
    } else {
        select(stmts.drop_last(), emitted.drop_last())
    }
}

/// The outcome of conditional compilation on `stmts`. A block left open at
/// the end is reported by its outermost (first opened) frame.
pub open spec fn spec_conditionals(defs: Seq<(String, Expression)>, stmts: Seq<Statement>) -> Result<
    Seq<Statement>,
    Error,
> {
    match cond_scan(defs, stmts) {
        Ok((stack, emitted)) => if stack.len() > 0 {
            Err(unmatched(stack[0]))
        } else {
            Ok(select(stmts, emitted))
        },
        Err(e) => Err(e),
    }
}

/// Division truncating toward zero.
pub open spec fn trunc_div(l: int, r: int) -> int {
    let q = (if l < 0 { -l } else { l }) / (if r < 0 { -r } else { r });
    if (l < 0) != (r < 0) {
        -q
    } else {
        q
    }
}

/// Folds `l op r` on integer literals: wrapping two's-complement arithmetic
/// on 64 bits; `None` on division by zero.
pub open spec fn spec_fold(op: BinaryOperator, l: i64, r: i64) -> Option<i64> {
    match op {
        BinaryOperator::Add => Some(l.wrapping_add(r)),
        BinaryOperator::Sub => Some(l.wrapping_sub(r)),
        BinaryOperator::Mul => Some(l.wrapping_mul(r)),
        BinaryOperator::Div => if r == 0 {
            None
        } else {
            Some(trunc_div(l as int, r as int) as i64)
        },
        BinaryOperator::BitOr => Some(l | r),
        BinaryOperator::BitAnd => Some(l & r),
        BinaryOperator::BitXor => Some(l ^ r),
    }
}

/// Folds two integer literals.
pub fn fold_int(op: BinaryOperator, l: i64, r: i64) -> (res: Option<i64>)
    ensures
        res == spec_fold(op, l, r),
{
    match op {
        BinaryOperator::Add => Some(l.wrapping_add(r)),
        BinaryOperator::Sub => Some(l.wrapping_sub(r)),
        BinaryOperator::Mul => Some(l.wrapping_mul(r)),
        BinaryOperator::Div => {
            if r == 0 {
                return None;
            }
            let ul: u64 = if l < 0 {
                (0i128 - l as i128) as u64
            } else {
                l as u64
            };
            let ur: u64 = if r < 0 {
                (0i128 - r as i128) as u64
            } else {
                r as u64
            };
            let q: i128 = (ul / ur) as i128;
            let signed: i128 = if (l < 0) != (r < 0) {
                0 - q
            } else {
                q
            };
            Some(#[verifier::truncate] (signed as i64))
        },
        BinaryOperator::BitOr => Some(l | r),
        BinaryOperator::BitAnd => Some(l & r),
        BinaryOperator::BitXor => Some(l ^ r),
    }
}

/// A copy of `e`.
pub fn copy_expr(e: &Expression) -> (r: Expression)
    ensures
        r == *e,
    decreases e,
{
    match e {
        Expression::Identifier(n) => Expression::Identifier(n.clone()),
        Expression::Register(reg) => Expression::Register(*reg),
        Expression::IntegerLiteral(v) => Expression::IntegerLiteral(*v),
        Expression::FloatLiteral(v) => Expression::FloatLiteral(*v),
        Expression::StringLiteral(t) => Expression::StringLiteral(t.clone()),
        Expression::DataSize(d) => Expression::DataSize(*d),
        Expression::Address(base, offset) => {
            let b = copy_expr(&**base);
            let o = match offset {
                Some(x) => Some(Box::new(copy_expr(&**x))),
                None => None,
            };
            Expression::Address(Box::new(b), o)
        },
        Expression::BinaryOp(l, op, r, span) => Expression::BinaryOp(
            Box::new(copy_expr(&**l)),
            *op,
            Box::new(copy_expr(&**r)),
            *span,
        ),
    }
}

/// Whether `i` is the first definition of `name`.
pub open spec fn first_definition(defs: Seq<(String, Expression)>, name: Seq<char>, i: int) -> bool {
    &&& 0 <= i < defs.len()
    &&& defs[i].0@ == name
    &&& forall|k: int| 0 <= k < i ==> (#[trigger] defs[k]).0@ != name
}

/// The value `name` is defined as, if it is defined.
pub open spec fn definition_of(defs: Seq<(String, Expression)>, name: Seq<char>) -> Option<Expression> {
    if exists|i: int| first_definition(defs, name, i) {
        Some(defs[choose|i: int| first_definition(defs, name, i)].1)
    } else {
        None
    }
}

/// Folds `a op b` once both sides are substituted; `None` where the
/// floating-point unit decides the result.
pub open spec fn spec_combine(a: Expression, op: BinaryOperator, b: Expression, bspan: Span, span: Span) -> Option<
    Result<Expression, Error>,
> {
    match (a, b) {
        (Expression::IntegerLiteral(x), Expression::IntegerLiteral(y)) => Some(
            match spec_fold(op, x, y) {
                Some(v) => Ok(Expression::IntegerLiteral(v)),
                None => Err(Error::DivisionByZero(span)),
            },
        ),
        (Expression::FloatLiteral(_), Expression::FloatLiteral(_)) => if op is Add || op is Sub || op is Mul
            || op is Div {
            None
        } else {
            Some(Err(Error::InvalidOperatorForFloat { op, span: bspan }))
        },
        _ => Some(Ok(Expression::BinaryOp(Box::new(a), op, Box::new(b), bspan))),
    }
}

/// Substitution of definitions in `e`, with constant folding; `None` where a
/// float operation's result is involved (the floating-point unit decides it).
pub open spec fn spec_subst(defs: Seq<(String, Expression)>, e: Expression, span: Span, depth: nat) -> Option<
    Result<Expression, Error>,
>
    decreases depth, e,
{
    match e {
        Expression::Identifier(n) => match definition_of(defs, n@) {
            Some(v) => if depth == 0 {
                Some(Err(Error::DefinitionTooDeep(span)))
            } else {
                spec_subst(defs, v, span, (depth - 1) as nat)
            },
            None => Some(Ok(e)),
        },
        Expression::Address(base, offset) => match spec_subst(defs, *base, span, depth) {
            Some(Ok(b)) => match offset {
                None => Some(Ok(Expression::Address(Box::new(b), None))),
                Some(x) => match spec_subst(defs, *x, span, depth) {
                    Some(Ok(o)) => Some(Ok(Expression::Address(Box::new(b), Some(Box::new(o))))),
                    other => other,
                },
            },
            other => other,
        },
        Expression::BinaryOp(l, op, rr, bspan) => match spec_subst(defs, *l, span, depth) {
            Some(Ok(a)) => match spec_subst(defs, *rr, span, depth) {
                Some(Ok(b)) => spec_combine(a, op, b, bspan, span),
                other => other,
            },
            other => other,
        },
        _ => Some(Ok(e)),
    }
}

/// A definition-substituted operand (with the expansion bound).
pub open spec fn substituted(defs: Seq<(String, Expression)>, e: Expression, span: Span) -> Option<Result<Expression, Error>> {
    spec_subst(defs, e, span, MAX_EXPANSION_DEPTH as nat)
}

/// Substitution of every operand of a statement; `#error` with a string
/// fails with its message. `None` where the floating-point unit decides a
/// result, for `#error` without a string (whose message is fixed text), and
/// for `DB`, whose operand list is a vector.
#[verifier::opaque]
pub open spec fn spec_subst_stmt(defs: Seq<(String, Expression)>, s: Statement) -> Option<Result<Statement, Error>> {
    match s {
        Statement::Label(n, sp) => Some(Ok(Statement::Label(n, sp))),
        Statement::Section(t, sp) => Some(Ok(Statement::Section(t, sp))),
        Statement::Else(sp) => Some(Ok(Statement::Else(sp))),
        Statement::EndIf(sp) => Some(Ok(Statement::EndIf(sp))),
        Statement::Nop(sp) => Some(Ok(Statement::Nop(sp))),
        Statement::Ret(sp) => Some(Ok(Statement::Ret(sp))),
        Statement::Syscall(sp) => Some(Ok(Statement::Syscall(sp))),
        Statement::Hlt(sp) => Some(Ok(Statement::Hlt(sp))),
        Statement::Entry(a, sp) => match substituted(defs, a, sp) { Some(Ok(x)) => Some(Ok(Statement::Entry(x, sp))), Some(Err(err)) => Some(Err(err)), None => None },
        Statement::Ascii(a, sp) => match substituted(defs, a, sp) { Some(Ok(x)) => Some(Ok(Statement::Ascii(x, sp))), Some(Err(err)) => Some(Err(err)), None => None },
        Statement::Asciz(a, sp) => match substituted(defs, a, sp) { Some(Ok(x)) => Some(Ok(Statement::Asciz(x, sp))), Some(Err(err)) => Some(Err(err)), None => None },
        Statement::Jmp(a, sp) => match substituted(defs, a, sp) { Some(Ok(x)) => Some(Ok(Statement::Jmp(x, sp))), Some(Err(err)) => Some(Err(err)), None => None },
        Statement::Jne(a, sp) => match substituted(defs, a, sp) { Some(Ok(x)) => Some(Ok(Statement::Jne(x, sp))), Some(Err(err)) => Some(Err(err)), None => None },
        Statement::Jeq(a, sp) => match substituted(defs, a, sp) { Some(Ok(x)) => Some(Ok(Statement::Jeq(x, sp))), Some(Err(err)) => Some(Err(err)), None => None },
        Statement::Jlt(a, sp) => match substituted(defs, a, sp) { Some(Ok(x)) => Some(Ok(Statement::Jlt(x, sp))), Some(Err(err)) => Some(Err(err)), None => None },
        Statement::Jgt(a, sp) => match substituted(defs, a, sp) { Some(Ok(x)) => Some(Ok(Statement::Jgt(x, sp))), Some(Err(err)) => Some(Err(err)), None => None },
        Statement::Jle(a, sp) => match substituted(defs, a, sp) { Some(Ok(x)) => Some(Ok(Statement::Jle(x, sp))), Some(Err(err)) => Some(Err(err)), None => None },
        Statement::Jge(a, sp) => match substituted(defs, a, sp) { Some(Ok(x)) => Some(Ok(Statement::Jge(x, sp))), Some(Err(err)) => Some(Err(err)), None => None },
        Statement::Call(a, sp) => match substituted(defs, a, sp) { Some(Ok(x)) => Some(Ok(Statement::Call(x, sp))), Some(Err(err)) => Some(Err(err)), None => None },
        Statement::Inc(a, sp) => match substituted(defs, a, sp) { Some(Ok(x)) => Some(Ok(Statement::Inc(x, sp))), Some(Err(err)) => Some(Err(err)), None => None },
        Statement::Dec(a, sp) => match substituted(defs, a, sp) { Some(Ok(x)) => Some(Ok(Statement::Dec(x, sp))), Some(Err(err)) => Some(Err(err)), None => None },
        Statement::Resb(a, sp) => match substituted(defs, a, sp) { Some(Ok(x)) => Some(Ok(Statement::Resb(x, sp))), Some(Err(err)) => Some(Err(err)), None => None },
        Statement::Include(a, sp) => match substituted(defs, a, sp) { Some(Ok(x)) => Some(Ok(Statement::Include(x, sp))), Some(Err(err)) => Some(Err(err)), None => None },
        Statement::IfDef(a, sp) => match substituted(defs, a, sp) { Some(Ok(x)) => Some(Ok(Statement::IfDef(x, sp))), Some(Err(err)) => Some(Err(err)), None => None },
        Statement::IfNDef(a, sp) => match substituted(defs, a, sp) { Some(Ok(x)) => Some(Ok(Statement::IfNDef(x, sp))), Some(Err(err)) => Some(Err(err)), None => None },
        Statement::Mov(a, b, sp) => match substituted(defs, a, sp) { Some(Ok(x)) => match substituted(defs, b, sp) { Some(Ok(y)) => Some(Ok(Statement::Mov(x, y, sp))), Some(Err(err)) => Some(Err(err)), None => None }, Some(Err(err)) => Some(Err(err)), None => None },
        Statement::Ldr(a, b, sp) => match substituted(defs, a, sp) { Some(Ok(x)) => match substituted(defs, b, sp) { Some(Ok(y)) => Some(Ok(Statement::Ldr(x, y, sp))), Some(Err(err)) => Some(Err(err)), None => None }, Some(Err(err)) => Some(Err(err)), None => None },
        Statement::Str(a, b, sp) => match substituted(defs, a, sp) { Some(Ok(x)) => match substituted(defs, b, sp) { Some(Ok(y)) => Some(Ok(Statement::Str(x, y, sp))), Some(Err(err)) => Some(Err(err)), None => None }, Some(Err(err)) => Some(Err(err)), None => None },
        Statement::Cmp(a, b, sp) => match substituted(defs, a, sp) { Some(Ok(x)) => match substituted(defs, b, sp) { Some(Ok(y)) => Some(Ok(Statement::Cmp(x, y, sp))), Some(Err(err)) => Some(Err(err)), None => None }, Some(Err(err)) => Some(Err(err)), None => None },
        Statement::Define(a, b, sp) => match substituted(defs, a, sp) { Some(Ok(x)) => match substituted(defs, b, sp) { Some(Ok(y)) => Some(Ok(Statement::Define(x, y, sp))), Some(Err(err)) => Some(Err(err)), None => None }, Some(Err(err)) => Some(Err(err)), None => None },
        Statement::Add(a, b, c, sp) => match substituted(defs, a, sp) { Some(Ok(x)) => match substituted(defs, b, sp) { Some(Ok(y)) => match substituted(defs, c, sp) { Some(Ok(w)) => Some(Ok(Statement::Add(x, y, w, sp))), Some(Err(err)) => Some(Err(err)), None => None }, Some(Err(err)) => Some(Err(err)), None => None }, Some(Err(err)) => Some(Err(err)), None => None },
        Statement::Sub(a, b, c, sp) => match substituted(defs, a, sp) { Some(Ok(x)) => match substituted(defs, b, sp) { Some(Ok(y)) => match substituted(defs, c, sp) { Some(Ok(w)) => Some(Ok(Statement::Sub(x, y, w, sp))), Some(Err(err)) => Some(Err(err)), None => None }, Some(Err(err)) => Some(Err(err)), None => None }, Some(Err(err)) => Some(Err(err)), None => None },
        Statement::Mul(a, b, c, sp) => match substituted(defs, a, sp) { Some(Ok(x)) => match substituted(defs, b, sp) { Some(Ok(y)) => match substituted(defs, c, sp) { Some(Ok(w)) => Some(Ok(Statement::Mul(x, y, w, sp))), Some(Err(err)) => Some(Err(err)), None => None }, Some(Err(err)) => Some(Err(err)), None => None }, Some(Err(err)) => Some(Err(err)), None => None },
        Statement::Div(a, b, c, sp) => match substituted(defs, a, sp) { Some(Ok(x)) => match substituted(defs, b, sp) { Some(Ok(y)) => match substituted(defs, c, sp) { Some(Ok(w)) => Some(Ok(Statement::Div(x, y, w, sp))), Some(Err(err)) => Some(Err(err)), None => None }, Some(Err(err)) => Some(Err(err)), None => None }, Some(Err(err)) => Some(Err(err)), None => None },
        Statement::And(a, b, c, sp) => match substituted(defs, a, sp) { Some(Ok(x)) => match substituted(defs, b, sp) { Some(Ok(y)) => match substituted(defs, c, sp) { Some(Ok(w)) => Some(Ok(Statement::And(x, y, w, sp))), Some(Err(err)) => Some(Err(err)), None => None }, Some(Err(err)) => Some(Err(err)), None => None }, Some(Err(err)) => Some(Err(err)), None => None },
        Statement::Or(a, b, c, sp) => match substituted(defs, a, sp) { Some(Ok(x)) => match substituted(defs, b, sp) { Some(Ok(y)) => match substituted(defs, c, sp) { Some(Ok(w)) => Some(Ok(Statement::Or(x, y, w, sp))), Some(Err(err)) => Some(Err(err)), None => None }, Some(Err(err)) => Some(Err(err)), None => None }, Some(Err(err)) => Some(Err(err)), None => None },
        Statement::Xor(a, b, c, sp) => match substituted(defs, a, sp) { Some(Ok(x)) => match substituted(defs, b, sp) { Some(Ok(y)) => match substituted(defs, c, sp) { Some(Ok(w)) => Some(Ok(Statement::Xor(x, y, w, sp))), Some(Err(err)) => Some(Err(err)), None => None }, Some(Err(err)) => Some(Err(err)), None => None }, Some(Err(err)) => Some(Err(err)), None => None },
        Statement::Shl(a, b, c, sp) => match substituted(defs, a, sp) { Some(Ok(x)) => match substituted(defs, b, sp) { Some(Ok(y)) => match substituted(defs, c, sp) { Some(Ok(w)) => Some(Ok(Statement::Shl(x, y, w, sp))), Some(Err(err)) => Some(Err(err)), None => None }, Some(Err(err)) => Some(Err(err)), None => None }, Some(Err(err)) => Some(Err(err)), None => None },
        Statement::Shr(a, b, c, sp) => match substituted(defs, a, sp) { Some(Ok(x)) => match substituted(defs, b, sp) { Some(Ok(y)) => match substituted(defs, c, sp) { Some(Ok(w)) => Some(Ok(Statement::Shr(x, y, w, sp))), Some(Err(err)) => Some(Err(err)), None => None }, Some(Err(err)) => Some(Err(err)), None => None }, Some(Err(err)) => Some(Err(err)), None => None },
        Statement::Push(Some(a), b, sp) => match substituted(defs, a, sp) { Some(Ok(x)) => match substituted(defs, b, sp) { Some(Ok(y)) => Some(Ok(Statement::Push(Some(x), y, sp))), Some(Err(err)) => Some(Err(err)), None => None }, Some(Err(err)) => Some(Err(err)), None => None },
        Statement::Push(None, b, sp) => match substituted(defs, b, sp) { Some(Ok(y)) => Some(Ok(Statement::Push(None, y, sp))), Some(Err(err)) => Some(Err(err)), None => None },
        Statement::Pop(Some(a), b, sp) => match substituted(defs, a, sp) { Some(Ok(x)) => match substituted(defs, b, sp) { Some(Ok(y)) => Some(Ok(Statement::Pop(Some(x), y, sp))), Some(Err(err)) => Some(Err(err)), None => None }, Some(Err(err)) => Some(Err(err)), None => None },
        Statement::Pop(None, b, sp) => match substituted(defs, b, sp) { Some(Ok(y)) => Some(Ok(Statement::Pop(None, y, sp))), Some(Err(err)) => Some(Err(err)), None => None },
        Statement::Db(_, _) => None,
        Statement::Error(Expression::StringLiteral(m), sp) => Some(Err(Error::UserError { message: m, span: sp })),
        Statement::Error(_, _) => None,
    }
}

/// `defs` after `#define name value`: an earlier definition is replaced.
pub open spec fn spec_define(defs: Seq<(String, Expression)>, name: String, value: Expression) -> Seq<
    (String, Expression),
> {
    if exists|i: int| first_definition(defs, name@, i) {
        defs.update(choose|i: int| first_definition(defs, name@, i), (name, value))
    } else {
        defs.push((name, value))
    }
}

/// One statement of the first pass: a definition is recorded (`out` is
/// unchanged), a keyed `#include` of a file is read from outside (`None`),
/// every other statement is kept.
pub open spec fn pass1_step(d: Seq<(String, Expression)>, out: Seq<Statement>, s: Statement) -> Option<
    Result<(Seq<(String, Expression)>, Seq<Statement>), Error>,
> {
    match s {
        Statement::Define(Expression::Identifier(n), v, _) => Some(Ok((spec_define(d, n, v), out))),
        Statement::Define(_, _, sp) => Some(Err(Error::InvalidDefineKey(sp))),
        Statement::Include(Expression::StringLiteral(_), _) => None,
        Statement::Include(_, sp) => Some(Err(Error::InvalidIncludePath(sp))),
        other => Some(Ok((d, out.push(other)))),
    }
}

/// The first pass over `stmts`, from the definitions `defs`.
pub open spec fn spec_pass1(defs: Seq<(String, Expression)>, stmts: Seq<Statement>) -> Option<
    Result<(Seq<(String, Expression)>, Seq<Statement>), Error>,
>
    decreases stmts.len(),
{
    if stmts.len() == 0 {
        Some(Ok((defs, Seq::empty())))
    } else {
        match spec_pass1(defs, stmts.drop_last()) {
            Some(Ok((d, out))) => pass1_step(d, out, stmts.last()),
            other => other,
        }
    }
}

/// One statement of the last pass: leftover directives are dropped, every
/// other statement has its operands substituted.
pub open spec fn pass3_step(defs: Seq<(String, Expression)>, out: Seq<Statement>, s: Statement) -> Option<
    Result<Seq<Statement>, Error>,
> {
    if s is Define || s is Include || s is IfDef || s is IfNDef || s is Else || s is EndIf {
        Some(Ok(out))
    } else {
        match spec_subst_stmt(defs, s) {
            Some(Ok(t)) => Some(Ok(out.push(t))),
            Some(Err(e)) => Some(Err(e)),
            None => None,
        }
    }
}

/// The last pass over `stmts`.
pub open spec fn spec_pass3(defs: Seq<(String, Expression)>, stmts: Seq<Statement>) -> Option<Result<Seq<Statement>, Error>>
    decreases stmts.len(),
{
    if stmts.len() == 0 {
        Some(Ok(Seq::empty()))
    } else {
        match spec_pass3(defs, stmts.drop_last()) {
            Some(Ok(out)) => pass3_step(defs, out, stmts.last()),
            other => other,
        }
    }
}

/// Preprocessing of a program: the first pass, conditional compilation,
/// then substitution. `None` where something read from outside (an included
/// file) or a floating-point result decides the outcome.
pub open spec fn spec_process(defs: Seq<(String, Expression)>, program: Seq<Statement>) -> Option<
    Result<Seq<Statement>, Error>,
> {
    match spec_pass1(defs, program) {
        Some(Ok((d, first))) => match spec_conditionals(d, first) {
            Ok(kept) => spec_pass3(d, kept),
            Err(e) => Some(Err(e)),
        },
        Some(Err(e)) => Some(Err(e)),
        None => None,
    }
}

proof fn lemma_pass1_error_stays(defs: Seq<(String, Expression)>, stmts: Seq<Statement>, k: int)
    requires
        0 <= k <= stmts.len(),
        spec_pass1(defs, stmts.subrange(0, k)) matches Some(Err(_)),
    ensures
        spec_pass1(defs, stmts) == spec_pass1(defs, stmts.subrange(0, k)),
    decreases stmts.len() - k,
{
    if k == stmts.len() {
        assert(stmts.subrange(0, k) =~= stmts);
    } else {
        assert(stmts.subrange(0, k + 1).drop_last() =~= stmts.subrange(0, k));
        lemma_pass1_error_stays(defs, stmts, k + 1);
    }
}

proof fn lemma_pass3_error_stays(defs: Seq<(String, Expression)>, stmts: Seq<Statement>, k: int)
    requires
        0 <= k <= stmts.len(),
        spec_pass3(defs, stmts.subrange(0, k)) matches Some(Err(_)),
    ensures
        spec_pass3(defs, stmts) == spec_pass3(defs, stmts.subrange(0, k)),
    decreases stmts.len() - k,
{
    if k == stmts.len() {
        assert(stmts.subrange(0, k) =~= stmts);
    } else {
        assert(stmts.subrange(0, k + 1).drop_last() =~= stmts.subrange(0, k));
        lemma_pass3_error_stays(defs, stmts, k + 1);
    }
}

proof fn lemma_pass1_none_stays(defs: Seq<(String, Expression)>, stmts: Seq<Statement>, k: int)
    requires
        0 <= k <= stmts.len(),
        spec_pass1(defs, stmts.subrange(0, k)) is None,
    ensures
        spec_pass1(defs, stmts) is None,
    decreases stmts.len() - k,
{
    if k == stmts.len() {
        assert(stmts.subrange(0, k) =~= stmts);
    } else {
        assert(stmts.subrange(0, k + 1).drop_last() =~= stmts.subrange(0, k));
        lemma_pass1_none_stays(defs, stmts, k + 1);
    }
}

proof fn lemma_pass3_none_stays(defs: Seq<(String, Expression)>, stmts: Seq<Statement>, k: int)
    requires
        0 <= k <= stmts.len(),
        spec_pass3(defs, stmts.subrange(0, k)) is None,
    ensures
        spec_pass3(defs, stmts) is None,
    decreases stmts.len() - k,
{
    if k == stmts.len() {
        assert(stmts.subrange(0, k) =~= stmts);
    } else {
        assert(stmts.subrange(0, k + 1).drop_last() =~= stmts.subrange(0, k));
        lemma_pass3_none_stays(defs, stmts, k + 1);
    }
}

/// Whether a statement is a preprocessor directive.
pub open spec fn is_directive(s: Statement) -> bool {
    s is Define || s is Include || s is IfDef || s is IfNDef || s is Else || s is EndIf || s is Error
}

/// Whether a statement opens, switches or closes a conditional block.
pub open spec fn is_conditional(s: Statement) -> bool {
    s is IfDef || s is IfNDef || s is Else || s is EndIf
}

proof fn lemma_select_none(stmts: Seq<Statement>, flags: Seq<bool>)
    requires
        stmts.len() == flags.len(),
        forall|i: int| 0 <= i < flags.len() ==> !flags[i],
    ensures
        select(stmts, flags) == Seq::<Statement>::empty(),
    decreases stmts.len(),
{
    if stmts.len() > 0 {
        lemma_select_none(stmts.drop_last(), flags.drop_last());
    }
}

proof fn lemma_scan_gated(
    defs: Seq<(String, Expression)>,
    head: Statement,
    frame: ConditionalInfo,
    body: Seq<Statement>,
    k: int,
)
    requires
        cond_scan(defs, seq![head]) == Ok::<(Seq<ConditionalInfo>, Seq<bool>), Error>(
            (seq![frame], seq![false]),
        ),
        !frame_admits(frame),
        forall|i: int| 0 <= i < body.len() ==> !is_conditional(#[trigger] body[i]),
        0 <= k <= body.len(),
    ensures
        cond_scan(defs, seq![head] + body.subrange(0, k)) == Ok::<
            (Seq<ConditionalInfo>, Seq<bool>),
            Error,
        >((seq![frame], Seq::new((k + 1) as nat, |i: int| false))),
    decreases k,
{
    if k == 0 {
        assert(seq![head] + body.subrange(0, 0) =~= seq![head]);
        assert(seq![false] =~= Seq::new(1, |i: int| false));
    } else {
        lemma_scan_gated(defs, head, frame, body, k - 1);
        let stmts = seq![head] + body.subrange(0, k);
        assert(stmts.drop_last() =~= seq![head] + body.subrange(0, k - 1));
        assert(stmts.last() == body[k - 1]);
        assert(!stack_admits(seq![frame])) by {
            assert(seq![frame][0] == frame);
        }
        assert(Seq::new(k as nat, |i: int| false).push(false) =~= Seq::new((k + 1) as nat, |i: int| false));
    }
}

/// A block `#ifdef name ... #endif` whose name has no definition lets none of
/// its statements through.
pub proof fn lemma_undefined_ifdef_emits_nothing(
    defs: Seq<(String, Expression)>,
    name: String,
    open_span: Span,
    body: Seq<Statement>,
    close_span: Span,
)
    requires
        !is_defined(defs, name@),
        forall|i: int| 0 <= i < body.len() ==> !is_conditional(#[trigger] body[i]),
    ensures
        spec_conditionals(
            defs,
            seq![Statement::IfDef(Expression::Identifier(name), open_span)] + body + seq![
                Statement::EndIf(close_span),
            ],
        ) == Ok::<Seq<Statement>, Error>(Seq::empty()),
{
    let head = Statement::IfDef(Expression::Identifier(name), open_span);
    let frame = ConditionalInfo {
        condition_result: false,
        seen_else: false,
        conditional_type: ConditionalType::IfDef,
        span: open_span,
    };
    assert(seq![head].drop_last() =~= Seq::<Statement>::empty());
    assert(cond_scan(defs, seq![head]) == Ok::<(Seq<ConditionalInfo>, Seq<bool>), Error>(
        (seq![frame], seq![false]),
    )) by {
        assert(cond_scan(defs, Seq::<Statement>::empty()) == Ok::<(Seq<ConditionalInfo>, Seq<bool>), Error>(
            (Seq::empty(), Seq::empty()),
        ));
        assert(seq![head].last() == head);
        assert(Seq::<ConditionalInfo>::empty().push(frame) =~= seq![frame]);
        assert(Seq::<bool>::empty().push(false) =~= seq![false]);
    }
    lemma_scan_gated(defs, head, frame, body, body.len() as int);
    let all = seq![head] + body + seq![Statement::EndIf(close_span)];
    assert(body.subrange(0, body.len() as int) =~= body);
    assert(all.drop_last() =~= seq![head] + body);
    assert(seq![frame].drop_last() =~= Seq::<ConditionalInfo>::empty());
    let flags = Seq::new((body.len() + 1) as nat, |i: int| false).push(false);
    lemma_select_none(all, flags);
}

/// How many levels of `#include` may nest.
pub const MAX_INCLUDE_DEPTH: usize = 64;

/// How many times a definition may expand into another.
pub const MAX_EXPANSION_DEPTH: usize = 256;

/// Expands definitions, includes and conditional blocks in a program.
pub struct Preprocessor {
    pub program: Vec<Statement>,
    pub definitions: Vec<(String, Expression)>,
    pub include_paths: Vec<String>,
    pub included_files: Vec<String>,
}

/// `select` over a prefix extends by the prefix's last statement.
proof fn lemma_select_prefix(stmts: Seq<Statement>, flags: Seq<bool>, k: int)
    requires
        0 < k <= stmts.len(),
        stmts.len() == flags.len(),
    ensures
        select(stmts.subrange(0, k), flags.subrange(0, k)) == if flags[k - 1] {
            select(stmts.subrange(0, k - 1), flags.subrange(0, k - 1)).push(stmts[k - 1])
        } else {
            select(stmts.subrange(0, k - 1), flags.subrange(0, k - 1))
        },
{
    assert(stmts.subrange(0, k).drop_last() =~= stmts.subrange(0, k - 1));
    assert(flags.subrange(0, k).drop_last() =~= flags.subrange(0, k - 1));
}

/// Once the conditional pass fails on a prefix, it fails the same way on
/// the whole input.
proof fn lemma_scan_error_persists(defs: Seq<(String, Expression)>, stmts: Seq<Statement>, k: int)
    requires
        0 <= k <= stmts.len(),
        cond_scan(defs, stmts.subrange(0, k)) is Err,
    ensures
        cond_scan(defs, stmts) == cond_scan(defs, stmts.subrange(0, k)),
    decreases stmts.len() - k,
{
    if k == stmts.len() {
        assert(stmts.subrange(0, k) =~= stmts);
    } else {
        assert(stmts.subrange(0, k + 1).drop_last() =~= stmts.subrange(0, k));
        lemma_scan_error_persists(defs, stmts, k + 1);
    }
}

/// Keeps the statements whose flag is set.
fn keep_flagged(stmts: Vec<Statement>, flags: &Vec<bool>) -> (r: Vec<Statement>)
    requires
        stmts@.len() == flags@.len(),
    ensures
        r@ == select(stmts@, flags@),
{
    let ghost orig = stmts@;
    let mut rest = stmts;
    let mut out: Vec<Statement> = Vec::new();
    let mut k = rest.len();
    assert(orig.subrange(0, k as int) =~= orig);
    assert(flags@.subrange(0, k as int) =~= flags@);
    while k > 0
        invariant
            k <= orig.len(),
            orig.len() == flags@.len(),
            rest@ == orig.subrange(0, k as int),
            select(orig, flags@) == select(orig.subrange(0, k as int), flags@.subrange(0, k as int)) + out@,
        decreases k,
    {
        proof {
            lemma_select_prefix(orig, flags@, k as int);
        }
        let s = rest.pop().unwrap();
        k = k - 1;
        if flags[k] {
            let ghost before = out@;
            out.insert(0, s);
            assert(select(orig.subrange(0, k + 1), flags@.subrange(0, k + 1)) + before =~= select(
                orig.subrange(0, k as int),
                flags@.subrange(0, k as int),
            ) + out@);
        }
        assert(rest@ =~= orig.subrange(0, k as int));
    }
    assert(orig.subrange(0, 0) =~= Seq::<Statement>::empty());
    assert(select(orig.subrange(0, 0), flags@.subrange(0, 0)) + out@ =~= out@);
    out
}

impl Preprocessor {
    /// A preprocessor for `program` with no definitions, searching includes
    /// in the current directory.
    pub fn new(program: Vec<Statement>) -> (r: Self)
        ensures
            r.program@ == program@,
            r.definitions@.len() == 0,
            r.included_files@.len() == 0,
    {
        let mut include_paths: Vec<String> = Vec::new();
        include_paths.push("".to_owned());
        Preprocessor { program, definitions: Vec::new(), include_paths, included_files: Vec::new() }
    }

    /// Sets the ordered list of directories searched for includes.
    pub fn with_include_paths(self, paths: Vec<String>) -> (r: Self)
        ensures
            r.include_paths@ == paths@,
            r.program@ == self.program@,
            r.definitions@ == self.definitions@,
            r.included_files@ == self.included_files@,
    {
        Preprocessor { include_paths: paths, ..self }
    }

    /// Adds predefined names (such as the host architecture and system).
    pub fn with_definitions(self, defs: Vec<(String, Expression)>) -> (r: Self)
        ensures
            r.definitions@ == defs@,
            r.program@ == self.program@,
            r.include_paths@ == self.include_paths@,
            r.included_files@ == self.included_files@,
    {
        Preprocessor { definitions: defs, ..self }
    }

    fn is_defined(&self, name: &String) -> (r: bool)
        ensures
            r == is_defined(self.definitions@, name@),
    {
        let mut i: usize = 0;
        while i < self.definitions.len()
            invariant
                0 <= i <= self.definitions@.len(),
                forall|k: int| 0 <= k < i ==> (#[trigger] self.definitions@[k]).0@ != name@,
            decreases self.definitions@.len() - i,
        {
            if self.definitions[i].0 == *name {
                return true;
            }
            i = i + 1;
        }
        false
    }

    /// Resolves `#ifdef`, `#ifndef`, `#else` and `#endif`: a statement is
    /// kept exactly when every enclosing block admits it.
    pub fn process_conditionals(&self, statements: Vec<Statement>) -> (r: Result<Vec<Statement>, Error>)
        ensures
            match spec_conditionals(self.definitions@, statements@) {
                Ok(v) => r matches Ok(out) && out@ == v,
                Err(e) => r == Err::<Vec<Statement>, Error>(e),
            },
    {
        let mut stack: Vec<ConditionalInfo> = Vec::new();
        let mut emitted: Vec<bool> = Vec::new();
        let mut i: usize = 0;
        assert(statements@.subrange(0, 0) =~= Seq::<Statement>::empty());
        while i < statements.len()
            invariant
                0 <= i <= statements@.len(),
                cond_scan(self.definitions@, statements@.subrange(0, i as int)) == Ok::<
                    (Seq<ConditionalInfo>, Seq<bool>),
                    Error,
                >((stack@, emitted@)),
                emitted@.len() == i,
            decreases statements@.len() - i,
        {
            let ghost prefix = statements@.subrange(0, i as int + 1);
            assert(prefix.drop_last() =~= statements@.subrange(0, i as int));
            assert(prefix.last() == statements@[i as int]);
            match &statements[i] {
                Statement::IfDef(e, span) | Statement::IfNDef(e, span) => {
                    let name = match e {
                        Expression::Identifier(n) => n,
                        _ => {
                            proof {
                                lemma_scan_error_persists(self.definitions@, statements@, i as int + 1);
                            }
                            return Err(Error::InvalidConditionalExpr(*span));
                        },
                    };
                    let defined = self.is_defined(name);
                    let (result, kind) = if matches!(&statements[i], Statement::IfDef(_, _)) {
                        (defined, ConditionalType::IfDef)
                    } else {
                        (!defined, ConditionalType::IfNDef)
                    };
                    stack.push(ConditionalInfo { condition_result: result, seen_else: false, conditional_type: kind, span: *span });
                    emitted.push(false);
                },
                Statement::Else(span) => {
                    let n = stack.len();
                    if n == 0 || stack[n - 1].seen_else {
                        proof {
                            lemma_scan_error_persists(self.definitions@, statements@, i as int + 1);
                        }
                        return Err(Error::UnmatchedElse(*span));
                    }
                    let top = stack[n - 1];
                    stack.set(n - 1, ConditionalInfo { seen_else: true, ..top });
                    emitted.push(false);
                },
                Statement::EndIf(span) => {
                    if stack.len() == 0 {
                        proof {
                            lemma_scan_error_persists(self.definitions@, statements@, i as int + 1);
                        }
                        return Err(Error::UnmatchedEndif(*span));
                    }
                    stack.pop();
                    emitted.push(false);
                },
                _ => {
                    let mut passes = true;
                    let mut k: usize = 0;
                    while k < stack.len()
                        invariant
                            0 <= k <= stack@.len(),
                            passes == forall|j: int| 0 <= j < k ==> frame_admits(#[trigger] stack@[j]),
                        decreases stack@.len() - k,
                    {
                        let f = stack[k];
                        let ok = if f.seen_else {
                            !f.condition_result
                        } else {
                            f.condition_result
                        };
                        passes = passes && ok;
                        k = k + 1;
                    }
                    emitted.push(passes);
                },
            }
            i = i + 1;
        }
        assert(statements@.subrange(0, i as int) =~= statements@);
        let n = stack.len();
        if n > 0 {
            let last = stack[0];
            return match last.conditional_type {
                ConditionalType::IfDef => Err(Error::UnmatchedIfdef(last.span)),
                ConditionalType::IfNDef => Err(Error::UnmatchedIfndef(last.span)),
            };
        }
        Ok(keep_flagged(statements, &emitted))
    }

    /// The index of the definition of `name`, if any.
    fn find_definition(&self, name: &String) -> (r: Option<usize>)
        ensures
            r matches Some(i) ==> i < self.definitions@.len() && self.definitions@[i as int].0@ == name@
                && first_definition(self.definitions@, name@, i as int)
                && i == (choose|j: int| first_definition(self.definitions@, name@, j))
                && definition_of(self.definitions@, name@) == Some(self.definitions@[i as int].1),
            r is None ==> !is_defined(self.definitions@, name@) && definition_of(self.definitions@, name@) is None,
    {
        let mut i: usize = 0;
        while i < self.definitions.len()
            invariant
                0 <= i <= self.definitions@.len(),
                forall|k: int| 0 <= k < i ==> (#[trigger] self.definitions@[k]).0@ != name@,
            decreases self.definitions@.len() - i,
        {
            if self.definitions[i].0 == *name {
                proof {
                    let j = choose|j: int| first_definition(self.definitions@, name@, j);
                    assert(first_definition(self.definitions@, name@, i as int));
                    if j < i {
                        assert(self.definitions@[j].0@ != name@);
                    } else if j > i {
                        assert(self.definitions@[i as int].0@ != name@);
                    }
                }
                return Some(i);
            }
            i = i + 1;
        }
        None
    }

    /// Defines `name` as `value`, replacing an earlier definition.
    pub fn define(&mut self, name: String, value: Expression)
        ensures
            final(self).definitions@ == spec_define(old(self).definitions@, name, value),
            final(self).program@ == old(self).program@,
            is_defined(final(self).definitions@, name@),
            forall|n: Seq<char>| is_defined(old(self).definitions@, n) ==> is_defined(final(self).definitions@, n),
    {
        match self.find_definition(&name) {
            Some(i) => {
                self.definitions.set(i, (name, value));
                assert forall|n: Seq<char>| is_defined(old(self).definitions@, n) implies is_defined(self.definitions@, n) by {
                    let j = choose|j: int| 0 <= j < old(self).definitions@.len() && (#[trigger] old(self).definitions@[j]).0@ == n;
                    assert(self.definitions@[j].0@ == n);
                }
                assert(self.definitions@[i as int].0@ == name@);
            },
            None => {
                self.definitions.push((name, value));
                let ghost last = self.definitions@.len() - 1;
                assert(self.definitions@[last].0@ == name@);
                assert forall|n: Seq<char>| is_defined(old(self).definitions@, n) implies is_defined(self.definitions@, n) by {
                    let j = choose|j: int| 0 <= j < old(self).definitions@.len() && (#[trigger] old(self).definitions@[j]).0@ == n;
                    assert(self.definitions@[j] == old(self).definitions@[j]);
                }
            },
        }
    }

    /// Replaces defined identifiers by their definitions (recursively) and
    /// folds operators applied to two literals.
    pub fn substitute_expr<F: FloatUnit>(&self, e: &Expression, fpu: &F, span: Span, depth: usize) -> (r: Result<Expression, Error>)
        ensures
            *e matches Expression::Identifier(n) ==> !is_defined(self.definitions@, n@) ==> r == Ok::<Expression, Error>(*e),
            (*e is Register || *e is IntegerLiteral || *e is FloatLiteral || *e is StringLiteral || *e is DataSize) ==> r == Ok::<Expression, Error>(*e),
            *e matches Expression::BinaryOp(l, op, rr, _) ==> *l matches Expression::IntegerLiteral(a) ==> *rr matches Expression::IntegerLiteral(b) ==> r == match spec_fold(op, a, b) {
                Some(v) => Ok::<Expression, Error>(Expression::IntegerLiteral(v)),
                None => Err(Error::DivisionByZero(span)),
            },
            spec_subst(self.definitions@, *e, span, depth as nat) matches Some(res) ==> r == res,
            *e matches Expression::BinaryOp(l, op, rr, _) ==> *l matches Expression::FloatLiteral(a) ==> *rr matches Expression::FloatLiteral(b)
                ==> (op is Add || op is Sub || op is Mul || op is Div) ==> r matches Ok(Expression::FloatLiteral(_)),
        decreases depth, e,
    {
        match e {
            Expression::Identifier(n) => match self.find_definition(n) {
                Some(i) => {
                    if depth == 0 {
                        return Err(Error::DefinitionTooDeep(span));
                    }
                    self.substitute_expr(&self.definitions[i].1, fpu, span, depth - 1)
                },
                None => Ok(Expression::Identifier(n.clone())),
            },
            Expression::Address(base, offset) => {
                let b = self.substitute_expr(&**base, fpu, span, depth)?;
                let o = match offset {
                    Some(x) => Some(Box::new(self.substitute_expr(&**x, fpu, span, depth)?)),
                    None => None,
                };
                Ok(Expression::Address(Box::new(b), o))
            },
            Expression::BinaryOp(l, op, rr, bspan) => {
                let a = self.substitute_expr(&**l, fpu, span, depth)?;
                let b = self.substitute_expr(&**rr, fpu, span, depth)?;
                match (&a, &b) {
                    (Expression::IntegerLiteral(x), Expression::IntegerLiteral(y)) => match fold_int(*op, *x, *y) {
                        Some(v) => Ok(Expression::IntegerLiteral(v)),
                        None => Err(Error::DivisionByZero(span)),
                    },
                    (Expression::FloatLiteral(x), Expression::FloatLiteral(y)) => {
                        let fop = match op {
                            BinaryOperator::Add => FloatOp::Add,
                            BinaryOperator::Sub => FloatOp::Sub,
                            BinaryOperator::Mul => FloatOp::Mul,
                            BinaryOperator::Div => FloatOp::Div,
                            _ => return Err(Error::InvalidOperatorForFloat { op: *op, span: *bspan }),
                        };
                        Ok(Expression::FloatLiteral(fpu.f64_arith(fop, *x, *y)))
                    },
                    _ => Ok(Expression::BinaryOp(Box::new(a), *op, Box::new(b), *bspan)),
                }
            },
            _ => Ok(copy_expr(e)),
        }
    }

    fn substitute_all<F: FloatUnit>(&self, exprs: &Vec<Expression>, fpu: &F, span: Span) -> (r: Result<Vec<Expression>, Error>)
        ensures
            r matches Ok(v) ==> v@.len() == exprs@.len(),
    {
        let mut out: Vec<Expression> = Vec::new();
        let mut k: usize = 0;
        while k < exprs.len()
            invariant
                0 <= k <= exprs@.len(),
                out@.len() == k,
            decreases exprs@.len() - k,
        {
            out.push(self.substitute_expr(&exprs[k], fpu, span, MAX_EXPANSION_DEPTH)?);
            k = k + 1;
        }
        Ok(out)
    }

    /// Substitutes definitions in every operand of `stmt`; `#error` fails
    /// with its message.
    pub fn substitute_statement<F: FloatUnit>(&self, stmt: Statement, fpu: &F) -> (r: Result<Statement, Error>)
        ensures
            stmt matches Statement::Error(Expression::StringLiteral(m), span) ==> r == Err::<Statement, Error>(
                Error::UserError { message: m, span },
            ),
            stmt is Label || stmt is Section || stmt is Nop || stmt is Ret || stmt is Syscall || stmt is Hlt ==> r == Ok::<Statement, Error>(stmt),
            !is_directive(stmt) ==> (r matches Ok(t) ==> !is_directive(t)),
            stmt is Error ==> r is Err,
            spec_subst_stmt(self.definitions@, stmt) matches Some(res) ==> r == res,
    {
        reveal(spec_subst_stmt);
        match stmt {
            Statement::Label(name, span) => Ok(Statement::Label(name, span)),
            Statement::Section(t, span) => Ok(Statement::Section(t, span)),
            Statement::Define(k, v, span) => Ok(Statement::Define(self.substitute_expr(&k, fpu, span, MAX_EXPANSION_DEPTH)?, self.substitute_expr(&v, fpu, span, MAX_EXPANSION_DEPTH)?, span)),
            Statement::Else(span) => Ok(Statement::Else(span)),
            Statement::EndIf(span) => Ok(Statement::EndIf(span)),
            Statement::Nop(span) => Ok(Statement::Nop(span)),
            Statement::Ret(span) => Ok(Statement::Ret(span)),
            Statement::Syscall(span) => Ok(Statement::Syscall(span)),
            Statement::Hlt(span) => Ok(Statement::Hlt(span)),
            Statement::Include(e, span) => Ok(Statement::Include(self.substitute_expr(&e, fpu, span, MAX_EXPANSION_DEPTH)?, span)),
            Statement::IfDef(e, span) => Ok(Statement::IfDef(self.substitute_expr(&e, fpu, span, MAX_EXPANSION_DEPTH)?, span)),
            Statement::IfNDef(e, span) => Ok(Statement::IfNDef(self.substitute_expr(&e, fpu, span, MAX_EXPANSION_DEPTH)?, span)),
            Statement::Entry(e, span) => Ok(Statement::Entry(self.substitute_expr(&e, fpu, span, MAX_EXPANSION_DEPTH)?, span)),
            Statement::Ascii(e, span) => Ok(Statement::Ascii(self.substitute_expr(&e, fpu, span, MAX_EXPANSION_DEPTH)?, span)),
            Statement::Asciz(e, span) => Ok(Statement::Asciz(self.substitute_expr(&e, fpu, span, MAX_EXPANSION_DEPTH)?, span)),
            Statement::Jmp(e, span) => Ok(Statement::Jmp(self.substitute_expr(&e, fpu, span, MAX_EXPANSION_DEPTH)?, span)),
            Statement::Jne(e, span) => Ok(Statement::Jne(self.substitute_expr(&e, fpu, span, MAX_EXPANSION_DEPTH)?, span)),
            Statement::Jeq(e, span) => Ok(Statement::Jeq(self.substitute_expr(&e, fpu, span, MAX_EXPANSION_DEPTH)?, span)),
            Statement::Jlt(e, span) => Ok(Statement::Jlt(self.substitute_expr(&e, fpu, span, MAX_EXPANSION_DEPTH)?, span)),
            Statement::Jgt(e, span) => Ok(Statement::Jgt(self.substitute_expr(&e, fpu, span, MAX_EXPANSION_DEPTH)?, span)),
            Statement::Jle(e, span) => Ok(Statement::Jle(self.substitute_expr(&e, fpu, span, MAX_EXPANSION_DEPTH)?, span)),
            Statement::Jge(e, span) => Ok(Statement::Jge(self.substitute_expr(&e, fpu, span, MAX_EXPANSION_DEPTH)?, span)),
            Statement::Call(e, span) => Ok(Statement::Call(self.substitute_expr(&e, fpu, span, MAX_EXPANSION_DEPTH)?, span)),
            Statement::Inc(e, span) => Ok(Statement::Inc(self.substitute_expr(&e, fpu, span, MAX_EXPANSION_DEPTH)?, span)),
            Statement::Dec(e, span) => Ok(Statement::Dec(self.substitute_expr(&e, fpu, span, MAX_EXPANSION_DEPTH)?, span)),
            Statement::Resb(e, span) => Ok(Statement::Resb(self.substitute_expr(&e, fpu, span, MAX_EXPANSION_DEPTH)?, span)),
            Statement::Mov(a, b, span) => Ok(Statement::Mov(self.substitute_expr(&a, fpu, span, MAX_EXPANSION_DEPTH)?, self.substitute_expr(&b, fpu, span, MAX_EXPANSION_DEPTH)?, span)),
            Statement::Ldr(a, b, span) => Ok(Statement::Ldr(self.substitute_expr(&a, fpu, span, MAX_EXPANSION_DEPTH)?, self.substitute_expr(&b, fpu, span, MAX_EXPANSION_DEPTH)?, span)),
            Statement::Str(a, b, span) => Ok(Statement::Str(self.substitute_expr(&a, fpu, span, MAX_EXPANSION_DEPTH)?, self.substitute_expr(&b, fpu, span, MAX_EXPANSION_DEPTH)?, span)),
            Statement::Cmp(a, b, span) => Ok(Statement::Cmp(self.substitute_expr(&a, fpu, span, MAX_EXPANSION_DEPTH)?, self.substitute_expr(&b, fpu, span, MAX_EXPANSION_DEPTH)?, span)),
            Statement::Add(d, a, b, span) => Ok(Statement::Add(self.substitute_expr(&d, fpu, span, MAX_EXPANSION_DEPTH)?, self.substitute_expr(&a, fpu, span, MAX_EXPANSION_DEPTH)?, self.substitute_expr(&b, fpu, span, MAX_EXPANSION_DEPTH)?, span)),
            Statement::Sub(d, a, b, span) => Ok(Statement::Sub(self.substitute_expr(&d, fpu, span, MAX_EXPANSION_DEPTH)?, self.substitute_expr(&a, fpu, span, MAX_EXPANSION_DEPTH)?, self.substitute_expr(&b, fpu, span, MAX_EXPANSION_DEPTH)?, span)),
            Statement::Mul(d, a, b, span) => Ok(Statement::Mul(self.substitute_expr(&d, fpu, span, MAX_EXPANSION_DEPTH)?, self.substitute_expr(&a, fpu, span, MAX_EXPANSION_DEPTH)?, self.substitute_expr(&b, fpu, span, MAX_EXPANSION_DEPTH)?, span)),
            Statement::Div(d, a, b, span) => Ok(Statement::Div(self.substitute_expr(&d, fpu, span, MAX_EXPANSION_DEPTH)?, self.substitute_expr(&a, fpu, span, MAX_EXPANSION_DEPTH)?, self.substitute_expr(&b, fpu, span, MAX_EXPANSION_DEPTH)?, span)),
            Statement::And(d, a, b, span) => Ok(Statement::And(self.substitute_expr(&d, fpu, span, MAX_EXPANSION_DEPTH)?, self.substitute_expr(&a, fpu, span, MAX_EXPANSION_DEPTH)?, self.substitute_expr(&b, fpu, span, MAX_EXPANSION_DEPTH)?, span)),
            Statement::Or(d, a, b, span) => Ok(Statement::Or(self.substitute_expr(&d, fpu, span, MAX_EXPANSION_DEPTH)?, self.substitute_expr(&a, fpu, span, MAX_EXPANSION_DEPTH)?, self.substitute_expr(&b, fpu, span, MAX_EXPANSION_DEPTH)?, span)),
            Statement::Xor(d, a, b, span) => Ok(Statement::Xor(self.substitute_expr(&d, fpu, span, MAX_EXPANSION_DEPTH)?, self.substitute_expr(&a, fpu, span, MAX_EXPANSION_DEPTH)?, self.substitute_expr(&b, fpu, span, MAX_EXPANSION_DEPTH)?, span)),
            Statement::Shl(d, a, b, span) => Ok(Statement::Shl(self.substitute_expr(&d, fpu, span, MAX_EXPANSION_DEPTH)?, self.substitute_expr(&a, fpu, span, MAX_EXPANSION_DEPTH)?, self.substitute_expr(&b, fpu, span, MAX_EXPANSION_DEPTH)?, span)),
            Statement::Shr(d, a, b, span) => Ok(Statement::Shr(self.substitute_expr(&d, fpu, span, MAX_EXPANSION_DEPTH)?, self.substitute_expr(&a, fpu, span, MAX_EXPANSION_DEPTH)?, self.substitute_expr(&b, fpu, span, MAX_EXPANSION_DEPTH)?, span)),
            Statement::Push(size, e, span) => {
                let size = match size {
                    Some(x) => Some(self.substitute_expr(&x, fpu, span, MAX_EXPANSION_DEPTH)?),
                    None => None,
                };
                Ok(Statement::Push(size, self.substitute_expr(&e, fpu, span, MAX_EXPANSION_DEPTH)?, span))
            },
            Statement::Pop(size, e, span) => {
                let size = match size {
                    Some(x) => Some(self.substitute_expr(&x, fpu, span, MAX_EXPANSION_DEPTH)?),
                    None => None,
                };
                Ok(Statement::Pop(size, self.substitute_expr(&e, fpu, span, MAX_EXPANSION_DEPTH)?, span))
            },
            Statement::Db(exprs, span) => Ok(Statement::Db(self.substitute_all(&exprs, fpu, span)?, span)),
            Statement::Error(e, span) => match e {
                Expression::StringLiteral(message) => Err(Error::UserError { message, span }),
                _ => Err(Error::UserError {
                    message: "expected a string literal in #error directive".to_owned(),
                    span,
                }),
            },
        }
    }

    fn copy_definitions(&self) -> (r: Vec<(String, Expression)>)
        ensures
            r@ == self.definitions@,
    {
        let mut out: Vec<(String, Expression)> = Vec::new();
        let mut k: usize = 0;
        while k < self.definitions.len()
            invariant
                0 <= k <= self.definitions@.len(),
                out@ == self.definitions@.subrange(0, k as int),
            decreases self.definitions@.len() - k,
        {
            let (n, e) = &self.definitions[k];
            out.push((n.clone(), copy_expr(e)));
            k = k + 1;
            assert(out@ =~= self.definitions@.subrange(0, k as int));
        }
        assert(self.definitions@.subrange(0, k as int) =~= self.definitions@);
        out
    }

    fn contains_file(&self, path: &String) -> (r: bool)
        ensures
            r == exists|i: int| 0 <= i < self.included_files@.len() && (#[trigger] self.included_files@[i])@ == path@,
    {
        let mut k: usize = 0;
        while k < self.included_files.len()
            invariant
                0 <= k <= self.included_files@.len(),
                forall|j: int| 0 <= j < k ==> (#[trigger] self.included_files@[j])@ != path@,
            decreases self.included_files@.len() - k,
        {
            if self.included_files[k] == *path {
                return true;
            }
            k = k + 1;
        }
        false
    }

    /// Refuses to include `path` again within one chain of includes, or
    /// beyond the nesting bound.
    fn check_include(&self, path: &String, span: Span, depth: usize) -> (r: Result<(), Error>)
        ensures
            (exists|i: int| 0 <= i < self.included_files@.len() && (#[trigger] self.included_files@[i])@ == path@)
                ==> r == Err::<(), Error>(Error::CircularInclude { file: *path, span }),
            !(exists|i: int| 0 <= i < self.included_files@.len() && (#[trigger] self.included_files@[i])@ == path@)
                ==> r == (if depth == 0 {
                Err::<(), Error>(Error::IncludeTooDeep { file: *path, span })
            } else {
                Ok(())
            }),
    {
        if self.contains_file(path) {
            return Err(Error::CircularInclude { file: path.clone(), span });
        }
        if depth == 0 {
            return Err(Error::IncludeTooDeep { file: path.clone(), span });
        }
        Ok(())
    }

    /// Finds, checks, reads and preprocesses an included file; definitions
    /// and the set of included files flow back to this preprocessor.
    fn process_include<F: FloatUnit, L: IncludeLoader>(&mut self, file: &String, span: Span, loader: &L, fpu: &F, depth: usize) -> (r: Result<Vec<Statement>, Error>)
        decreases depth, 0nat,
    {
        let mut found: Option<String> = None;
        let mut k: usize = 0;
        while k < self.include_paths.len()
            decreases self.include_paths@.len() - k,
        {
            match loader.locate(&self.include_paths[k], file) {
                Some(p) => {
                    found = Some(p);
                    break;
                },
                None => {},
            }
            k = k + 1;
        }
        let path = match found {
            Some(p) => p,
            None => return Err(Error::IncludeFileNotFound { file: file.clone(), span }),
        };
        self.check_include(&path, span, depth)?;
        let statements = match loader.load(&path) {
            Ok(v) => v,
            Err(LoadFailure::Unreadable) => return Err(Error::IncludeReadError { file: path, span }),
            Err(LoadFailure::Malformed(message)) => return Err(Error::IncludeParseError { file: path, message, span }),
        };
        self.included_files.push(path);
        let mut files: Vec<String> = Vec::new();
        let mut j: usize = 0;
        while j < self.included_files.len()
            decreases self.included_files@.len() - j,
        {
            files.push(self.included_files[j].clone());
            j = j + 1;
        }
        let mut dirs: Vec<String> = Vec::new();
        let mut j: usize = 0;
        while j < self.include_paths.len()
            decreases self.include_paths@.len() - j,
        {
            dirs.push(self.include_paths[j].clone());
            j = j + 1;
        }
        let mut child = Preprocessor {
            program: statements,
            definitions: self.copy_definitions(),
            include_paths: dirs,
            included_files: files,
        };
        let out = child.process_nested(loader, fpu, depth - 1)?;
        self.definitions = child.definitions;
        let mut merged: Vec<String> = Vec::new();
        let mut j: usize = 0;
        while j < child.included_files.len()
            decreases child.included_files@.len() - j,
        {
            merged.push(child.included_files[j].clone());
            j = j + 1;
        }
        self.included_files = merged;
        Ok(out)
    }

    /// Expands definitions and includes (first pass), then conditional
    /// blocks, then substitutes and folds every operand.
    /// One statement of the first pass.
    fn first_step<F: FloatUnit, L: IncludeLoader>(&mut self, s: Statement, first: &mut Vec<Statement>, loader: &L, fpu: &F, depth: usize) -> (r: Result<(), Error>)
        ensures
            pass1_step(old(self).definitions@, old(first)@, s) matches Some(Ok((d, o))) ==> r is Ok
                && final(self).definitions@ == d && final(first)@ == o,
            pass1_step(old(self).definitions@, old(first)@, s) matches Some(Err(e)) ==> r == Err::<(), Error>(e),
        decreases depth, 1nat,
    {
        match s {
            Statement::Define(Expression::Identifier(name), value, _) => {
                self.define(name, value);
                Ok(())
            },
            Statement::Define(_, _, span) => Err(Error::InvalidDefineKey(span)),
            Statement::Include(Expression::StringLiteral(file), span) => {
                let mut included = self.process_include(&file, span, loader, fpu, depth)?;
                first.append(&mut included);
                Ok(())
            },
            Statement::Include(_, span) => Err(Error::InvalidIncludePath(span)),
            other => {
                first.push(other);
                Ok(())
            },
        }
    }

    /// The first pass: records definitions and expands includes.
    fn first_pass<F: FloatUnit, L: IncludeLoader>(&mut self, input: Vec<Statement>, loader: &L, fpu: &F, depth: usize) -> (r: Result<Vec<Statement>, Error>)
        ensures
            spec_pass1(old(self).definitions@, input@) matches Some(Ok((d, f))) ==> (r matches Ok(out) && out@ == f
                && final(self).definitions@ == d),
            spec_pass1(old(self).definitions@, input@) matches Some(Err(e)) ==> r == Err::<Vec<Statement>, Error>(e),
        decreases depth, 2nat,
    {
        let ghost orig = input@;
        let ghost defs0 = self.definitions@;
        let ghost n = orig.len() as int;
        let mut program = input;
        let mut first: Vec<Statement> = Vec::new();
        let ghost mut k: int = 0;
        assert(orig.subrange(0, 0) =~= Seq::<Statement>::empty());
        assert(orig.subrange(0, n) =~= orig);
        while program.len() > 0
            invariant
                0 <= k <= n,
                n == orig.len(),
                orig == input@,
                program@ == orig.subrange(k, n),
                defs0 == old(self).definitions@,
                !(spec_pass1(defs0, orig.subrange(0, k)) matches Some(Err(_))),
                spec_pass1(defs0, orig.subrange(0, k)) matches Some(Ok((d, f))) ==> d == self.definitions@ && f == first@,
                spec_pass1(defs0, orig.subrange(0, k)) is None ==> spec_pass1(defs0, orig) is None,
            decreases program@.len(),
        {
            let ghost pre = orig.subrange(0, k);
            let ghost next = orig.subrange(0, k + 1);
            assert(next.drop_last() =~= pre);
            assert(next.last() == orig[k]);
            let s = program.remove(0);
            assert(s == orig[k]);
            let ghost d_before = self.definitions@;
            let ghost f_before = first@;
            proof {
                if spec_pass1(defs0, pre) matches Some(Ok((d, f))) {
                    assert(spec_pass1(defs0, next) == pass1_step(d_before, f_before, s));
                } else {
                    assert(spec_pass1(defs0, next) is None);
                }
            }
            let res = self.first_step(s, &mut first, loader, fpu, depth);
            match res {
                Err(e) => {
                    proof {
                        if spec_pass1(defs0, next) matches Some(Err(_)) {
                            lemma_pass1_error_stays(defs0, orig, k + 1);
                        }
                        if spec_pass1(defs0, next) is None {
                            lemma_pass1_none_stays(defs0, orig, k + 1);
                        }
                        assert(spec_pass1(defs0, next) matches Some(Err(_)) || spec_pass1(defs0, next) is None);
                        assert(spec_pass1(defs0, orig) == spec_pass1(defs0, next) || spec_pass1(defs0, orig) is None);
                        assert(spec_pass1(defs0, next) matches Some(Err(x)) ==> e == x);
                    }
                    return Err(e);
                },
                Ok(()) => {},
            }
            proof {
                if spec_pass1(defs0, next) matches Some(Err(_)) {
                    lemma_pass1_error_stays(defs0, orig, k + 1);
                }
                if spec_pass1(defs0, next) is None && !(spec_pass1(defs0, pre) is None) {
                    lemma_pass1_none_stays(defs0, orig, k + 1);
                }
                k = k + 1;
                assert(program@ =~= orig.subrange(k, n));
            }
        }
        Ok(first)
    }

    /// One statement of the last pass.
    fn last_step<F: FloatUnit>(&self, s: Statement, out: &mut Vec<Statement>, fpu: &F) -> (r: Result<(), Error>)
        ensures
            pass3_step(self.definitions@, old(out)@, s) matches Some(Ok(o)) ==> r is Ok && final(out)@ == o,
            pass3_step(self.definitions@, old(out)@, s) matches Some(Err(e)) ==> r == Err::<(), Error>(e),
            (forall|i: int| 0 <= i < old(out)@.len() ==> !is_directive(#[trigger] old(out)@[i])) ==> r is Ok
                ==> forall|i: int| 0 <= i < final(out)@.len() ==> !is_directive(#[trigger] final(out)@[i]),
    {
        match s {
            Statement::Define(..) | Statement::Include(..) | Statement::IfDef(..) | Statement::IfNDef(..)
            | Statement::Else(..) | Statement::EndIf(..) => Ok(()),
            other => {
                let t = self.substitute_statement(other, fpu)?;
                out.push(t);
                Ok(())
            },
        }
    }

    /// The last pass: substitution in every statement.
    #[verifier::rlimit(60)]
    fn last_pass<F: FloatUnit>(&self, input: Vec<Statement>, fpu: &F) -> (r: Result<Vec<Statement>, Error>)
        ensures
            r matches Ok(out) ==> forall|i: int| 0 <= i < out@.len() ==> !is_directive(#[trigger] out@[i]),
            spec_pass3(self.definitions@, input@) matches Some(Ok(v)) ==> (r matches Ok(out) && out@ == v),
            spec_pass3(self.definitions@, input@) matches Some(Err(e)) ==> r == Err::<Vec<Statement>, Error>(e),
    {
        let ghost d = self.definitions@;
        let ghost orig = input@;
        let ghost n = orig.len() as int;
        let mut kept = input;
        let mut out: Vec<Statement> = Vec::new();
        let ghost mut k: int = 0;
        assert(orig.subrange(0, 0) =~= Seq::<Statement>::empty());
        assert(orig.subrange(0, n) =~= orig);
        while kept.len() > 0
            invariant
                0 <= k <= n,
                n == orig.len(),
                orig == input@,
                kept@ == orig.subrange(k, n),
                d == self.definitions@,
                forall|i: int| 0 <= i < out@.len() ==> !is_directive(#[trigger] out@[i]),
                !(spec_pass3(d, orig.subrange(0, k)) matches Some(Err(_))),
                spec_pass3(d, orig.subrange(0, k)) matches Some(Ok(o)) ==> o == out@,
                spec_pass3(d, orig.subrange(0, k)) is None ==> spec_pass3(d, orig) is None,
            decreases kept@.len(),
        {
            let ghost pre = orig.subrange(0, k);
            let ghost next = orig.subrange(0, k + 1);
            assert(next.drop_last() =~= pre);
            assert(next.last() == orig[k]);
            let s = kept.remove(0);
            assert(s == orig[k]);
            let ghost o_before = out@;
            proof {
                if spec_pass3(d, pre) matches Some(Ok(o)) {
                    assert(spec_pass3(d, next) == pass3_step(d, o_before, s));
                } else {
                    assert(spec_pass3(d, next) is None);
                }
            }
            let res = self.last_step(s, &mut out, fpu);
            match res {
                Err(e) => {
                    proof {
                        if spec_pass3(d, next) matches Some(Err(_)) {
                            lemma_pass3_error_stays(d, orig, k + 1);
                        }
                        if spec_pass3(d, next) is None {
                            lemma_pass3_none_stays(d, orig, k + 1);
                        }
                    }
                    return Err(e);
                },
                Ok(()) => {},
            }
            proof {
                if spec_pass3(d, next) matches Some(Err(_)) {
                    lemma_pass3_error_stays(d, orig, k + 1);
                }
                if spec_pass3(d, next) is None && !(spec_pass3(d, pre) is None) {
                    lemma_pass3_none_stays(d, orig, k + 1);
                }
                k = k + 1;
                assert(kept@ =~= orig.subrange(k, n));
            }
        }
        Ok(out)
    }

    /// All three passes over this preprocessor's program.
    fn process_nested<F: FloatUnit, L: IncludeLoader>(&mut self, loader: &L, fpu: &F, depth: usize) -> (r: Result<Vec<Statement>, Error>)
        ensures
            r matches Ok(out) ==> forall|i: int| 0 <= i < out@.len() ==> !is_directive(#[trigger] out@[i]),
            spec_process(old(self).definitions@, old(self).program@) matches Some(Ok(v)) ==> (r matches Ok(out) && out@ == v),
            spec_process(old(self).definitions@, old(self).program@) matches Some(Err(e)) ==> r == Err::<Vec<Statement>, Error>(e),
        decreases depth, 3nat,
    {
        let mut program: Vec<Statement> = Vec::new();
        core::mem::swap(&mut program, &mut self.program);
        let first = self.first_pass(program, loader, fpu, depth)?;
        let kept = self.process_conditionals(first)?;
        self.last_pass(kept, fpu)
    }

    /// Preprocesses the program: definitions and includes, then conditional
    /// compilation, then substitution of definitions and constant folding.
    pub fn process<F: FloatUnit, L: IncludeLoader>(&mut self, loader: &L, fpu: &F) -> (r: Result<Vec<Statement>, Error>)
        ensures
            r matches Ok(out) ==> forall|i: int| 0 <= i < out@.len() ==> !is_directive(#[trigger] out@[i]),
            spec_process(old(self).definitions@, old(self).program@) matches Some(Ok(v)) ==> (r matches Ok(out) && out@ == v),
            spec_process(old(self).definitions@, old(self).program@) matches Some(Err(e)) ==> r == Err::<Vec<Statement>, Error>(e),
    {
        self.process_nested(loader, fpu, MAX_INCLUDE_DEPTH)
    }
}

} // verus!
