use nyx::ast::{Expression, SectionType, Statement};
use nyx::bytecode::{Bytecode, Section};
use nyx::compiler::{Compiler, Error as CompileError};
use nyx::float::{FloatOp, FloatOrder, FloatUnit};
use nyx::immediate::DataSize;
use nyx::lexer::Lexer;
use nyx::parser::Parser;
use nyx::opcode::Opcode;
use nyx::register::Register;
use nyx::span::Span;

struct HostFloat;

impl FloatUnit for HostFloat {
    fn f32_arith(&self, op: FloatOp, a: u32, b: u32) -> u32 {
        let (x, y) = (f32::from_bits(a), f32::from_bits(b));
        match op {
            FloatOp::Add => (x + y).to_bits(),
            FloatOp::Sub => (x - y).to_bits(),
            FloatOp::Mul => (x * y).to_bits(),
            FloatOp::Div => (x / y).to_bits(),
        }
    }
    fn f64_arith(&self, op: FloatOp, a: u64, b: u64) -> u64 {
        let (x, y) = (f64::from_bits(a), f64::from_bits(b));
        match op {
            FloatOp::Add => (x + y).to_bits(),
            FloatOp::Sub => (x - y).to_bits(),
            FloatOp::Mul => (x * y).to_bits(),
            FloatOp::Div => (x / y).to_bits(),
        }
    }
    fn f32_compare(&self, a: u32, b: u32) -> FloatOrder {
        order(f32::from_bits(a).partial_cmp(&f32::from_bits(b)))
    }
    fn f64_compare(&self, a: u64, b: u64) -> FloatOrder {
        order(f64::from_bits(a).partial_cmp(&f64::from_bits(b)))
    }
    fn f32_from_unsigned(&self, v: u64) -> u32 {
        (v as f32).to_bits()
    }
    fn f64_from_unsigned(&self, v: u64) -> u64 {
        (v as f64).to_bits()
    }
    fn f32_from_signed(&self, v: i64) -> u32 {
        (v as f32).to_bits()
    }
    fn f64_from_signed(&self, v: i64) -> u64 {
        (v as f64).to_bits()
    }
    fn f32_from_f64(&self, bits: u64) -> u32 {
        (f64::from_bits(bits) as f32).to_bits()
    }
    fn f64_from_f32(&self, bits: u32) -> u64 {
        (f32::from_bits(bits) as f64).to_bits()
    }
    fn f64_from_decimal(&self, text: &String) -> Option<u64> {
        text.parse::<f64>().ok().map(|f| f.to_bits())
    }

    fn f32_to_unsigned(&self, bits: u32, bytes: u8) -> u64 {
        let x = f32::from_bits(bits);
        match bytes {
            1 => x as u8 as u64,
            2 => x as u16 as u64,
            4 => x as u32 as u64,
            _ => x as u64,
        }
    }
    fn f64_to_unsigned(&self, bits: u64, bytes: u8) -> u64 {
        let x = f64::from_bits(bits);
        match bytes {
            1 => x as u8 as u64,
            2 => x as u16 as u64,
            4 => x as u32 as u64,
            _ => x as u64,
        }
    }
}

fn order(o: Option<std::cmp::Ordering>) -> FloatOrder {
    match o {
        Some(std::cmp::Ordering::Less) => FloatOrder::Less,
        Some(std::cmp::Ordering::Equal) => FloatOrder::Equal,
        Some(std::cmp::Ordering::Greater) => FloatOrder::Greater,
        None => FloatOrder::Unordered,
    }
}

fn sp() -> Span {
    Span::new(0, 0)
}

fn r(x: Register) -> Expression {
    Expression::Register(x)
}

fn lit(v: i64) -> Expression {
    Expression::IntegerLiteral(v)
}

fn float(v: f64) -> Expression {
    Expression::FloatLiteral(v.to_bits())
}

fn ident(s: &str) -> Expression {
    Expression::Identifier(s.to_string())
}

fn label(s: &str) -> Statement {
    Statement::Label(s.to_string(), sp())
}

fn size(s: DataSize) -> Option<Expression> {
    Some(Expression::DataSize(s))
}

fn addr(base: Expression, offset: Option<i64>) -> Expression {
    Expression::Address(Box::new(base), offset.map(|o| Box::new(lit(o))))
}

fn op(o: Opcode) -> u8 {
    o.to_byte()
}

fn reg(x: Register) -> u8 {
    x.to_byte()
}

fn compile(program: Vec<Statement>) -> Result<Vec<u8>, CompileError> {
    Compiler::new(program).compile(&HostFloat)
}

/// An image with a zero entry point and the given body.
fn image(body: Vec<u8>) -> Vec<u8> {
    let mut v = vec![0u8; 8];
    v.extend(body);
    v
}

fn le8(v: u64) -> Vec<u8> {
    v.to_le_bytes().to_vec()
}

fn cat(parts: Vec<Vec<u8>>) -> Vec<u8> {
    parts.concat()
}

#[test]
fn tests_label() {
    let program = vec![
        label("_start"),
        Statement::Mov(r(Register::B0), ident("exit"), sp()),
        label("exit"),
        Statement::Hlt(sp()),
    ];
    assert_eq!(
        compile(program),
        Ok(image(vec![op(Opcode::MovRegImm), reg(Register::B0), 0x03, op(Opcode::Hlt)]))
    );
}

#[test]
fn tests_nop() {
    assert_eq!(compile(vec![Statement::Nop(sp())]), Ok(image(vec![op(Opcode::Nop)])));
}

#[test]
fn nop_hlt_image() {
    let img = compile(vec![Statement::Nop(sp()), Statement::Hlt(sp())]).unwrap();
    assert_eq!(img, vec![0, 0, 0, 0, 0, 0, 0, 0, op(Opcode::Nop), op(Opcode::Hlt)]);
}

#[test]
fn tests_mov() {
    let cases = vec![
        (
            Statement::Mov(r(Register::W0), r(Register::B0), sp()),
            vec![op(Opcode::MovRegReg), reg(Register::W0), 0x00],
        ),
        (Statement::Mov(r(Register::B0), lit(10), sp()), vec![op(Opcode::MovRegImm), reg(Register::B0), 0x0A]),
        (
            Statement::Mov(r(Register::W0), lit(1337), sp()),
            vec![op(Opcode::MovRegImm), reg(Register::W0), 0x39, 0x05],
        ),
        (
            Statement::Mov(r(Register::D0), lit(70000), sp()),
            vec![op(Opcode::MovRegImm), reg(Register::D0), 0x70, 0x11, 0x01, 0x00],
        ),
        (
            Statement::Mov(r(Register::Q0), lit(3735928559), sp()),
            cat(vec![vec![op(Opcode::MovRegImm), reg(Register::Q0)], le8(3735928559)]),
        ),
        (
            Statement::Mov(r(Register::FF0), float(420.69), sp()),
            cat(vec![vec![op(Opcode::MovRegImm), reg(Register::FF0)], (420.69f64 as f32).to_le_bytes().to_vec()]),
        ),
        (
            Statement::Mov(r(Register::DD0), float(1337.420), sp()),
            cat(vec![vec![op(Opcode::MovRegImm), reg(Register::DD0)], 1337.420f64.to_le_bytes().to_vec()]),
        ),
    ];
    for (stmt, body) in cases {
        assert_eq!(compile(vec![stmt]), Ok(image(body)));
    }
}

#[test]
fn tests_str() {
    assert_eq!(
        compile(vec![Statement::Str(r(Register::B0), addr(r(Register::Q0), Some(8)), sp())]),
        Ok(image(cat(vec![vec![op(Opcode::Str), reg(Register::B0), 0x00, reg(Register::Q0)], le8(8)])))
    );
    assert_eq!(
        compile(vec![Statement::Str(r(Register::B0), addr(lit(1000), Some(32)), sp())]),
        Ok(image(cat(vec![vec![op(Opcode::Str), reg(Register::B0), 0x01], le8(1000), le8(32)])))
    );
}

#[test]
fn tests_ldr() {
    assert_eq!(
        compile(vec![Statement::Ldr(r(Register::B0), addr(r(Register::Q0), None), sp())]),
        Ok(image(cat(vec![vec![op(Opcode::Ldr), reg(Register::B0), 0x00, reg(Register::Q0)], le8(0)])))
    );
    assert_eq!(
        compile(vec![Statement::Ldr(r(Register::B0), addr(lit(1000), None), sp())]),
        Ok(image(cat(vec![vec![op(Opcode::Ldr), reg(Register::B0), 0x01], le8(1000), le8(0)])))
    );
}

#[test]
fn tests_push() {
    assert_eq!(
        compile(vec![Statement::Push(None, r(Register::B0), sp())]),
        Ok(image(vec![op(Opcode::PushReg), 0x00, reg(Register::B0)]))
    );
    assert_eq!(
        compile(vec![Statement::Push(size(DataSize::Word), r(Register::B0), sp())]),
        Ok(image(vec![op(Opcode::PushReg), 0x01, reg(Register::B0)]))
    );
    assert_eq!(
        compile(vec![Statement::Push(size(DataSize::DWord), lit(1337), sp())]),
        Ok(image(vec![op(Opcode::PushImm), 0x02, 0x39, 0x05, 0x00, 0x00]))
    );
    assert_eq!(
        compile(vec![Statement::Push(size(DataSize::QWord), addr(r(Register::Q0), Some(8)), sp())]),
        Ok(image(cat(vec![vec![op(Opcode::PushAddr), 0x03, 0x00, reg(Register::Q0)], le8(8)])))
    );
}

#[test]
fn tests_pop() {
    assert_eq!(
        compile(vec![Statement::Pop(None, r(Register::B0), sp())]),
        Ok(image(vec![op(Opcode::PopReg), 0x00, reg(Register::B0)]))
    );
    assert_eq!(
        compile(vec![Statement::Pop(size(DataSize::Word), r(Register::B0), sp())]),
        Ok(image(vec![op(Opcode::PopReg), 0x01, reg(Register::B0)]))
    );
    assert_eq!(
        compile(vec![Statement::Pop(size(DataSize::QWord), addr(r(Register::Q0), Some(8)), sp())]),
        Ok(image(cat(vec![vec![op(Opcode::PopAddr), 0x03, 0x00, reg(Register::Q0)], le8(8)])))
    );
    assert_eq!(
        compile(vec![Statement::Pop(size(DataSize::Byte), addr(lit(1000), Some(16)), sp())]),
        Ok(image(cat(vec![vec![op(Opcode::PopAddr), 0x00, 0x01], le8(1000), le8(16)])))
    );
}

#[test]
fn call() {
    assert_eq!(
        compile(vec![
            Statement::Call(ident("function_name"), sp()),
            label("function_name"),
            Statement::Hlt(sp()),
        ]),
        Ok(image(cat(vec![vec![op(Opcode::CallImm)], le8(9), vec![op(Opcode::Hlt)]])))
    );
    assert_eq!(
        compile(vec![Statement::Call(r(Register::Q0), sp())]),
        Ok(image(vec![op(Opcode::CallReg), reg(Register::Q0)]))
    );
}

#[test]
fn ret() {
    assert_eq!(compile(vec![Statement::Ret(sp())]), Ok(image(vec![op(Opcode::Ret)])));
}

#[test]
fn inc() {
    assert_eq!(
        compile(vec![Statement::Inc(r(Register::Q0), sp())]),
        Ok(image(vec![op(Opcode::Inc), reg(Register::Q0)]))
    );
}

#[test]
fn dec() {
    assert_eq!(
        compile(vec![Statement::Dec(r(Register::Q0), sp())]),
        Ok(image(vec![op(Opcode::Dec), reg(Register::Q0)]))
    );
}

#[test]
fn db() {
    assert_eq!(compile(vec![Statement::Db(vec![lit(69)], sp())]), Ok(image(vec![69])));
    let mut expected = b"Hello, World".to_vec();
    expected.extend([10, 0]);
    assert_eq!(
        compile(vec![Statement::Db(
            vec![Expression::StringLiteral("Hello, World".to_string()), lit(10), lit(0)],
            sp()
        )]),
        Ok(image(expected))
    );
}

#[test]
fn resb() {
    assert_eq!(compile(vec![Statement::Resb(lit(10), sp())]).unwrap().len(), 18);
    assert_eq!(compile(vec![Statement::Resb(lit(1024), sp())]).unwrap().len(), 1032);
}

#[test]
fn tests_hlt() {
    assert_eq!(compile(vec![Statement::Hlt(sp())]), Ok(image(vec![op(Opcode::Hlt)])));
}

#[test]
fn tests_arithmetic_operations() {
    assert_eq!(
        compile(vec![Statement::Add(r(Register::Q0), r(Register::Q1), r(Register::Q2), sp())]),
        Ok(image(vec![op(Opcode::AddRegRegReg), reg(Register::Q0), reg(Register::Q1), reg(Register::Q2)]))
    );
    assert_eq!(
        compile(vec![Statement::Sub(r(Register::D0), r(Register::D1), lit(42), sp())]),
        Ok(image(vec![op(Opcode::SubRegRegImm), reg(Register::D0), reg(Register::D1), 42, 0, 0, 0]))
    );
    assert_eq!(
        compile(vec![Statement::Mul(r(Register::W0), r(Register::W1), r(Register::W2), sp())]),
        Ok(image(vec![op(Opcode::MulRegRegReg), reg(Register::W0), reg(Register::W1), reg(Register::W2)]))
    );
    assert_eq!(
        compile(vec![Statement::Div(r(Register::B0), r(Register::B1), lit(10), sp())]),
        Ok(image(vec![op(Opcode::DivRegRegImm), reg(Register::B0), reg(Register::B1), 10]))
    );
}

#[test]
fn tests_bitwise_operations() {
    assert_eq!(
        compile(vec![Statement::And(r(Register::Q0), r(Register::Q1), r(Register::Q2), sp())]),
        Ok(image(vec![op(Opcode::AndRegRegReg), reg(Register::Q0), reg(Register::Q1), reg(Register::Q2)]))
    );
    assert_eq!(
        compile(vec![Statement::Or(r(Register::D0), r(Register::D1), lit(255), sp())]),
        Ok(image(vec![op(Opcode::OrRegRegImm), reg(Register::D0), reg(Register::D1), 255, 0, 0, 0]))
    );
    assert_eq!(
        compile(vec![Statement::Xor(r(Register::W0), r(Register::W1), r(Register::W2), sp())]),
        Ok(image(vec![op(Opcode::XorRegRegReg), reg(Register::W0), reg(Register::W1), reg(Register::W2)]))
    );
    assert_eq!(
        compile(vec![Statement::Shl(r(Register::B0), r(Register::B1), lit(4), sp())]),
        Ok(image(vec![op(Opcode::ShlRegRegImm), reg(Register::B0), reg(Register::B1), 4]))
    );
    assert_eq!(
        compile(vec![Statement::Shr(r(Register::Q0), r(Register::Q1), r(Register::Q2), sp())]),
        Ok(image(vec![op(Opcode::ShrRegRegReg), reg(Register::Q0), reg(Register::Q1), reg(Register::Q2)]))
    );
}

#[test]
fn tests_jump_operations() {
    assert_eq!(
        compile(vec![label("_start"), Statement::Jmp(ident("_start"), sp())]),
        Ok(image(cat(vec![vec![op(Opcode::JmpImm)], le8(0)])))
    );
    assert_eq!(
        compile(vec![Statement::Jne(lit(0x37), sp())]),
        Ok(image(cat(vec![vec![op(Opcode::JneImm)], le8(0x37)])))
    );
    assert_eq!(
        compile(vec![Statement::Jge(r(Register::Q0), sp())]),
        Ok(image(vec![op(Opcode::JgeReg), reg(Register::Q0)]))
    );
}

#[test]
fn float_arithmetic_operations() {
    assert_eq!(
        compile(vec![Statement::Add(r(Register::FF0), r(Register::FF1), r(Register::FF2), sp())]),
        Ok(image(vec![op(Opcode::AddRegRegReg), reg(Register::FF0), reg(Register::FF1), reg(Register::FF2)]))
    );
    assert_eq!(
        compile(vec![Statement::Sub(r(Register::DD0), r(Register::DD1), float(3.14), sp())]),
        Ok(image(cat(vec![
            vec![op(Opcode::SubRegRegImm), reg(Register::DD0), reg(Register::DD1)],
            3.14f64.to_le_bytes().to_vec()
        ])))
    );
    assert_eq!(
        compile(vec![Statement::Mul(r(Register::FF0), r(Register::FF1), float(2.5), sp())]),
        Ok(image(cat(vec![
            vec![op(Opcode::MulRegRegImm), reg(Register::FF0), reg(Register::FF1)],
            2.5f32.to_le_bytes().to_vec()
        ])))
    );
}

#[test]
fn float_comparison_operations() {
    assert_eq!(
        compile(vec![Statement::Cmp(r(Register::FF0), float(1.5), sp())]),
        Ok(image(cat(vec![vec![op(Opcode::CmpRegImm), reg(Register::FF0)], 1.5f32.to_le_bytes().to_vec()])))
    );
    assert_eq!(
        compile(vec![Statement::Cmp(r(Register::FF0), r(Register::FF1), sp())]),
        Ok(image(vec![op(Opcode::CmpRegReg), reg(Register::FF0), reg(Register::FF1)]))
    );
}

#[test]
fn float_bitwise_operations_should_fail() {
    let cases = vec![
        Statement::And(r(Register::FF0), r(Register::FF1), r(Register::FF2), sp()),
        Statement::Or(r(Register::DD0), r(Register::DD1), r(Register::DD2), sp()),
        Statement::Xor(r(Register::FF0), r(Register::FF1), lit(42), sp()),
        Statement::Shl(r(Register::DD0), r(Register::DD1), lit(2), sp()),
        Statement::Shr(r(Register::FF0), r(Register::FF1), r(Register::FF2), sp()),
        Statement::And(r(Register::Q0), r(Register::FF1), r(Register::Q2), sp()),
        Statement::Or(r(Register::FF0), r(Register::Q1), r(Register::FF2), sp()),
    ];
    for stmt in cases {
        assert!(matches!(compile(vec![stmt]), Err(CompileError::InvalidOperands { .. })));
    }
}

#[test]
fn mixed_integer_float_arithmetic() {
    assert_eq!(
        compile(vec![Statement::Add(r(Register::DD0), r(Register::DD1), lit(42), sp())]),
        Ok(image(vec![
            op(Opcode::AddRegRegImm),
            reg(Register::DD0),
            reg(Register::DD1),
            0x00,
            0x00,
            0x00,
            0x00,
            0x00,
            0x00,
            0x45,
            0x40
        ]))
    );
    assert_eq!(
        compile(vec![Statement::Mul(r(Register::FF0), r(Register::FF1), lit(10), sp())]),
        Ok(image(vec![op(Opcode::MulRegRegImm), reg(Register::FF0), reg(Register::FF1), 0x00, 0x00, 0x20, 0x41]))
    );
}

#[test]
fn section_label_resolution() {
    let program = vec![
        Statement::Section(SectionType::Text, sp()),
        label("start"),
        Statement::Mov(r(Register::Q0), ident("data_value"), sp()),
        Statement::Section(SectionType::Data, sp()),
        label("data_value"),
        Statement::Db(vec![lit(42)], sp()),
        Statement::Section(SectionType::Text, sp()),
        label("end"),
        Statement::Mov(r(Register::Q1), ident("data_value"), sp()),
        Statement::Hlt(sp()),
    ];
    let img = compile(program).expect("compiles");
    // text: two 10-byte moves and a halt; the data label follows at 21.
    assert_eq!(&img[10..18], &le8(21)[..]);
    assert_eq!(&img[20..28], &le8(21)[..]);
    assert_eq!(img[29], 42);
}

#[test]
fn multiple_section_switches() {
    let program = vec![
        Statement::Section(SectionType::Text, sp()),
        label("func1"),
        Statement::Mov(r(Register::Q0), lit(1), sp()),
        Statement::Section(SectionType::Data, sp()),
        label("var1"),
        Statement::Db(vec![lit(1)], sp()),
        Statement::Section(SectionType::Text, sp()),
        label("func2"),
        Statement::Mov(r(Register::Q1), lit(2), sp()),
        Statement::Section(SectionType::Data, sp()),
        label("var2"),
        Statement::Db(vec![lit(2)], sp()),
        Statement::Section(SectionType::Text, sp()),
        label("main"),
        Statement::Hlt(sp()),
    ];
    assert!(compile(program).is_ok());
}

#[test]
fn label_address_written_at_fixup_site() {
    let img = compile(vec![
        label("_start"),
        Statement::Mov(r(Register::B0), ident("exit"), sp()),
        label("exit"),
        Statement::Hlt(sp()),
    ])
    .unwrap();
    assert_eq!(img[8], op(Opcode::MovRegImm));
    assert_eq!(img[9], reg(Register::B0));
    assert_eq!(img[10], 3);
}

#[test]
fn undefined_label_is_reported() {
    assert!(matches!(
        compile(vec![Statement::Jmp(ident("nowhere"), sp())]),
        Err(CompileError::UndefinedLabel { .. })
    ));
}

#[test]
fn duplicate_label_is_reported() {
    assert!(matches!(
        compile(vec![label("a"), label("a")]),
        Err(CompileError::DuplicateLabel { .. })
    ));
}

#[test]
fn entry_label_sets_header() {
    let img = compile(vec![
        Statement::Nop(sp()),
        label("main"),
        Statement::Hlt(sp()),
        Statement::Entry(ident("main"), sp()),
    ])
    .unwrap();
    assert_eq!(&img[..8], &le8(1)[..]);
}

#[test]
fn ascii_and_asciz() {
    assert_eq!(
        compile(vec![Statement::Asciz(Expression::StringLiteral("hi".to_string()), sp())]),
        Ok(image(vec![b'h', b'i', 0]))
    );
    assert_eq!(
        compile(vec![Statement::Ascii(Expression::StringLiteral("hi".to_string()), sp())]),
        Ok(image(vec![b'h', b'i']))
    );
}

#[test]
fn preprocessor_statements_are_unsupported() {
    assert!(matches!(
        compile(vec![Statement::Else(sp())]),
        Err(CompileError::UnsupportedOperation(_))
    ));
}

#[test]
fn bytecode_sections_and_writes() {
    let mut b = Bytecode::new(None);
    b.push(Section::Text, 1);
    b.extend(Section::Data, &[2, 3, 4, 5, 6, 7, 8, 9]);
    b.write_u16_at(Section::Data, 0, 0xBEEF);
    b.write_u32_at(Section::Data, 2, 0x01020304);
    b.write_u8_at(Section::Text, 0, 0xAA);
    assert_eq!(b.len(Section::Text), 1);
    assert_eq!(b.len(Section::Data), 8);
    assert_eq!(b.finalize(), vec![0xAA, 0xEF, 0xBE, 0x04, 0x03, 0x02, 0x01, 8, 9]);
    b.write_u64_at(Section::Data, 0, 0x1122334455667788);
    assert_eq!(&b.finalize()[1..], &0x1122334455667788u64.to_le_bytes()[..]);
}

#[test]
fn refused_operands_report_their_kind() {
    assert!(matches!(
        compile(vec![Statement::Mov(r(Register::FF0), lit(1), sp())]),
        Err(CompileError::InvalidDataSize(_))
    ));
    assert!(matches!(
        compile(vec![Statement::Db(vec![r(Register::Q0)], sp())]),
        Err(CompileError::InvalidExpression(_))
    ));
    assert!(matches!(
        compile(vec![Statement::Resb(lit(-1), sp())]),
        Err(CompileError::InvalidExpression(_))
    ));
    assert!(matches!(
        compile(vec![Statement::Pop(None, addr(lit(8), None), sp())]),
        Err(CompileError::InvalidOperands { .. })
    ));
}

#[test]
fn push_of_an_address_without_size_reads_a_qword() {
    assert_eq!(
        compile(vec![Statement::Push(None, addr(lit(64), None), sp())]),
        Ok(image(cat(vec![vec![op(Opcode::PushAddr), 0x03, 0x01], le8(64), le8(0)])))
    );
}

#[test]
fn sections() {
    let input = r#"
.section text
start:
    mov q0, 42
    nop

.section data
value:
    db 0x12, 0x34

.section text
end:
    hlt
"#;
    let program = Parser::new(Lexer::new(input.chars().collect())).parse(&HostFloat).expect("Failed to parse");
    let bytecode = Compiler::new(program).compile(&HostFloat).expect("Failed to compile");
    assert!(!bytecode.is_empty());
    assert!(bytecode.len() > 10);
}

#[test]
fn label_from_source_text() {
    let input = "_start:\n  mov b0, exit\nexit:\n  hlt";
    let program = Parser::new(Lexer::new(input.chars().collect())).parse(&HostFloat).unwrap();
    assert_eq!(
        Compiler::new(program).compile(&HostFloat),
        Ok(image(vec![op(Opcode::MovRegImm), reg(Register::B0), 0x03, op(Opcode::Hlt)]))
    );
}

#[test]
fn entry_outside_the_body_is_refused() {
    assert!(matches!(compile(vec![]), Err(CompileError::InvalidEntryPoint { entry: 0, body_len: 0 })));
    assert!(matches!(
        compile(vec![Statement::Nop(sp()), Statement::Entry(lit(5), sp())]),
        Err(CompileError::InvalidEntryPoint { entry: 5, body_len: 1 })
    ));
}
