use nyx::ast::{Expression, Statement};
use nyx::compiler::Compiler;
use nyx::float::{FloatOp, FloatOrder, FloatUnit};
use nyx::immediate::{DataSize, Immediate};
use nyx::lexer::Lexer;
use nyx::parser::Parser;
use nyx::register::{Register, Registers};
use nyx::span::Span;
use nyx::opcode::Opcode;
use nyx::vm::{compare, Error as VmError, RunOutcome, StepOutcome, VM};

const TEST_MEM_SIZE: usize = 1024;

struct HostFloat;

impl FloatUnit for HostFloat {
    fn f32_arith(&self, op: FloatOp, a: u32, b: u32) -> u32 {
        let (x, y) = (f32::from_bits(a), f32::from_bits(b));
        match op {
            FloatOp::Add => (x + y).to_bits(),
            FloatOp::Sub => (x - y).to_bits(),
            FloatOp::Mul => (x * y).to_bits(),
            FloatOp::Div => (x / y).to_bits(),
        }
    }
    fn f64_arith(&self, op: FloatOp, a: u64, b: u64) -> u64 {
        let (x, y) = (f64::from_bits(a), f64::from_bits(b));
        match op {
            FloatOp::Add => (x + y).to_bits(),
            FloatOp::Sub => (x - y).to_bits(),
            FloatOp::Mul => (x * y).to_bits(),
            FloatOp::Div => (x / y).to_bits(),
        }
    }
    fn f32_compare(&self, a: u32, b: u32) -> FloatOrder {
        order(f32::from_bits(a).partial_cmp(&f32::from_bits(b)))
    }
    fn f64_compare(&self, a: u64, b: u64) -> FloatOrder {
        order(f64::from_bits(a).partial_cmp(&f64::from_bits(b)))
    }
    fn f32_from_unsigned(&self, v: u64) -> u32 {
        (v as f32).to_bits()
    }
    fn f64_from_unsigned(&self, v: u64) -> u64 {
        (v as f64).to_bits()
    }
    fn f32_from_signed(&self, v: i64) -> u32 {
        (v as f32).to_bits()
    }
    fn f64_from_signed(&self, v: i64) -> u64 {
        (v as f64).to_bits()
    }
    fn f32_from_f64(&self, bits: u64) -> u32 {
        (f64::from_bits(bits) as f32).to_bits()
    }
    fn f64_from_f32(&self, bits: u32) -> u64 {
        (f32::from_bits(bits) as f64).to_bits()
    }
    fn f64_from_decimal(&self, text: &String) -> Option<u64> {
        text.parse::<f64>().ok().map(|f| f.to_bits())
    }

    fn f32_to_unsigned(&self, bits: u32, bytes: u8) -> u64 {
        let x = f32::from_bits(bits);
        match bytes {
            1 => x as u8 as u64,
            2 => x as u16 as u64,
            4 => x as u32 as u64,
            _ => x as u64,
        }
    }
    fn f64_to_unsigned(&self, bits: u64, bytes: u8) -> u64 {
        let x = f64::from_bits(bits);
        match bytes {
            1 => x as u8 as u64,
            2 => x as u16 as u64,
            4 => x as u32 as u64,
            _ => x as u64,
        }
    }
}

fn order(o: Option<std::cmp::Ordering>) -> FloatOrder {
    match o {
        Some(std::cmp::Ordering::Less) => FloatOrder::Less,
        Some(std::cmp::Ordering::Equal) => FloatOrder::Equal,
        Some(std::cmp::Ordering::Greater) => FloatOrder::Greater,
        None => FloatOrder::Unordered,
    }
}

fn sp() -> Span {
    Span::new(0, 0)
}

fn r(x: Register) -> Expression {
    Expression::Register(x)
}

fn lit(v: i64) -> Expression {
    Expression::IntegerLiteral(v)
}

fn float(v: f64) -> Expression {
    Expression::FloatLiteral(v.to_bits())
}

fn ident(s: &str) -> Expression {
    Expression::Identifier(s.to_string())
}

fn label(s: &str) -> Statement {
    Statement::Label(s.to_string(), sp())
}

fn size(s: DataSize) -> Option<Expression> {
    Some(Expression::DataSize(s))
}

fn addr(base: Expression, offset: Option<i64>) -> Expression {
    Expression::Address(Box::new(base), offset.map(|o| Box::new(lit(o))))
}

fn load(program: Vec<Statement>, data: Option<(usize, Immediate)>) -> VM {
    let image = Compiler::new(program).compile(&HostFloat).expect("compiles");
    let mut vm = VM::new(image, TEST_MEM_SIZE).expect("loads");
    if let Some((at, value)) = data {
        vm.mem.store(at, value).expect("in bounds");
    }
    vm
}

fn run(program: Vec<Statement>, data: Option<(usize, Immediate)>) -> VM {
    let mut vm = load(program, data);
    match vm.run(&HostFloat, 100_000) {
        Ok(RunOutcome::Halted) => vm,
        other => panic!("did not halt: {:?}", other),
    }
}

#[test]
fn hlt() {
    let vm = run(vec![Statement::Hlt(sp())], None);
    assert_eq!(vm.halted, true);
}

#[test]
fn nop() {
    let vm = run(vec![Statement::Nop(sp()), Statement::Hlt(sp())], None);
    assert_eq!(vm.halted, true);
    assert_eq!(vm.regs.ip(), 2);
}

#[test]
fn mov() {
    let vm = run(
        vec![
            Statement::Mov(r(Register::Q0), lit(1337), sp()),
            Statement::Mov(r(Register::D1), r(Register::Q0), sp()),
            Statement::Mov(r(Register::DD0), float(4.20), sp()),
            Statement::Mov(r(Register::FF1), r(Register::DD0), sp()),
            Statement::Hlt(sp()),
        ],
        None,
    );
    assert_eq!(vm.halted, true);
    assert_eq!(vm.regs.ip(), 27);
    assert_eq!(vm.regs.get(Register::Q0), Immediate::QWord(1337));
    assert_eq!(vm.regs.get(Register::D1), Immediate::DWord(1337));
    assert_eq!(vm.regs.get(Register::DD0), Immediate::Double(4.20f64.to_bits()));
    assert_eq!(vm.regs.get(Register::FF1), Immediate::Float(4.20f32.to_bits()));
}

#[test]
fn ldr() {
    let data_addr = 512;
    let vm = run(
        vec![
            Statement::Mov(r(Register::D0), lit(data_addr as i64), sp()),
            Statement::Ldr(r(Register::Q0), addr(r(Register::D0), Some(0)), sp()),
            Statement::Hlt(sp()),
        ],
        Some((data_addr, Immediate::QWord(1337))),
    );
    assert_eq!(vm.halted, true);
    assert_eq!(vm.regs.ip(), 19);
    assert_eq!(vm.regs.get(Register::Q0), Immediate::QWord(1337));
}

#[test]
fn str() {
    let data_addr = 512;
    let vm = run(
        vec![
            Statement::Mov(r(Register::D1), lit(data_addr as i64), sp()),
            Statement::Mov(r(Register::Q0), lit(7331), sp()),
            Statement::Str(r(Register::Q0), addr(r(Register::D1), None), sp()),
            Statement::Hlt(sp()),
        ],
        None,
    );
    assert_eq!(vm.halted, true);
    assert_eq!(vm.regs.ip(), 29);
    assert_eq!(vm.mem.read(data_addr, DataSize::QWord), Ok(Immediate::QWord(7331)));
}

#[test]
fn push() {
    let vm = run(
        vec![
            Statement::Mov(r(Register::Q0), lit(1337), sp()),
            Statement::Push(size(DataSize::DWord), r(Register::Q0), sp()),
            Statement::Hlt(sp()),
        ],
        None,
    );
    assert!(vm.halted);
    assert_eq!(vm.regs.sp(), vm.mem.storage.len() - 4);
    assert_eq!(vm.mem.read(vm.regs.sp(), DataSize::DWord), Ok(Immediate::DWord(1337)));
}

#[test]
fn pop() {
    let vm = run(
        vec![
            Statement::Push(size(DataSize::QWord), lit(1337), sp()),
            Statement::Pop(size(DataSize::QWord), r(Register::Q0), sp()),
            Statement::Hlt(sp()),
        ],
        None,
    );
    assert!(vm.halted);
    assert_eq!(vm.regs.sp(), vm.mem.storage.len());
    assert_eq!(vm.regs.get(Register::Q0), Immediate::QWord(1337));
}

#[test]
fn cmp() {
    let vm = run(
        vec![
            Statement::Mov(r(Register::Q0), lit(1337), sp()),
            Statement::Cmp(r(Register::Q0), lit(1337), sp()),
            Statement::Hlt(sp()),
        ],
        None,
    );
    assert!(vm.halted);
    assert_eq!(vm.regs.ip(), 21);
    assert!(vm.flags.eq);
}

#[test]
fn call_and_ret() {
    let vm = run(
        vec![
            Statement::Call(ident("function"), sp()),
            Statement::Hlt(sp()),
            label("function"),
            Statement::Mov(r(Register::Q15), lit(1337), sp()),
            Statement::Ret(sp()),
        ],
        None,
    );
    assert!(vm.halted);
    assert_eq!(vm.regs.ip(), 10);
    assert_eq!(vm.regs.get(Register::Q15), Immediate::QWord(1337));

    let vm = run(
        vec![
            Statement::Mov(r(Register::Q0), ident("function"), sp()),
            Statement::Call(r(Register::Q0), sp()),
            Statement::Hlt(sp()),
            label("function"),
            Statement::Mov(r(Register::Q15), lit(1337), sp()),
            Statement::Ret(sp()),
        ],
        None,
    );
    assert!(vm.halted);
    assert_eq!(vm.regs.ip(), 13);
    assert_eq!(vm.regs.get(Register::Q15), Immediate::QWord(1337));
}

#[test]
fn inc_and_dec() {
    let vm = run(
        vec![
            Statement::Mov(r(Register::Q0), lit(1337), sp()),
            Statement::Mov(r(Register::Q1), r(Register::Q0), sp()),
            Statement::Inc(r(Register::Q0), sp()),
            Statement::Dec(r(Register::Q1), sp()),
            Statement::Hlt(sp()),
        ],
        None,
    );
    assert!(vm.halted);
    assert_eq!(vm.regs.ip(), 18);
    assert_eq!(vm.regs.get(Register::Q0), Immediate::QWord(1338));
    assert_eq!(vm.regs.get(Register::Q1), Immediate::QWord(1336));
}

#[test]
fn overlapping_gpr_registers() {
    let mut regs = Registers::new();
    regs.set(Register::Q0, Immediate::QWord(0x123456789ABCDEF0), &HostFloat);
    assert_eq!(regs.get(Register::B0), Immediate::Byte(0xF0));
    assert_eq!(regs.get(Register::W0), Immediate::Word(0xDEF0));
    assert_eq!(regs.get(Register::D0), Immediate::DWord(0x9ABCDEF0));
    assert_eq!(regs.get(Register::Q0), Immediate::QWord(0x123456789ABCDEF0));
}

#[test]
fn multiple_gpr_independence() {
    let mut regs = Registers::new();
    regs.set(Register::Q0, Immediate::QWord(0x1111111111111111), &HostFloat);
    regs.set(Register::Q1, Immediate::QWord(0x2222222222222222), &HostFloat);
    assert_eq!(regs.get(Register::Q0), Immediate::QWord(0x1111111111111111));
    assert_eq!(regs.get(Register::Q1), Immediate::QWord(0x2222222222222222));
    assert_eq!(regs.get(Register::D0), Immediate::DWord(0x11111111));
    assert_eq!(regs.get(Register::D1), Immediate::DWord(0x22222222));
}

#[test]
fn byte_register_update() {
    let mut regs = Registers::new();
    regs.set(Register::Q0, Immediate::QWord(0x123456789ABCDEF0), &HostFloat);
    regs.set(Register::B0, Immediate::Byte(0x42), &HostFloat);
    assert_eq!(regs.get(Register::B0), Immediate::Byte(0x42));
    assert_eq!(regs.get(Register::W0), Immediate::Word(0xDE42));
    assert_eq!(regs.get(Register::D0), Immediate::DWord(0x9ABCDE42));
    assert_eq!(regs.get(Register::Q0), Immediate::QWord(0x123456789ABCDE42));
}

#[test]
fn word_register_update() {
    let mut regs = Registers::new();
    regs.set(Register::Q0, Immediate::QWord(0x123456789ABCDEF0), &HostFloat);
    regs.set(Register::W0, Immediate::Word(0x1234), &HostFloat);
    assert_eq!(regs.get(Register::B0), Immediate::Byte(0x34));
    assert_eq!(regs.get(Register::W0), Immediate::Word(0x1234));
    assert_eq!(regs.get(Register::D0), Immediate::DWord(0x9ABC1234));
    assert_eq!(regs.get(Register::Q0), Immediate::QWord(0x123456789ABC1234));
}

#[test]
fn dword_register_update_zeros_upper() {
    let mut regs = Registers::new();
    regs.set(Register::Q0, Immediate::QWord(0x123456789ABCDEF0), &HostFloat);
    regs.set(Register::D0, Immediate::DWord(0x12345678), &HostFloat);
    assert_eq!(regs.get(Register::B0), Immediate::Byte(0x78));
    assert_eq!(regs.get(Register::W0), Immediate::Word(0x5678));
    assert_eq!(regs.get(Register::D0), Immediate::DWord(0x12345678));
    assert_eq!(regs.get(Register::Q0), Immediate::QWord(0x12345678));
}

#[test]
fn floating_point_registers() {
    let mut regs = Registers::new();
    regs.set(Register::DD0, Immediate::Double(123.456f64.to_bits()), &HostFloat);
    match regs.get(Register::DD0) {
        Immediate::Double(bits) => assert!((f64::from_bits(bits) - 123.456).abs() < f64::EPSILON),
        _ => panic!("Expected Double"),
    }
    regs.set(Register::FF0, Immediate::Float(42.0f32.to_bits()), &HostFloat);
    match regs.get(Register::FF0) {
        Immediate::Float(bits) => assert!((f32::from_bits(bits) - 42.0).abs() < f32::EPSILON),
        _ => panic!("Expected Float"),
    }
}

#[test]
fn register_independence() {
    let mut regs = Registers::new();
    regs.set(Register::D1, Immediate::DWord(512), &HostFloat);
    regs.set(Register::Q0, Immediate::QWord(7331), &HostFloat);
    assert_eq!(regs.get(Register::D1), Immediate::DWord(512));
    assert_eq!(regs.get(Register::Q0), Immediate::QWord(7331));
}

#[test]
fn arithmetic_operations() {
    let vm = run(
        vec![
            Statement::Mov(r(Register::Q0), lit(10), sp()),
            Statement::Mov(r(Register::Q1), lit(5), sp()),
            Statement::Add(r(Register::Q2), r(Register::Q0), r(Register::Q1), sp()),
            Statement::Sub(r(Register::Q3), r(Register::Q0), r(Register::Q1), sp()),
            Statement::Mul(r(Register::Q4), r(Register::Q0), r(Register::Q1), sp()),
            Statement::Div(r(Register::Q5), r(Register::Q0), r(Register::Q1), sp()),
            Statement::Hlt(sp()),
        ],
        None,
    );
    assert!(vm.halted);
    assert_eq!(vm.regs.get(Register::Q0), Immediate::QWord(10));
    assert_eq!(vm.regs.get(Register::Q1), Immediate::QWord(5));
    assert_eq!(vm.regs.get(Register::Q2), Immediate::QWord(15));
    assert_eq!(vm.regs.get(Register::Q3), Immediate::QWord(5));
    assert_eq!(vm.regs.get(Register::Q4), Immediate::QWord(50));
    assert_eq!(vm.regs.get(Register::Q5), Immediate::QWord(2));
}

#[test]
fn arithmetic_immediate() {
    let vm = run(
        vec![
            Statement::Mov(r(Register::Q0), lit(20), sp()),
            Statement::Add(r(Register::Q1), r(Register::Q0), lit(5), sp()),
            Statement::Sub(r(Register::Q2), r(Register::Q0), lit(3), sp()),
            Statement::Mul(r(Register::Q3), r(Register::Q0), lit(2), sp()),
            Statement::Div(r(Register::Q4), r(Register::Q0), lit(4), sp()),
            Statement::Hlt(sp()),
        ],
        None,
    );
    assert!(vm.halted);
    assert_eq!(vm.regs.get(Register::Q0), Immediate::QWord(20));
    assert_eq!(vm.regs.get(Register::Q1), Immediate::QWord(25));
    assert_eq!(vm.regs.get(Register::Q2), Immediate::QWord(17));
    assert_eq!(vm.regs.get(Register::Q3), Immediate::QWord(40));
    assert_eq!(vm.regs.get(Register::Q4), Immediate::QWord(5));
}

#[test]
fn bitwise_operations() {
    let vm = run(
        vec![
            Statement::Mov(r(Register::Q0), lit(15), sp()),
            Statement::Mov(r(Register::Q1), lit(10), sp()),
            Statement::And(r(Register::Q2), r(Register::Q0), r(Register::Q1), sp()),
            Statement::Or(r(Register::Q3), r(Register::Q0), r(Register::Q1), sp()),
            Statement::Xor(r(Register::Q4), r(Register::Q0), r(Register::Q1), sp()),
            Statement::Hlt(sp()),
        ],
        None,
    );
    assert!(vm.halted);
    assert_eq!(vm.regs.get(Register::Q2), Immediate::QWord(10));
    assert_eq!(vm.regs.get(Register::Q3), Immediate::QWord(15));
    assert_eq!(vm.regs.get(Register::Q4), Immediate::QWord(5));
}

#[test]
fn shift_operations() {
    let vm = run(
        vec![
            Statement::Mov(r(Register::Q0), lit(8), sp()),
            Statement::Mov(r(Register::Q1), lit(2), sp()),
            Statement::Shl(r(Register::Q2), r(Register::Q0), r(Register::Q1), sp()),
            Statement::Shr(r(Register::Q3), r(Register::Q2), r(Register::Q1), sp()),
            Statement::Hlt(sp()),
        ],
        None,
    );
    assert!(vm.halted);
    assert_eq!(vm.regs.get(Register::Q2), Immediate::QWord(32));
    assert_eq!(vm.regs.get(Register::Q3), Immediate::QWord(8));
}

fn jump_program(cond: Statement, value: i64, trailing_hlt: bool) -> Vec<Statement> {
    let mut p = vec![
        Statement::Jmp(ident("_start"), sp()),
        label("_exit"),
        Statement::Hlt(sp()),
        label("_start"),
        Statement::Mov(r(Register::Q0), lit(value), sp()),
        Statement::Cmp(r(Register::Q0), lit(1337), sp()),
        cond,
    ];
    if trailing_hlt {
        p.push(Statement::Hlt(sp()));
    }
    p
}

#[test]
fn jump_operations() {
    let vm = run(
        vec![
            Statement::Jmp(ident("_start"), sp()),
            label("_exit"),
            Statement::Hlt(sp()),
            label("_start"),
            Statement::Jmp(ident("_exit"), sp()),
        ],
        None,
    );
    assert!(vm.halted);
    assert_eq!(vm.regs.ip(), 10);
    let vm = run(jump_program(Statement::Jeq(ident("_exit"), sp()), 1337, false), None);
    assert_eq!(vm.regs.ip(), 10);
    let vm = run(jump_program(Statement::Jne(ident("_exit"), sp()), 1337, true), None);
    assert_eq!(vm.regs.ip(), 40);
    let vm = run(jump_program(Statement::Jlt(ident("_exit"), sp()), 1336, false), None);
    assert_eq!(vm.regs.ip(), 10);
    let vm = run(jump_program(Statement::Jgt(ident("_exit"), sp()), 1336, true), None);
    assert_eq!(vm.regs.ip(), 40);
}

#[test]
fn floating_point_arithmetic() {
    let vm = run(
        vec![
            Statement::Mov(r(Register::FF0), float(3.5), sp()),
            Statement::Mov(r(Register::FF1), float(1.5), sp()),
            Statement::Add(r(Register::FF2), r(Register::FF0), r(Register::FF1), sp()),
            Statement::Sub(r(Register::FF3), r(Register::FF0), r(Register::FF1), sp()),
            Statement::Mul(r(Register::FF4), r(Register::FF0), r(Register::FF1), sp()),
            Statement::Div(r(Register::FF5), r(Register::FF0), r(Register::FF1), sp()),
            Statement::Hlt(sp()),
        ],
        None,
    );
    assert!(vm.halted);
    let get = |reg| match vm.regs.get(reg) {
        Immediate::Float(bits) => f32::from_bits(bits),
        _ => panic!("Expected float"),
    };
    assert!((get(Register::FF2) - 5.0).abs() < f32::EPSILON);
    assert!((get(Register::FF3) - 2.0).abs() < f32::EPSILON);
    assert!((get(Register::FF4) - 5.25).abs() < f32::EPSILON);
    assert!((get(Register::FF5) - (7.0 / 3.0)).abs() < f32::EPSILON);
}

#[test]
fn mixed_register_sizes() {
    let vm = run(
        vec![
            Statement::Mov(r(Register::W0), lit(300), sp()),
            Statement::Mov(r(Register::B1), lit(50), sp()),
            Statement::Add(r(Register::W2), r(Register::W0), r(Register::B1), sp()),
            Statement::Hlt(sp()),
        ],
        None,
    );
    assert!(vm.halted);
    assert_eq!(vm.regs.get(Register::W0), Immediate::Word(300));
    assert_eq!(vm.regs.get(Register::B1), Immediate::Byte(50));
    assert_eq!(vm.regs.get(Register::W2), Immediate::Word(350));
}

#[test]
fn overflow_wrapping() {
    let vm = run(
        vec![
            Statement::Mov(r(Register::B0), lit(255), sp()),
            Statement::Add(r(Register::B1), r(Register::B0), lit(1), sp()),
            Statement::Mov(r(Register::W0), lit(65535), sp()),
            Statement::Add(r(Register::W1), r(Register::W0), lit(1), sp()),
            Statement::Hlt(sp()),
        ],
        None,
    );
    assert!(vm.halted);
    assert_eq!(vm.regs.get(Register::B0), Immediate::Byte(255));
    assert_eq!(vm.regs.get(Register::B1), Immediate::Byte(0));
    assert_eq!(vm.regs.get(Register::W0), Immediate::Word(65535));
    assert_eq!(vm.regs.get(Register::W1), Immediate::Word(0));
}

#[test]
fn mov_then_halt_sets_q0() {
    let vm = run(vec![Statement::Mov(r(Register::Q0), lit(1337), sp()), Statement::Hlt(sp())], None);
    assert_eq!(vm.regs.get(Register::Q0), Immediate::QWord(1337));
}

#[test]
fn add_of_two_registers() {
    let vm = run(
        vec![
            Statement::Mov(r(Register::Q0), lit(10), sp()),
            Statement::Mov(r(Register::Q1), lit(5), sp()),
            Statement::Add(r(Register::Q2), r(Register::Q0), r(Register::Q1), sp()),
            Statement::Hlt(sp()),
        ],
        None,
    );
    assert_eq!(vm.regs.get(Register::Q2), Immediate::QWord(15));
}

#[test]
fn push_pop_restores_sp() {
    let vm = run(
        vec![
            Statement::Push(size(DataSize::QWord), lit(1337), sp()),
            Statement::Pop(size(DataSize::QWord), r(Register::Q0), sp()),
            Statement::Hlt(sp()),
        ],
        None,
    );
    assert_eq!(vm.regs.sp(), TEST_MEM_SIZE);
    assert_eq!(vm.regs.get(Register::Q0), Immediate::QWord(1337));
}

#[test]
fn push_then_pop_each_width() {
    for value in [
        Immediate::Byte(0xAB),
        Immediate::Word(0xBEEF),
        Immediate::DWord(0xDEADBEEF),
        Immediate::QWord(0x0123456789ABCDEF),
        Immediate::Float(1.5f32.to_bits()),
        Immediate::Double(2.25f64.to_bits()),
    ] {
        let mut vm = load(vec![Statement::Hlt(sp())], None);
        let before = vm.regs.sp();
        vm.push(value).unwrap();
        assert_eq!(vm.regs.sp(), before - value.size().size_in_bytes());
        assert_eq!(vm.pop(value.size()), Ok(value));
        assert_eq!(vm.regs.sp(), before);
    }
}

#[test]
fn call_returns_after_call_site() {
    let vm = run(
        vec![
            Statement::Call(ident("f"), sp()),
            Statement::Hlt(sp()),
            label("f"),
            Statement::Mov(r(Register::Q15), lit(1337), sp()),
            Statement::Ret(sp()),
        ],
        None,
    );
    assert_eq!(vm.regs.get(Register::Q15), Immediate::QWord(1337));
    assert_eq!(vm.regs.ip(), 10);
}

#[test]
fn compare_sets_flags() {
    let f = compare(Immediate::QWord(3), Immediate::QWord(5), &HostFloat);
    assert!(!f.eq && f.lt);
    let f = compare(Immediate::QWord(5), Immediate::QWord(5), &HostFloat);
    assert!(f.eq && !f.lt);
    let f = compare(Immediate::QWord(7), Immediate::QWord(5), &HostFloat);
    assert!(!f.eq && !f.lt);
    let f = compare(Immediate::Byte(200), Immediate::QWord(1), &HostFloat);
    assert!(!f.eq && f.lt);
    let f = compare(Immediate::Float(1.0f32.to_bits()), Immediate::Float(2.0f32.to_bits()), &HostFloat);
    assert!(!f.eq && f.lt);
}

#[test]
fn loader_rejects_short_images() {
    assert_eq!(VM::new(vec![0; 7], 64).err(), Some(VmError::ProgramTooSmall(7)));
}

#[test]
fn loader_rejects_entry_past_body() {
    let mut image = 2u64.to_le_bytes().to_vec();
    image.extend([0u8, 0u8]);
    assert_eq!(
        VM::new(image, 64).err(),
        Some(VmError::InvalidEntryPoint { entry_point: 2, program_size: 2 })
    );
}

#[test]
fn loader_rejects_body_larger_than_memory() {
    let mut image = 0u64.to_le_bytes().to_vec();
    image.extend([0u8; 16]);
    assert_eq!(
        VM::new(image, 8).err(),
        Some(VmError::ProgramTooLarge { program_size: 16, memory_size: 8 })
    );
}

#[test]
fn loader_sets_registers() {
    let mut image = 1u64.to_le_bytes().to_vec();
    image.extend([9u8, 9u8, 9u8]);
    let vm = VM::new(image, 32).unwrap();
    assert_eq!(vm.regs.ip(), 1);
    assert_eq!(vm.regs.sp(), 32);
    assert_eq!(vm.regs.bp(), 0);
    assert_eq!(&vm.mem.storage[..4], &[9, 9, 9, 0]);
    assert!(!vm.halted);
}

#[test]
fn invalid_opcode_is_reported() {
    let mut image = 0u64.to_le_bytes().to_vec();
    image.push(0xFF);
    let mut vm = VM::new(image, 16).unwrap();
    assert_eq!(vm.step(&HostFloat), Err(VmError::InvalidOpcode(0xFF)));
}

#[test]
fn division_by_zero_stops_the_machine() {
    let mut vm = load(
        vec![
            Statement::Mov(r(Register::Q0), lit(10), sp()),
            Statement::Div(r(Register::Q1), r(Register::Q0), lit(0), sp()),
            Statement::Hlt(sp()),
        ],
        None,
    );
    assert_eq!(vm.run(&HostFloat, 100), Err(VmError::DivisionByZero));
}

#[test]
fn stack_overflow_and_underflow() {
    let mut vm = load(vec![Statement::Hlt(sp())], None);
    vm.regs.set_sp(2);
    assert_eq!(vm.push(Immediate::DWord(1)), Err(VmError::StackOverflow));
    vm.regs.set_sp(TEST_MEM_SIZE - 2);
    assert_eq!(vm.pop(DataSize::DWord), Err(VmError::StackUnderflow));
}

#[test]
fn syscall_is_handed_to_the_host() {
    let mut vm = load(
        vec![Statement::Mov(r(Register::Q15), lit(3), sp()), Statement::Syscall(sp()), Statement::Hlt(sp())],
        None,
    );
    assert_eq!(vm.run(&HostFloat, 100), Ok(RunOutcome::Syscall(3)));
    let mut vm = load(
        vec![Statement::Mov(r(Register::Q15), lit(9), sp()), Statement::Syscall(sp()), Statement::Hlt(sp())],
        None,
    );
    assert_eq!(vm.step(&HostFloat), Ok(StepOutcome::Continue));
    assert_eq!(vm.step(&HostFloat), Err(VmError::UnknownSyscall(9)));
}

#[test]
fn shifts_mask_the_amount() {
    let vm = run(
        vec![
            Statement::Mov(r(Register::B0), lit(1), sp()),
            Statement::Shl(r(Register::B1), r(Register::B0), lit(9), sp()),
            Statement::Hlt(sp()),
        ],
        None,
    );
    assert_eq!(vm.regs.get(Register::B1), Immediate::Byte(2));
}

#[test]
fn jgt_is_taken_on_equal_values() {
    let vm = run(jump_program(Statement::Jgt(ident("_exit"), sp()), 1337, true), None);
    assert_eq!(vm.regs.ip(), 10);
}

#[test]
fn bad_operand_bytes_are_reported() {
    let mut image = 0u64.to_le_bytes().to_vec();
    image.extend([Opcode::Inc.to_byte(), 0xF0]);
    let mut vm = VM::new(image, 16).unwrap();
    assert_eq!(vm.step(&HostFloat), Err(VmError::InvalidRegister(0xF0)));

    let mut image = 0u64.to_le_bytes().to_vec();
    image.extend([Opcode::Ldr.to_byte(), Register::Q0.to_byte(), 0x07]);
    let mut vm = VM::new(image, 16).unwrap();
    assert_eq!(vm.step(&HostFloat), Err(VmError::UnknownAddressingVariant(0x07)));

    let mut image = 0u64.to_le_bytes().to_vec();
    image.extend([Opcode::PushImm.to_byte(), 0x09]);
    let mut vm = VM::new(image, 16).unwrap();
    assert_eq!(vm.step(&HostFloat), Err(VmError::InvalidDataSize(0x09)));

    let mut image = 0u64.to_le_bytes().to_vec();
    image.extend([Opcode::JmpImm.to_byte(), 0x01]);
    let mut vm = VM::new(image, 2).unwrap();
    assert_eq!(vm.step(&HostFloat), Err(VmError::InstructionPointerOutOfBounds(1)));
}

fn run_src(input: &str) -> VM {
    let program = Parser::new(Lexer::new(input.chars().collect())).parse(&HostFloat).expect("parses");
    run(program, None)
}

#[test]
fn float_arithmetic_with_literals() {
    let input = r#"
        mov ff0, 10.5
        add ff1, ff0, 2.5
        sub ff2, ff0, 1.5
        mul ff3, ff0, 2.0
        div ff4, ff0, 3.0
        hlt
    "#;
    let vm = run_src(input);

    assert!(vm.halted);

    match vm.regs.get(Register::FF0) {
        Immediate::Float(bits) => {
            let val = f32::from_bits(bits);
            assert!((val - 10.5).abs() < f32::EPSILON)
        }
        _ => panic!("Expected float"),
    }

    match vm.regs.get(Register::FF1) {
        Immediate::Float(bits) => {
            let val = f32::from_bits(bits);
            assert!((val - 13.0).abs() < f32::EPSILON)
        }
        _ => panic!("Expected float"),
    }

    match vm.regs.get(Register::FF2) {
        Immediate::Float(bits) => {
            let val = f32::from_bits(bits);
            assert!((val - 9.0).abs() < f32::EPSILON)
        }
        _ => panic!("Expected float"),
    }

    match vm.regs.get(Register::FF3) {
        Immediate::Float(bits) => {
            let val = f32::from_bits(bits);
            assert!((val - 21.0).abs() < f32::EPSILON)
        }
        _ => panic!("Expected float"),
    }

    match vm.regs.get(Register::FF4) {
        Immediate::Float(bits) => {
            let val = f32::from_bits(bits);
            assert!((val - 3.5).abs() < f32::EPSILON)
        }
        _ => panic!("Expected float"),
    }
}

#[test]
fn double_precision_arithmetic() {
    let input = r#"
        mov dd0, 123.456789012345
        add dd1, dd0, 0.000000987654
        sub dd2, dd0, 0.456789012345
        mul dd3, dd0, 2.0
        div dd4, dd0, 3.0
        hlt
    "#;
    let vm = run_src(input);

    assert!(vm.halted);

    match vm.regs.get(Register::DD0) {
        Immediate::Double(bits) => {
            let val = f64::from_bits(bits);
            assert!((val - 123.456789012345).abs() < f64::EPSILON)
        }
        _ => panic!("Expected double"),
    }

    match vm.regs.get(Register::DD1) {
        Immediate::Double(bits) => {
            let val = f64::from_bits(bits);
            assert!((val - 123.456789999999).abs() < 1e-10)
        }
        _ => panic!("Expected double"),
    }

    match vm.regs.get(Register::DD2) {
        Immediate::Double(bits) => {
            let val = f64::from_bits(bits);
            assert!((val - 123.0).abs() < f64::EPSILON)
        }
        _ => panic!("Expected double"),
    }

    match vm.regs.get(Register::DD3) {
        Immediate::Double(bits) => {
            let val = f64::from_bits(bits);
            assert!((val - 246.91357802469).abs() < 1e-10)
        }
        _ => panic!("Expected double"),
    }

    match vm.regs.get(Register::DD4) {
        Immediate::Double(bits) => {
            let val = f64::from_bits(bits);
            assert!((val - 41.152263004115).abs() < 1e-10)
        }
        _ => panic!("Expected double"),
    }
}

#[test]
fn float_comparison() {
    let input = r#"
        mov ff0, 3.14
        cmp ff0, 3.14
        mov ff1, 2.71
        cmp ff1, 3.14
        hlt
    "#;
    let vm = run_src(input);

    assert!(vm.halted);
    assert!(vm.flags.lt);
    assert!(!vm.flags.eq);
}

#[test]
fn mixed_float_integer_arithmetic() {
    let input = r#"
        mov ff0, 10.0
        add ff1, ff0, 5
        mov dd0, 20.0
        mul dd1, dd0, 3
        hlt
    "#;
    let vm = run_src(input);

    assert!(vm.halted);

    match vm.regs.get(Register::FF1) {
        Immediate::Float(bits) => {
            let val = f32::from_bits(bits);
            assert!((val - 15.0).abs() < f32::EPSILON)
        }
        _ => panic!("Expected float"),
    }

    match vm.regs.get(Register::DD1) {
        Immediate::Double(bits) => {
            let val = f64::from_bits(bits);
            assert!((val - 60.0).abs() < f64::EPSILON)
        }
        _ => panic!("Expected double"),
    }
}

#[test]
fn float_stack_operations() {
    let input = r#"
        mov ff0, 42.5
        push FLOAT ff0
        mov ff0, 0.0
        pop FLOAT ff1

        mov dd0, 123.456
        push DOUBLE dd0
        mov dd0, 0.0
        pop DOUBLE dd1
        hlt
    "#;
    let vm = run_src(input);

    assert!(vm.halted);

    match vm.regs.get(Register::FF1) {
        Immediate::Float(bits) => {
            let val = f32::from_bits(bits);
            assert!((val - 42.5).abs() < f32::EPSILON)
        }
        _ => panic!("Expected float"),
    }

    match vm.regs.get(Register::DD1) {
        Immediate::Double(bits) => {
            let val = f64::from_bits(bits);
            assert!((val - 123.456).abs() < f64::EPSILON)
        }
        _ => panic!("Expected double"),
    }
}

#[test]
fn float_memory_operations() {
    let data_addr = 512;
    let input = format!(
        r#"
            mov d0, {data_addr}
            mov ff0, 3.14159
            str ff0, [d0]
            mov ff0, 0.0
            ldr ff1, [d0]

            mov dd0, 2.71828
            str dd0, [d0, 8]
            mov dd0, 0.0
            ldr dd1, [d0, 8]
            hlt
        "#
    );
    let vm = run_src(&input);

    assert!(vm.halted);

    match vm.regs.get(Register::FF1) {
        Immediate::Float(bits) => {
            let val = f32::from_bits(bits);
            assert!((val - 3.14159).abs() < f32::EPSILON)
        }
        _ => panic!("Expected float"),
    }

    match vm.regs.get(Register::DD1) {
        Immediate::Double(bits) => {
            let val = f64::from_bits(bits);
            assert!((val - 2.71828).abs() < f64::EPSILON)
        }
        _ => panic!("Expected double"),
    }
}

#[test]
fn float_register_independence() {
    let input = r#"
        mov ff0, 1.5
        mov dd0, 2.5
        mov ff1, 3.5
        mov dd1, 4.5
        hlt
    "#;
    let vm = run_src(input);

    assert!(vm.halted);

    println!("FF0: {:?}", vm.regs.get(Register::FF0));
    println!("DD0: {:?}", vm.regs.get(Register::DD0));
    println!("FF1: {:?}", vm.regs.get(Register::FF1));
    println!("DD1: {:?}", vm.regs.get(Register::DD1));

    println!("Q0: {:?}", vm.regs.get(Register::Q0));
    println!("Q1: {:?}", vm.regs.get(Register::Q1));

    match vm.regs.get(Register::FF0) {
        Immediate::Float(bits) => {
            let val = f32::from_bits(bits);
            println!(
                "FF0 actual value: {}, expected: 1.5, diff: {}",
                val,
                (val - 1.5).abs()
            );
            assert!((val - 1.5).abs() < f32::EPSILON);
        }
        other => panic!("Expected float, got {:?}", other),
    }

    match vm.regs.get(Register::DD0) {
        Immediate::Double(bits) => {
            let val = f64::from_bits(bits);
            assert!((val - 2.5).abs() < f64::EPSILON)
        }
        _ => panic!("Expected double"),
    }

    match vm.regs.get(Register::FF1) {
        Immediate::Float(bits) => {
            let val = f32::from_bits(bits);
            assert!((val - 3.5).abs() < f32::EPSILON)
        }
        _ => panic!("Expected float"),
    }

    match vm.regs.get(Register::DD1) {
        Immediate::Double(bits) => {
            let val = f64::from_bits(bits);
            assert!((val - 4.5).abs() < f64::EPSILON)
        }
        _ => panic!("Expected double"),
    }
}

#[test]
fn debug_simple_float_mov() {
    let input = r#"
        mov ff0, 1.5
        hlt
    "#;
    let vm = run_src(input);

    assert!(vm.halted);
    println!("FF0 register value: {:?}", vm.regs.get(Register::FF0));

    match vm.regs.get(Register::FF0) {
        Immediate::Float(bits) => {
            let val = f32::from_bits(bits);
            println!("FF0 actual value: {}, expected: 1.5", val);
            assert!((val - 1.5).abs() < f32::EPSILON);
        }
        other => panic!("Expected float, got {:?}", other),
    }
}
