use vstd::prelude::*;
use vstd::bytes::spec_u64_from_le_bytes;
use vstd::slice::{slice_subrange, slice_to_vec};

use crate::flags::Flags;
use crate::float::{FloatOp, FloatOrder, FloatUnit};
use crate::immediate::{splice, write_bytes, DataSize, Immediate};
use crate::memory::Memory;
use crate::opcode::Opcode;
use crate::register::{Register, RegisterFile, Registers, IP_REG, SP_REG, BP_REG};

verus! {

/// Errors that stop the virtual machine.
#[derive(Debug, Clone, PartialEq, Eq, Structural)]
pub enum Error {
    InvalidOpcode(u8),
    InvalidRegister(u8),
    InvalidDataSize(u8),
    UnknownAddressingVariant(u8),
    InstructionPointerOutOfBounds(u64),
    StackOverflow,
    StackUnderflow,
    UnknownSyscall(u64),
    DivisionByZero,
    ProgramTooSmall(usize),
    InvalidEntryPoint { entry_point: u64, program_size: usize },
    ProgramTooLarge { program_size: usize, memory_size: usize },
}

/// Addressing variant: a base register followed by an 8-byte offset.
pub const ADDRESSING_REGISTER: u8 = 0x00;

/// Addressing variant: an 8-byte literal base followed by an 8-byte offset.
pub const ADDRESSING_LITERAL: u8 = 0x01;

/// The syscalls the machine knows: open, close, read, write.
pub const SYSCALL_COUNT: u64 = 4;

/// The operations of the arithmetic and logic unit.
#[derive(Debug, Clone, Copy, PartialEq, Eq, Structural)]
pub enum AluOp {
    Add,
    Sub,
    Mul,
    Div,
    And,
    Or,
    Xor,
    Shl,
    Shr,
}

/// The conditions of the jump instructions.
#[derive(Debug, Clone, Copy, PartialEq, Eq, Structural)]
pub enum JumpCondition {
    Always,
    Equal,
    NotEqual,
    Less,
    Greater,
    LessEqual,
    GreaterEqual,
}

/// What a step asks of its caller.
#[derive(Debug, Clone, Copy, PartialEq, Eq, Structural)]
pub enum StepOutcome {
    /// The instruction ran (or the machine was already halted).
    Continue,
    /// A `SYSCALL` with this index was decoded; the host performs it.
    Syscall(u64),
}

/// Why `run` returned.
#[derive(Debug, Clone, Copy, PartialEq, Eq, Structural)]
pub enum RunOutcome {
    Halted,
    Syscall(u64),
    StepLimit,
}

/// Whether a jump with condition `c` is taken under `f`.
pub open spec fn spec_jump_taken(c: JumpCondition, f: Flags) -> bool {
    match c {
        JumpCondition::Always => true,
        JumpCondition::Equal => f.eq,
        JumpCondition::NotEqual => !f.eq,
        JumpCondition::Less => f.lt,
        JumpCondition::Greater => !f.lt,
        JumpCondition::LessEqual => f.lt || f.eq,
        JumpCondition::GreaterEqual => !f.lt || f.eq,
    }
}

pub fn jump_taken(c: JumpCondition, f: Flags) -> (r: bool)
    ensures
        r == spec_jump_taken(c, f),
{
    match c {
        JumpCondition::Always => true,
        JumpCondition::Equal => f.eq,
        JumpCondition::NotEqual => !f.eq,
        JumpCondition::Less => f.lt,
        JumpCondition::Greater => !f.lt,
        JumpCondition::LessEqual => f.lt || f.eq,
        JumpCondition::GreaterEqual => !f.lt || f.eq,
    }
}

/// The rank of a value's width in the total order of immediates.
pub open spec fn size_rank(s: DataSize) -> nat {
    s.tag() as nat
}

/// The total order on integer immediates: first by width, then by value.
pub open spec fn imm_lt(a: Immediate, b: Immediate) -> bool {
    size_rank(a.spec_size()) < size_rank(b.spec_size()) || (a.spec_size() == b.spec_size()
        && a.raw() < b.raw())
}

/// Compares two immediates as `CMP` does. Integer values compare by width,
/// then by value; two floating-point values of one precision compare as
/// `fpu` says.
pub fn compare<F: FloatUnit>(a: Immediate, b: Immediate, fpu: &F) -> (r: Flags)
    ensures
        a.spec_size().is_integer() && b.spec_size().is_integer() ==> r.eq == (a == b) && r.lt
            == imm_lt(a, b),
        a.spec_size() != b.spec_size() ==> !r.eq && r.lt == (size_rank(a.spec_size())
            < size_rank(b.spec_size())),
{
    let sa = a.size();
    let sb = b.size();
    let ra = sa.to_byte();
    let rb = sb.to_byte();
    if ra != rb {
        return Flags { eq: false, lt: ra < rb };
    }
    match (a, b) {
        (Immediate::Float(x), Immediate::Float(y)) => {
            let o = fpu.f32_compare(x, y);
            Flags { eq: o == FloatOrder::Equal, lt: o == FloatOrder::Less }
        },
        (Immediate::Double(x), Immediate::Double(y)) => {
            let o = fpu.f64_compare(x, y);
            Flags { eq: o == FloatOrder::Equal, lt: o == FloatOrder::Less }
        },
        _ => {
            let x = a.raw_value();
            let y = b.raw_value();
            Flags { eq: x == y, lt: x < y }
        },
    }
}

/// The integer result of `op` on two values of width `size` (given widened
/// to 64 bits), before it is cut to the width; `None` on division by zero.
/// Arithmetic wraps; a shift amount keeps only its low log2(width) bits.
pub open spec fn spec_alu(op: AluOp, size: DataSize, a: u64, b: u64) -> Option<u64> {
    let mask = (size.bytes() * 8 - 1) as u64;
    match op {
        AluOp::Add => Some(a.wrapping_add(b)),
        AluOp::Sub => Some(a.wrapping_sub(b)),
        AluOp::Mul => Some(a.wrapping_mul(b)),
        AluOp::Div => if b == 0 {
            None
        } else {
            Some(a / b)
        },
        AluOp::And => Some(a & b),
        AluOp::Or => Some(a | b),
        AluOp::Xor => Some(a ^ b),
        AluOp::Shl => Some(a << (b & mask)),
        AluOp::Shr => Some(a >> (b & mask)),
    }
}

pub open spec fn is_bitwise(op: AluOp) -> bool {
    !(op is Add || op is Sub || op is Mul || op is Div)
}

pub fn is_bitwise_op(op: AluOp) -> (r: bool)
    ensures
        r == is_bitwise(op),
{
    !matches!(op, AluOp::Add | AluOp::Sub | AluOp::Mul | AluOp::Div)
}

/// `lhs op rhs` computed at width `size`, both operands first converted to
/// that width. Integer widths wrap; floating-point widths use `fpu`; bitwise
/// operators on a floating-point width are refused.
pub fn alu<F: FloatUnit>(op: AluOp, size: DataSize, lhs: Immediate, rhs: Immediate, fpu: &F) -> (r:
    Result<Immediate, Error>)
    ensures
        size.is_integer() && lhs.spec_size().is_integer() && rhs.spec_size().is_integer() ==> r
            == (match spec_alu(
            op,
            size,
            Immediate::of_raw(size, lhs.raw()).raw(),
            Immediate::of_raw(size, rhs.raw()).raw(),
        ) {
            Some(v) => Ok(Immediate::of_raw(size, v)),
            None => Err(Error::DivisionByZero),
        }),
        !size.is_integer() && is_bitwise(op) ==> r == Err::<Immediate, Error>(
            Error::InvalidDataSize(size.tag()),
        ),
        r matches Ok(v) ==> v.spec_size() == size,
{
    match size {
        DataSize::Float => {
            let a = lhs.as_f32(fpu);
            let b = rhs.as_f32(fpu);
            match op {
                AluOp::Add => Ok(Immediate::Float(fpu.f32_arith(FloatOp::Add, a, b))),
                AluOp::Sub => Ok(Immediate::Float(fpu.f32_arith(FloatOp::Sub, a, b))),
                AluOp::Mul => Ok(Immediate::Float(fpu.f32_arith(FloatOp::Mul, a, b))),
                AluOp::Div => Ok(Immediate::Float(fpu.f32_arith(FloatOp::Div, a, b))),
                _ => Err(Error::InvalidDataSize(size.to_byte())),
            }
        },
        DataSize::Double => {
            let a = lhs.as_f64(fpu);
            let b = rhs.as_f64(fpu);
            match op {
                AluOp::Add => Ok(Immediate::Double(fpu.f64_arith(FloatOp::Add, a, b))),
                AluOp::Sub => Ok(Immediate::Double(fpu.f64_arith(FloatOp::Sub, a, b))),
                AluOp::Mul => Ok(Immediate::Double(fpu.f64_arith(FloatOp::Mul, a, b))),
                AluOp::Div => Ok(Immediate::Double(fpu.f64_arith(FloatOp::Div, a, b))),
                _ => Err(Error::InvalidDataSize(size.to_byte())),
            }
        },
        _ => {
            let a = lhs.convert(size, fpu).raw_value();
            let b = rhs.convert(size, fpu).raw_value();
            let mask: u64 = (size.size_in_bytes() * 8 - 1) as u64;
            assert(mask <= 63);
            assert(b & mask <= mask) by (bit_vector);
            let v = match op {
                AluOp::Add => a.wrapping_add(b),
                AluOp::Sub => a.wrapping_sub(b),
                AluOp::Mul => a.wrapping_mul(b),
                AluOp::Div => {
                    if b == 0 {
                        return Err(Error::DivisionByZero);
                    }
                    a / b
                },
                AluOp::And => a & b,
                AluOp::Or => a | b,
                AluOp::Xor => a ^ b,
                AluOp::Shl => a << (b & mask),
                AluOp::Shr => a >> (b & mask),
            };
            Ok(Immediate::int_of(size, v))
        },
    }
}

/// The entry point that the first eight bytes of an image hold.
pub open spec fn image_entry(image: Seq<u8>) -> u64 {
    spec_u64_from_le_bytes(image.subrange(0, 8))
}

/// The code body of an image: everything after its header.
pub open spec fn image_body(image: Seq<u8>) -> Seq<u8> {
    image.subrange(8, image.len() as int)
}

/// The observable state of the machine.
pub ghost struct VmState {
    pub regs: RegisterFile,
    pub mem: Seq<u8>,
    pub flags: Flags,
    pub halted: bool,
}

impl VmState {
    pub open spec fn ip(self) -> u64 {
        self.regs.special[IP_REG as int]
    }

    pub open spec fn sp(self) -> u64 {
        self.regs.special[SP_REG as int]
    }

    /// The same state with the instruction pointer set to `v`.
    pub open spec fn with_ip(self, v: u64) -> VmState {
        VmState { regs: RegisterFile { special: self.regs.special.update(IP_REG as int, v), ..self.regs }, ..self }
    }

    /// The same state with the stack pointer set to `v`.
    pub open spec fn with_sp(self, v: u64) -> VmState {
        VmState { regs: RegisterFile { special: self.regs.special.update(SP_REG as int, v), ..self.regs }, ..self }
    }

    /// Whether `n` bytes can be read at the instruction pointer.
    pub open spec fn can_fetch(self, n: nat) -> bool {
        self.ip() + n <= self.mem.len()
    }
}

/// Setting IP twice keeps the second value.
pub proof fn lemma_with_ip_twice(s: VmState, a: u64, b: u64)
    requires
        s.regs.wf(),
    ensures
        s.with_ip(a).with_ip(b) == s.with_ip(b),
{
    assert(s.with_ip(a).with_ip(b).regs.special =~= s.with_ip(b).regs.special);
    assert(s.with_ip(a).with_ip(b).regs =~= s.with_ip(b).regs);
}

/// The state after a jump with condition `c` whose 8-byte target stands at IP.
pub open spec fn jumped(s: VmState, c: JumpCondition) -> VmState {
    if spec_jump_taken(c, s.flags) {
        s.with_ip(spec_u64_from_le_bytes(s.mem.subrange(s.ip() as int, s.ip() + 8)))
    } else {
        s.with_ip((s.ip() + 8) as u64)
    }
}

/// The condition of a jump with an immediate target.
pub open spec fn immediate_jump(op: Opcode) -> Option<JumpCondition> {
    match op {
        Opcode::JmpImm => Some(JumpCondition::Always),
        Opcode::JeqImm => Some(JumpCondition::Equal),
        Opcode::JneImm => Some(JumpCondition::NotEqual),
        Opcode::JltImm => Some(JumpCondition::Less),
        Opcode::JgtImm => Some(JumpCondition::Greater),
        Opcode::JleImm => Some(JumpCondition::LessEqual),
        Opcode::JgeImm => Some(JumpCondition::GreaterEqual),
        _ => None,
    }
}

/// The state after `CALL` with its 8-byte target at IP: the address after
/// the target is pushed as a qword and IP moves to the target.
pub open spec fn called(s: VmState) -> VmState {
    let ret = (s.ip() + 8) as u64;
    let pushed = s.with_ip(ret).with_sp((s.sp() - 8) as u64);
    VmState {
        mem: splice(s.mem, s.sp() - 8, Immediate::QWord(ret).le_bytes()),
        ..pushed.with_ip(spec_u64_from_le_bytes(s.mem.subrange(s.ip() as int, s.ip() + 8)))
    }
}

/// The operator of a three-register arithmetic or logic instruction.
pub open spec fn register_alu(op: Opcode) -> Option<AluOp> {
    match op {
        Opcode::AddRegRegReg => Some(AluOp::Add),
        Opcode::SubRegRegReg => Some(AluOp::Sub),
        Opcode::MulRegRegReg => Some(AluOp::Mul),
        Opcode::DivRegRegReg => Some(AluOp::Div),
        Opcode::AndRegRegReg => Some(AluOp::And),
        Opcode::OrRegRegReg => Some(AluOp::Or),
        Opcode::XorRegRegReg => Some(AluOp::Xor),
        Opcode::ShlRegRegReg => Some(AluOp::Shl),
        Opcode::ShrRegRegReg => Some(AluOp::Shr),
        _ => None,
    }
}

/// What `d = a op b` on three integer registers does, the register bytes
/// standing at IP in `s`. Each source is read right after its own byte.
pub open spec fn alu_registers_effect(aop: AluOp, s: VmState, t: VmState, res: Result<(), Error>) -> bool {
    let ip = s.ip() as int;
    &&& (is_bitwise(aop) ==> (Register::register_of(s.mem[ip]) matches Some(d) ==> (Register::register_of(s.mem[ip + 1]) matches Some(a) ==> (Register::register_of(s.mem[ip + 2]) matches Some(b) ==> (s.can_fetch(3) && !d.spec_data_size().is_integer() ==> res == Err::<(), Error>(Error::InvalidDataSize(d.spec_data_size().tag())))))))
    &&&     Register::register_of(s.mem[ip]) matches Some(d) ==> (Register::register_of(s.mem[ip + 1]) matches Some(a) ==> (
    Register::register_of(s.mem[ip + 2]) matches Some(b) ==> (s.can_fetch(3) && d.spec_data_size().is_integer()
        && a.spec_data_size().is_integer() && b.spec_data_size().is_integer() ==> {
        let z = d.spec_data_size();
        let x = s.with_ip((ip + 2) as u64).regs.read(a);
        let y = s.with_ip((ip + 3) as u64).regs.read(b);
        match spec_alu(aop, z, Immediate::of_raw(z, x.raw()).raw(), Immediate::of_raw(z, y.raw()).raw()) {
            Some(v) => res is Ok && t == (VmState {
                regs: s.with_ip((ip + 3) as u64).regs.write(d, Immediate::of_raw(z, v)),
                ..s
            }),
            None => res == Err::<(), Error>(Error::DivisionByZero),
        }
    })))
}

/// What `d = a op imm` does, the register bytes and then the immediate (at
/// `d`'s width) standing at IP in `s`.
pub open spec fn alu_immediate_effect(aop: AluOp, s: VmState, t: VmState, res: Result<(), Error>) -> bool {
    let ip = s.ip() as int;
    Register::register_of(s.mem[ip]) matches Some(d) ==> (Register::register_of(s.mem[ip + 1]) matches Some(a) ==> {
        let z = d.spec_data_size();
        &&& is_bitwise(aop) && !z.is_integer() && s.can_fetch(2) ==> res == Err::<(), Error>(
            Error::InvalidDataSize(z.tag()),
        )
        &&& z.is_integer() && a.spec_data_size().is_integer() && s.can_fetch(2 + z.bytes()) ==> {
            let x = s.with_ip((ip + 2) as u64).regs.read(a);
            let y = stored(s, ip + 2, z);
            match spec_alu(aop, z, Immediate::of_raw(z, x.raw()).raw(), y.raw()) {
                Some(v) => res is Ok && t == (VmState {
                    regs: s.with_ip((ip + 2 + z.bytes()) as u64).regs.write(d, Immediate::of_raw(z, v)),
                    ..s
                }),
                None => res == Err::<(), Error>(Error::DivisionByZero),
            }
        }
    })
}

/// The operator of an arithmetic or logic instruction with an immediate
/// right operand.
pub open spec fn immediate_alu(op: Opcode) -> Option<AluOp> {
    match op {
        Opcode::AddRegRegImm => Some(AluOp::Add),
        Opcode::SubRegRegImm => Some(AluOp::Sub),
        Opcode::MulRegRegImm => Some(AluOp::Mul),
        Opcode::DivRegRegImm => Some(AluOp::Div),
        Opcode::AndRegRegImm => Some(AluOp::And),
        Opcode::OrRegRegImm => Some(AluOp::Or),
        Opcode::XorRegRegImm => Some(AluOp::Xor),
        Opcode::ShlRegRegImm => Some(AluOp::Shl),
        Opcode::ShrRegRegImm => Some(AluOp::Shr),
        _ => None,
    }
}

/// The condition of a jump to the address held in a register.
pub open spec fn register_jump(op: Opcode) -> Option<JumpCondition> {
    match op {
        Opcode::JmpReg => Some(JumpCondition::Always),
        Opcode::JeqReg => Some(JumpCondition::Equal),
        Opcode::JneReg => Some(JumpCondition::NotEqual),
        Opcode::JltReg => Some(JumpCondition::Less),
        Opcode::JgtReg => Some(JumpCondition::Greater),
        Opcode::JleReg => Some(JumpCondition::LessEqual),
        Opcode::JgeReg => Some(JumpCondition::GreaterEqual),
        _ => None,
    }
}

/// Whether `f` are the flags of `CMP x, y`: fixed for integer values and for
/// values of different widths; two floats of one precision compare as the
/// floating-point unit says.
pub open spec fn compared(x: Immediate, y: Immediate, f: Flags) -> bool {
    &&& x.spec_size().is_integer() && y.spec_size().is_integer() ==> f.eq == (x == y) && f.lt == imm_lt(x, y)
    &&& x.spec_size() != y.spec_size() ==> !f.eq && f.lt == (size_rank(x.spec_size()) < size_rank(y.spec_size()))
}

/// Whether `t` is `u` with `v`, converted to `d`'s width, written through `d`.
pub open spec fn assigned(u: VmState, d: Register, v: Immediate, t: VmState) -> bool {
    &&& t == (VmState { regs: u.regs.write(d, t.regs.read(d)), ..u })
    &&& v.spec_size() == d.spec_data_size() ==> t.regs.read(d) == v
    &&& v.spec_size().is_integer() && d.spec_data_size().is_integer() ==> t.regs.read(d) == Immediate::of_raw(
        d.spec_data_size(),
        v.raw(),
    )
}

/// `u` after pushing `v`.
pub open spec fn pushed(u: VmState, v: Immediate) -> VmState {
    let n = v.spec_size().bytes();
    VmState { mem: splice(u.mem, u.sp() - n, v.le_bytes()), ..u.with_sp((u.sp() - n) as u64) }
}

/// The value of size `z` stored at `at`.
pub open spec fn stored(s: VmState, at: int, z: DataSize) -> Immediate {
    Immediate::from_le(s.mem.subrange(at, at + z.bytes()), z)
}

/// What executing `op` does when its operands follow at IP in `s`: `t` is
/// the state after and `res` the outcome. Every opcode but the memory-operand
/// forms (`LDR`, `STR`, `PUSH`/`POP` of an address, `PUSH` of a register) and
/// `CALL reg` is described here, errors included.
pub open spec fn executes(op: Opcode, s: VmState, t: VmState, res: Result<(), Error>) -> bool {
    let ip = s.ip() as int;
    let ok = res is Ok;
    &&& op == Opcode::MovRegReg ==> (Register::register_of(s.mem[ip]) matches Some(d) ==> (Register::register_of(
        s.mem[ip + 1],
    ) matches Some(a) ==> (s.can_fetch(2) ==> ok && assigned(
        s.with_ip((ip + 2) as u64),
        d,
        s.with_ip((ip + 2) as u64).regs.read(a),
        t,
    ))))
    &&& op == Opcode::MovRegImm ==> (Register::register_of(s.mem[ip]) matches Some(d) ==> (s.can_fetch(
        1 + d.spec_data_size().bytes(),
    ) ==> ok && t == (VmState {
        regs: s.with_ip((ip + 1 + d.spec_data_size().bytes()) as u64).regs.write(
            d,
            stored(s, ip + 1, d.spec_data_size()),
        ),
        ..s
    })))
    &&& op == Opcode::CmpRegReg ==> (Register::register_of(s.mem[ip]) matches Some(a) ==> (Register::register_of(
        s.mem[ip + 1],
    ) matches Some(b) ==> (s.can_fetch(2) ==> ok && t == (VmState { flags: t.flags, ..s.with_ip((ip + 2) as u64) })
        && compared(s.with_ip((ip + 1) as u64).regs.read(a), s.with_ip((ip + 2) as u64).regs.read(b), t.flags))))
    &&& op == Opcode::CmpRegImm ==> (Register::register_of(s.mem[ip]) matches Some(a) ==> (s.can_fetch(
        1 + a.spec_data_size().bytes(),
    ) ==> ok && t == (VmState { flags: t.flags, ..s.with_ip((ip + 1 + a.spec_data_size().bytes()) as u64) })
        && compared(s.with_ip((ip + 1) as u64).regs.read(a), stored(s, ip + 1, a.spec_data_size()), t.flags)))
    &&& (immediate_jump(op) matches Some(c) ==> (s.can_fetch(8) ==> ok && t == jumped(s, c)))
    &&& (register_jump(op) matches Some(c) ==> (Register::register_of(s.mem[ip]) matches Some(x) ==> (s.can_fetch(1)
        && x.spec_data_size().is_integer() ==> ok && t == (if spec_jump_taken(c, s.flags) {
        s.with_ip((ip + 1) as u64).with_ip(s.with_ip((ip + 1) as u64).regs.read(x).raw())
    } else {
        s.with_ip((ip + 1) as u64)
    }))))
    &&& (register_alu(op) matches Some(aop) ==> alu_registers_effect(aop, s, t, res))
    &&& (immediate_alu(op) matches Some(aop) ==> alu_immediate_effect(aop, s, t, res))
    &&& (op == Opcode::Inc || op == Opcode::Dec) ==> (Register::register_of(s.mem[ip]) matches Some(d) ==> (s.can_fetch(1)
        && d.spec_data_size().is_integer() ==> ok && t == (VmState {
        regs: s.with_ip((ip + 1) as u64).regs.write(
            d,
            Immediate::of_raw(
                d.spec_data_size(),
                spec_alu(
                    if op == Opcode::Inc { AluOp::Add } else { AluOp::Sub },
                    d.spec_data_size(),
                    s.with_ip((ip + 1) as u64).regs.read(d).raw(),
                    1,
                )->Some_0,
            ),
        ),
        ..s
    })))
    &&& op == Opcode::PushImm ==> (DataSize::size_of_tag(s.mem[ip]) matches Some(z) ==> (s.can_fetch(1 + z.bytes()) ==> {
        let u = s.with_ip((ip + 1 + z.bytes()) as u64);
        &&& u.sp() < z.bytes() ==> res == Err::<(), Error>(Error::StackOverflow)
        &&& z.bytes() <= u.sp() <= u.mem.len() ==> ok && t == pushed(u, stored(s, ip + 1, z))
    }))
    &&& op == Opcode::PopReg ==> (DataSize::size_of_tag(s.mem[ip]) matches Some(z) ==> (Register::register_of(
        s.mem[ip + 1],
    ) matches Some(d) ==> (s.can_fetch(2) ==> {
        let u = s.with_ip((ip + 2) as u64);
        &&& u.sp() + z.bytes() > u.mem.len() ==> res == Err::<(), Error>(Error::StackUnderflow)
        &&& u.sp() + z.bytes() <= u.mem.len() ==> ok && assigned(
            u.with_sp((u.sp() + z.bytes()) as u64),
            d,
            stored(u, u.sp() as int, z),
            t,
        )
    })))
    &&& memory_effect(op, s, t, res)
    &&& op == Opcode::CallImm ==> (s.can_fetch(8) ==> {
        &&& s.sp() < 8 ==> res == Err::<(), Error>(Error::StackOverflow)
        &&& 8 <= s.sp() <= s.mem.len() ==> ok && t == called(s)
    })
    &&& op == Opcode::Ret ==> {
        &&& s.sp() + 8 > s.mem.len() ==> res == Err::<(), Error>(Error::StackUnderflow)
        &&& s.sp() + 8 <= s.mem.len() ==> ok && t == s.with_sp((s.sp() + 8) as u64).with_ip(
            spec_u64_from_le_bytes(s.mem.subrange(s.sp() as int, s.sp() + 8)),
        )
    }
}

/// The address a memory operand at IP in `s` denotes, and the operand's
/// length; `None` when it cannot be read, has an unknown variant, or has a
/// floating-point base register.
pub open spec fn address_operand(s: VmState) -> Option<(u64, nat)> {
    let ip = s.ip() as int;
    if !s.can_fetch(1) {
        None
    } else if s.mem[ip] == ADDRESSING_REGISTER {
        match Register::register_of(s.mem[ip + 1]) {
            Some(r) => if s.can_fetch(10) && r.spec_data_size().is_integer() {
                Some(
                    (
                        s.with_ip((ip + 2) as u64).regs.read(r).raw().wrapping_add(
                            spec_u64_from_le_bytes(s.mem.subrange(ip + 2, ip + 10)),
                        ),
                        10nat,
                    ),
                )
            } else {
                None
            },
            None => None,
        }
    } else if s.mem[ip] == ADDRESSING_LITERAL {
        if s.can_fetch(17) {
            Some(
                (
                    spec_u64_from_le_bytes(s.mem.subrange(ip + 1, ip + 9)).wrapping_add(
                        spec_u64_from_le_bytes(s.mem.subrange(ip + 9, ip + 17)),
                    ),
                    17nat,
                ),
            )
        } else {
            None
        }
    } else {
        None
    }
}

/// What the memory-operand instructions and `CALL reg` do, their operands
/// following at IP in `s`.
pub open spec fn memory_effect(op: Opcode, s: VmState, t: VmState, res: Result<(), Error>) -> bool {
    let ip = s.ip() as int;
    let u = s.with_ip((ip + 1) as u64);
    &&& op == Opcode::Ldr && s.can_fetch(1) ==> (Register::register_of(s.mem[ip]) matches Some(d) ==> (address_operand(u) matches Some((a, n)) ==> {
        let w = u.with_ip((ip + 1 + n) as u64);
        let z = d.spec_data_size();
        &&& a + z.bytes() <= s.mem.len() ==> res is Ok && t == (VmState { regs: w.regs.write(d, stored(s, a as int, z)), ..w })
        &&& a + z.bytes() > s.mem.len() ==> res == Err::<(), Error>(Error::InstructionPointerOutOfBounds(a))
    }))
    &&& op == Opcode::Str && s.can_fetch(1) ==> (Register::register_of(s.mem[ip]) matches Some(x) ==> (address_operand(u) matches Some((a, n)) ==> {
        let w = u.with_ip((ip + 1 + n) as u64);
        let v = u.regs.read(x);
        &&& a + v.spec_size().bytes() <= s.mem.len() ==> res is Ok && t == (VmState { mem: splice(s.mem, a as int, v.le_bytes()), ..w })
        &&& a + v.spec_size().bytes() > s.mem.len() ==> res == Err::<(), Error>(Error::InstructionPointerOutOfBounds(a))
    }))
    &&& op == Opcode::PushReg ==> (DataSize::size_of_tag(s.mem[ip]) matches Some(z) ==> (Register::register_of(s.mem[ip + 1]) matches Some(x) ==> (
        s.can_fetch(2) && z.is_integer() && x.spec_data_size().is_integer() ==> {
        let w = s.with_ip((ip + 2) as u64);
        let v = Immediate::of_raw(z, w.regs.read(x).raw());
        &&& w.sp() < z.bytes() ==> res == Err::<(), Error>(Error::StackOverflow)
        &&& z.bytes() <= w.sp() <= w.mem.len() ==> res is Ok && t == pushed(w, v)
    })))
    &&& op == Opcode::PushAddr && s.can_fetch(1) ==> (DataSize::size_of_tag(s.mem[ip]) matches Some(z) ==> (address_operand(u) matches Some((a, n)) ==> {
        let w = u.with_ip((ip + 1 + n) as u64);
        &&& a + z.bytes() > s.mem.len() ==> res == Err::<(), Error>(Error::InstructionPointerOutOfBounds(a))
        &&& a + z.bytes() <= s.mem.len() && w.sp() < z.bytes() ==> res == Err::<(), Error>(Error::StackOverflow)
        &&& a + z.bytes() <= s.mem.len() && z.bytes() <= w.sp() <= w.mem.len() ==> res is Ok && t == pushed(w, stored(s, a as int, z))
    }))
    &&& op == Opcode::PopAddr && s.can_fetch(1) ==> (DataSize::size_of_tag(s.mem[ip]) matches Some(z) ==> (address_operand(u) matches Some((a, n)) ==> {
        let w = u.with_ip((ip + 1 + n) as u64);
        let w2 = w.with_sp((w.sp() + z.bytes()) as u64);
        let v = stored(w, w.sp() as int, z);
        &&& a > s.mem.len() ==> res == Err::<(), Error>(Error::InstructionPointerOutOfBounds(a))
        &&& a <= s.mem.len() && w.sp() + z.bytes() > w.mem.len() ==> res == Err::<(), Error>(Error::StackUnderflow)
        &&& a + z.bytes() <= s.mem.len() && w.sp() + z.bytes() <= w.mem.len() ==> res is Ok && t == (VmState {
            mem: splice(w2.mem, a as int, v.le_bytes()),
            ..w2
        })
    }))
    &&& op == Opcode::CallReg ==> (Register::register_of(s.mem[ip]) matches Some(x) ==> (s.can_fetch(1) && x.spec_data_size().is_integer() ==> {
        let target = u.regs.read(x).raw();
        &&& u.sp() < 8 ==> res == Err::<(), Error>(Error::StackOverflow)
        &&& 8 <= u.sp() <= u.mem.len() ==> res is Ok && t == pushed(u, Immediate::QWord((ip + 1) as u64)).with_ip(target)
    }))
}

/// A step's outcome with the syscall index dropped.
pub open spec fn unit_result(r: Result<StepOutcome, Error>) -> Result<(), Error> {
    match r {
        Ok(_) => Ok(()),
        Err(e) => Err(e),
    }
}

/// What one `step` does from `s`: `t` is the state after and `r` the outcome.
pub open spec fn step_relation(s: VmState, t: VmState, r: Result<StepOutcome, Error>) -> bool {
    let ip = s.ip() as int;
    &&& t.mem.len() == s.mem.len()
    &&& s.halted ==> r == Ok::<StepOutcome, Error>(StepOutcome::Continue) && t == s
    &&& !s.halted && !s.can_fetch(1) ==> r == Err::<StepOutcome, Error>(Error::InstructionPointerOutOfBounds(s.ip()))
    &&& !s.halted && s.can_fetch(1) && s.mem[ip] >= crate::opcode::OPCODE_COUNT ==> r == Err::<StepOutcome, Error>(
        Error::InvalidOpcode(s.mem[ip]),
    )
    &&& !s.halted && s.can_fetch(1) && s.mem[ip] == Opcode::Hlt.code() ==> r == Ok::<StepOutcome, Error>(
        StepOutcome::Continue,
    ) && t == (VmState { halted: true, ..s.with_ip((ip + 1) as u64) })
    &&& !s.halted && s.can_fetch(1) && s.mem[ip] == Opcode::Nop.code() ==> r == Ok::<StepOutcome, Error>(
        StepOutcome::Continue,
    ) && t == s.with_ip((ip + 1) as u64)
    &&& !s.halted && s.can_fetch(1) && s.mem[ip] == Opcode::Syscall.code() ==> r == (if s.regs.gpr[15] < SYSCALL_COUNT {
        Ok::<StepOutcome, Error>(StepOutcome::Syscall(s.regs.gpr[15]))
    } else {
        Err(Error::UnknownSyscall(s.regs.gpr[15]))
    })
    &&& !s.halted && s.can_fetch(1) ==> (Opcode::opcode_of(s.mem[ip]) matches Some(op) ==> executes(
        op,
        s.with_ip((ip + 1) as u64),
        t,
        unit_result(r),
    ))
    &&& r matches Ok(StepOutcome::Syscall(i)) ==> !s.halted && s.can_fetch(1) && s.mem[ip] == Opcode::Syscall.code()
        && i < SYSCALL_COUNT && i == s.regs.gpr[15] && t == s.with_ip(
        (ip + 1) as u64,
    )
    &&& t.halted ==> s.halted || s.mem[ip] == Opcode::Hlt.code()
}

/// Whether `trace` is a run of `outs.len()` steps from `trace[0]`, each step
/// taken from a running machine, every step but the last continuing.
pub open spec fn is_run(trace: Seq<VmState>, outs: Seq<Result<StepOutcome, Error>>) -> bool {
    &&& trace.len() == outs.len() + 1
    &&& forall|i: int| 0 <= i < outs.len() ==> step_relation(trace[i], #[trigger] trace[i + 1], outs[i])
    &&& forall|i: int| 0 <= i < outs.len() ==> !(#[trigger] trace[i]).halted
    &&& forall|i: int| 0 <= i < outs.len() - 1 ==> #[trigger] outs[i] == Ok::<StepOutcome, Error>(StepOutcome::Continue)
}

/// Whether `run` from `s` with bound `max` may end in `t` with `r`, by the
/// steps `outs` through the states `trace`.
pub open spec fn ran(
    s: VmState,
    t: VmState,
    trace: Seq<VmState>,
    outs: Seq<Result<StepOutcome, Error>>,
    r: Result<RunOutcome, Error>,
    max: u64,
) -> bool {
    &&& is_run(trace, outs)
    &&& trace[0] == s
    &&& trace.last() == t
    &&& outs.len() <= max
    &&& r matches Err(e) ==> outs.len() > 0 && outs.last() == Err::<StepOutcome, Error>(e)
    &&& r matches Ok(RunOutcome::Syscall(n)) ==> outs.len() > 0 && outs.last() == Ok::<StepOutcome, Error>(
        StepOutcome::Syscall(n),
    )
    &&& r == Ok::<RunOutcome, Error>(RunOutcome::Halted) ==> t.halted && (outs.len() > 0 ==> outs.last()
        == Ok::<StepOutcome, Error>(StepOutcome::Continue))
    &&& r == Ok::<RunOutcome, Error>(RunOutcome::StepLimit) ==> outs.len() == max && !t.halted && (outs.len() > 0
        ==> outs.last() == Ok::<StepOutcome, Error>(StepOutcome::Continue))
}

/// The virtual machine: registers, memory, flags and the halt bit.
pub struct VM {
    pub regs: Registers,
    pub mem: Memory,
    pub flags: Flags,
    pub halted: bool,
}

impl View for VM {
    type V = VmState;

    open spec fn view(&self) -> VmState {
        VmState { regs: self.regs@, mem: self.mem@, flags: self.flags, halted: self.halted }
    }
}

impl VM {
    pub open spec fn wf(&self) -> bool {
        &&& self.regs.wf()
        &&& self.mem@.len() <= usize::MAX
    }

    /// Loads an image: checks its header, copies its body to the start of a
    /// zeroed memory of `mem_size` bytes and points IP at the entry point,
    /// SP at the end of memory and BP at zero.
    pub fn new(program: Vec<u8>, mem_size: usize) -> (r: Result<Self, Error>)
        ensures
            program@.len() < 8 ==> r == Err::<Self, Error>(Error::ProgramTooSmall(program@.len() as usize)),
            program@.len() >= 8 && image_entry(program@) >= image_body(program@).len() ==> r
                == Err::<Self, Error>(Error::InvalidEntryPoint {
                entry_point: image_entry(program@),
                program_size: (program@.len() - 8) as usize,
            }),
            program@.len() >= 8 && image_entry(program@) < image_body(program@).len()
                && image_body(program@).len() > mem_size ==> r == Err::<Self, Error>(
                Error::ProgramTooLarge { program_size: (program@.len() - 8) as usize, memory_size: mem_size },
            ),
            r is Ok <==> program@.len() >= 8 && image_entry(program@) < image_body(program@).len()
                && image_body(program@).len() <= mem_size,
            r matches Ok(vm) ==> {
                &&& vm.wf()
                &&& vm@.mem.len() == mem_size
                &&& vm@.mem.subrange(0, image_body(program@).len() as int) == image_body(program@)
                &&& forall|i: int| image_body(program@).len() <= i < mem_size ==> vm@.mem[i] == 0
                &&& vm@.ip() == image_entry(program@)
                &&& vm@.sp() == mem_size as u64
                &&& vm@.regs.special[BP_REG as int] == 0
                &&& forall|i: int| 0 <= i < 16 ==> vm@.regs.gpr[i] == 0
                &&& forall|i: int| 0 <= i < 32 ==> vm@.regs.fpr[i] == 0
                &&& !vm@.flags.eq && !vm@.flags.lt
                &&& !vm@.halted
            },
    {
        let len = program.len();
        if len < 8 {
            return Err(Error::ProgramTooSmall(len));
        }
        let header = slice_subrange(program.as_slice(), 0, 8);
        let entry_point = vstd::bytes::u64_from_le_bytes(header);
        let body_len = len - 8;
        if entry_point >= body_len as u64 {
            return Err(Error::InvalidEntryPoint { entry_point, program_size: body_len });
        }
        if body_len > mem_size {
            return Err(Error::ProgramTooLarge { program_size: body_len, memory_size: mem_size });
        }
        let body = slice_to_vec(slice_subrange(program.as_slice(), 8, len));
        let mut mem = Memory::new(mem_size);
        write_bytes(&mut mem.storage, 0, &body);
        let mut regs = Registers::new();
        regs.set_sp(mem_size);
        regs.set_bp(0);
        regs.set_ip(entry_point as usize);
        let vm = VM { regs, mem, flags: Flags::new(), halted: false };
        assert(vm.mem@.len() == mem_size);
        assert(vm@.mem.subrange(0, body@.len() as int) =~= image_body(program@));
        Ok(vm)
    }

    /// The instruction pointer as a 64-bit value.
    fn ip_value(&self) -> (r: u64)
        requires
            self.wf(),
        ensures
            r == self@.ip(),
    {
        match self.regs.get(Register::IP) {
            Immediate::QWord(v) => v,
            _ => 0,
        }
    }

    fn set_ip_value(&mut self, v: u64)
        requires
            old(self).wf(),
        ensures
            final(self).wf(),
            final(self)@ == old(self)@.with_ip(v),
    {
        self.regs.put(Register::IP, Immediate::QWord(v));
        assert(self@ =~= old(self)@.with_ip(v));
    }

    fn sp_value(&self) -> (r: u64)
        requires
            self.wf(),
        ensures
            r == self@.sp(),
    {
        match self.regs.get(Register::SP) {
            Immediate::QWord(v) => v,
            _ => 0,
        }
    }

    fn set_sp_value(&mut self, v: u64)
        requires
            old(self).wf(),
        ensures
            final(self).wf(),
            final(self)@ == old(self)@.with_sp(v),
    {
        self.regs.put(Register::SP, Immediate::QWord(v));
        assert(self@ =~= old(self)@.with_sp(v));
    }

    /// Reads a little-endian value of size `size` at IP and advances IP past it.
    fn read_imm(&mut self, size: DataSize) -> (r: Result<Immediate, Error>)
        requires
            old(self).wf(),
        ensures
            final(self).wf(),
            r is Ok <==> old(self)@.can_fetch(size.bytes()),
            r matches Ok(v) ==> v == Immediate::from_le(
                old(self)@.mem.subrange(old(self)@.ip() as int, old(self)@.ip() + size.bytes()),
                size,
            ) && final(self)@ == old(self)@.with_ip((old(self)@.ip() + size.bytes()) as u64),
            r is Err ==> final(self)@ == old(self)@ && r == Err::<Immediate, Error>(
                Error::InstructionPointerOutOfBounds(old(self)@.ip()),
            ),
    {
        let ip = self.ip_value();
        let n = size.size_in_bytes();
        let len = self.mem.len();
        if ip > len as u64 || n as u64 > len as u64 - ip {
            return Err(Error::InstructionPointerOutOfBounds(ip));
        }
        let at = ip as usize;
        let v = Immediate::from_le_slice(slice_subrange(self.mem.storage.as_slice(), at, at + n), size);
        self.set_ip_value(ip + n as u64);
        Ok(v)
    }

    fn read_byte(&mut self) -> (r: Result<u8, Error>)
        requires
            old(self).wf(),
        ensures
            final(self).wf(),
            r is Ok <==> old(self)@.can_fetch(1),
            r matches Ok(b) ==> b == old(self)@.mem[old(self)@.ip() as int] && final(self)@
                == old(self)@.with_ip((old(self)@.ip() + 1) as u64),
            r is Err ==> final(self)@ == old(self)@ && r == Err::<u8, Error>(
                Error::InstructionPointerOutOfBounds(old(self)@.ip()),
            ),
    {
        match self.read_imm(DataSize::Byte) {
            Ok(Immediate::Byte(b)) => Ok(b),
            Ok(_) => Ok(0),
            Err(e) => Err(e),
        }
    }

    fn read_qword(&mut self) -> (r: Result<u64, Error>)
        requires
            old(self).wf(),
        ensures
            final(self).wf(),
            final(self)@.mem == old(self)@.mem,
            final(self)@.flags == old(self)@.flags,
            final(self)@.halted == old(self)@.halted,
            r is Ok <==> old(self)@.can_fetch(8),
            r matches Ok(v) ==> v == spec_u64_from_le_bytes(
                old(self)@.mem.subrange(old(self)@.ip() as int, old(self)@.ip() + 8),
            ) && final(self)@ == old(self)@.with_ip((old(self)@.ip() + 8) as u64),
    {
        match self.read_imm(DataSize::QWord) {
            Ok(Immediate::QWord(v)) => Ok(v),
            Ok(_) => Ok(0),
            Err(e) => Err(e),
        }
    }

    fn read_register(&mut self) -> (r: Result<Register, Error>)
        requires
            old(self).wf(),
        ensures
            final(self).wf(),
            final(self)@.mem == old(self)@.mem,
            final(self)@.flags == old(self)@.flags,
            final(self)@.halted == old(self)@.halted,
            r matches Ok(reg) ==> old(self)@.can_fetch(1) && reg.code() == old(self)@.mem[old(self)@.ip() as int]
                && final(self)@ == old(self)@.with_ip((old(self)@.ip() + 1) as u64),
            old(self)@.can_fetch(1) ==> (Register::register_of(old(self)@.mem[old(self)@.ip() as int]) matches Some(reg)
                ==> r == Ok::<Register, Error>(reg)),
    {
        let b = self.read_byte()?;
        match Register::from_byte(b) {
            Some(reg) => Ok(reg),
            None => Err(Error::InvalidRegister(b)),
        }
    }

    fn read_data_size(&mut self) -> (r: Result<DataSize, Error>)
        requires
            old(self).wf(),
        ensures
            final(self).wf(),
            r matches Ok(z) ==> old(self)@.can_fetch(1) && DataSize::size_of_tag(old(self)@.mem[old(self)@.ip() as int]) == Some(z)
                && final(self)@ == old(self)@.with_ip((old(self)@.ip() + 1) as u64),
            old(self)@.can_fetch(1) ==> (DataSize::size_of_tag(old(self)@.mem[old(self)@.ip() as int]) matches Some(z)
                ==> r == Ok::<DataSize, Error>(z)),
            final(self)@.mem == old(self)@.mem,
            final(self)@.flags == old(self)@.flags,
            final(self)@.halted == old(self)@.halted,
    {
        let b = self.read_byte()?;
        match DataSize::from_byte(b) {
            Some(s) => Ok(s),
            None => Err(Error::InvalidDataSize(b)),
        }
    }

    /// Decodes a memory operand and returns the address it denotes.
    fn read_address<F: FloatUnit>(&mut self, fpu: &F) -> (r: Result<u64, Error>)
        requires
            old(self).wf(),
        ensures
            address_operand(old(self)@) matches Some((a, n)) ==> r == Ok::<u64, Error>(a) && final(self)@ == old(self)@.with_ip(
                (old(self)@.ip() + n) as u64,
            ),
            final(self).wf(),
            final(self)@.mem == old(self)@.mem,
            final(self)@.flags == old(self)@.flags,
            final(self)@.halted == old(self)@.halted,
    {
        let ghost s0 = self@;
        let variant = self.read_byte()?;
        let base = if variant == ADDRESSING_REGISTER {
            let reg = self.read_register()?;
            self.regs.get(reg).as_u64(fpu)
        } else if variant == ADDRESSING_LITERAL {
            self.read_qword()?
        } else {
            return Err(Error::UnknownAddressingVariant(variant));
        };
        let ghost s1 = self@;
        let offset = self.read_qword()?;
        proof {
            let ip = s0.ip();
            lemma_with_ip_twice(s0, (ip + 1) as u64, (ip + 2) as u64);
            lemma_with_ip_twice(s0, (ip + 2) as u64, (ip + 10) as u64);
            lemma_with_ip_twice(s0, (ip + 1) as u64, (ip + 9) as u64);
            lemma_with_ip_twice(s0, (ip + 9) as u64, (ip + 17) as u64);
            if variant == ADDRESSING_REGISTER {
                assert(s1.mem.subrange(s1.ip() as int, s1.ip() + 8) == s0.mem.subrange(ip + 2, ip + 10));
            } else {
                assert(s1.mem.subrange(s1.ip() as int, s1.ip() + 8) == s0.mem.subrange(ip + 9, ip + 17));
            }
        }
        Ok(base.wrapping_add(offset))
    }

    /// Pushes `value`: SP moves down by its width and the value is written there.
    pub fn push(&mut self, value: Immediate) -> (r: Result<(), Error>)
        requires
            old(self).wf(),
        ensures
            final(self).wf(),
            old(self)@.sp() < value.spec_size().bytes() ==> r == Err::<(), Error>(Error::StackOverflow)
                && final(self)@ == old(self)@,
            old(self)@.sp() >= value.spec_size().bytes() && old(self)@.sp() <= old(self)@.mem.len() ==> r is Ok,
            r is Ok ==> value.spec_size().bytes() <= old(self)@.sp() <= old(self)@.mem.len(),
            r is Ok ==> final(self)@ == (VmState {
                mem: splice(
                    old(self)@.mem,
                    old(self)@.sp() - value.spec_size().bytes(),
                    value.le_bytes(),
                ),
                ..old(self)@.with_sp((old(self)@.sp() - value.spec_size().bytes()) as u64)
            }),
            final(self)@.flags == old(self)@.flags,
            final(self)@.halted == old(self)@.halted,
            final(self)@.mem.len() == old(self)@.mem.len(),
    {
        let n = value.size().size_in_bytes() as u64;
        let sp = self.sp_value();
        if sp < n {
            return Err(Error::StackOverflow);
        }
        let new_sp = sp - n;
        let len = self.mem.len();
        if new_sp > len as u64 {
            self.set_sp_value(new_sp);
            return Err(Error::InstructionPointerOutOfBounds(new_sp));
        }
        self.set_sp_value(new_sp);
        self.mem.store(new_sp as usize, value)
    }

    /// Pops a value of size `size`: it is read at SP, then SP moves up by its width.
    pub fn pop(&mut self, size: DataSize) -> (r: Result<Immediate, Error>)
        requires
            old(self).wf(),
        ensures
            final(self).wf(),
            r is Ok <==> old(self)@.sp() + size.bytes() <= old(self)@.mem.len(),
            r is Err ==> r == Err::<Immediate, Error>(Error::StackUnderflow) && final(self)@ == old(self)@,
            r matches Ok(v) ==> v == Immediate::from_le(
                old(self)@.mem.subrange(old(self)@.sp() as int, old(self)@.sp() + size.bytes()),
                size,
            ) && final(self)@ == old(self)@.with_sp((old(self)@.sp() + size.bytes()) as u64),
    {
        let n = size.size_in_bytes() as u64;
        let sp = self.sp_value();
        let len = self.mem.len() as u64;
        if sp > len || n > len - sp {
            return Err(Error::StackUnderflow);
        }
        let v = self.mem.read(sp as usize, size)?;
        self.set_sp_value(sp + n);
        Ok(v)
    }

    /// Turns a computed address into a memory index, refusing one past the end.
    fn mem_index(&self, addr: u64) -> (r: Result<usize, Error>)
        ensures
            r matches Ok(i) ==> i as u64 == addr && i <= self@.mem.len(),
            addr <= self@.mem.len() ==> r is Ok,
            addr > self@.mem.len() ==> r == Err::<usize, Error>(Error::InstructionPointerOutOfBounds(addr)),
    {
        if addr > self.mem.len() as u64 {
            return Err(Error::InstructionPointerOutOfBounds(addr));
        }
        Ok(addr as usize)
    }

    fn exec_alu<F: FloatUnit>(&mut self, op: AluOp, immediate: bool, fpu: &F) -> (r: Result<(), Error>)
        requires
            old(self).wf(),
        ensures
            !immediate ==> alu_registers_effect(op, old(self)@, final(self)@, r),
            immediate ==> alu_immediate_effect(op, old(self)@, final(self)@, r),
            final(self).wf(),
            final(self)@.mem == old(self)@.mem,
            final(self)@.flags == old(self)@.flags,
            final(self)@.halted == old(self)@.halted,
    {
        let ghost s0 = self@;
        let dest = self.read_register()?;
        let lhs = self.read_register()?;
        proof {
            lemma_with_ip_twice(s0, (s0.ip() + 1) as u64, (s0.ip() + 2) as u64);
            lemma_with_ip_twice(s0, (s0.ip() + 2) as u64, (s0.ip() + 3) as u64);
            lemma_with_ip_twice(s0, (s0.ip() + 2) as u64, (s0.ip() + 2 + dest.spec_data_size().bytes()) as u64);
        }
        let size = dest.data_size();
        let lhs_val = self.regs.get(lhs);
        let ghost s2 = self@;
        let rhs_val = if immediate {
            if is_bitwise_op(op) && size.is_float() {
                return Err(Error::InvalidDataSize(size.to_byte()));
            }
            self.read_imm(size)?
        } else {
            let rhs = self.read_register()?;
            self.regs.get(rhs)
        };
        proof {
            if immediate {
                let n = size.bytes();
                assert(s2.mem.subrange(s2.ip() as int, s2.ip() + n) == s0.mem.subrange(s0.ip() + 2, s0.ip() + 2 + n));
            }
        }
        let result = alu(op, size, lhs_val, rhs_val, fpu)?;
        self.regs.put(dest, result);
        Ok(())
    }

    fn exec_jump<F: FloatUnit>(&mut self, cond: JumpCondition, immediate: bool, fpu: &F) -> (r: Result<(), Error>)
        requires
            old(self).wf(),
        ensures
            immediate ==> old(self)@.can_fetch(8) ==> r is Ok && final(self)@ == jumped(old(self)@, cond),
            !immediate ==> ({
                let s = old(self)@;
                let ip = s.ip() as int;
                Register::register_of(s.mem[ip]) matches Some(x) ==> (s.can_fetch(1) && x.spec_data_size().is_integer()
                    ==> r is Ok && final(self)@ == (if spec_jump_taken(cond, s.flags) {
                    s.with_ip((ip + 1) as u64).with_ip(s.with_ip((ip + 1) as u64).regs.read(x).raw())
                } else {
                    s.with_ip((ip + 1) as u64)
                }))
            }),
            final(self).wf(),
            final(self)@.mem == old(self)@.mem,
            final(self)@.flags == old(self)@.flags,
            final(self)@.halted == old(self)@.halted,
    {
        let addr = if immediate {
            self.read_qword()?
        } else {
            let reg = self.read_register()?;
            self.regs.get(reg).as_u64(fpu)
        };
        if jump_taken(cond, self.flags) {
            let ghost before = self@;
            self.set_ip_value(addr);
            proof {
                if immediate {
                    assert(self@.regs.special =~= old(self)@.with_ip(addr).regs.special);
                    assert(self@ =~= old(self)@.with_ip(addr));
                }
            }
        }
        Ok(())
    }

    fn exec_call<F: FloatUnit>(&mut self, immediate: bool, fpu: &F) -> (r: Result<(), Error>)
        requires
            old(self).wf(),
        ensures
            immediate ==> (old(self)@.can_fetch(8) && 8 <= old(self)@.sp() <= old(self)@.mem.len() ==> r is Ok
                && final(self)@ == called(old(self)@)),
            immediate ==> (old(self)@.can_fetch(8) && old(self)@.sp() < 8 ==> r == Err::<(), Error>(Error::StackOverflow)),
            !immediate ==> memory_effect(Opcode::CallReg, old(self)@, final(self)@, r),
            final(self).wf(),
            final(self)@.mem.len() == old(self)@.mem.len(),
            final(self)@.flags == old(self)@.flags,
            final(self)@.halted == old(self)@.halted,
    {
        let addr = if immediate {
            self.read_qword()?
        } else {
            let reg = self.read_register()?;
            self.regs.get(reg).as_u64(fpu)
        };
        let ret = self.ip_value();
        self.push(Immediate::QWord(ret))?;
        self.set_ip_value(addr);
        proof {
            if immediate {
                assert(self@.regs =~= called(old(self)@).regs);
            }
        }
        Ok(())
    }

    /// `LDR reg, [addr]`.
    fn exec_ldr<F: FloatUnit>(&mut self, fpu: &F) -> (r: Result<(), Error>)
        requires
            old(self).wf(),
        ensures
            final(self).wf(),
            final(self)@.halted == old(self)@.halted,
            final(self)@.flags == old(self)@.flags,
            final(self)@.mem.len() == old(self)@.mem.len(),
            memory_effect(Opcode::Ldr, old(self)@, final(self)@, r),
    {
        let ghost s0 = self@;
        let dest = self.read_register()?;
        let addr = self.read_address(fpu)?;
        proof {
            lemma_with_ip_twice(s0, (s0.ip() + 1) as u64, (self@.ip()) as u64);
        }
        let at = self.mem_index(addr)?;
        let v = self.mem.read(at, dest.data_size())?;
        self.regs.put(dest, v);
        Ok(())
    }

    /// `STR reg, [addr]`.
    fn exec_str<F: FloatUnit>(&mut self, fpu: &F) -> (r: Result<(), Error>)
        requires
            old(self).wf(),
        ensures
            final(self).wf(),
            final(self)@.halted == old(self)@.halted,
            final(self)@.flags == old(self)@.flags,
            final(self)@.mem.len() == old(self)@.mem.len(),
            memory_effect(Opcode::Str, old(self)@, final(self)@, r),
    {
        let ghost s0 = self@;
        let src = self.read_register()?;
        let value = self.regs.get(src);
        let addr = self.read_address(fpu)?;
        proof {
            lemma_with_ip_twice(s0, (s0.ip() + 1) as u64, (self@.ip()) as u64);
        }
        let at = self.mem_index(addr)?;
        self.mem.store(at, value)
    }

    /// `PUSH size, reg`.
    fn exec_push_reg<F: FloatUnit>(&mut self, fpu: &F) -> (r: Result<(), Error>)
        requires
            old(self).wf(),
        ensures
            final(self).wf(),
            final(self)@.halted == old(self)@.halted,
            final(self)@.flags == old(self)@.flags,
            final(self)@.mem.len() == old(self)@.mem.len(),
            memory_effect(Opcode::PushReg, old(self)@, final(self)@, r),
    {
        let ghost s0 = self@;
        let size = self.read_data_size()?;
        let src = self.read_register()?;
        proof {
            lemma_with_ip_twice(s0, (s0.ip() + 1) as u64, (s0.ip() + 2) as u64);
        }
        let v = self.regs.get(src).convert(size, fpu);
        self.push(v)
    }

    /// `PUSH size, [addr]`.
    fn exec_push_addr<F: FloatUnit>(&mut self, fpu: &F) -> (r: Result<(), Error>)
        requires
            old(self).wf(),
        ensures
            final(self).wf(),
            final(self)@.halted == old(self)@.halted,
            final(self)@.flags == old(self)@.flags,
            final(self)@.mem.len() == old(self)@.mem.len(),
            memory_effect(Opcode::PushAddr, old(self)@, final(self)@, r),
    {
        let ghost s0 = self@;
        let size = self.read_data_size()?;
        let addr = self.read_address(fpu)?;
        proof {
            lemma_with_ip_twice(s0, (s0.ip() + 1) as u64, (self@.ip()) as u64);
        }
        let at = self.mem_index(addr)?;
        let v = self.mem.read(at, size)?;
        self.push(v)
    }

    /// `POP size, [addr]`.
    fn exec_pop_addr<F: FloatUnit>(&mut self, fpu: &F) -> (r: Result<(), Error>)
        requires
            old(self).wf(),
        ensures
            final(self).wf(),
            final(self)@.halted == old(self)@.halted,
            final(self)@.flags == old(self)@.flags,
            final(self)@.mem.len() == old(self)@.mem.len(),
            memory_effect(Opcode::PopAddr, old(self)@, final(self)@, r),
    {
        let ghost s0 = self@;
        let size = self.read_data_size()?;
        let addr = self.read_address(fpu)?;
        proof {
            lemma_with_ip_twice(s0, (s0.ip() + 1) as u64, (self@.ip()) as u64);
        }
        let at = self.mem_index(addr)?;
        let v = self.pop(size)?;
        self.mem.store(at, v)
    }

    /// `PUSH size, imm`.
    fn exec_push_imm(&mut self) -> (r: Result<(), Error>)
        requires
            old(self).wf(),
        ensures
            final(self).wf(),
            final(self)@.halted == old(self)@.halted,
            final(self)@.flags == old(self)@.flags,
            final(self)@.mem.len() == old(self)@.mem.len(),
            executes(Opcode::PushImm, old(self)@, final(self)@, r),
    {
        let ghost s0 = self@;
        let size = self.read_data_size()?;
        let ghost s1 = self@;
        let v = self.read_imm(size)?;
        proof {
            let n = size.bytes();
            lemma_with_ip_twice(s0, (s0.ip() + 1) as u64, (s0.ip() + 1 + n) as u64);
            assert(s1.mem.subrange(s1.ip() as int, s1.ip() + n) == s0.mem.subrange(s0.ip() + 1, s0.ip() + 1 + n));
        }
        self.push(v)
    }

    /// `POP size, reg`.
    fn exec_pop_reg<F: FloatUnit>(&mut self, fpu: &F) -> (r: Result<(), Error>)
        requires
            old(self).wf(),
        ensures
            final(self).wf(),
            final(self)@.halted == old(self)@.halted,
            final(self)@.flags == old(self)@.flags,
            final(self)@.mem == old(self)@.mem,
            executes(Opcode::PopReg, old(self)@, final(self)@, r),
    {
        let ghost s0 = self@;
        let size = self.read_data_size()?;
        let dest = self.read_register()?;
        proof {
            lemma_with_ip_twice(s0, (s0.ip() + 1) as u64, (s0.ip() + 2) as u64);
        }
        let v = self.pop(size)?;
        let ghost u = self@;
        self.regs.set(dest, v, fpu);
        assert(self@ == (VmState { regs: u.regs.write(dest, self@.regs.read(dest)), ..u }));
        proof {
            if v.spec_size() == dest.spec_data_size() {
                crate::register::lemma_read_after_write(u.regs, dest, v);
            }
            if v.spec_size().is_integer() && dest.spec_data_size().is_integer() {
                crate::register::lemma_read_after_write(
                    u.regs,
                    dest,
                    Immediate::of_raw(dest.spec_data_size(), v.raw()),
                );
            }
        }
        Ok(())
    }

    /// `MOV reg, reg`.
    fn exec_mov_regs<F: FloatUnit>(&mut self, fpu: &F) -> (r: Result<(), Error>)
        requires
            old(self).wf(),
        ensures
            final(self).wf(),
            final(self)@.halted == old(self)@.halted,
            final(self)@.flags == old(self)@.flags,
            final(self)@.mem == old(self)@.mem,
            executes(Opcode::MovRegReg, old(self)@, final(self)@, r),
    {
        let ghost s0 = self@;
        let dest = self.read_register()?;
        let src = self.read_register()?;
        proof {
            lemma_with_ip_twice(s0, (s0.ip() + 1) as u64, (s0.ip() + 2) as u64);
        }
        let v = self.regs.get(src);
        let ghost u = self@;
        self.regs.set(dest, v, fpu);
        assert(self@ == (VmState { regs: u.regs.write(dest, self@.regs.read(dest)), ..u }));
        proof {
            if v.spec_size() == dest.spec_data_size() {
                crate::register::lemma_read_after_write(u.regs, dest, v);
            }
            if v.spec_size().is_integer() && dest.spec_data_size().is_integer() {
                crate::register::lemma_read_after_write(
                    u.regs,
                    dest,
                    Immediate::of_raw(dest.spec_data_size(), v.raw()),
                );
            }
        }
        Ok(())
    }

    /// `INC reg` / `DEC reg`.
    fn exec_inc_dec<F: FloatUnit>(&mut self, opcode: Opcode, fpu: &F) -> (r: Result<(), Error>)
        requires
            old(self).wf(),
            opcode == Opcode::Inc || opcode == Opcode::Dec,
        ensures
            final(self).wf(),
            final(self)@.halted == old(self)@.halted,
            final(self)@.flags == old(self)@.flags,
            final(self)@.mem == old(self)@.mem,
            executes(opcode, old(self)@, final(self)@, r),
    {
        let reg = self.read_register()?;
        let v = self.regs.get(reg);
        let op = if opcode == Opcode::Inc {
            AluOp::Add
        } else {
            AluOp::Sub
        };
        let n = alu(op, reg.data_size(), v, Immediate::QWord(1), fpu)?;
        self.regs.put(reg, n);
        Ok(())
    }

    /// `MOV reg, imm`: the immediate has the register's width.
    fn exec_mov_imm(&mut self) -> (r: Result<(), Error>)
        requires
            old(self).wf(),
        ensures
            final(self).wf(),
            final(self)@.halted == old(self)@.halted,
            final(self)@.mem == old(self)@.mem,
            final(self)@.flags == old(self)@.flags,
            executes(Opcode::MovRegImm, old(self)@, final(self)@, r),
    {
        let ghost s0 = self@;
        let dest = self.read_register()?;
        let ghost s1 = self@;
        let v = self.read_imm(dest.data_size())?;
        proof {
            let n = dest.spec_data_size().bytes();
            lemma_with_ip_twice(s0, (s0.ip() + 1) as u64, (s0.ip() + 1 + n) as u64);
            assert(s1.mem.subrange(s1.ip() as int, s1.ip() + n) == s0.mem.subrange(s0.ip() + 1, s0.ip() + 1 + n));
        }
        self.regs.put(dest, v);
        Ok(())
    }

    /// `RET`: pops the return address into IP.
    fn exec_ret<F: FloatUnit>(&mut self, fpu: &F) -> (r: Result<(), Error>)
        requires
            old(self).wf(),
        ensures
            final(self).wf(),
            final(self)@.halted == old(self)@.halted,
            final(self)@.mem == old(self)@.mem,
            final(self)@.flags == old(self)@.flags,
            executes(Opcode::Ret, old(self)@, final(self)@, r),
    {
        let v = self.pop(DataSize::QWord)?;
        let addr = v.as_u64(fpu);
        self.set_ip_value(addr);
        Ok(())
    }

    /// `CMP reg, reg`.
    fn exec_cmp_regs<F: FloatUnit>(&mut self, fpu: &F) -> (r: Result<(), Error>)
        requires
            old(self).wf(),
        ensures
            final(self).wf(),
            final(self)@.halted == old(self)@.halted,
            final(self)@.mem == old(self)@.mem,
            executes(Opcode::CmpRegReg, old(self)@, final(self)@, r),
    {
        let ghost s0 = self@;
        let a = self.read_register()?;
        let lhs = self.regs.get(a);
        let b = self.read_register()?;
        let rhs = self.regs.get(b);
        self.flags = compare(lhs, rhs, fpu);
        proof {
            lemma_with_ip_twice(s0, (s0.ip() + 1) as u64, (s0.ip() + 2) as u64);
        }
        Ok(())
    }

    /// `CMP reg, imm`: the immediate has the register's width.
    fn exec_cmp_imm<F: FloatUnit>(&mut self, fpu: &F) -> (r: Result<(), Error>)
        requires
            old(self).wf(),
        ensures
            final(self).wf(),
            final(self)@.halted == old(self)@.halted,
            final(self)@.mem == old(self)@.mem,
            executes(Opcode::CmpRegImm, old(self)@, final(self)@, r),
    {
        let ghost s0 = self@;
        let reg = self.read_register()?;
        let lhs = self.regs.get(reg);
        let ghost s1 = self@;
        let rhs = self.read_imm(reg.data_size())?;
        proof {
            let n = reg.spec_data_size().bytes();
            lemma_with_ip_twice(s0, (s0.ip() + 1) as u64, (s0.ip() + 1 + n) as u64);
            assert(s1.mem.subrange(s1.ip() as int, s1.ip() + n) == s0.mem.subrange(s0.ip() + 1, s0.ip() + 1 + n));
        }
        self.flags = compare(lhs, rhs, fpu);
        Ok(())
    }

    /// Executes every instruction but `NOP`, `SYSCALL` and `HLT`, whose
    /// opcode byte has been read.
    #[verifier::rlimit(100)]
    fn execute<F: FloatUnit>(&mut self, opcode: Opcode, fpu: &F) -> (r: Result<(), Error>)
        requires
            old(self).wf(),
        ensures
            executes(opcode, old(self)@, final(self)@, r),
            final(self).wf(),
            final(self)@.mem.len() == old(self)@.mem.len(),
            final(self)@.halted == old(self)@.halted,
    {
        match opcode {
            Opcode::MovRegReg => self.exec_mov_regs(fpu),
            Opcode::MovRegImm => self.exec_mov_imm(),
            Opcode::PushImm => self.exec_push_imm(),
            Opcode::PopReg => self.exec_pop_reg(fpu),
            Opcode::Ldr => self.exec_ldr(fpu),
            Opcode::Str => self.exec_str(fpu),
            Opcode::PushReg => self.exec_push_reg(fpu),
            Opcode::PushAddr => self.exec_push_addr(fpu),
            Opcode::PopAddr => self.exec_pop_addr(fpu),
            Opcode::AddRegRegReg => self.exec_alu(AluOp::Add, false, fpu),
            Opcode::AddRegRegImm => self.exec_alu(AluOp::Add, true, fpu),
            Opcode::SubRegRegReg => self.exec_alu(AluOp::Sub, false, fpu),
            Opcode::SubRegRegImm => self.exec_alu(AluOp::Sub, true, fpu),
            Opcode::MulRegRegReg => self.exec_alu(AluOp::Mul, false, fpu),
            Opcode::MulRegRegImm => self.exec_alu(AluOp::Mul, true, fpu),
            Opcode::DivRegRegReg => self.exec_alu(AluOp::Div, false, fpu),
            Opcode::DivRegRegImm => self.exec_alu(AluOp::Div, true, fpu),
            Opcode::AndRegRegReg => self.exec_alu(AluOp::And, false, fpu),
            Opcode::AndRegRegImm => self.exec_alu(AluOp::And, true, fpu),
            Opcode::OrRegRegReg => self.exec_alu(AluOp::Or, false, fpu),
            Opcode::OrRegRegImm => self.exec_alu(AluOp::Or, true, fpu),
            Opcode::XorRegRegReg => self.exec_alu(AluOp::Xor, false, fpu),
            Opcode::XorRegRegImm => self.exec_alu(AluOp::Xor, true, fpu),
            Opcode::ShlRegRegReg => self.exec_alu(AluOp::Shl, false, fpu),
            Opcode::ShlRegRegImm => self.exec_alu(AluOp::Shl, true, fpu),
            Opcode::ShrRegRegReg => self.exec_alu(AluOp::Shr, false, fpu),
            Opcode::ShrRegRegImm => self.exec_alu(AluOp::Shr, true, fpu),
            Opcode::CmpRegImm => self.exec_cmp_imm(fpu),
            Opcode::CmpRegReg => self.exec_cmp_regs(fpu),
            Opcode::JmpImm => self.exec_jump(JumpCondition::Always, true, fpu),
            Opcode::JmpReg => self.exec_jump(JumpCondition::Always, false, fpu),
            Opcode::JeqImm => self.exec_jump(JumpCondition::Equal, true, fpu),
            Opcode::JeqReg => self.exec_jump(JumpCondition::Equal, false, fpu),
            Opcode::JneImm => self.exec_jump(JumpCondition::NotEqual, true, fpu),
            Opcode::JneReg => self.exec_jump(JumpCondition::NotEqual, false, fpu),
            Opcode::JltImm => self.exec_jump(JumpCondition::Less, true, fpu),
            Opcode::JltReg => self.exec_jump(JumpCondition::Less, false, fpu),
            Opcode::JgtImm => self.exec_jump(JumpCondition::Greater, true, fpu),
            Opcode::JgtReg => self.exec_jump(JumpCondition::Greater, false, fpu),
            Opcode::JleImm => self.exec_jump(JumpCondition::LessEqual, true, fpu),
            Opcode::JleReg => self.exec_jump(JumpCondition::LessEqual, false, fpu),
            Opcode::JgeImm => self.exec_jump(JumpCondition::GreaterEqual, true, fpu),
            Opcode::JgeReg => self.exec_jump(JumpCondition::GreaterEqual, false, fpu),
            Opcode::CallImm => self.exec_call(true, fpu),
            Opcode::CallReg => self.exec_call(false, fpu),
            Opcode::Ret => self.exec_ret(fpu),
            Opcode::Inc | Opcode::Dec => self.exec_inc_dec(opcode, fpu),
            _ => Ok(()),
        }
    }

    /// Executes one instruction. A `SYSCALL` is decoded and checked here and
    /// handed to the caller, who performs it.
    pub fn step<F: FloatUnit>(&mut self, fpu: &F) -> (r: Result<StepOutcome, Error>)
        requires
            old(self).wf(),
        ensures
            final(self).wf(),
            step_relation(old(self)@, final(self)@, r),
    {
        if self.halted {
            return Ok(StepOutcome::Continue);
        }
        let byte = self.read_byte()?;
        let opcode = match Opcode::from_byte(byte) {
            Some(op) => op,
            None => return Err(Error::InvalidOpcode(byte)),
        };
        match opcode {
            Opcode::Nop => {},
            Opcode::Syscall => {
                let index = self.regs.get(Register::Q15).as_u64(fpu);
                if index >= SYSCALL_COUNT {
                    return Err(Error::UnknownSyscall(index));
                }
                return Ok(StepOutcome::Syscall(index));
            },
            Opcode::Hlt => {
                self.halted = true;
            },
            _ => self.execute(opcode, fpu)?,
        }
        Ok(StepOutcome::Continue)
    }

    /// Steps until the machine halts, a syscall is requested, or `max_steps`
    /// instructions have run.
    pub fn run<F: FloatUnit>(&mut self, fpu: &F, max_steps: u64) -> (r: Result<RunOutcome, Error>)
        requires
            old(self).wf(),
        ensures
            final(self).wf(),
            old(self)@.halted ==> r == Ok::<RunOutcome, Error>(RunOutcome::Halted) && final(self)@ == old(self)@,
            exists|trace: Seq<VmState>, outs: Seq<Result<StepOutcome, Error>>| #[trigger] ran(
                old(self)@,
                final(self)@,
                trace,
                outs,
                r,
                max_steps,
            ),
    {
        let ghost mut trace: Seq<VmState> = seq![self@];
        let ghost mut outs: Seq<Result<StepOutcome, Error>> = Seq::empty();
        let mut k: u64 = 0;
        while k < max_steps
            invariant
                self.wf(),
                k <= max_steps,
                outs.len() == k,
                is_run(trace, outs),
                trace[0] == old(self)@,
                trace.last() == self@,
                k > 0 ==> outs.last() == Ok::<StepOutcome, Error>(StepOutcome::Continue),
                old(self)@.halted ==> k == 0,
            decreases max_steps - k,
        {
            if self.halted {
                let res = Ok(RunOutcome::Halted);
                proof {
                    assert(ran(old(self)@, self@, trace, outs, res, max_steps));
                }
                return res;
            }
            let ghost before = self@;
            let out = self.step(fpu);
            proof {
                let t2 = trace.push(self@);
                let o2 = outs.push(out);
                assert forall|i: int| 0 <= i < o2.len() implies step_relation(t2[i], #[trigger] t2[i + 1], o2[i]) by {
                    if i < outs.len() {
                        assert(t2[i] == trace[i] && t2[i + 1] == trace[i + 1]);
                    }
                }
                assert forall|i: int| 0 <= i < o2.len() implies !(#[trigger] t2[i]).halted by {
                    if i < outs.len() {
                        assert(t2[i] == trace[i]);
                    }
                }
                assert forall|i: int| 0 <= i < o2.len() - 1 implies #[trigger] o2[i] == Ok::<StepOutcome, Error>(
                    StepOutcome::Continue,
                ) by {
                    if i < outs.len() - 1 {
                        assert(o2[i] == outs[i]);
                    }
                }
                trace = t2;
                outs = o2;
            }
            match out {
                Err(e) => {
                    let res = Err(e);
                    proof {
                        assert(ran(old(self)@, self@, trace, outs, res, max_steps));
                    }
                    return res;
                },
                Ok(StepOutcome::Syscall(i)) => {
                    let res = Ok(RunOutcome::Syscall(i));
                    proof {
                        assert(ran(old(self)@, self@, trace, outs, res, max_steps));
                    }
                    return res;
                },
                Ok(StepOutcome::Continue) => {},
            }
            k = k + 1;
        }
        let res = if self.halted {
            Ok(RunOutcome::Halted)
        } else {
            Ok(RunOutcome::StepLimit)
        };
        proof {
            assert(ran(old(self)@, self@, trace, outs, res, max_steps));
        }
        res
    }
}

/// Popping right after a push, at the pushed value's width, gives the value
/// back and leaves SP where it was.
pub proof fn lemma_push_pop(s: VmState, v: Immediate)
    requires
        s.regs.wf(),
        v.spec_size().bytes() <= s.sp() <= s.mem.len(),
    ensures
        ({
            let n = v.spec_size().bytes();
            let pushed = VmState { mem: splice(s.mem, s.sp() - n, v.le_bytes()), ..s.with_sp((s.sp() - n) as u64) };
            &&& pushed.sp() + n <= pushed.mem.len()
            &&& Immediate::from_le(pushed.mem.subrange(pushed.sp() as int, pushed.sp() + n), v.spec_size()) == v
            &&& pushed.with_sp((pushed.sp() + n) as u64).sp() == s.sp()
        }),
{
    crate::memory::lemma_read_after_store(s.mem, s.sp() - v.spec_size().bytes(), v);
}

} // verus!
