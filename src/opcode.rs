use vstd::prelude::*;

verus! {

/// The instruction set. Each instruction starts with its opcode byte, which is
/// the opcode's position in this list.
#[derive(Debug, Clone, Copy, PartialEq, Eq, Structural)]
pub enum Opcode {
    Nop,
    MovRegReg,
    MovRegImm,
    Ldr,
    Str,
    PushReg,
    PushImm,
    PushAddr,
    PopReg,
    PopAddr,
    AddRegRegReg,
    AddRegRegImm,
    SubRegRegReg,
    SubRegRegImm,
    MulRegRegReg,
    MulRegRegImm,
    DivRegRegReg,
    DivRegRegImm,
    AndRegRegReg,
    AndRegRegImm,
    OrRegRegReg,
    OrRegRegImm,
    XorRegRegReg,
    XorRegRegImm,
    ShlRegRegReg,
    ShlRegRegImm,
    ShrRegRegReg,
    ShrRegRegImm,
    CmpRegImm,
    CmpRegReg,
    JmpImm,
    JmpReg,
    JeqImm,
    JeqReg,
    JneImm,
    JneReg,
    JltImm,
    JltReg,
    JgtImm,
    JgtReg,
    JleImm,
    JleReg,
    JgeImm,
    JgeReg,
    CallImm,
    CallReg,
    Ret,
    Inc,
    Dec,
    Syscall,
    Hlt,
}

/// Number of opcodes; every byte below it is an opcode.
pub const OPCODE_COUNT: u8 = 51;

impl Opcode {
    pub open spec fn code(self) -> u8 {
        match self {
            Opcode::Nop => 0,
            Opcode::MovRegReg => 1,
            Opcode::MovRegImm => 2,
            Opcode::Ldr => 3,
            Opcode::Str => 4,
            Opcode::PushReg => 5,
            Opcode::PushImm => 6,
            Opcode::PushAddr => 7,
            Opcode::PopReg => 8,
            Opcode::PopAddr => 9,
            Opcode::AddRegRegReg => 10,
            Opcode::AddRegRegImm => 11,
            Opcode::SubRegRegReg => 12,
            Opcode::SubRegRegImm => 13,
            Opcode::MulRegRegReg => 14,
            Opcode::MulRegRegImm => 15,
            Opcode::DivRegRegReg => 16,
            Opcode::DivRegRegImm => 17,
            Opcode::AndRegRegReg => 18,
            Opcode::AndRegRegImm => 19,
            Opcode::OrRegRegReg => 20,
            Opcode::OrRegRegImm => 21,
            Opcode::XorRegRegReg => 22,
            Opcode::XorRegRegImm => 23,
            Opcode::ShlRegRegReg => 24,
            Opcode::ShlRegRegImm => 25,
            Opcode::ShrRegRegReg => 26,
            Opcode::ShrRegRegImm => 27,
            Opcode::CmpRegImm => 28,
            Opcode::CmpRegReg => 29,
            Opcode::JmpImm => 30,
            Opcode::JmpReg => 31,
            Opcode::JeqImm => 32,
            Opcode::JeqReg => 33,
            Opcode::JneImm => 34,
            Opcode::JneReg => 35,
            Opcode::JltImm => 36,
            Opcode::JltReg => 37,
            Opcode::JgtImm => 38,
            Opcode::JgtReg => 39,
            Opcode::JleImm => 40,
            Opcode::JleReg => 41,
            Opcode::JgeImm => 42,
            Opcode::JgeReg => 43,
            Opcode::CallImm => 44,
            Opcode::CallReg => 45,
            Opcode::Ret => 46,
            Opcode::Inc => 47,
            Opcode::Dec => 48,
            Opcode::Syscall => 49,
            Opcode::Hlt => 50,
        }
    }

    /// The opcode whose byte is `b`, if any.
    pub open spec fn opcode_of(b: u8) -> Option<Opcode> {
        match b {
            0 => Some(Opcode::Nop),
            1 => Some(Opcode::MovRegReg),
            2 => Some(Opcode::MovRegImm),
            3 => Some(Opcode::Ldr),
            4 => Some(Opcode::Str),
            5 => Some(Opcode::PushReg),
            6 => Some(Opcode::PushImm),
            7 => Some(Opcode::PushAddr),
            8 => Some(Opcode::PopReg),
            9 => Some(Opcode::PopAddr),
            10 => Some(Opcode::AddRegRegReg),
            11 => Some(Opcode::AddRegRegImm),
            12 => Some(Opcode::SubRegRegReg),
            13 => Some(Opcode::SubRegRegImm),
            14 => Some(Opcode::MulRegRegReg),
            15 => Some(Opcode::MulRegRegImm),
            16 => Some(Opcode::DivRegRegReg),
            17 => Some(Opcode::DivRegRegImm),
            18 => Some(Opcode::AndRegRegReg),
            19 => Some(Opcode::AndRegRegImm),
            20 => Some(Opcode::OrRegRegReg),
            21 => Some(Opcode::OrRegRegImm),
            22 => Some(Opcode::XorRegRegReg),
            23 => Some(Opcode::XorRegRegImm),
            24 => Some(Opcode::ShlRegRegReg),
            25 => Some(Opcode::ShlRegRegImm),
            26 => Some(Opcode::ShrRegRegReg),
            27 => Some(Opcode::ShrRegRegImm),
            28 => Some(Opcode::CmpRegImm),
            29 => Some(Opcode::CmpRegReg),
            30 => Some(Opcode::JmpImm),
            31 => Some(Opcode::JmpReg),
            32 => Some(Opcode::JeqImm),
            33 => Some(Opcode::JeqReg),
            34 => Some(Opcode::JneImm),
            35 => Some(Opcode::JneReg),
            36 => Some(Opcode::JltImm),
            37 => Some(Opcode::JltReg),
            38 => Some(Opcode::JgtImm),
            39 => Some(Opcode::JgtReg),
            40 => Some(Opcode::JleImm),
            41 => Some(Opcode::JleReg),
            42 => Some(Opcode::JgeImm),
            43 => Some(Opcode::JgeReg),
            44 => Some(Opcode::CallImm),
            45 => Some(Opcode::CallReg),
            46 => Some(Opcode::Ret),
            47 => Some(Opcode::Inc),
            48 => Some(Opcode::Dec),
            49 => Some(Opcode::Syscall),
            50 => Some(Opcode::Hlt),
            _ => None,
        }
    }

    pub fn to_byte(self) -> (r: u8)
        ensures
            r == self.code(),
    {
        match self {
            Opcode::Nop => 0,
            Opcode::MovRegReg => 1,
            Opcode::MovRegImm => 2,
            Opcode::Ldr => 3,
            Opcode::Str => 4,
            Opcode::PushReg => 5,
            Opcode::PushImm => 6,
            Opcode::PushAddr => 7,
            Opcode::PopReg => 8,
            Opcode::PopAddr => 9,
            Opcode::AddRegRegReg => 10,
            Opcode::AddRegRegImm => 11,
            Opcode::SubRegRegReg => 12,
            Opcode::SubRegRegImm => 13,
            Opcode::MulRegRegReg => 14,
            Opcode::MulRegRegImm => 15,
            Opcode::DivRegRegReg => 16,
            Opcode::DivRegRegImm => 17,
            Opcode::AndRegRegReg => 18,
            Opcode::AndRegRegImm => 19,
            Opcode::OrRegRegReg => 20,
            Opcode::OrRegRegImm => 21,
            Opcode::XorRegRegReg => 22,
            Opcode::XorRegRegImm => 23,
            Opcode::ShlRegRegReg => 24,
            Opcode::ShlRegRegImm => 25,
            Opcode::ShrRegRegReg => 26,
            Opcode::ShrRegRegImm => 27,
            Opcode::CmpRegImm => 28,
            Opcode::CmpRegReg => 29,
            Opcode::JmpImm => 30,
            Opcode::JmpReg => 31,
            Opcode::JeqImm => 32,
            Opcode::JeqReg => 33,
            Opcode::JneImm => 34,
            Opcode::JneReg => 35,
            Opcode::JltImm => 36,
            Opcode::JltReg => 37,
            Opcode::JgtImm => 38,
            Opcode::JgtReg => 39,
            Opcode::JleImm => 40,
            Opcode::JleReg => 41,
            Opcode::JgeImm => 42,
            Opcode::JgeReg => 43,
            Opcode::CallImm => 44,
            Opcode::CallReg => 45,
            Opcode::Ret => 46,
            Opcode::Inc => 47,
            Opcode::Dec => 48,
            Opcode::Syscall => 49,
            Opcode::Hlt => 50,
        }
    }

    /// Decodes an opcode byte; `None` for a byte that is no opcode.
    pub fn from_byte(b: u8) -> (r: Option<Opcode>)
        ensures
            r == Opcode::opcode_of(b),
            r matches Some(op) ==> op.code() == b,
            r is None <==> b >= OPCODE_COUNT,
    {
        match b {
            0 => Some(Opcode::Nop),
            1 => Some(Opcode::MovRegReg),
            2 => Some(Opcode::MovRegImm),
            3 => Some(Opcode::Ldr),
            4 => Some(Opcode::Str),
            5 => Some(Opcode::PushReg),
            6 => Some(Opcode::PushImm),
            7 => Some(Opcode::PushAddr),
            8 => Some(Opcode::PopReg),
            9 => Some(Opcode::PopAddr),
            10 => Some(Opcode::AddRegRegReg),
            11 => Some(Opcode::AddRegRegImm),
            12 => Some(Opcode::SubRegRegReg),
            13 => Some(Opcode::SubRegRegImm),
            14 => Some(Opcode::MulRegRegReg),
            15 => Some(Opcode::MulRegRegImm),
            16 => Some(Opcode::DivRegRegReg),
            17 => Some(Opcode::DivRegRegImm),
            18 => Some(Opcode::AndRegRegReg),
            19 => Some(Opcode::AndRegRegImm),
            20 => Some(Opcode::OrRegRegReg),
            21 => Some(Opcode::OrRegRegImm),
            22 => Some(Opcode::XorRegRegReg),
            23 => Some(Opcode::XorRegRegImm),
            24 => Some(Opcode::ShlRegRegReg),
            25 => Some(Opcode::ShlRegRegImm),
            26 => Some(Opcode::ShrRegRegReg),
            27 => Some(Opcode::ShrRegRegImm),
            28 => Some(Opcode::CmpRegImm),
            29 => Some(Opcode::CmpRegReg),
            30 => Some(Opcode::JmpImm),
            31 => Some(Opcode::JmpReg),
            32 => Some(Opcode::JeqImm),
            33 => Some(Opcode::JeqReg),
            34 => Some(Opcode::JneImm),
            35 => Some(Opcode::JneReg),
            36 => Some(Opcode::JltImm),
            37 => Some(Opcode::JltReg),
            38 => Some(Opcode::JgtImm),
            39 => Some(Opcode::JgtReg),
            40 => Some(Opcode::JleImm),
            41 => Some(Opcode::JleReg),
            42 => Some(Opcode::JgeImm),
            43 => Some(Opcode::JgeReg),
            44 => Some(Opcode::CallImm),
            45 => Some(Opcode::CallReg),
            46 => Some(Opcode::Ret),
            47 => Some(Opcode::Inc),
            48 => Some(Opcode::Dec),
            49 => Some(Opcode::Syscall),
            50 => Some(Opcode::Hlt),
            _ => None,
        }
    }
}

} // verus!
