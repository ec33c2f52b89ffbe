use vstd::prelude::*;

use crate::float::FloatUnit;
use crate::immediate::{DataSize, Immediate};
use crate::token::is_word;

verus! {

/// An architectural register name: a physical slot seen through a view.
///
/// The declaration order is the canonical order whose position is the
/// register's byte in bytecode: `B0, W0, D0, Q0, FF0, DD0, B1, ...`, then
/// `IP, SP, BP`.
#[derive(Clone, Copy, Debug, PartialEq, Eq, Structural)]
pub enum Register {
    B0, W0, D0, Q0, FF0, DD0,
    B1, W1, D1, Q1, FF1, DD1,
    B2, W2, D2, Q2, FF2, DD2,
    B3, W3, D3, Q3, FF3, DD3,
    B4, W4, D4, Q4, FF4, DD4,
    B5, W5, D5, Q5, FF5, DD5,
    B6, W6, D6, Q6, FF6, DD6,
    B7, W7, D7, Q7, FF7, DD7,
    B8, W8, D8, Q8, FF8, DD8,
    B9, W9, D9, Q9, FF9, DD9,
    B10, W10, D10, Q10, FF10, DD10,
    B11, W11, D11, Q11, FF11, DD11,
    B12, W12, D12, Q12, FF12, DD12,
    B13, W13, D13, Q13, FF13, DD13,
    B14, W14, D14, Q14, FF14, DD14,
    B15, W15, D15, Q15, FF15, DD15,
    IP, SP, BP,
}

/// The bank a register name lives in.
#[derive(Clone, Copy, Debug, PartialEq, Eq, Structural)]
pub enum PhysicalRegisterType {
    GeneralPurpose,
    FloatingPoint,
    Special,
}

/// The width through which a physical slot is read or written.
#[derive(Clone, Copy, Debug, PartialEq, Eq, Structural)]
pub enum RegisterView {
    Byte,
    Word,
    DWord,
    QWord,
    Float,
    Double,
}

pub const IP_REG: usize = 0;
pub const SP_REG: usize = 1;
pub const BP_REG: usize = 2;

impl Register {
    /// The register's byte in bytecode (its position in the canonical order).
    pub open spec fn code(self) -> u8 {
        match self {
            Register::B0 => 0,
            Register::W0 => 1,
            Register::D0 => 2,
            Register::Q0 => 3,
            Register::FF0 => 4,
            Register::DD0 => 5,
            Register::B1 => 6,
            Register::W1 => 7,
            Register::D1 => 8,
            Register::Q1 => 9,
            Register::FF1 => 10,
            Register::DD1 => 11,
            Register::B2 => 12,
            Register::W2 => 13,
            Register::D2 => 14,
            Register::Q2 => 15,
            Register::FF2 => 16,
            Register::DD2 => 17,
            Register::B3 => 18,
            Register::W3 => 19,
            Register::D3 => 20,
            Register::Q3 => 21,
            Register::FF3 => 22,
            Register::DD3 => 23,
            Register::B4 => 24,
            Register::W4 => 25,
            Register::D4 => 26,
            Register::Q4 => 27,
            Register::FF4 => 28,
            Register::DD4 => 29,
            Register::B5 => 30,
            Register::W5 => 31,
            Register::D5 => 32,
            Register::Q5 => 33,
            Register::FF5 => 34,
            Register::DD5 => 35,
            Register::B6 => 36,
            Register::W6 => 37,
            Register::D6 => 38,
            Register::Q6 => 39,
            Register::FF6 => 40,
            Register::DD6 => 41,
            Register::B7 => 42,
            Register::W7 => 43,
            Register::D7 => 44,
            Register::Q7 => 45,
            Register::FF7 => 46,
            Register::DD7 => 47,
            Register::B8 => 48,
            Register::W8 => 49,
            Register::D8 => 50,
            Register::Q8 => 51,
            Register::FF8 => 52,
            Register::DD8 => 53,
            Register::B9 => 54,
            Register::W9 => 55,
            Register::D9 => 56,
            Register::Q9 => 57,
            Register::FF9 => 58,
            Register::DD9 => 59,
            Register::B10 => 60,
            Register::W10 => 61,
            Register::D10 => 62,
            Register::Q10 => 63,
            Register::FF10 => 64,
            Register::DD10 => 65,
            Register::B11 => 66,
            Register::W11 => 67,
            Register::D11 => 68,
            Register::Q11 => 69,
            Register::FF11 => 70,
            Register::DD11 => 71,
            Register::B12 => 72,
            Register::W12 => 73,
            Register::D12 => 74,
            Register::Q12 => 75,
            Register::FF12 => 76,
            Register::DD12 => 77,
            Register::B13 => 78,
            Register::W13 => 79,
            Register::D13 => 80,
            Register::Q13 => 81,
            Register::FF13 => 82,
            Register::DD13 => 83,
            Register::B14 => 84,
            Register::W14 => 85,
            Register::D14 => 86,
            Register::Q14 => 87,
            Register::FF14 => 88,
            Register::DD14 => 89,
            Register::B15 => 90,
            Register::W15 => 91,
            Register::D15 => 92,
            Register::Q15 => 93,
            Register::FF15 => 94,
            Register::DD15 => 95,
            Register::IP => 96,
            Register::SP => 97,
            Register::BP => 98,
        }
    }

    pub open spec fn spec_bank(self) -> PhysicalRegisterType {
        if self.code() >= 96 {
            PhysicalRegisterType::Special
        } else if self.code() % 6 < 4 {
            PhysicalRegisterType::GeneralPurpose
        } else {
            PhysicalRegisterType::FloatingPoint
        }
    }

    /// Index of the physical slot within its bank. Single-precision names use
    /// float slots 0..16 and double-precision names slots 16..32.
    pub open spec fn spec_index(self) -> nat {
        if self.code() >= 96 {
            (self.code() - 96) as nat
        } else if self.code() % 6 == 5 {
            (self.code() / 6 + 16) as nat
        } else {
            (self.code() / 6) as nat
        }
    }

    pub open spec fn spec_view(self) -> RegisterView {
        if self.code() >= 96 {
            RegisterView::QWord
        } else {
            match self.code() % 6 {
                0 => RegisterView::Byte,
                1 => RegisterView::Word,
                2 => RegisterView::DWord,
                3 => RegisterView::QWord,
                4 => RegisterView::Float,
                _ => RegisterView::Double,
            }
        }
    }

    /// The width of a value read or written through this name.
    pub open spec fn spec_data_size(self) -> DataSize {
        match self.spec_view() {
            RegisterView::Byte => DataSize::Byte,
            RegisterView::Word => DataSize::Word,
            RegisterView::DWord => DataSize::DWord,
            RegisterView::QWord => DataSize::QWord,
            RegisterView::Float => DataSize::Float,
            RegisterView::Double => DataSize::Double,
        }
    }

    /// The register whose byte is `b`, if any.
    pub open spec fn register_of(b: u8) -> Option<Register> {
        match b {
            0 => Some(Register::B0),
            1 => Some(Register::W0),
            2 => Some(Register::D0),
            3 => Some(Register::Q0),
            4 => Some(Register::FF0),
            5 => Some(Register::DD0),
            6 => Some(Register::B1),
            7 => Some(Register::W1),
            8 => Some(Register::D1),
            9 => Some(Register::Q1),
            10 => Some(Register::FF1),
            11 => Some(Register::DD1),
            12 => Some(Register::B2),
            13 => Some(Register::W2),
            14 => Some(Register::D2),
            15 => Some(Register::Q2),
            16 => Some(Register::FF2),
            17 => Some(Register::DD2),
            18 => Some(Register::B3),
            19 => Some(Register::W3),
            20 => Some(Register::D3),
            21 => Some(Register::Q3),
            22 => Some(Register::FF3),
            23 => Some(Register::DD3),
            24 => Some(Register::B4),
            25 => Some(Register::W4),
            26 => Some(Register::D4),
            27 => Some(Register::Q4),
            28 => Some(Register::FF4),
            29 => Some(Register::DD4),
            30 => Some(Register::B5),
            31 => Some(Register::W5),
            32 => Some(Register::D5),
            33 => Some(Register::Q5),
            34 => Some(Register::FF5),
            35 => Some(Register::DD5),
            36 => Some(Register::B6),
            37 => Some(Register::W6),
            38 => Some(Register::D6),
            39 => Some(Register::Q6),
            40 => Some(Register::FF6),
            41 => Some(Register::DD6),
            42 => Some(Register::B7),
            43 => Some(Register::W7),
            44 => Some(Register::D7),
            45 => Some(Register::Q7),
            46 => Some(Register::FF7),
            47 => Some(Register::DD7),
            48 => Some(Register::B8),
            49 => Some(Register::W8),
            50 => Some(Register::D8),
            51 => Some(Register::Q8),
            52 => Some(Register::FF8),
            53 => Some(Register::DD8),
            54 => Some(Register::B9),
            55 => Some(Register::W9),
            56 => Some(Register::D9),
            57 => Some(Register::Q9),
            58 => Some(Register::FF9),
            59 => Some(Register::DD9),
            60 => Some(Register::B10),
            61 => Some(Register::W10),
            62 => Some(Register::D10),
            63 => Some(Register::Q10),
            64 => Some(Register::FF10),
            65 => Some(Register::DD10),
            66 => Some(Register::B11),
            67 => Some(Register::W11),
            68 => Some(Register::D11),
            69 => Some(Register::Q11),
            70 => Some(Register::FF11),
            71 => Some(Register::DD11),
            72 => Some(Register::B12),
            73 => Some(Register::W12),
            74 => Some(Register::D12),
            75 => Some(Register::Q12),
            76 => Some(Register::FF12),
            77 => Some(Register::DD12),
            78 => Some(Register::B13),
            79 => Some(Register::W13),
            80 => Some(Register::D13),
            81 => Some(Register::Q13),
            82 => Some(Register::FF13),
            83 => Some(Register::DD13),
            84 => Some(Register::B14),
            85 => Some(Register::W14),
            86 => Some(Register::D14),
            87 => Some(Register::Q14),
            88 => Some(Register::FF14),
            89 => Some(Register::DD14),
            90 => Some(Register::B15),
            91 => Some(Register::W15),
            92 => Some(Register::D15),
            93 => Some(Register::Q15),
            94 => Some(Register::FF15),
            95 => Some(Register::DD15),
            96 => Some(Register::IP),
            97 => Some(Register::SP),
            98 => Some(Register::BP),
            _ => None,
        }
    }

    pub proof fn lemma_code_bound(self)
        ensures
            self.code() < 99,
    {
    }

    /// The register called `s` (in lower case), if any.
    pub open spec fn spec_from_name(s: Seq<char>) -> Option<Register> {
        if s == "b0"@ {
            Some(Register::B0)
        } else if s == "w0"@ {
            Some(Register::W0)
        } else if s == "d0"@ {
            Some(Register::D0)
        } else if s == "q0"@ {
            Some(Register::Q0)
        } else if s == "ff0"@ {
            Some(Register::FF0)
        } else if s == "dd0"@ {
            Some(Register::DD0)
        } else if s == "b1"@ {
            Some(Register::B1)
        } else if s == "w1"@ {
            Some(Register::W1)
        } else if s == "d1"@ {
            Some(Register::D1)
        } else if s == "q1"@ {
            Some(Register::Q1)
        } else if s == "ff1"@ {
            Some(Register::FF1)
        } else if s == "dd1"@ {
            Some(Register::DD1)
        } else if s == "b2"@ {
            Some(Register::B2)
        } else if s == "w2"@ {
            Some(Register::W2)
        } else if s == "d2"@ {
            Some(Register::D2)
        } else if s == "q2"@ {
            Some(Register::Q2)
        } else if s == "ff2"@ {
            Some(Register::FF2)
        } else if s == "dd2"@ {
            Some(Register::DD2)
        } else if s == "b3"@ {
            Some(Register::B3)
        } else if s == "w3"@ {
            Some(Register::W3)
        } else if s == "d3"@ {
            Some(Register::D3)
        } else if s == "q3"@ {
            Some(Register::Q3)
        } else if s == "ff3"@ {
            Some(Register::FF3)
        } else if s == "dd3"@ {
            Some(Register::DD3)
        } else if s == "b4"@ {
            Some(Register::B4)
        } else if s == "w4"@ {
            Some(Register::W4)
        } else if s == "d4"@ {
            Some(Register::D4)
        } else if s == "q4"@ {
            Some(Register::Q4)
        } else if s == "ff4"@ {
            Some(Register::FF4)
        } else if s == "dd4"@ {
            Some(Register::DD4)
        } else if s == "b5"@ {
            Some(Register::B5)
        } else if s == "w5"@ {
            Some(Register::W5)
        } else if s == "d5"@ {
            Some(Register::D5)
        } else if s == "q5"@ {
            Some(Register::Q5)
        } else if s == "ff5"@ {
            Some(Register::FF5)
        } else if s == "dd5"@ {
            Some(Register::DD5)
        } else if s == "b6"@ {
            Some(Register::B6)
        } else if s == "w6"@ {
            Some(Register::W6)
        } else if s == "d6"@ {
            Some(Register::D6)
        } else if s == "q6"@ {
            Some(Register::Q6)
        } else if s == "ff6"@ {
            Some(Register::FF6)
        } else if s == "dd6"@ {
            Some(Register::DD6)
        } else if s == "b7"@ {
            Some(Register::B7)
        } else if s == "w7"@ {
            Some(Register::W7)
        } else if s == "d7"@ {
            Some(Register::D7)
        } else if s == "q7"@ {
            Some(Register::Q7)
        } else if s == "ff7"@ {
            Some(Register::FF7)
        } else if s == "dd7"@ {
            Some(Register::DD7)
        } else if s == "b8"@ {
            Some(Register::B8)
        } else if s == "w8"@ {
            Some(Register::W8)
        } else if s == "d8"@ {
            Some(Register::D8)
        } else if s == "q8"@ {
            Some(Register::Q8)
        } else if s == "ff8"@ {
            Some(Register::FF8)
        } else if s == "dd8"@ {
            Some(Register::DD8)
        } else if s == "b9"@ {
            Some(Register::B9)
        } else if s == "w9"@ {
            Some(Register::W9)
        } else if s == "d9"@ {
            Some(Register::D9)
        } else if s == "q9"@ {
            Some(Register::Q9)
        } else if s == "ff9"@ {
            Some(Register::FF9)
        } else if s == "dd9"@ {
            Some(Register::DD9)
        } else if s == "b10"@ {
            Some(Register::B10)
        } else if s == "w10"@ {
            Some(Register::W10)
        } else if s == "d10"@ {
            Some(Register::D10)
        } else if s == "q10"@ {
            Some(Register::Q10)
        } else if s == "ff10"@ {
            Some(Register::FF10)
        } else if s == "dd10"@ {
            Some(Register::DD10)
        } else if s == "b11"@ {
            Some(Register::B11)
        } else if s == "w11"@ {
            Some(Register::W11)
        } else if s == "d11"@ {
            Some(Register::D11)
        } else if s == "q11"@ {
            Some(Register::Q11)
        } else if s == "ff11"@ {
            Some(Register::FF11)
        } else if s == "dd11"@ {
            Some(Register::DD11)
        } else if s == "b12"@ {
            Some(Register::B12)
        } else if s == "w12"@ {
            Some(Register::W12)
        } else if s == "d12"@ {
            Some(Register::D12)
        } else if s == "q12"@ {
            Some(Register::Q12)
        } else if s == "ff12"@ {
            Some(Register::FF12)
        } else if s == "dd12"@ {
            Some(Register::DD12)
        } else if s == "b13"@ {
            Some(Register::B13)
        } else if s == "w13"@ {
            Some(Register::W13)
        } else if s == "d13"@ {
            Some(Register::D13)
        } else if s == "q13"@ {
            Some(Register::Q13)
        } else if s == "ff13"@ {
            Some(Register::FF13)
        } else if s == "dd13"@ {
            Some(Register::DD13)
        } else if s == "b14"@ {
            Some(Register::B14)
        } else if s == "w14"@ {
            Some(Register::W14)
        } else if s == "d14"@ {
            Some(Register::D14)
        } else if s == "q14"@ {
            Some(Register::Q14)
        } else if s == "ff14"@ {
            Some(Register::FF14)
        } else if s == "dd14"@ {
            Some(Register::DD14)
        } else if s == "b15"@ {
            Some(Register::B15)
        } else if s == "w15"@ {
            Some(Register::W15)
        } else if s == "d15"@ {
            Some(Register::D15)
        } else if s == "q15"@ {
            Some(Register::Q15)
        } else if s == "ff15"@ {
            Some(Register::FF15)
        } else if s == "dd15"@ {
            Some(Register::DD15)
        } else if s == "ip"@ {
            Some(Register::IP)
        } else if s == "sp"@ {
            Some(Register::SP)
        } else if s == "bp"@ {
            Some(Register::BP)
        } else {
            None
        }
    }

    /// Looks a register up by its (lower-case) name.
    pub fn from_name(s: &String) -> (r: Option<Register>)
        ensures
            r == Register::spec_from_name(s@),
    {
        if is_word(s, "b0") {
            return Some(Register::B0);
        }
        if is_word(s, "w0") {
            return Some(Register::W0);
        }
        if is_word(s, "d0") {
            return Some(Register::D0);
        }
        if is_word(s, "q0") {
            return Some(Register::Q0);
        }
        if is_word(s, "ff0") {
            return Some(Register::FF0);
        }
        if is_word(s, "dd0") {
            return Some(Register::DD0);
        }
        if is_word(s, "b1") {
            return Some(Register::B1);
        }
        if is_word(s, "w1") {
            return Some(Register::W1);
        }
        if is_word(s, "d1") {
            return Some(Register::D1);
        }
        if is_word(s, "q1") {
            return Some(Register::Q1);
        }
        if is_word(s, "ff1") {
            return Some(Register::FF1);
        }
        if is_word(s, "dd1") {
            return Some(Register::DD1);
        }
        if is_word(s, "b2") {
            return Some(Register::B2);
        }
        if is_word(s, "w2") {
            return Some(Register::W2);
        }
        if is_word(s, "d2") {
            return Some(Register::D2);
        }
        if is_word(s, "q2") {
            return Some(Register::Q2);
        }
        if is_word(s, "ff2") {
            return Some(Register::FF2);
        }
        if is_word(s, "dd2") {
            return Some(Register::DD2);
        }
        if is_word(s, "b3") {
            return Some(Register::B3);
        }
        if is_word(s, "w3") {
            return Some(Register::W3);
        }
        if is_word(s, "d3") {
            return Some(Register::D3);
        }
        if is_word(s, "q3") {
            return Some(Register::Q3);
        }
        if is_word(s, "ff3") {
            return Some(Register::FF3);
        }
        if is_word(s, "dd3") {
            return Some(Register::DD3);
        }
        if is_word(s, "b4") {
            return Some(Register::B4);
        }
        if is_word(s, "w4") {
            return Some(Register::W4);
        }
        if is_word(s, "d4") {
            return Some(Register::D4);
        }
        if is_word(s, "q4") {
            return Some(Register::Q4);
        }
        if is_word(s, "ff4") {
            return Some(Register::FF4);
        }
        if is_word(s, "dd4") {
            return Some(Register::DD4);
        }
        if is_word(s, "b5") {
            return Some(Register::B5);
        }
        if is_word(s, "w5") {
            return Some(Register::W5);
        }
        if is_word(s, "d5") {
            return Some(Register::D5);
        }
        if is_word(s, "q5") {
            return Some(Register::Q5);
        }
        if is_word(s, "ff5") {
            return Some(Register::FF5);
        }
        if is_word(s, "dd5") {
            return Some(Register::DD5);
        }
        if is_word(s, "b6") {
            return Some(Register::B6);
        }
        if is_word(s, "w6") {
            return Some(Register::W6);
        }
        if is_word(s, "d6") {
            return Some(Register::D6);
        }
        if is_word(s, "q6") {
            return Some(Register::Q6);
        }
        if is_word(s, "ff6") {
            return Some(Register::FF6);
        }
        if is_word(s, "dd6") {
            return Some(Register::DD6);
        }
        if is_word(s, "b7") {
            return Some(Register::B7);
        }
        if is_word(s, "w7") {
            return Some(Register::W7);
        }
        if is_word(s, "d7") {
            return Some(Register::D7);
        }
        if is_word(s, "q7") {
            return Some(Register::Q7);
        }
        if is_word(s, "ff7") {
            return Some(Register::FF7);
        }
        if is_word(s, "dd7") {
            return Some(Register::DD7);
        }
        if is_word(s, "b8") {
            return Some(Register::B8);
        }
        if is_word(s, "w8") {
            return Some(Register::W8);
        }
        if is_word(s, "d8") {
            return Some(Register::D8);
        }
        if is_word(s, "q8") {
            return Some(Register::Q8);
        }
        if is_word(s, "ff8") {
            return Some(Register::FF8);
        }
        if is_word(s, "dd8") {
            return Some(Register::DD8);
        }
        if is_word(s, "b9") {
            return Some(Register::B9);
        }
        if is_word(s, "w9") {
            return Some(Register::W9);
        }
        if is_word(s, "d9") {
            return Some(Register::D9);
        }
        if is_word(s, "q9") {
            return Some(Register::Q9);
        }
        if is_word(s, "ff9") {
            return Some(Register::FF9);
        }
        if is_word(s, "dd9") {
            return Some(Register::DD9);
        }
        if is_word(s, "b10") {
            return Some(Register::B10);
        }
        if is_word(s, "w10") {
            return Some(Register::W10);
        }
        if is_word(s, "d10") {
            return Some(Register::D10);
        }
        if is_word(s, "q10") {
            return Some(Register::Q10);
        }
        if is_word(s, "ff10") {
            return Some(Register::FF10);
        }
        if is_word(s, "dd10") {
            return Some(Register::DD10);
        }
        if is_word(s, "b11") {
            return Some(Register::B11);
        }
        if is_word(s, "w11") {
            return Some(Register::W11);
        }
        if is_word(s, "d11") {
            return Some(Register::D11);
        }
        if is_word(s, "q11") {
            return Some(Register::Q11);
        }
        if is_word(s, "ff11") {
            return Some(Register::FF11);
        }
        if is_word(s, "dd11") {
            return Some(Register::DD11);
        }
        if is_word(s, "b12") {
            return Some(Register::B12);
        }
        if is_word(s, "w12") {
            return Some(Register::W12);
        }
        if is_word(s, "d12") {
            return Some(Register::D12);
        }
        if is_word(s, "q12") {
            return Some(Register::Q12);
        }
        if is_word(s, "ff12") {
            return Some(Register::FF12);
        }
        if is_word(s, "dd12") {
            return Some(Register::DD12);
        }
        if is_word(s, "b13") {
            return Some(Register::B13);
        }
        if is_word(s, "w13") {
            return Some(Register::W13);
        }
        if is_word(s, "d13") {
            return Some(Register::D13);
        }
        if is_word(s, "q13") {
            return Some(Register::Q13);
        }
        if is_word(s, "ff13") {
            return Some(Register::FF13);
        }
        if is_word(s, "dd13") {
            return Some(Register::DD13);
        }
        if is_word(s, "b14") {
            return Some(Register::B14);
        }
        if is_word(s, "w14") {
            return Some(Register::W14);
        }
        if is_word(s, "d14") {
            return Some(Register::D14);
        }
        if is_word(s, "q14") {
            return Some(Register::Q14);
        }
        if is_word(s, "ff14") {
            return Some(Register::FF14);
        }
        if is_word(s, "dd14") {
            return Some(Register::DD14);
        }
        if is_word(s, "b15") {
            return Some(Register::B15);
        }
        if is_word(s, "w15") {
            return Some(Register::W15);
        }
        if is_word(s, "d15") {
            return Some(Register::D15);
        }
        if is_word(s, "q15") {
            return Some(Register::Q15);
        }
        if is_word(s, "ff15") {
            return Some(Register::FF15);
        }
        if is_word(s, "dd15") {
            return Some(Register::DD15);
        }
        if is_word(s, "ip") {
            return Some(Register::IP);
        }
        if is_word(s, "sp") {
            return Some(Register::SP);
        }
        if is_word(s, "bp") {
            return Some(Register::BP);
        }
        None
    }

    pub fn to_byte(self) -> (r: u8)
        ensures
            r == self.code(),
    {
        match self {
            Register::B0 => 0,
            Register::W0 => 1,
            Register::D0 => 2,
            Register::Q0 => 3,
            Register::FF0 => 4,
            Register::DD0 => 5,
            Register::B1 => 6,
            Register::W1 => 7,
            Register::D1 => 8,
            Register::Q1 => 9,
            Register::FF1 => 10,
            Register::DD1 => 11,
            Register::B2 => 12,
            Register::W2 => 13,
            Register::D2 => 14,
            Register::Q2 => 15,
            Register::FF2 => 16,
            Register::DD2 => 17,
            Register::B3 => 18,
            Register::W3 => 19,
            Register::D3 => 20,
            Register::Q3 => 21,
            Register::FF3 => 22,
            Register::DD3 => 23,
            Register::B4 => 24,
            Register::W4 => 25,
            Register::D4 => 26,
            Register::Q4 => 27,
            Register::FF4 => 28,
            Register::DD4 => 29,
            Register::B5 => 30,
            Register::W5 => 31,
            Register::D5 => 32,
            Register::Q5 => 33,
            Register::FF5 => 34,
            Register::DD5 => 35,
            Register::B6 => 36,
            Register::W6 => 37,
            Register::D6 => 38,
            Register::Q6 => 39,
            Register::FF6 => 40,
            Register::DD6 => 41,
            Register::B7 => 42,
            Register::W7 => 43,
            Register::D7 => 44,
            Register::Q7 => 45,
            Register::FF7 => 46,
            Register::DD7 => 47,
            Register::B8 => 48,
            Register::W8 => 49,
            Register::D8 => 50,
            Register::Q8 => 51,
            Register::FF8 => 52,
            Register::DD8 => 53,
            Register::B9 => 54,
            Register::W9 => 55,
            Register::D9 => 56,
            Register::Q9 => 57,
            Register::FF9 => 58,
            Register::DD9 => 59,
            Register::B10 => 60,
            Register::W10 => 61,
            Register::D10 => 62,
            Register::Q10 => 63,
            Register::FF10 => 64,
            Register::DD10 => 65,
            Register::B11 => 66,
            Register::W11 => 67,
            Register::D11 => 68,
            Register::Q11 => 69,
            Register::FF11 => 70,
            Register::DD11 => 71,
            Register::B12 => 72,
            Register::W12 => 73,
            Register::D12 => 74,
            Register::Q12 => 75,
            Register::FF12 => 76,
            Register::DD12 => 77,
            Register::B13 => 78,
            Register::W13 => 79,
            Register::D13 => 80,
            Register::Q13 => 81,
            Register::FF13 => 82,
            Register::DD13 => 83,
            Register::B14 => 84,
            Register::W14 => 85,
            Register::D14 => 86,
            Register::Q14 => 87,
            Register::FF14 => 88,
            Register::DD14 => 89,
            Register::B15 => 90,
            Register::W15 => 91,
            Register::D15 => 92,
            Register::Q15 => 93,
            Register::FF15 => 94,
            Register::DD15 => 95,
            Register::IP => 96,
            Register::SP => 97,
            Register::BP => 98,
        }
    }

    /// Decodes a register byte; `None` for a byte past `BP`.
    pub fn from_byte(b: u8) -> (r: Option<Register>)
        ensures
            r == Register::register_of(b),
            r matches Some(reg) ==> reg.code() == b,
            r is None <==> b >= 99,
    {
        match b {
            0 => Some(Register::B0),
            1 => Some(Register::W0),
            2 => Some(Register::D0),
            3 => Some(Register::Q0),
            4 => Some(Register::FF0),
            5 => Some(Register::DD0),
            6 => Some(Register::B1),
            7 => Some(Register::W1),
            8 => Some(Register::D1),
            9 => Some(Register::Q1),
            10 => Some(Register::FF1),
            11 => Some(Register::DD1),
            12 => Some(Register::B2),
            13 => Some(Register::W2),
            14 => Some(Register::D2),
            15 => Some(Register::Q2),
            16 => Some(Register::FF2),
            17 => Some(Register::DD2),
            18 => Some(Register::B3),
            19 => Some(Register::W3),
            20 => Some(Register::D3),
            21 => Some(Register::Q3),
            22 => Some(Register::FF3),
            23 => Some(Register::DD3),
            24 => Some(Register::B4),
            25 => Some(Register::W4),
            26 => Some(Register::D4),
            27 => Some(Register::Q4),
            28 => Some(Register::FF4),
            29 => Some(Register::DD4),
            30 => Some(Register::B5),
            31 => Some(Register::W5),
            32 => Some(Register::D5),
            33 => Some(Register::Q5),
            34 => Some(Register::FF5),
            35 => Some(Register::DD5),
            36 => Some(Register::B6),
            37 => Some(Register::W6),
            38 => Some(Register::D6),
            39 => Some(Register::Q6),
            40 => Some(Register::FF6),
            41 => Some(Register::DD6),
            42 => Some(Register::B7),
            43 => Some(Register::W7),
            44 => Some(Register::D7),
            45 => Some(Register::Q7),
            46 => Some(Register::FF7),
            47 => Some(Register::DD7),
            48 => Some(Register::B8),
            49 => Some(Register::W8),
            50 => Some(Register::D8),
            51 => Some(Register::Q8),
            52 => Some(Register::FF8),
            53 => Some(Register::DD8),
            54 => Some(Register::B9),
            55 => Some(Register::W9),
            56 => Some(Register::D9),
            57 => Some(Register::Q9),
            58 => Some(Register::FF9),
            59 => Some(Register::DD9),
            60 => Some(Register::B10),
            61 => Some(Register::W10),
            62 => Some(Register::D10),
            63 => Some(Register::Q10),
            64 => Some(Register::FF10),
            65 => Some(Register::DD10),
            66 => Some(Register::B11),
            67 => Some(Register::W11),
            68 => Some(Register::D11),
            69 => Some(Register::Q11),
            70 => Some(Register::FF11),
            71 => Some(Register::DD11),
            72 => Some(Register::B12),
            73 => Some(Register::W12),
            74 => Some(Register::D12),
            75 => Some(Register::Q12),
            76 => Some(Register::FF12),
            77 => Some(Register::DD12),
            78 => Some(Register::B13),
            79 => Some(Register::W13),
            80 => Some(Register::D13),
            81 => Some(Register::Q13),
            82 => Some(Register::FF13),
            83 => Some(Register::DD13),
            84 => Some(Register::B14),
            85 => Some(Register::W14),
            86 => Some(Register::D14),
            87 => Some(Register::Q14),
            88 => Some(Register::FF14),
            89 => Some(Register::DD14),
            90 => Some(Register::B15),
            91 => Some(Register::W15),
            92 => Some(Register::D15),
            93 => Some(Register::Q15),
            94 => Some(Register::FF15),
            95 => Some(Register::DD15),
            96 => Some(Register::IP),
            97 => Some(Register::SP),
            98 => Some(Register::BP),
            _ => None,
        }
    }

    /// The bank, slot index and view that this name selects.
    pub fn physical_info(self) -> (r: (PhysicalRegisterType, usize, RegisterView))
        ensures
            r.0 == self.spec_bank(),
            r.1 == self.spec_index(),
            r.2 == self.spec_view(),
    {
        let c = self.to_byte();
        if c >= 96 {
            (PhysicalRegisterType::Special, (c - 96) as usize, RegisterView::QWord)
        } else {
            let i = (c / 6) as usize;
            let v = c % 6;
            if v == 0 {
                (PhysicalRegisterType::GeneralPurpose, i, RegisterView::Byte)
            } else if v == 1 {
                (PhysicalRegisterType::GeneralPurpose, i, RegisterView::Word)
            } else if v == 2 {
                (PhysicalRegisterType::GeneralPurpose, i, RegisterView::DWord)
            } else if v == 3 {
                (PhysicalRegisterType::GeneralPurpose, i, RegisterView::QWord)
            } else if v == 4 {
                (PhysicalRegisterType::FloatingPoint, i, RegisterView::Float)
            } else {
                (PhysicalRegisterType::FloatingPoint, i + 16, RegisterView::Double)
            }
        }
    }

    pub fn data_size(self) -> (r: DataSize)
        ensures
            r == self.spec_data_size(),
    {
        let (_, _, view) = self.physical_info();
        match view {
            RegisterView::Byte => DataSize::Byte,
            RegisterView::Word => DataSize::Word,
            RegisterView::DWord => DataSize::DWord,
            RegisterView::QWord => DataSize::QWord,
            RegisterView::Float => DataSize::Float,
            RegisterView::Double => DataSize::Double,
        }
    }
}


/// The contents of the register file: 16 general-purpose slots, 32
/// floating-point slots (bit patterns) and the three special slots.
pub ghost struct RegisterFile {
    pub gpr: Seq<u64>,
    pub fpr: Seq<u64>,
    pub special: Seq<u64>,
}

pub open spec fn merge_byte(old: u64, v: u64) -> u64 {
    (old & 0xFFFF_FFFF_FFFF_FF00u64) | (v as u8 as u64)
}

pub open spec fn merge_word(old: u64, v: u64) -> u64 {
    (old & 0xFFFF_FFFF_FFFF_0000u64) | (v as u16 as u64)
}

impl RegisterFile {
    pub open spec fn wf(self) -> bool {
        &&& self.gpr.len() == 16
        &&& self.fpr.len() == 32
        &&& self.special.len() == 3
    }

    /// The value read through `reg`: the low bits of a general-purpose slot,
    /// the bit pattern of a floating-point slot, or a special slot.
    pub open spec fn read(self, reg: Register) -> Immediate {
        let i = reg.spec_index() as int;
        match reg.spec_bank() {
            PhysicalRegisterType::GeneralPurpose => Immediate::of_raw(
                reg.spec_data_size(),
                self.gpr[i],
            ),
            PhysicalRegisterType::FloatingPoint => Immediate::of_raw(
                reg.spec_data_size(),
                self.fpr[i],
            ),
            PhysicalRegisterType::Special => Immediate::QWord(self.special[i]),
        }
    }

    /// The file after writing `v` (of `reg`'s width) through `reg`: a byte or
    /// word view keeps the upper bits of its slot, a dword view zero-extends,
    /// every other view replaces the whole slot.
    pub open spec fn write(self, reg: Register, v: Immediate) -> RegisterFile {
        let i = reg.spec_index() as int;
        match reg.spec_bank() {
            PhysicalRegisterType::GeneralPurpose => {
                let slot = match reg.spec_view() {
                    RegisterView::Byte => merge_byte(self.gpr[i], v.raw()),
                    RegisterView::Word => merge_word(self.gpr[i], v.raw()),
                    _ => v.raw(),
                };
                RegisterFile { gpr: self.gpr.update(i, slot), ..self }
            },
            PhysicalRegisterType::FloatingPoint => RegisterFile {
                fpr: self.fpr.update(i, v.raw()),
                ..self
            },
            PhysicalRegisterType::Special => RegisterFile {
                special: self.special.update(i, v.raw()),
                ..self
            },
        }
    }
}

/// The register file of the virtual machine.
#[derive(Debug)]
pub struct Registers {
    gpr: Vec<u64>,
    fpr: Vec<u64>,
    special: Vec<u64>,
}

impl View for Registers {
    type V = RegisterFile;

    closed spec fn view(&self) -> RegisterFile {
        RegisterFile { gpr: self.gpr@, fpr: self.fpr@, special: self.special@ }
    }
}

impl Registers {
    pub open spec fn wf(&self) -> bool {
        self@.wf()
    }

    /// A register file with every slot zero.
    pub fn new() -> (r: Self)
        ensures
            r.wf(),
            forall|i: int| 0 <= i < 16 ==> r@.gpr[i] == 0,
            forall|i: int| 0 <= i < 32 ==> r@.fpr[i] == 0,
            forall|i: int| 0 <= i < 3 ==> r@.special[i] == 0,
    {
        let r = Registers { gpr: vec![0u64; 16], fpr: vec![0u64; 32], special: vec![0u64; 3] };
        r
    }

    /// Reads through `reg`.
    pub fn get(&self, reg: Register) -> (r: Immediate)
        requires
            self.wf(),
        ensures
            r == self@.read(reg),
            r.spec_size() == reg.spec_data_size(),
    {
        let (bank, index, view) = reg.physical_info();
        match bank {
            PhysicalRegisterType::GeneralPurpose => {
                let value = self.gpr[index];
                match view {
                    RegisterView::Byte => Immediate::Byte(value as u8),
                    RegisterView::Word => Immediate::Word(value as u16),
                    RegisterView::DWord => Immediate::DWord(value as u32),
                    _ => Immediate::QWord(value),
                }
            },
            PhysicalRegisterType::FloatingPoint => {
                let bits = self.fpr[index];
                match view {
                    RegisterView::Float => Immediate::Float(bits as u32),
                    _ => Immediate::Double(bits),
                }
            },
            PhysicalRegisterType::Special => Immediate::QWord(self.special[index]),
        }
    }

    /// Writes `v`, which already has `reg`'s width, through `reg`.
    pub fn put(&mut self, reg: Register, v: Immediate)
        requires
            old(self).wf(),
            v.spec_size() == reg.spec_data_size(),
        ensures
            final(self).wf(),
            final(self)@ == old(self)@.write(reg, v),
    {
        let (bank, index, view) = reg.physical_info();
        let raw = v.raw_value();
        match bank {
            PhysicalRegisterType::GeneralPurpose => {
                let cur = self.gpr[index];
                let slot = match view {
                    RegisterView::Byte => (cur & 0xFFFF_FFFF_FFFF_FF00u64) | (raw as u8 as u64),
                    RegisterView::Word => (cur & 0xFFFF_FFFF_FFFF_0000u64) | (raw as u16 as u64),
                    _ => raw,
                };
                self.gpr.set(index, slot);
            },
            PhysicalRegisterType::FloatingPoint => {
                self.fpr.set(index, raw);
            },
            PhysicalRegisterType::Special => {
                self.special.set(index, raw);
            },
        }
    }

    /// Writes `imm` through `reg`, first converting it to `reg`'s width.
    pub fn set<F: FloatUnit>(&mut self, reg: Register, imm: Immediate, fpu: &F)
        requires
            old(self).wf(),
        ensures
            final(self).wf(),
            final(self)@ == old(self)@.write(reg, final(self)@.read(reg)),
            imm.spec_size() == reg.spec_data_size() ==> final(self)@ == old(self)@.write(reg, imm),
            imm.spec_size().is_integer() && reg.spec_data_size().is_integer() ==> final(self)@
                == old(self)@.write(reg, Immediate::of_raw(reg.spec_data_size(), imm.raw())),
    {
        let v = imm.convert(reg.data_size(), fpu);
        self.put(reg, v);
        proof {
            lemma_read_after_write(old(self)@, reg, v);
        }
    }

    pub fn ip(&self) -> (r: usize)
        requires
            self.wf(),
        ensures
            r == self@.special[IP_REG as int] as usize,
    {
        self.special[IP_REG] as usize
    }

    pub fn set_ip(&mut self, value: usize)
        requires
            old(self).wf(),
        ensures
            final(self).wf(),
            final(self)@ == (RegisterFile {
                special: old(self)@.special.update(IP_REG as int, value as u64),
                ..old(self)@
            }),
    {
        self.special.set(IP_REG, value as u64);
    }

    pub fn sp(&self) -> (r: usize)
        requires
            self.wf(),
        ensures
            r == self@.special[SP_REG as int] as usize,
    {
        self.special[SP_REG] as usize
    }

    pub fn set_sp(&mut self, value: usize)
        requires
            old(self).wf(),
        ensures
            final(self).wf(),
            final(self)@ == (RegisterFile {
                special: old(self)@.special.update(SP_REG as int, value as u64),
                ..old(self)@
            }),
    {
        self.special.set(SP_REG, value as u64);
    }

    pub fn bp(&self) -> (r: usize)
        requires
            self.wf(),
        ensures
            r == self@.special[BP_REG as int] as usize,
    {
        self.special[BP_REG] as usize
    }

    pub fn set_bp(&mut self, value: usize)
        requires
            old(self).wf(),
        ensures
            final(self).wf(),
            final(self)@ == (RegisterFile {
                special: old(self)@.special.update(BP_REG as int, value as u64),
                ..old(self)@
            }),
    {
        self.special.set(BP_REG, value as u64);
    }
}

/// Reading a register right after writing a value of its width through it
/// gives that value back.
pub proof fn lemma_read_after_write(rf: RegisterFile, reg: Register, v: Immediate)
    requires
        rf.wf(),
        v.spec_size() == reg.spec_data_size(),
    ensures
        rf.write(reg, v).wf(),
        rf.write(reg, v).read(reg) == v,
{
    reg.lemma_code_bound();
    if reg.spec_bank() is GeneralPurpose {
        let old_slot = rf.gpr[reg.spec_index() as int];
        match v {
            Immediate::Byte(x) => {
                assert(((old_slot & 0xFFFF_FFFF_FFFF_FF00u64) | (x as u64 as u8 as u64)) as u8 == x)
                    by (bit_vector);
            },
            Immediate::Word(x) => {
                assert(((old_slot & 0xFFFF_FFFF_FFFF_0000u64) | (x as u64 as u16 as u64)) as u16
                    == x) by (bit_vector);
            },
            _ => {},
        }
    }
}

/// Sub-register writes, seen through the full 64-bit view of the same slot:
/// a byte write keeps bits 8..64 and a word write bits 16..64, a dword write
/// zero-extends its value, and a qword write replaces the slot.
pub proof fn lemma_subregister_writes(rf: RegisterFile, r: Register, q: Register, v: Immediate)
    requires
        rf.wf(),
        r.spec_bank() is GeneralPurpose,
        q.spec_bank() is GeneralPurpose,
        q.spec_view() is QWord,
        r.spec_index() == q.spec_index(),
        v.spec_size() == r.spec_data_size(),
    ensures
        r.spec_view() is Byte ==> rf.write(r, v).read(q).raw() >> 8u64 == rf.read(q).raw() >> 8u64
            && rf.write(r, v).read(q).raw() & 0xFFu64 == v.raw(),
        r.spec_view() is Word ==> rf.write(r, v).read(q).raw() >> 16u64 == rf.read(q).raw()
            >> 16u64 && rf.write(r, v).read(q).raw() & 0xFFFFu64 == v.raw(),
        r.spec_view() is DWord ==> rf.write(r, v).read(q).raw() == v.raw(),
        r.spec_view() is QWord ==> rf.write(r, v).read(q).raw() == v.raw(),
{
    r.lemma_code_bound();
    q.lemma_code_bound();
    let old_slot = rf.gpr[r.spec_index() as int];
    match v {
        Immediate::Byte(x) => {
            let n = (old_slot & 0xFFFF_FFFF_FFFF_FF00u64) | (x as u64 as u8 as u64);
            assert(n >> 8u64 == old_slot >> 8u64 && n & 0xFFu64 == x as u64) by (bit_vector)
                requires
                    n == (old_slot & 0xFFFF_FFFF_FFFF_FF00u64) | (x as u64 as u8 as u64),
            ;
        },
        Immediate::Word(x) => {
            let n = (old_slot & 0xFFFF_FFFF_FFFF_0000u64) | (x as u64 as u16 as u64);
            assert(n >> 16u64 == old_slot >> 16u64 && n & 0xFFFFu64 == x as u64) by (bit_vector)
                requires
                    n == (old_slot & 0xFFFF_FFFF_FFFF_0000u64) | (x as u64 as u16 as u64),
            ;
        },
        _ => {},
    }
}

} // verus!
