use vstd::prelude::*;
use vstd::bytes::*;

use crate::float::FloatUnit;
use crate::token::{is_word, lower_of, lowercase};

verus! {

/// The width (and kind) of a value: four unsigned integer widths and the
/// two floating-point precisions.
#[derive(Debug, Clone, Copy, PartialEq, Eq, Structural)]
pub enum DataSize {
    Byte,
    Word,
    DWord,
    QWord,
    Float,
    Double,
}

impl DataSize {
    /// Number of bytes a value of this size occupies.
    pub open spec fn bytes(self) -> nat {
        match self {
            DataSize::Byte => 1,
            DataSize::Word => 2,
            DataSize::DWord => 4,
            DataSize::QWord => 8,
            DataSize::Float => 4,
            DataSize::Double => 8,
        }
    }

    /// The one-byte tag that encodes this size in bytecode.
    pub open spec fn tag(self) -> u8 {
        match self {
            DataSize::Byte => 0x00,
            DataSize::Word => 0x01,
            DataSize::DWord => 0x02,
            DataSize::QWord => 0x03,
            DataSize::Float => 0x04,
            DataSize::Double => 0x05,
        }
    }

    pub open spec fn is_integer(self) -> bool {
        !(self is Float || self is Double)
    }

    pub fn size_in_bytes(&self) -> (r: usize)
        ensures
            r == self.bytes(),
    {
        match self {
            DataSize::Byte => 1,
            DataSize::Word => 2,
            DataSize::DWord => 4,
            DataSize::QWord => 8,
            DataSize::Float => 4,
            DataSize::Double => 8,
        }
    }

    pub fn to_byte(&self) -> (r: u8)
        ensures
            r == self.tag(),
    {
        match self {
            DataSize::Byte => 0x00,
            DataSize::Word => 0x01,
            DataSize::DWord => 0x02,
            DataSize::QWord => 0x03,
            DataSize::Float => 0x04,
            DataSize::Double => 0x05,
        }
    }

    /// The size whose tag is `b`, if any.
    pub open spec fn size_of_tag(b: u8) -> Option<DataSize> {
        match b {
            0x00 => Some(DataSize::Byte),
            0x01 => Some(DataSize::Word),
            0x02 => Some(DataSize::DWord),
            0x03 => Some(DataSize::QWord),
            0x04 => Some(DataSize::Float),
            0x05 => Some(DataSize::Double),
            _ => None,
        }
    }

    /// Decodes a size tag; `None` for a byte that is no tag.
    pub fn from_byte(b: u8) -> (r: Option<DataSize>)
        ensures
            r == DataSize::size_of_tag(b),
            r matches Some(s) ==> s.tag() == b,
            r is None <==> b > 0x05,
    {
        match b {
            0x00 => Some(DataSize::Byte),
            0x01 => Some(DataSize::Word),
            0x02 => Some(DataSize::DWord),
            0x03 => Some(DataSize::QWord),
            0x04 => Some(DataSize::Float),
            0x05 => Some(DataSize::Double),
            _ => None,
        }
    }

    /// The size called `s`, without regard to case.
    pub fn from_name(s: &str) -> (r: Option<DataSize>)
        ensures
            r == DataSize::spec_from_name(lower_of(s@)),
    {
        let w = lowercase(s);
        DataSize::size_named(&w)
    }

    /// The size called `s`, which is already in lower case.
    pub fn size_named(w: &String) -> (r: Option<DataSize>)
        ensures
            r == DataSize::spec_from_name(w@),
    {
        if is_word(w, "byte") {
            Some(DataSize::Byte)
        } else if is_word(w, "word") {
            Some(DataSize::Word)
        } else if is_word(w, "dword") {
            Some(DataSize::DWord)
        } else if is_word(w, "qword") {
            Some(DataSize::QWord)
        } else if is_word(w, "float") {
            Some(DataSize::Float)
        } else if is_word(w, "double") {
            Some(DataSize::Double)
        } else {
            None
        }
    }

    /// The size called `s` (in lower case), if any.
    pub open spec fn spec_from_name(s: Seq<char>) -> Option<DataSize> {
        if s == "byte"@ {
            Some(DataSize::Byte)
        } else if s == "word"@ {
            Some(DataSize::Word)
        } else if s == "dword"@ {
            Some(DataSize::DWord)
        } else if s == "qword"@ {
            Some(DataSize::QWord)
        } else if s == "float"@ {
            Some(DataSize::Float)
        } else if s == "double"@ {
            Some(DataSize::Double)
        } else {
            None
        }
    }

    pub fn is_float(&self) -> (r: bool)
        ensures
            r == !self.is_integer(),
    {
        match self {
            DataSize::Float | DataSize::Double => true,
            _ => false,
        }
    }
}

/// A value tagged with its width. Floating-point values are held as their
/// IEEE 754 bit patterns.
#[derive(Debug, Clone, Copy, PartialEq, Eq, Structural)]
pub enum Immediate {
    Byte(u8),
    Word(u16),
    DWord(u32),
    QWord(u64),
    Float(u32),
    Double(u64),
}

/// Decoding the little-endian bytes of a value gives the value back.
pub proof fn lemma_le_round_trip(v: Immediate)
    ensures
        v.le_bytes().len() == v.spec_size().bytes(),
        Immediate::from_le(v.le_bytes(), v.spec_size()) == v,
{
    lemma_auto_spec_u16_to_from_le_bytes();
    lemma_auto_spec_u32_to_from_le_bytes();
    lemma_auto_spec_u64_to_from_le_bytes();
    match v {
        Immediate::Word(x) => assert(spec_u16_to_le_bytes(x).len() == 2),
        Immediate::DWord(x) => assert(spec_u32_to_le_bytes(x).len() == 4),
        Immediate::Float(x) => assert(spec_u32_to_le_bytes(x).len() == 4),
        _ => {},
    }
}

/// `s` with the bytes from `at` on replaced by `b`.
pub open spec fn splice(s: Seq<u8>, at: int, b: Seq<u8>) -> Seq<u8> {
    Seq::new(s.len(), |k: int| if at <= k < at + b.len() { b[k - at] } else { s[k] })
}

/// Appends `b` to `buf`.
pub fn append_bytes(buf: &mut Vec<u8>, b: &[u8])
    ensures
        final(buf)@ == old(buf)@ + b@,
{
    let mut j: usize = 0;
    while j < b.len()
        invariant
            0 <= j <= b@.len(),
            buf@ == old(buf)@ + b@.subrange(0, j as int),
        decreases b@.len() - j,
    {
        buf.push(b[j]);
        j = j + 1;
        assert(buf@ =~= old(buf)@ + b@.subrange(0, j as int));
    }
    assert(b@.subrange(0, j as int) =~= b@);
}

/// Overwrites `buf[at..at + b.len()]` with `b`.
pub fn write_bytes(buf: &mut Vec<u8>, at: usize, b: &Vec<u8>)
    requires
        at + b@.len() <= old(buf)@.len(),
    ensures
        final(buf)@ == splice(old(buf)@, at as int, b@),
{
    let n = buf.len();
    assert(at + b@.len() <= n);
    let mut j: usize = 0;
    while j < b.len()
        invariant
            at + b@.len() <= buf@.len(),
            at + b@.len() <= usize::MAX,
            buf@.len() == old(buf)@.len(),
            0 <= j <= b@.len(),
            forall|k: int|
                0 <= k < buf@.len() ==> buf@[k] == (if at <= k < at + j {
                    b@[k - at]
                } else {
                    old(buf)@[k]
                }),
        decreases b@.len() - j,
    {
        buf.set(at + j, b[j]);
        j = j + 1;
    }
    assert(buf@ =~= splice(old(buf)@, at as int, b@));
}

impl Immediate {
    pub open spec fn spec_size(self) -> DataSize {
        match self {
            Immediate::Byte(_) => DataSize::Byte,
            Immediate::Word(_) => DataSize::Word,
            Immediate::DWord(_) => DataSize::DWord,
            Immediate::QWord(_) => DataSize::QWord,
            Immediate::Float(_) => DataSize::Float,
            Immediate::Double(_) => DataSize::Double,
        }
    }

    /// The payload widened to 64 bits: the integer for an integer variant,
    /// the bit pattern for a floating-point one.
    pub open spec fn raw(self) -> u64 {
        match self {
            Immediate::Byte(v) => v as u64,
            Immediate::Word(v) => v as u64,
            Immediate::DWord(v) => v as u64,
            Immediate::QWord(v) => v,
            Immediate::Float(v) => v as u64,
            Immediate::Double(v) => v,
        }
    }

    /// The immediate of size `size` whose payload is `v` (cut to the width).
    pub open spec fn of_raw(size: DataSize, v: u64) -> Immediate {
        match size {
            DataSize::Byte => Immediate::Byte(v as u8),
            DataSize::Word => Immediate::Word(v as u16),
            DataSize::DWord => Immediate::DWord(v as u32),
            DataSize::QWord => Immediate::QWord(v),
            DataSize::Float => Immediate::Float(v as u32),
            DataSize::Double => Immediate::Double(v),
        }
    }

    /// The little-endian bytes of the payload.
    pub open spec fn le_bytes(self) -> Seq<u8> {
        match self {
            Immediate::Byte(v) => seq![v],
            Immediate::Word(v) => spec_u16_to_le_bytes(v),
            Immediate::DWord(v) => spec_u32_to_le_bytes(v),
            Immediate::QWord(v) => spec_u64_to_le_bytes(v),
            Immediate::Float(v) => spec_u32_to_le_bytes(v),
            Immediate::Double(v) => spec_u64_to_le_bytes(v),
        }
    }

    /// The value of size `size` that the little-endian bytes `s` hold.
    pub open spec fn from_le(s: Seq<u8>, size: DataSize) -> Immediate {
        match size {
            DataSize::Byte => Immediate::Byte(s[0]),
            DataSize::Word => Immediate::Word(spec_u16_from_le_bytes(s)),
            DataSize::DWord => Immediate::DWord(spec_u32_from_le_bytes(s)),
            DataSize::QWord => Immediate::QWord(spec_u64_from_le_bytes(s)),
            DataSize::Float => Immediate::Float(spec_u32_from_le_bytes(s)),
            DataSize::Double => Immediate::Double(spec_u64_from_le_bytes(s)),
        }
    }

    /// The little-endian bytes of the payload.
    pub fn to_le_bytes(&self) -> (r: Vec<u8>)
        ensures
            r@ == self.le_bytes(),
            r@.len() == self.spec_size().bytes(),
    {
        proof {
            lemma_auto_spec_u16_to_from_le_bytes();
            lemma_auto_spec_u32_to_from_le_bytes();
            lemma_auto_spec_u64_to_from_le_bytes();
        }
        match *self {
            Immediate::Byte(v) => vec![v],
            Immediate::Word(v) => u16_to_le_bytes(v),
            Immediate::DWord(v) => u32_to_le_bytes(v),
            Immediate::QWord(v) => u64_to_le_bytes(v),
            Immediate::Float(v) => u32_to_le_bytes(v),
            Immediate::Double(v) => u64_to_le_bytes(v),
        }
    }

    /// Decodes a value of size `size` from its little-endian bytes.
    pub fn from_le_slice(s: &[u8], size: DataSize) -> (r: Immediate)
        requires
            s@.len() == size.bytes(),
        ensures
            r == Immediate::from_le(s@, size),
    {
        match size {
            DataSize::Byte => Immediate::Byte(s[0]),
            DataSize::Word => Immediate::Word(u16_from_le_bytes(s)),
            DataSize::DWord => Immediate::DWord(u32_from_le_bytes(s)),
            DataSize::QWord => Immediate::QWord(u64_from_le_bytes(s)),
            DataSize::Float => Immediate::Float(u32_from_le_bytes(s)),
            DataSize::Double => Immediate::Double(u64_from_le_bytes(s)),
        }
    }

    pub fn size(&self) -> (r: DataSize)
        ensures
            r == self.spec_size(),
    {
        match self {
            Immediate::Byte(_) => DataSize::Byte,
            Immediate::Word(_) => DataSize::Word,
            Immediate::DWord(_) => DataSize::DWord,
            Immediate::QWord(_) => DataSize::QWord,
            Immediate::Float(_) => DataSize::Float,
            Immediate::Double(_) => DataSize::Double,
        }
    }

    /// Converts to `size`. Between integer widths the value is truncated or
    /// zero-extended; between equal sizes it is kept. A conversion between
    /// integers and floating point, or between the two precisions, is the
    /// numeric cast that `fpu` performs.
    pub fn convert<F: FloatUnit>(self, size: DataSize, fpu: &F) -> (r: Immediate)
        ensures
            r.spec_size() == size,
            self.spec_size() == size ==> r == self,
            self.spec_size().is_integer() && size.is_integer() ==> r == Immediate::of_raw(
                size,
                self.raw(),
            ),
    {
        match (self, size) {
            (Immediate::Float(b), DataSize::Float) => Immediate::Float(b),
            (Immediate::Double(b), DataSize::Double) => Immediate::Double(b),
            (Immediate::Float(b), DataSize::Double) => Immediate::Double(fpu.f64_from_f32(b)),
            (Immediate::Double(b), DataSize::Float) => Immediate::Float(fpu.f32_from_f64(b)),
            (Immediate::Float(b), _) => {
                let n = size.size_in_bytes() as u8;
                Immediate::int_of(size, fpu.f32_to_unsigned(b, n))
            },
            (Immediate::Double(b), _) => {
                let n = size.size_in_bytes() as u8;
                Immediate::int_of(size, fpu.f64_to_unsigned(b, n))
            },
            (_, DataSize::Float) => Immediate::Float(fpu.f32_from_unsigned(self.raw_value())),
            (_, DataSize::Double) => Immediate::Double(fpu.f64_from_unsigned(self.raw_value())),
            _ => Immediate::int_of(size, self.raw_value()),
        }
    }

    pub fn raw_value(&self) -> (r: u64)
        ensures
            r == self.raw(),
    {
        match *self {
            Immediate::Byte(v) => v as u64,
            Immediate::Word(v) => v as u64,
            Immediate::DWord(v) => v as u64,
            Immediate::QWord(v) => v,
            Immediate::Float(v) => v as u64,
            Immediate::Double(v) => v,
        }
    }

    pub fn int_of(size: DataSize, v: u64) -> (r: Immediate)
        requires
            size.is_integer(),
        ensures
            r == Immediate::of_raw(size, v),
    {
        match size {
            DataSize::Byte => Immediate::Byte(v as u8),
            DataSize::Word => Immediate::Word(v as u16),
            DataSize::DWord => Immediate::DWord(v as u32),
            _ => Immediate::QWord(v),
        }
    }

    pub fn as_u8<F: FloatUnit>(self, fpu: &F) -> (r: u8)
        ensures
            self.spec_size().is_integer() ==> r == self.raw() as u8,
    {
        match self.convert(DataSize::Byte, fpu) {
            Immediate::Byte(v) => v,
            _ => 0,
        }
    }

    pub fn as_u16<F: FloatUnit>(self, fpu: &F) -> (r: u16)
        ensures
            self.spec_size().is_integer() ==> r == self.raw() as u16,
    {
        match self.convert(DataSize::Word, fpu) {
            Immediate::Word(v) => v,
            _ => 0,
        }
    }

    pub fn as_u32<F: FloatUnit>(self, fpu: &F) -> (r: u32)
        ensures
            self.spec_size().is_integer() ==> r == self.raw() as u32,
    {
        match self.convert(DataSize::DWord, fpu) {
            Immediate::DWord(v) => v,
            _ => 0,
        }
    }

    pub fn as_u64<F: FloatUnit>(self, fpu: &F) -> (r: u64)
        ensures
            self.spec_size().is_integer() ==> r == self.raw(),
    {
        match self.convert(DataSize::QWord, fpu) {
            Immediate::QWord(v) => v,
            _ => 0,
        }
    }

    /// The single-precision bit pattern of the value cast to `f32`.
    pub fn as_f32<F: FloatUnit>(self, fpu: &F) -> (r: u32)
        ensures
            self is Float ==> r == self.raw(),
    {
        match self.convert(DataSize::Float, fpu) {
            Immediate::Float(v) => v,
            _ => 0,
        }
    }

    /// The double-precision bit pattern of the value cast to `f64`.
    pub fn as_f64<F: FloatUnit>(self, fpu: &F) -> (r: u64)
        ensures
            self is Double ==> r == self.raw(),
    {
        match self.convert(DataSize::Double, fpu) {
            Immediate::Double(v) => v,
            _ => 0,
        }
    }

    pub fn as_usize<F: FloatUnit>(self, fpu: &F) -> (r: usize)
        ensures
            self.spec_size().is_integer() ==> r == self.raw() as usize,
    {
        self.as_u64(fpu) as usize
    }
}

} // verus!
