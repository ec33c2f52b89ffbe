use vstd::prelude::*;

verus! {

/// The arithmetic operators that exist on floating-point values.
#[derive(Debug, Clone, Copy, PartialEq, Eq, Structural)]
pub enum FloatOp {
    Add,
    Sub,
    Mul,
    Div,
}

/// How two floating-point values compare.
#[derive(Debug, Clone, Copy, PartialEq, Eq, Structural)]
pub enum FloatOrder {
    Less,
    Equal,
    Greater,
    Unordered,
}

/// IEEE 754 arithmetic on bit patterns, supplied by the host.
///
/// The library keeps single-precision values as `u32` bit patterns and
/// double-precision values as `u64` bit patterns; every operation that needs
/// actual floating-point arithmetic or a numeric (not bitwise) conversion goes
/// through this trait. Nothing is assumed about the results: whatever is
/// proved about the library holds for every implementation.
pub trait FloatUnit {
    /// `a op b` in single precision.
    fn f32_arith(&self, op: FloatOp, a: u32, b: u32) -> u32;

    /// `a op b` in double precision.
    fn f64_arith(&self, op: FloatOp, a: u64, b: u64) -> u64;

    /// Compares two single-precision values.
    fn f32_compare(&self, a: u32, b: u32) -> FloatOrder;

    /// Compares two double-precision values.
    fn f64_compare(&self, a: u64, b: u64) -> FloatOrder;

    /// `v as f32` for an unsigned integer.
    fn f32_from_unsigned(&self, v: u64) -> u32;

    /// `v as f64` for an unsigned integer.
    fn f64_from_unsigned(&self, v: u64) -> u64;

    /// `v as f32` for a signed integer.
    fn f32_from_signed(&self, v: i64) -> u32;

    /// `v as f64` for a signed integer.
    fn f64_from_signed(&self, v: i64) -> u64;

    /// A double narrowed to single precision.
    fn f32_from_f64(&self, bits: u64) -> u32;

    /// A single widened to double precision.
    fn f64_from_f32(&self, bits: u32) -> u64;

    /// The saturating numeric conversion of a single to an unsigned integer
    /// of `bytes` bytes (1, 2, 4 or 8).
    fn f32_to_unsigned(&self, bits: u32, bytes: u8) -> u64;

    /// The double-precision bit pattern of a decimal literal such as `3.14`
    /// (`None` when the text is no such literal).
    fn f64_from_decimal(&self, text: &String) -> Option<u64>;

    /// The saturating numeric conversion of a double to an unsigned integer
    /// of `bytes` bytes (1, 2, 4 or 8).
    fn f64_to_unsigned(&self, bits: u64, bytes: u8) -> u64;
}

} // verus!
