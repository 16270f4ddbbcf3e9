//! Numbers as they travel on the wire: IEEE-754 double precision, carried as
//! the 64-bit pattern of the value so that verified code can hold, compare
//! and pass them on without floating-point arithmetic.

use vstd::prelude::*;

verus! {

/// Bit pattern of negative zero: only the sign bit is set.
pub const SIGN_BIT: u64 = 0x8000_0000_0000_0000;

/// Bit pattern of negative infinity; every larger pattern is a NaN.
pub const NEGATIVE_INFINITY_BITS: u64 = 0xfff0_0000_0000_0000;

/// Bit pattern of positive infinity; every larger pattern below the sign bit
/// is a NaN.
pub const POSITIVE_INFINITY_BITS: u64 = 0x7ff0_0000_0000_0000;

/// A double-precision number, held as the bit pattern of its encoding.
#[derive(Clone, Copy, Debug, PartialEq, Eq, Structural)]
pub struct Number {
    pub bits: u64,
}

/// Whether the encoding `bits` is not a number: the exponent is all ones and
/// the fraction is not zero, with either sign.
pub open spec fn encodes_nan(bits: u64) -> bool {
    (POSITIVE_INFINITY_BITS < bits && bits < SIGN_BIT) || NEGATIVE_INFINITY_BITS < bits
}

/// Whether the value encoded by `bits` compares `<= 0`: it is one of the two
/// zeros, or it carries the sign bit and is not a NaN.
pub open spec fn encodes_at_most_zero(bits: u64) -> bool {
    bits == 0 || (SIGN_BIT <= bits && bits <= NEGATIVE_INFINITY_BITS)
}

impl Number {
    /// Positive zero, the default of every absent numeric field.
    pub fn zero() -> (r: Number)
        ensures
            r.bits == 0,
    {
        Number { bits: 0 }
    }

    /// The number with the given encoding.
    pub fn from_bits(bits: u64) -> (r: Number)
        ensures
            r.bits == bits,
    {
        Number { bits }
    }

    /// The encoding of the number.
    pub fn to_bits(&self) -> (bits: u64)
        ensures
            bits == self.bits,
    {
        self.bits
    }

    /// Whether the number is a NaN.
    pub fn is_nan(&self) -> (r: bool)
        ensures
            r == encodes_nan(self.bits),
    {
        (POSITIVE_INFINITY_BITS < self.bits && self.bits < SIGN_BIT) || NEGATIVE_INFINITY_BITS
            < self.bits
    }

    /// Whether the number compares `<= 0`. A NaN compares false with
    /// everything, so it is not at most zero.
    pub fn is_at_most_zero(&self) -> (r: bool)
        ensures
            r == encodes_at_most_zero(self.bits),
    {
        self.bits == 0 || (SIGN_BIT <= self.bits && self.bits <= NEGATIVE_INFINITY_BITS)
    }
}

/// A NaN is never at most zero, and a number that is at most zero is never a
/// NaN.
pub proof fn lemma_nan_is_not_at_most_zero(bits: u64)
    ensures
        !(encodes_nan(bits) && encodes_at_most_zero(bits)),
{
}

} // verus!
