use vstd::prelude::*;

verus! {

/// Bit pattern of positive infinity; patterns above it without the sign bit are NaNs.
pub const POSITIVE_INFINITY_BITS: u64 = 0x7FF0_0000_0000_0000;

/// Bit pattern of negative zero, the only pattern with the sign bit set that is not below zero.
pub const NEGATIVE_ZERO_BITS: u64 = 0x8000_0000_0000_0000;

/// True when the binary64 value with these bits satisfies `value >= 0.0`: a positive zero,
/// finite or infinite value, or negative zero. NaNs and values below zero do not.
pub open spec fn bits_at_least_zero(bits: u64) -> bool {
    bits <= POSITIVE_INFINITY_BITS || bits == NEGATIVE_ZERO_BITS
}

/// A price, held as the exact bit pattern of an IEEE 754 binary64 number so that the
/// amount a client sends is stored and returned unchanged.
#[derive(Clone, Copy, Debug, PartialEq, Eq, Structural)]
pub struct Price {
    pub bits: u64,
}

impl Price {
    pub fn from_bits(bits: u64) -> (r: Price)
        ensures
            r.bits == bits,
    {
        Price { bits }
    }

    pub fn to_bits(&self) -> (r: u64)
        ensures
            r == self.bits,
    {
        self.bits
    }

    /// Whether the price satisfies `price >= 0.0`; false for NaN and for values below zero.
    pub fn is_non_negative(&self) -> (r: bool)
        ensures
            r == bits_at_least_zero(self.bits),
    {
        self.bits <= POSITIVE_INFINITY_BITS || self.bits == NEGATIVE_ZERO_BITS
    }
}

} // verus!
