//! Scalars as IEEE 754 binary64 bit patterns.
//!
//! Bit 63 is the sign, bits 62 to 52 the biased exponent, bits 51 to 0 the
//! fraction. A pattern whose exponent field is all ones is an infinity or a
//! NaN; every other pattern is a finite number.
use vstd::prelude::*;

verus! {

/// The bit pattern of positive zero.
pub const POSITIVE_ZERO: u64 = 0;

/// The value of an exponent field with all eleven bits set.
pub const EXPONENT_ALL_ONES: u64 = 0x7ff;

/// The biased exponent of `bits`: the eleven bits above the fraction.
pub open spec fn exponent_field(bits: u64) -> int {
    (bits as int / 0x10_0000_0000_0000) % 0x800
}

/// Whether `bits` encodes a finite number, that is neither an infinity nor
/// a NaN.
pub open spec fn finite(bits: u64) -> bool {
    exponent_field(bits) != EXPONENT_ALL_ONES
}

/// Extracts the biased exponent of `bits`.
pub fn exponent(bits: u64) -> (e: u64)
    ensures
        e == exponent_field(bits),
        e <= EXPONENT_ALL_ONES,
{
    assert(((bits >> 52) & 0x7ff) == (bits / 0x10_0000_0000_0000) % 0x800) by (bit_vector);
    (bits >> 52) & 0x7ff
}

/// Tells whether `bits` encodes a finite number.
pub fn is_finite(bits: u64) -> (r: bool)
    ensures
        r == finite(bits),
{
    exponent(bits) != EXPONENT_ALL_ONES
}

} // verus!
