//! Prices as IEEE-754 binary64 bit patterns.
//!
//! A price travels through the crate as the sixty-four bits of its binary64
//! encoding: one sign bit, eleven exponent bits, fifty-two fraction bits. The
//! predicates below read those three fields with integer arithmetic.

use vstd::prelude::*;

verus! {

/// Bit pattern of positive infinity: exponent all ones, fraction zero.
pub const POSITIVE_INFINITY: u64 = 0x7ff0_0000_0000_0000;

/// Bit pattern of negative zero: only the sign bit set.
pub const NEGATIVE_ZERO: u64 = 0x8000_0000_0000_0000;

/// The sign field: 1 for a set sign bit, 0 otherwise.
pub open spec fn sign_of(bits: u64) -> int {
    bits as int / 0x8000_0000_0000_0000
}

/// The biased exponent field, between 0 and 2047.
pub open spec fn exponent_of(bits: u64) -> int {
    (bits as int / 0x10_0000_0000_0000) % 0x800
}

/// The fraction field, below 2^52.
pub open spec fn fraction_of(bits: u64) -> int {
    bits as int % 0x10_0000_0000_0000
}

/// Not a number: exponent all ones and a non-zero fraction, with either sign.
pub open spec fn is_nan(bits: u64) -> bool {
    exponent_of(bits) == 0x7ff && fraction_of(bits) != 0
}

/// Positive or negative zero.
pub open spec fn is_zero(bits: u64) -> bool {
    exponent_of(bits) == 0 && fraction_of(bits) == 0
}

/// Positive or negative infinity: exponent all ones and a zero fraction.
pub open spec fn is_infinite(bits: u64) -> bool {
    exponent_of(bits) == 0x7ff && fraction_of(bits) == 0
}

/// A finite number: neither a NaN nor an infinity.
pub open spec fn is_finite(bits: u64) -> bool {
    exponent_of(bits) != 0x7ff
}

/// Compares below zero: the sign bit is set and the value is neither a NaN
/// nor negative zero. Negative infinity is below zero.
pub open spec fn is_below_zero(bits: u64) -> bool {
    sign_of(bits) == 1 && !is_nan(bits) && !is_zero(bits)
}

/// A price that a sale may carry: a finite number that is not below zero.
/// Both zeros qualify.
pub open spec fn is_acceptable_price(bits: u64) -> bool {
    is_finite(bits) && !is_below_zero(bits)
}

/// Whether `bits` encodes a NaN.
pub fn price_is_nan(bits: u64) -> (r: bool)
    ensures
        r == is_nan(bits),
{
    let magnitude: u64 = if bits >= NEGATIVE_ZERO {
        bits - NEGATIVE_ZERO
    } else {
        bits
    };
    magnitude > POSITIVE_INFINITY
}

/// Whether `bits` encodes a finite number.
pub fn price_is_finite(bits: u64) -> (r: bool)
    ensures
        r == is_finite(bits),
{
    let magnitude: u64 = if bits >= NEGATIVE_ZERO {
        bits - NEGATIVE_ZERO
    } else {
        bits
    };
    magnitude < POSITIVE_INFINITY
}

/// Whether `bits` encodes a number that compares below zero.
pub fn price_is_below_zero(bits: u64) -> (r: bool)
    ensures
        r == is_below_zero(bits),
{
    bits > NEGATIVE_ZERO && bits - NEGATIVE_ZERO <= POSITIVE_INFINITY
}

/// Every pattern is a NaN, an infinity or a finite number, and exactly one
/// of the three.
pub proof fn lemma_classes_are_disjoint(bits: u64)
    ensures
        is_nan(bits) || is_infinite(bits) || is_finite(bits),
        !(is_nan(bits) && is_infinite(bits)),
        !(is_nan(bits) && is_finite(bits)),
        !(is_infinite(bits) && is_finite(bits)),
{
}

/// The acceptable prices are the patterns from positive zero up to, but not
/// including, positive infinity, and negative zero. No NaN is among them.
pub proof fn lemma_acceptable_price_range(bits: u64)
    ensures
        is_acceptable_price(bits) <==> (bits < POSITIVE_INFINITY || bits == NEGATIVE_ZERO),
        is_acceptable_price(bits) ==> !is_nan(bits) && !is_infinite(bits),
{
}

/// The one price that is neither a NaN nor below zero and still not
/// acceptable is positive infinity.
pub proof fn lemma_only_positive_infinity_is_left(bits: u64)
    ensures
        (!is_nan(bits) && !is_below_zero(bits) && !is_acceptable_price(bits)) <==> bits
            == POSITIVE_INFINITY,
{
}

} // verus!
