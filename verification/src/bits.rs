//! IEEE-754 double-precision values as `u64` bit patterns.
//!
//! Every operation here depends only on the bits of its operands, so it can
//! be written and verified as plain integer code: the sign, NaN, zero and
//! finiteness predicates, negation and absolute value (sign-bit flips), and
//! the standard `<`, `==` and `<=` comparisons of the encoded values.

use vstd::prelude::*;

verus! {

/// Mask of the sign bit of an encoded double.
pub const SIGN_MASK: u64 = 0x8000_0000_0000_0000;

/// Mask of everything but the sign bit (exponent and fraction fields).
pub const MAG_MASK: u64 = 0x7fff_ffff_ffff_ffff;

/// Bit pattern of positive infinity. A magnitude above it is a NaN; a
/// magnitude below it is a finite value.
pub const INF_BITS: u64 = 0x7ff0_0000_0000_0000;

/// Bit pattern of `0.0`.
pub const ZERO_BITS: u64 = 0x0000_0000_0000_0000;

/// Bit pattern of `0.5`.
pub const HALF_BITS: u64 = 0x3fe0_0000_0000_0000;

/// Bit pattern of `1.0`.
pub const ONE_BITS: u64 = 0x3ff0_0000_0000_0000;

/// The sign bit of `x` is set: `x` encodes a negative value, negative zero,
/// or a NaN with its sign bit set.
pub open spec fn spec_sign(x: u64) -> bool {
    x & SIGN_MASK == SIGN_MASK
}

/// The magnitude of `x`: its bits with the sign cleared. For non-NaN
/// encodings of one sign, the encoded order is the order of magnitudes.
pub open spec fn spec_mag(x: u64) -> u64 {
    x & MAG_MASK
}

/// `x` encodes a NaN: exponent field all ones and a nonzero fraction, which
/// is exactly a magnitude above the infinity pattern.
pub open spec fn spec_is_nan(x: u64) -> bool {
    spec_mag(x) > INF_BITS
}

/// `x` encodes a finite value (neither a NaN nor an infinity).
pub open spec fn spec_is_finite(x: u64) -> bool {
    spec_mag(x) < INF_BITS
}

/// `x` encodes positive or negative zero.
pub open spec fn spec_is_zero(x: u64) -> bool {
    spec_mag(x) == 0
}

/// Negation of an encoded double: the sign bit flips and nothing else.
pub open spec fn spec_neg(x: u64) -> u64 {
    x ^ SIGN_MASK
}

/// Absolute value of an encoded double: the sign bit clears and nothing
/// else.
pub open spec fn spec_abs(x: u64) -> u64 {
    spec_mag(x)
}

/// IEEE-754 `<` on the encoded values. Comparisons involving a NaN are
/// false; positive and negative zero are equal; otherwise a negative value
/// is below a positive one, two positives order by magnitude, and two
/// negatives order by magnitude reversed.
pub open spec fn spec_lt(x: u64, y: u64) -> bool {
    if spec_is_nan(x) || spec_is_nan(y) {
        false
    } else if spec_sign(x) != spec_sign(y) {
        spec_sign(x) && !(spec_is_zero(x) && spec_is_zero(y))
    } else if !spec_sign(x) {
        spec_mag(x) < spec_mag(y)
    } else {
        spec_mag(y) < spec_mag(x)
    }
}

/// IEEE-754 `==` on the encoded values: never true for a NaN, true for the
/// two zeros, and otherwise exactly bit equality.
pub open spec fn spec_eq(x: u64, y: u64) -> bool {
    !spec_is_nan(x) && !spec_is_nan(y)
        && (x == y || (spec_is_zero(x) && spec_is_zero(y)))
}

/// IEEE-754 `<=` on the encoded values.
pub open spec fn spec_le(x: u64, y: u64) -> bool {
    spec_lt(x, y) || spec_eq(x, y)
}

/// Whether `x` encodes a NaN.
pub fn bits_is_nan(x: u64) -> (r: bool)
    ensures
        r == spec_is_nan(x),
{
    (x & MAG_MASK) > INF_BITS
}

/// Whether `x` encodes a finite value.
pub fn bits_is_finite(x: u64) -> (r: bool)
    ensures
        r == spec_is_finite(x),
{
    (x & MAG_MASK) < INF_BITS
}

/// Whether `x` encodes positive or negative zero.
pub fn bits_is_zero(x: u64) -> (r: bool)
    ensures
        r == spec_is_zero(x),
{
    (x & MAG_MASK) == 0
}

/// Negation of an encoded double.
pub fn bits_neg(x: u64) -> (r: u64)
    ensures
        r == spec_neg(x),
{
    x ^ SIGN_MASK
}

/// Absolute value of an encoded double.
pub fn bits_abs(x: u64) -> (r: u64)
    ensures
        r == spec_abs(x),
{
    x & MAG_MASK
}

/// IEEE-754 `<` on the encoded values.
pub fn bits_lt(x: u64, y: u64) -> (r: bool)
    ensures
        r == spec_lt(x, y),
{
    if bits_is_nan(x) || bits_is_nan(y) {
        false
    } else {
        let sx: bool = (x & SIGN_MASK) == SIGN_MASK;
        let sy: bool = (y & SIGN_MASK) == SIGN_MASK;
        if sx != sy {
            sx && !(bits_is_zero(x) && bits_is_zero(y))
        } else if !sx {
            (x & MAG_MASK) < (y & MAG_MASK)
        } else {
            (y & MAG_MASK) < (x & MAG_MASK)
        }
    }
}

/// IEEE-754 `==` on the encoded values.
pub fn bits_eq(x: u64, y: u64) -> (r: bool)
    ensures
        r == spec_eq(x, y),
{
    if bits_is_nan(x) || bits_is_nan(y) {
        false
    } else {
        x == y || (bits_is_zero(x) && bits_is_zero(y))
    }
}

/// IEEE-754 `<=` on the encoded values.
pub fn bits_le(x: u64, y: u64) -> (r: bool)
    ensures
        r == spec_le(x, y),
{
    bits_lt(x, y) || bits_eq(x, y)
}

/// On non-NaN encodings the order is connected: two values are ordered one
/// way, the other way, or equal.
pub proof fn lemma_lt_trichotomy(x: u64, y: u64)
    by (bit_vector)
    requires
        !spec_is_nan(x),
        !spec_is_nan(y),
    ensures
        spec_lt(x, y) || spec_eq(x, y) || spec_lt(y, x),
{
}

} // verus!
