//! The scalar steps of the torcurve evaluation that depend only on bit
//! patterns: clamping the drive coordinate and the midpoint control into
//! `[0, 1]`, the pinch transform's sign rule, and the final NaN guard.

use vstd::prelude::*;

use crate::bits::ZERO_BITS;
use crate::bits::HALF_BITS;
use crate::bits::ONE_BITS;
use crate::bits::spec_is_nan;
use crate::bits::spec_sign;
use crate::bits::spec_le;
use crate::bits::spec_lt;
use crate::bits::spec_neg;
use crate::bits::bits_is_nan;
use crate::bits::bits_lt;
use crate::bits::bits_neg;
use crate::bits::lemma_lt_trichotomy;

verus! {

/// Bit pattern of `1.0e-5`, the epsilon added to every denominator that
/// could otherwise reach zero.
pub const EPS_BITS: u64 = 0x3ee4_f8b5_88e3_68f1;

/// Clamping an encoded double into `[0, 1]`: below zero goes to zero,
/// above one goes to one, everything else (a NaN included) passes through.
pub open spec fn spec_clamp01(x: u64) -> u64 {
    if spec_lt(x, ZERO_BITS) {
        ZERO_BITS
    } else if spec_lt(ONE_BITS, x) {
        ONE_BITS
    } else {
        x
    }
}

/// The pinch transform applied to the tail control `c`, given the host's
/// product `csq` encoding `c * c`: the square keeps its sign for
/// `c >= 0.5` and is negated below the threshold.
pub open spec fn spec_pinch(c: u64, csq: u64) -> u64 {
    if spec_lt(c, HALF_BITS) {
        spec_neg(csq)
    } else {
        csq
    }
}

/// The final guard of the evaluation: a NaN result is replaced by zero,
/// every other result passes through unchanged.
pub open spec fn spec_nan_guard(res: u64) -> u64 {
    if spec_is_nan(res) {
        ZERO_BITS
    } else {
        res
    }
}

/// Clamp an encoded double into `[0, 1]`.
pub fn clamp01(x: u64) -> (r: u64)
    ensures
        r == spec_clamp01(x),
        !spec_is_nan(x) ==> spec_le(ZERO_BITS, r) && spec_le(r, ONE_BITS),
        spec_is_nan(x) ==> r == x,
{
    proof {
        assert(spec_le(ZERO_BITS, ZERO_BITS) && spec_le(ZERO_BITS, ONE_BITS)
            && spec_le(ONE_BITS, ONE_BITS) && !spec_is_nan(ZERO_BITS)
            && !spec_is_nan(ONE_BITS)) by (bit_vector);
        if !spec_is_nan(x) {
            lemma_lt_trichotomy(x, ZERO_BITS);
            lemma_lt_trichotomy(ONE_BITS, x);
        }
    }
    if bits_lt(x, ZERO_BITS) {
        ZERO_BITS
    } else if bits_lt(ONE_BITS, x) {
        ONE_BITS
    } else {
        x
    }
}

/// The pinch transform's sign rule. The host supplies `csq`, the encoding
/// of `c * c`; this function settles the threshold comparison and the sign
/// of the result.
pub fn pinch(c: u64, csq: u64) -> (r: u64)
    ensures
        r == spec_pinch(c, csq),
{
    if bits_lt(c, HALF_BITS) {
        bits_neg(csq)
    } else {
        csq
    }
}

/// Replace a NaN result by zero. The result of the guard is never a NaN,
/// whatever the host's arithmetic produced.
pub fn nan_guard(res: u64) -> (r: u64)
    ensures
        r == spec_nan_guard(res),
        !spec_is_nan(r),
{
    proof {
        assert(!spec_is_nan(ZERO_BITS)) by (bit_vector);
    }
    if bits_is_nan(res) {
        ZERO_BITS
    } else {
        res
    }
}

/// A value already inside `[0, 1]` passes through the clamp unchanged.
pub proof fn lemma_clamp01_fixes_unit_interval(x: u64)
    by (bit_vector)
    requires
        spec_le(ZERO_BITS, x),
        spec_le(x, ONE_BITS),
    ensures
        spec_clamp01(x) == x,
{
}

/// The sign rule of the pinch transform: as long as the square the host
/// hands in carries a positive sign bit, the pinched value is negative
/// exactly below the `0.5` threshold, the threshold itself landing on the
/// non-negative side.
pub proof fn lemma_pinch_sign(c: u64, csq: u64)
    by (bit_vector)
    requires
        !spec_sign(csq),
    ensures
        spec_sign(spec_pinch(c, csq)) == spec_lt(c, HALF_BITS),
{
}

/// Clamping is idempotent: feeding a clamped value through the clamp again
/// changes nothing. This is why evaluating the curve at some `x` and at
/// `clamp01(x)` are the same: the evaluation clamps `x` first either way.
pub proof fn lemma_clamp01_idempotent(x: u64)
    ensures
        spec_clamp01(spec_clamp01(x)) == spec_clamp01(x),
{
    assert(!spec_lt(ZERO_BITS, ZERO_BITS) && !spec_lt(ONE_BITS, ZERO_BITS)
        && !spec_lt(ONE_BITS, ONE_BITS)) by (bit_vector);
}

} // verus!
