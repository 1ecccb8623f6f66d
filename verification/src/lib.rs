//! A generalized, parameterized easing-curve formula (the "torcurve"),
//! verified at the level of IEEE-754 double-precision bit patterns.
//!
//! Verus does not reason about floating-point arithmetic, so the library
//! represents every double as its `u64` bit pattern and splits the work in
//! two. Everything that is decidable on bit patterns alone is implemented
//! and verified here: the sign/NaN/zero predicates, the IEEE-754 ordering,
//! clamping, the pinch sign rule, the choice of curve branch and blend, the
//! exact sequence of arithmetic operations to perform, and the final NaN
//! guard. The arithmetic the library cannot perform itself (rounded add,
//! subtract, multiply, divide, and the `exp`, `powf` and `abs` operations)
//! is emitted as an explicit instruction list; an unverified host evaluates
//! that list with ordinary double-precision arithmetic and feeds the
//! results back.

pub mod bits;
pub mod curve;
pub mod plan;
