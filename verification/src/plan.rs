//! The evaluation plan of the torcurve.
//!
//! `torcurve(x, a, b, c)` is a piecewise curve: after the pinch transform
//! of `c`, the clamping of `x` and `b`, and the scale factors `s = exp(a)`
//! and `s2 = 1/s`, one of four closed-form expressions applies, chosen by
//! whether `x` lies left of the midpoint `t` and by the sign of the mixing
//! coefficient `u`. This module settles those choices on bit patterns and
//! emits the chosen expression as a straight-line instruction list for the
//! host to evaluate with double-precision arithmetic.
//!
//! Conventions of a program: instructions run in order; the result of the
//! instruction at position `i` is register `i`; an `Arg::Reg(i)` operand
//! reads that register, an `Arg::Lit(v)` operand is the bit pattern `v`
//! itself; the value of the program is its last register. Every register
//! an instruction reads is written by an earlier instruction of the same
//! program.

use vstd::prelude::*;

use crate::bits::ZERO_BITS;
use crate::bits::ONE_BITS;
use crate::bits::spec_neg;
use crate::bits::spec_le;
use crate::bits::spec_lt;
use crate::bits::bits_le;
use crate::bits::bits_lt;
use crate::bits::bits_neg;
use crate::curve::EPS_BITS;
use crate::curve::spec_clamp01;
use crate::curve::spec_pinch;
use crate::curve::clamp01;
use crate::curve::pinch;
use crate::curve::lemma_clamp01_idempotent;

verus! {

/// An operand of an instruction: a literal bit pattern, or the register
/// written by an earlier instruction.
#[derive(Clone, Copy, PartialEq, Eq, Debug)]
pub enum Arg {
    Lit(u64),
    Reg(usize),
}

/// One double-precision arithmetic step for the host: the four rounded
/// binary operations, `powf`, `abs` and `exp`.
#[derive(Clone, Copy, PartialEq, Eq, Debug)]
pub enum Instr {
    Add(Arg, Arg),
    Sub(Arg, Arg),
    Mul(Arg, Arg),
    Div(Arg, Arg),
    Pow(Arg, Arg),
    Abs(Arg),
    Exp(Arg),
}

/// An operand at position `i` of a program may name a literal or any
/// register written strictly earlier.
pub open spec fn spec_arg_wf(arg: Arg, i: int) -> bool {
    match arg {
        Arg::Lit(_) => true,
        Arg::Reg(r) => (r as int) < i,
    }
}

/// The instruction at position `i` of a program reads only registers
/// written strictly earlier.
pub open spec fn spec_instr_wf(ins: Instr, i: int) -> bool {
    match ins {
        Instr::Add(a, b) => spec_arg_wf(a, i) && spec_arg_wf(b, i),
        Instr::Sub(a, b) => spec_arg_wf(a, i) && spec_arg_wf(b, i),
        Instr::Mul(a, b) => spec_arg_wf(a, i) && spec_arg_wf(b, i),
        Instr::Div(a, b) => spec_arg_wf(a, i) && spec_arg_wf(b, i),
        Instr::Pow(a, b) => spec_arg_wf(a, i) && spec_arg_wf(b, i),
        Instr::Abs(a) => spec_arg_wf(a, i),
        Instr::Exp(a) => spec_arg_wf(a, i),
    }
}

/// A well-formed program never reads a register before it is written, so
/// a host that keeps one register per instruction runs it without ever
/// indexing out of bounds.
pub open spec fn spec_program_wf(p: Seq<Instr>) -> bool {
    forall|i: int| 0 <= i < p.len() ==> spec_instr_wf(#[trigger] p[i], i)
}

/// The preamble of an evaluation: `c * c` for the pinch transform,
/// `s = exp(a)`, and `s2 = 1/s`, as registers 0, 1 and 2.
pub open spec fn spec_prelude_program(a: u64, c: u64) -> Seq<Instr> {
    seq![
        Instr::Mul(Arg::Lit(c), Arg::Lit(c)),
        Instr::Exp(Arg::Lit(a)),
        Instr::Div(Arg::Lit(ONE_BITS), Arg::Reg(1)),
    ]
}

/// Left branch (`x < t`), non-positive mix: the baseline
/// `c1 = (t*x) / (x + s*(t-x) + eps)` and
/// `c2 = t - (1/(t+eps))^(s2-1) * |x-t|^s2`, blended as
/// `(-u)*c2 + (1+u)*c1`.
pub open spec fn spec_left_neg_program(x: u64, t: u64, s: u64, s2: u64, u: u64) -> Seq<Instr> {
    seq![
        Instr::Sub(Arg::Lit(t), Arg::Lit(x)),
        Instr::Mul(Arg::Lit(s), Arg::Reg(0)),
        Instr::Add(Arg::Lit(x), Arg::Reg(1)),
        Instr::Add(Arg::Reg(2), Arg::Lit(EPS_BITS)),
        Instr::Mul(Arg::Lit(t), Arg::Lit(x)),
        Instr::Div(Arg::Reg(4), Arg::Reg(3)),
        Instr::Add(Arg::Lit(t), Arg::Lit(EPS_BITS)),
        Instr::Div(Arg::Lit(ONE_BITS), Arg::Reg(6)),
        Instr::Sub(Arg::Lit(s2), Arg::Lit(ONE_BITS)),
        Instr::Pow(Arg::Reg(7), Arg::Reg(8)),
        Instr::Sub(Arg::Lit(x), Arg::Lit(t)),
        Instr::Abs(Arg::Reg(10)),
        Instr::Pow(Arg::Reg(11), Arg::Lit(s2)),
        Instr::Mul(Arg::Reg(9), Arg::Reg(12)),
        Instr::Sub(Arg::Lit(t), Arg::Reg(13)),
        Instr::Mul(Arg::Lit(spec_neg(u)), Arg::Reg(14)),
        Instr::Add(Arg::Lit(ONE_BITS), Arg::Lit(u)),
        Instr::Mul(Arg::Reg(16), Arg::Reg(5)),
        Instr::Add(Arg::Reg(15), Arg::Reg(17)),
    ]
}

/// Left branch (`x < t`), positive mix: the baseline `c1` as above and
/// `c3 = (1/(t+eps))^(s-1) * x^s`, blended as `u*c3 + (1-u)*c1`.
pub open spec fn spec_left_pos_program(x: u64, t: u64, s: u64, s2: u64, u: u64) -> Seq<Instr> {
    seq![
        Instr::Sub(Arg::Lit(t), Arg::Lit(x)),
        Instr::Mul(Arg::Lit(s), Arg::Reg(0)),
        Instr::Add(Arg::Lit(x), Arg::Reg(1)),
        Instr::Add(Arg::Reg(2), Arg::Lit(EPS_BITS)),
        Instr::Mul(Arg::Lit(t), Arg::Lit(x)),
        Instr::Div(Arg::Reg(4), Arg::Reg(3)),
        Instr::Add(Arg::Lit(t), Arg::Lit(EPS_BITS)),
        Instr::Div(Arg::Lit(ONE_BITS), Arg::Reg(6)),
        Instr::Sub(Arg::Lit(s), Arg::Lit(ONE_BITS)),
        Instr::Pow(Arg::Reg(7), Arg::Reg(8)),
        Instr::Pow(Arg::Lit(x), Arg::Lit(s)),
        Instr::Mul(Arg::Reg(9), Arg::Reg(10)),
        Instr::Mul(Arg::Lit(u), Arg::Reg(11)),
        Instr::Sub(Arg::Lit(ONE_BITS), Arg::Lit(u)),
        Instr::Mul(Arg::Reg(13), Arg::Reg(5)),
        Instr::Add(Arg::Reg(12), Arg::Reg(14)),
    ]
}

/// Right branch (`x >= t`), non-positive mix: the baseline
/// `c1 = (1-t)*(x-1) / ((1-x) - s*(t-x) + eps) + 1` and
/// `c2 = (1/((1-t)+eps))^(s2-1) * |x-t|^s2 + t`, blended as
/// `(-u)*c2 + (1+u)*c1`.
pub open spec fn spec_right_neg_program(x: u64, t: u64, s: u64, s2: u64, u: u64) -> Seq<Instr> {
    seq![
        Instr::Sub(Arg::Lit(t), Arg::Lit(x)),
        Instr::Mul(Arg::Lit(s), Arg::Reg(0)),
        Instr::Sub(Arg::Lit(ONE_BITS), Arg::Lit(x)),
        Instr::Sub(Arg::Reg(2), Arg::Reg(1)),
        Instr::Add(Arg::Reg(3), Arg::Lit(EPS_BITS)),
        Instr::Sub(Arg::Lit(ONE_BITS), Arg::Lit(t)),
        Instr::Sub(Arg::Lit(x), Arg::Lit(ONE_BITS)),
        Instr::Mul(Arg::Reg(5), Arg::Reg(6)),
        Instr::Div(Arg::Reg(7), Arg::Reg(4)),
        Instr::Add(Arg::Reg(8), Arg::Lit(ONE_BITS)),
        Instr::Add(Arg::Reg(5), Arg::Lit(EPS_BITS)),
        Instr::Div(Arg::Lit(ONE_BITS), Arg::Reg(10)),
        Instr::Sub(Arg::Lit(s2), Arg::Lit(ONE_BITS)),
        Instr::Pow(Arg::Reg(11), Arg::Reg(12)),
        Instr::Sub(Arg::Lit(x), Arg::Lit(t)),
        Instr::Abs(Arg::Reg(14)),
        Instr::Pow(Arg::Reg(15), Arg::Lit(s2)),
        Instr::Mul(Arg::Reg(13), Arg::Reg(16)),
        Instr::Add(Arg::Reg(17), Arg::Lit(t)),
        Instr::Mul(Arg::Lit(spec_neg(u)), Arg::Reg(18)),
        Instr::Add(Arg::Lit(ONE_BITS), Arg::Lit(u)),
        Instr::Mul(Arg::Reg(20), Arg::Reg(9)),
        Instr::Add(Arg::Reg(19), Arg::Reg(21)),
    ]
}

/// Right branch (`x >= t`), positive mix: the baseline `c1` as above and
/// `c3 = 1 - (1/((1-t)+eps))^(s-1) * (1-x)^s`, blended as
/// `u*c3 + (1-u)*c1`.
pub open spec fn spec_right_pos_program(x: u64, t: u64, s: u64, s2: u64, u: u64) -> Seq<Instr> {
    seq![
        Instr::Sub(Arg::Lit(t), Arg::Lit(x)),
        Instr::Mul(Arg::Lit(s), Arg::Reg(0)),
        Instr::Sub(Arg::Lit(ONE_BITS), Arg::Lit(x)),
        Instr::Sub(Arg::Reg(2), Arg::Reg(1)),
        Instr::Add(Arg::Reg(3), Arg::Lit(EPS_BITS)),
        Instr::Sub(Arg::Lit(ONE_BITS), Arg::Lit(t)),
        Instr::Sub(Arg::Lit(x), Arg::Lit(ONE_BITS)),
        Instr::Mul(Arg::Reg(5), Arg::Reg(6)),
        Instr::Div(Arg::Reg(7), Arg::Reg(4)),
        Instr::Add(Arg::Reg(8), Arg::Lit(ONE_BITS)),
        Instr::Add(Arg::Reg(5), Arg::Lit(EPS_BITS)),
        Instr::Div(Arg::Lit(ONE_BITS), Arg::Reg(10)),
        Instr::Sub(Arg::Lit(s), Arg::Lit(ONE_BITS)),
        Instr::Pow(Arg::Reg(11), Arg::Reg(12)),
        Instr::Pow(Arg::Reg(2), Arg::Lit(s)),
        Instr::Mul(Arg::Reg(13), Arg::Reg(14)),
        Instr::Sub(Arg::Lit(ONE_BITS), Arg::Reg(15)),
        Instr::Mul(Arg::Lit(u), Arg::Reg(16)),
        Instr::Sub(Arg::Lit(ONE_BITS), Arg::Lit(u)),
        Instr::Mul(Arg::Reg(18), Arg::Reg(9)),
        Instr::Add(Arg::Reg(17), Arg::Reg(19)),
    ]
}

/// The full evaluation plan for `torcurve(x, a, b, c)` once the preamble
/// results are in hand: `u` is the pinched tail control, `x` and `b` are
/// clamped, and the branch is chosen by `x < t` and by the sign of `u`.
pub open spec fn spec_curve_program(x: u64, b: u64, c: u64, csq: u64, s: u64, s2: u64) -> Seq<
    Instr,
> {
    let u = spec_pinch(c, csq);
    let xc = spec_clamp01(x);
    let t = spec_clamp01(b);
    if spec_lt(xc, t) {
        if spec_le(u, ZERO_BITS) {
            spec_left_neg_program(xc, t, s, s2, u)
        } else {
            spec_left_pos_program(xc, t, s, s2, u)
        }
    } else {
        if spec_le(u, ZERO_BITS) {
            spec_right_neg_program(xc, t, s, s2, u)
        } else {
            spec_right_pos_program(xc, t, s, s2, u)
        }
    }
}

/// Build the preamble program: registers 0, 1, 2 hold `c*c`, `exp(a)` and
/// `1/exp(a)`.
pub fn prelude_program(a: u64, c: u64) -> (prog: Vec<Instr>)
    ensures
        prog@ == spec_prelude_program(a, c),
        prog@.len() == 3,
        spec_program_wf(prog@),
{
    let mut prog: Vec<Instr> = Vec::new();
    prog.push(Instr::Mul(Arg::Lit(c), Arg::Lit(c)));
    prog.push(Instr::Exp(Arg::Lit(a)));
    prog.push(Instr::Div(Arg::Lit(ONE_BITS), Arg::Reg(1)));
    proof {
        assert(prog@ =~= spec_prelude_program(a, c));
    }
    prog
}

fn left_neg_plan(x: u64, t: u64, s: u64, s2: u64, u: u64) -> (prog: Vec<Instr>)
    ensures
        prog@ == spec_left_neg_program(x, t, s, s2, u),
        spec_program_wf(prog@),
{
    let nu = bits_neg(u);
    let mut prog: Vec<Instr> = Vec::new();
    prog.push(Instr::Sub(Arg::Lit(t), Arg::Lit(x)));
    prog.push(Instr::Mul(Arg::Lit(s), Arg::Reg(0)));
    prog.push(Instr::Add(Arg::Lit(x), Arg::Reg(1)));
    prog.push(Instr::Add(Arg::Reg(2), Arg::Lit(EPS_BITS)));
    prog.push(Instr::Mul(Arg::Lit(t), Arg::Lit(x)));
    prog.push(Instr::Div(Arg::Reg(4), Arg::Reg(3)));
    prog.push(Instr::Add(Arg::Lit(t), Arg::Lit(EPS_BITS)));
    prog.push(Instr::Div(Arg::Lit(ONE_BITS), Arg::Reg(6)));
    prog.push(Instr::Sub(Arg::Lit(s2), Arg::Lit(ONE_BITS)));
    prog.push(Instr::Pow(Arg::Reg(7), Arg::Reg(8)));
    prog.push(Instr::Sub(Arg::Lit(x), Arg::Lit(t)));
    prog.push(Instr::Abs(Arg::Reg(10)));
    prog.push(Instr::Pow(Arg::Reg(11), Arg::Lit(s2)));
    prog.push(Instr::Mul(Arg::Reg(9), Arg::Reg(12)));
    prog.push(Instr::Sub(Arg::Lit(t), Arg::Reg(13)));
    prog.push(Instr::Mul(Arg::Lit(nu), Arg::Reg(14)));
    prog.push(Instr::Add(Arg::Lit(ONE_BITS), Arg::Lit(u)));
    prog.push(Instr::Mul(Arg::Reg(16), Arg::Reg(5)));
    prog.push(Instr::Add(Arg::Reg(15), Arg::Reg(17)));
    proof {
        assert(prog@ =~= spec_left_neg_program(x, t, s, s2, u));
    }
    prog
}

fn left_pos_plan(x: u64, t: u64, s: u64, s2: u64, u: u64) -> (prog: Vec<Instr>)
    ensures
        prog@ == spec_left_pos_program(x, t, s, s2, u),
        spec_program_wf(prog@),
{
    let mut prog: Vec<Instr> = Vec::new();
    prog.push(Instr::Sub(Arg::Lit(t), Arg::Lit(x)));
    prog.push(Instr::Mul(Arg::Lit(s), Arg::Reg(0)));
    prog.push(Instr::Add(Arg::Lit(x), Arg::Reg(1)));
    prog.push(Instr::Add(Arg::Reg(2), Arg::Lit(EPS_BITS)));
    prog.push(Instr::Mul(Arg::Lit(t), Arg::Lit(x)));
    prog.push(Instr::Div(Arg::Reg(4), Arg::Reg(3)));
    prog.push(Instr::Add(Arg::Lit(t), Arg::Lit(EPS_BITS)));
    prog.push(Instr::Div(Arg::Lit(ONE_BITS), Arg::Reg(6)));
    prog.push(Instr::Sub(Arg::Lit(s), Arg::Lit(ONE_BITS)));
    prog.push(Instr::Pow(Arg::Reg(7), Arg::Reg(8)));
    prog.push(Instr::Pow(Arg::Lit(x), Arg::Lit(s)));
    prog.push(Instr::Mul(Arg::Reg(9), Arg::Reg(10)));
    prog.push(Instr::Mul(Arg::Lit(u), Arg::Reg(11)));
    prog.push(Instr::Sub(Arg::Lit(ONE_BITS), Arg::Lit(u)));
    prog.push(Instr::Mul(Arg::Reg(13), Arg::Reg(5)));
    prog.push(Instr::Add(Arg::Reg(12), Arg::Reg(14)));
    proof {
        assert(prog@ =~= spec_left_pos_program(x, t, s, s2, u));
    }
    prog
}

fn right_neg_plan(x: u64, t: u64, s: u64, s2: u64, u: u64) -> (prog: Vec<Instr>)
    ensures
        prog@ == spec_right_neg_program(x, t, s, s2, u),
        spec_program_wf(prog@),
{
    let nu = bits_neg(u);
    let mut prog: Vec<Instr> = Vec::new();
    prog.push(Instr::Sub(Arg::Lit(t), Arg::Lit(x)));
    prog.push(Instr::Mul(Arg::Lit(s), Arg::Reg(0)));
    prog.push(Instr::Sub(Arg::Lit(ONE_BITS), Arg::Lit(x)));
    prog.push(Instr::Sub(Arg::Reg(2), Arg::Reg(1)));
    prog.push(Instr::Add(Arg::Reg(3), Arg::Lit(EPS_BITS)));
    prog.push(Instr::Sub(Arg::Lit(ONE_BITS), Arg::Lit(t)));
    prog.push(Instr::Sub(Arg::Lit(x), Arg::Lit(ONE_BITS)));
    prog.push(Instr::Mul(Arg::Reg(5), Arg::Reg(6)));
    prog.push(Instr::Div(Arg::Reg(7), Arg::Reg(4)));
    prog.push(Instr::Add(Arg::Reg(8), Arg::Lit(ONE_BITS)));
    prog.push(Instr::Add(Arg::Reg(5), Arg::Lit(EPS_BITS)));
    prog.push(Instr::Div(Arg::Lit(ONE_BITS), Arg::Reg(10)));
    prog.push(Instr::Sub(Arg::Lit(s2), Arg::Lit(ONE_BITS)));
    prog.push(Instr::Pow(Arg::Reg(11), Arg::Reg(12)));
    prog.push(Instr::Sub(Arg::Lit(x), Arg::Lit(t)));
    prog.push(Instr::Abs(Arg::Reg(14)));
    prog.push(Instr::Pow(Arg::Reg(15), Arg::Lit(s2)));
    prog.push(Instr::Mul(Arg::Reg(13), Arg::Reg(16)));
    prog.push(Instr::Add(Arg::Reg(17), Arg::Lit(t)));
    prog.push(Instr::Mul(Arg::Lit(nu), Arg::Reg(18)));
    prog.push(Instr::Add(Arg::Lit(ONE_BITS), Arg::Lit(u)));
    prog.push(Instr::Mul(Arg::Reg(20), Arg::Reg(9)));
    prog.push(Instr::Add(Arg::Reg(19), Arg::Reg(21)));
    proof {
        assert(prog@ =~= spec_right_neg_program(x, t, s, s2, u));
    }
    prog
}

fn right_pos_plan(x: u64, t: u64, s: u64, s2: u64, u: u64) -> (prog: Vec<Instr>)
    ensures
        prog@ == spec_right_pos_program(x, t, s, s2, u),
        spec_program_wf(prog@),
{
    let mut prog: Vec<Instr> = Vec::new();
    prog.push(Instr::Sub(Arg::Lit(t), Arg::Lit(x)));
    prog.push(Instr::Mul(Arg::Lit(s), Arg::Reg(0)));
    prog.push(Instr::Sub(Arg::Lit(ONE_BITS), Arg::Lit(x)));
    prog.push(Instr::Sub(Arg::Reg(2), Arg::Reg(1)));
    prog.push(Instr::Add(Arg::Reg(3), Arg::Lit(EPS_BITS)));
    prog.push(Instr::Sub(Arg::Lit(ONE_BITS), Arg::Lit(t)));
    prog.push(Instr::Sub(Arg::Lit(x), Arg::Lit(ONE_BITS)));
    prog.push(Instr::Mul(Arg::Reg(5), Arg::Reg(6)));
    prog.push(Instr::Div(Arg::Reg(7), Arg::Reg(4)));
    prog.push(Instr::Add(Arg::Reg(8), Arg::Lit(ONE_BITS)));
    prog.push(Instr::Add(Arg::Reg(5), Arg::Lit(EPS_BITS)));
    prog.push(Instr::Div(Arg::Lit(ONE_BITS), Arg::Reg(10)));
    prog.push(Instr::Sub(Arg::Lit(s), Arg::Lit(ONE_BITS)));
    prog.push(Instr::Pow(Arg::Reg(11), Arg::Reg(12)));
    prog.push(Instr::Pow(Arg::Reg(2), Arg::Lit(s)));
    prog.push(Instr::Mul(Arg::Reg(13), Arg::Reg(14)));
    prog.push(Instr::Sub(Arg::Lit(ONE_BITS), Arg::Reg(15)));
    prog.push(Instr::Mul(Arg::Lit(u), Arg::Reg(16)));
    prog.push(Instr::Sub(Arg::Lit(ONE_BITS), Arg::Lit(u)));
    prog.push(Instr::Mul(Arg::Reg(18), Arg::Reg(9)));
    prog.push(Instr::Add(Arg::Reg(17), Arg::Reg(19)));
    proof {
        assert(prog@ =~= spec_right_pos_program(x, t, s, s2, u));
    }
    prog
}

/// Build the full evaluation plan for `torcurve(x, a, b, c)`. The caller
/// supplies the preamble's registers: `csq` encoding `c*c`, `s` encoding
/// `exp(a)` and `s2` encoding `1/s`. The plan is a pure function of its
/// arguments, so two calls on the same bit patterns return the same
/// instruction list.
pub fn curve_program(x: u64, b: u64, c: u64, csq: u64, s: u64, s2: u64) -> (prog: Vec<Instr>)
    ensures
        prog@ == spec_curve_program(x, b, c, csq, s, s2),
        prog@.len() >= 1,
        spec_program_wf(prog@),
{
    let u = pinch(c, csq);
    let xc = clamp01(x);
    let t = clamp01(b);
    if bits_lt(xc, t) {
        if bits_le(u, ZERO_BITS) {
            left_neg_plan(xc, t, s, s2, u)
        } else {
            left_pos_plan(xc, t, s, s2, u)
        }
    } else {
        if bits_le(u, ZERO_BITS) {
            right_neg_plan(xc, t, s, s2, u)
        } else {
            right_pos_plan(xc, t, s, s2, u)
        }
    }
}

/// The plan is deterministic: two plans built from identical bit patterns
/// are identical, so with deterministic host arithmetic the whole
/// evaluation repeats bit for bit.
pub proof fn lemma_plan_deterministic(
    x: u64,
    b: u64,
    c: u64,
    csq: u64,
    s: u64,
    s2: u64,
    p1: Seq<Instr>,
    p2: Seq<Instr>,
)
    requires
        p1 == spec_curve_program(x, b, c, csq, s, s2),
        p2 == spec_curve_program(x, b, c, csq, s, s2),
    ensures
        p1 == p2,
{
}

/// Clamping the drive coordinate before the evaluation changes nothing:
/// the plan for `clamp01(x)` is the plan for `x`, because the evaluation
/// clamps `x` first either way and clamping is idempotent.
pub proof fn lemma_plan_clamps_drive(x: u64, b: u64, c: u64, csq: u64, s: u64, s2: u64)
    ensures
        spec_curve_program(spec_clamp01(x), b, c, csq, s, s2) == spec_curve_program(
            x,
            b,
            c,
            csq,
            s,
            s2,
        ),
{
    lemma_clamp01_idempotent(x);
}

} // verus!
