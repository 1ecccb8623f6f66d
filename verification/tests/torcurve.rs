//! End-to-end tests of the curve: the verified library chooses the plan,
//! this file plays the host and evaluates it with `f64` arithmetic.

use torcurve_rs::curve::nan_guard;
use torcurve_rs::curve::pinch;
use torcurve_rs::plan::curve_program;
use torcurve_rs::plan::prelude_program;
use torcurve_rs::plan::Arg;
use torcurve_rs::plan::Instr;

fn resolve(regs: &[u64], arg: Arg) -> f64 {
    match arg {
        Arg::Lit(v) => f64::from_bits(v),
        Arg::Reg(i) => f64::from_bits(regs[i]),
    }
}

fn run_program(prog: &[Instr], regs: &mut Vec<u64>) {
    for ins in prog {
        let v: f64 = match *ins {
            Instr::Add(a, b) => resolve(regs, a) + resolve(regs, b),
            Instr::Sub(a, b) => resolve(regs, a) - resolve(regs, b),
            Instr::Mul(a, b) => resolve(regs, a) * resolve(regs, b),
            Instr::Div(a, b) => resolve(regs, a) / resolve(regs, b),
            Instr::Pow(a, b) => resolve(regs, a).powf(resolve(regs, b)),
            Instr::Abs(a) => resolve(regs, a).abs(),
            Instr::Exp(a) => resolve(regs, a).exp(),
        };
        regs.push(v.to_bits());
    }
}

fn torcurve(x: f64, a: f64, b: f64, c: f64) -> f64 {
    let pre = prelude_program(a.to_bits(), c.to_bits());
    let mut pre_regs: Vec<u64> = Vec::new();
    run_program(&pre, &mut pre_regs);
    let csq: u64 = pre_regs[0];
    let s: u64 = pre_regs[1];
    let s2: u64 = pre_regs[2];
    let prog = curve_program(x.to_bits(), b.to_bits(), c.to_bits(), csq, s, s2);
    let mut regs: Vec<u64> = Vec::new();
    run_program(&prog, &mut regs);
    let last: u64 = regs[regs.len() - 1];
    f64::from_bits(nan_guard(last))
}

/// The curve written out directly in `f64` arithmetic, used as the
/// expected value of the plan-and-evaluate pipeline.
fn direct_eval(x: f64, a: f64, b: f64, c: f64) -> f64 {
    let csq = c * c;
    let u = if c < 0.5 { -csq } else { csq };
    let x = x.clamp(0.0, 1.0);
    let s = a.exp();
    let s2 = 1.0 / s;
    let t = b.clamp(0.0, 1.0);
    let eps = 1e-5;
    let res = if x < t {
        let c1 = (t * x) / (x + s * (t - x) + eps);
        if u <= 0.0 {
            let c2 = t - (1.0 / (t + eps)).powf(s2 - 1.0) * (x - t).abs().powf(s2);
            (-u) * c2 + (1.0 + u) * c1
        } else {
            let c3 = (1.0 / (t + eps)).powf(s - 1.0) * x.powf(s);
            u * c3 + (1.0 - u) * c1
        }
    } else {
        let c1 = (1.0 - t) * (x - 1.0) / (1.0 - x - s * (t - x) + eps) + 1.0;
        if u <= 0.0 {
            let c2 = (1.0 / (1.0 - t + eps)).powf(s2 - 1.0) * (x - t).abs().powf(s2) + t;
            (-u) * c2 + (1.0 + u) * c1
        } else {
            let c3 = 1.0 - (1.0 / (1.0 - t + eps)).powf(s - 1.0) * (1.0 - x).powf(s);
            u * c3 + (1.0 - u) * c1
        }
    };
    if res.is_nan() {
        0.0
    } else {
        res
    }
}

#[test]
fn it_works() {
    let test_samples = vec![
        0.0,
        0.09999800003999922,
        0.19999600007999843,
        0.29999400011999766,
        0.39999200015999686,
        0.5000099998000039,
        0.6000079998400032,
        0.7000059998800024,
        0.8000039999200016,
        0.9000019999600009,
        1.0,
    ];
    for (i, test_item) in test_samples.iter().enumerate() {
        assert_eq!(torcurve(i as f64 * 0.1, 0.0, 0.5, 0.0), *test_item);
    }
}

#[test]
fn matches_direct_formula() {
    let a_vals = vec![-3.0, -1.0, 0.0, 1.0, 3.0, 10.0];
    let b_vals = vec![0.0, 0.3, 0.5, 0.9, 1.0];
    let c_vals = vec![-1.7, -0.3, 0.0, 0.4, 0.5, 0.8, 1.7];
    let x_vals = vec![0.0, 0.1, 0.45, 0.5, 0.9, 0.999, 1.0];
    for a in &a_vals {
        for b in &b_vals {
            for c in &c_vals {
                for x in &x_vals {
                    let got = torcurve(*x, *a, *b, *c);
                    let want = direct_eval(*x, *a, *b, *c);
                    assert_eq!(
                        got.to_bits(),
                        want.to_bits(),
                        "x={x} a={a} b={b} c={c}: got {got}, want {want}"
                    );
                }
            }
        }
    }
}

#[test]
fn pinch_threshold_values() {
    // The square keeps its sign at and above the 0.5 threshold and is
    // negated below it; 0.5 itself lands on the non-negative side.
    let p04 = f64::from_bits(pinch(0.4f64.to_bits(), (0.4f64 * 0.4f64).to_bits()));
    let p05 = f64::from_bits(pinch(0.5f64.to_bits(), (0.5f64 * 0.5f64).to_bits()));
    let p06 = f64::from_bits(pinch(0.6f64.to_bits(), (0.6f64 * 0.6f64).to_bits()));
    assert_eq!(p04, -(0.4 * 0.4));
    assert_eq!(p04, -0.16000000000000003);
    assert_eq!(p05, 0.25);
    assert_eq!(p06, 0.36);
    assert!(p04 < 0.0 && p05 > 0.0);
}

#[test]
fn repeated_calls_bit_identical() {
    let params = vec![
        (0.25, 1.0, 0.5, 0.3),
        (0.75, -2.0, 0.3, 0.25),
        (0.9, 3.0, 0.2, 0.6),
        (0.5, 0.0, 0.5, 0.0),
        (0.1, 7.5, 0.8, -1.9),
    ];
    for (x, a, b, c) in &params {
        let r1 = torcurve(*x, *a, *b, *c);
        let r2 = torcurve(*x, *a, *b, *c);
        assert_eq!(r1.to_bits(), r2.to_bits());
        let p1 = curve_program(x.to_bits(), b.to_bits(), c.to_bits(), 0, 0, 0);
        let p2 = curve_program(x.to_bits(), b.to_bits(), c.to_bits(), 0, 0, 0);
        assert_eq!(p1, p2);
    }
}

#[test]
fn out_of_range_drive_is_clamped() {
    let params = vec![(0.3, 0.4, 0.7), (2.0, 0.2, -1.0), (-1.5, 0.9, 0.6)];
    let low = vec![-3.0, -0.001, -1e300, f64::NEG_INFINITY];
    let high = vec![1.001, 42.0, 1e300, f64::INFINITY];
    for (a, b, c) in &params {
        for x in &low {
            assert_eq!(
                torcurve(*x, *a, *b, *c).to_bits(),
                torcurve(0.0, *a, *b, *c).to_bits(),
                "x={x}"
            );
        }
        for x in &high {
            assert_eq!(
                torcurve(*x, *a, *b, *c).to_bits(),
                torcurve(1.0, *a, *b, *c).to_bits(),
                "x={x}"
            );
        }
    }
}

#[test]
fn boundary_values_are_finite() {
    let mut a = -10.0;
    while a <= 10.0 {
        let mut b = 0.0;
        while b <= 1.0 {
            let mut c = -2.0;
            while c <= 2.0 {
                let y0 = torcurve(0.0, a, b, c);
                let y1 = torcurve(1.0, a, b, c);
                assert!(y0.is_finite(), "a={a} b={b} c={c}: {y0}");
                assert!(y1.is_finite(), "a={a} b={b} c={c}: {y1}");
                c += 0.25;
            }
            b += 0.1;
        }
        a += 1.0;
    }
}

#[test]
fn broad_sweep_never_nan() {
    let mut a = -10.0;
    while a <= 10.0 {
        let mut b = 0.0;
        while b <= 1.0 {
            let mut c = -2.0;
            while c <= 2.0 {
                let mut x = 0.0;
                while x <= 1.0 {
                    let y = torcurve(x, a, b, c);
                    assert!(y.is_finite(), "x={x} a={a} b={b} c={c}: {y}");
                    x += 0.05;
                }
                c += 0.25;
            }
            b += 0.1;
        }
        a += 1.0;
    }
}

#[test]
fn continuity_at_the_midpoint() {
    // The two branches meet at x == t up to the epsilon guard in the
    // denominators, so the jump across the midpoint stays small; steeply
    // positive `a` slows the approach of the negative-mix branch down so
    // much that a tight tolerance is only meaningful for a <= 0.
    let a_vals = vec![-2.0, -1.0, 0.0];
    let c_vals = vec![-1.5, -0.5, 0.0, 0.5, 1.5];
    for a in &a_vals {
        for c in &c_vals {
            let mut b = 0.05;
            while b <= 0.95 {
                let lo = torcurve(b - 1e-9, *a, b, *c);
                let hi = torcurve(b + 1e-9, *a, b, *c);
                assert!(
                    (lo - hi).abs() < 1e-3,
                    "a={a} b={b} c={c}: {lo} vs {hi}"
                );
                b += 0.1;
            }
        }
    }
}

#[test]
fn nan_parameters_yield_zero() {
    assert_eq!(torcurve(f64::NAN, 1.0, 0.5, 0.3), 0.0);
    assert_eq!(torcurve(0.3, f64::NAN, 0.5, 0.3), 0.0);
    assert_eq!(torcurve(0.3, 1.0, f64::NAN, 0.3), 0.0);
    assert_eq!(torcurve(0.3, 1.0, 0.5, f64::NAN), 0.0);
}
