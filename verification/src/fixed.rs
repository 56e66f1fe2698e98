//! Fixed-point scalar arithmetic.
//!
//! A scalar is an `i64` counting thousandths of a unit (`UNIT == 1000`).
//! Multiplication and division of scalars rescale by `UNIT` and truncate
//! toward zero, exactly as the hardware `/` does; the spec-level functions
//! `tdiv`, `fmul` and `fdiv` pin that behaviour down so contracts elsewhere
//! can state results of whole arithmetic pipelines exactly.

use vstd::math::abs;
use vstd::prelude::*;

verus! {

/// Sub-units per unit of the fixed-point representation.
pub const UNIT: i64 = 1000;

/// Truncating (round-toward-zero) division, the semantics of `/` on `i64`.
/// `int` division in specifications is Euclidean, so the negative case is
/// spelled out.
pub open spec fn tdiv(n: int, d: int) -> int
    recommends
        d > 0,
{
    if n >= 0 {
        n / d
    } else {
        -((-n) / d)
    }
}

/// Fixed-point product: `a * b` rescaled down by `UNIT`, truncated.
pub open spec fn fmul(a: int, b: int) -> int {
    tdiv(a * b, UNIT as int)
}

/// Fixed-point quotient: `a / b` rescaled up by `UNIT`, truncated.
pub open spec fn fdiv(a: int, b: int) -> int
    recommends
        b > 0,
{
    tdiv(a * (UNIT as int), b)
}

/// Clamp `v` into `[lo, hi]`.
pub open spec fn sclamp(v: int, lo: int, hi: int) -> int
    recommends
        lo <= hi,
{
    if v < lo {
        lo
    } else if v > hi {
        hi
    } else {
        v
    }
}

/// Truncating division of arbitrary (bounded) numerators by a positive
/// divisor.
pub fn div_trunc(n: i64, d: i64) -> (r: i64)
    requires
        d > 0,
        n > i64::MIN,
    ensures
        r == tdiv(n as int, d as int),
{
    if n >= 0 {
        n / d
    } else {
        -((-n) / d)
    }
}

/// Fixed-point multiplication; the product must fit comfortably in `i64`.
pub fn mul_fp(a: i64, b: i64) -> (r: i64)
    requires
        -0x7000_0000_0000_0000 <= a * b <= 0x7000_0000_0000_0000,
    ensures
        r == fmul(a as int, b as int),
        a * b >= 0 ==> 0 <= r <= a * b,
        a * b <= 0 ==> a * b <= r <= 0,
{
    let p = a * b;
    proof {
        lemma_tdiv_bounds(p as int, UNIT as int);
    }
    div_trunc(p, UNIT)
}

/// Fixed-point division by a positive scalar.
pub fn div_fp(a: i64, b: i64) -> (r: i64)
    requires
        b > 0,
        -0x7000_0000_0000_0000 <= a * (UNIT as int) <= 0x7000_0000_0000_0000,
    ensures
        r == fdiv(a as int, b as int),
{
    let p = a * UNIT;
    div_trunc(p, b)
}

/// Clamp `v` into `[lo, hi]`.
pub fn clamp_fp(v: i64, lo: i64, hi: i64) -> (r: i64)
    requires
        lo <= hi,
    ensures
        r == sclamp(v as int, lo as int, hi as int),
        lo <= r <= hi,
{
    if v < lo {
        lo
    } else if v > hi {
        hi
    } else {
        v
    }
}

/// Magnitude of a scalar.
pub fn abs_fp(v: i64) -> (r: i64)
    requires
        v > i64::MIN,
    ensures
        r == abs(v as int),
{
    if v < 0 {
        -v
    } else {
        v
    }
}

/// Addition that sticks at `cap` instead of growing without bound; used for
/// the accumulated timers, whose consumers only compare them against
/// thresholds far below any cap this library passes.
pub fn add_capped(t: i64, dt: i64, cap: i64) -> (r: i64)
    requires
        0 <= t <= cap,
        0 <= dt,
        dt <= i64::MAX - cap,
    ensures
        r == min_int(t + dt, cap as int),
        0 <= r <= cap,
{
    if t + dt > cap {
        cap
    } else {
        t + dt
    }
}

/// The smaller of two mathematical integers.
pub open spec fn min_int(a: int, b: int) -> int {
    if a < b {
        a
    } else {
        b
    }
}

/// Truncating division never grows magnitude and never flips sign.
pub proof fn lemma_tdiv_bounds(n: int, d: int)
    requires
        d > 0,
    ensures
        n >= 0 ==> 0 <= tdiv(n, d) <= n,
        n <= 0 ==> n <= tdiv(n, d) <= 0,
{
    if n >= 0 {
        assert(0 <= n / d <= n) by (nonlinear_arith)
            requires
                n >= 0 && d > 0,
        ;
    } else {
        assert(0 <= (-n) / d <= -n) by (nonlinear_arith)
            requires
                -n >= 0 && d > 0,
        ;
    }
}

/// Scaling a nonzero scalar by a factor strictly below `UNIT` strictly
/// shrinks its magnitude; this is what makes drag dissipative.
pub proof fn lemma_fmul_shrinks(v: int, f: int)
    requires
        v != 0,
        0 <= f < UNIT as int,
    ensures
        abs(fmul(v, f)) < abs(v),
        v > 0 ==> 0 <= fmul(v, f) < v,
        v < 0 ==> v < fmul(v, f) <= 0,
{
    let u = UNIT as int;
    if v > 0 {
        assert(v * f <= v * (u - 1)) by (nonlinear_arith)
            requires
                v > 0 && f <= u - 1,
        ;
        assert(v * (u - 1) == v * u - v);
        assert((v * u - v) / u < v) by (nonlinear_arith)
            requires
                v > 0 && u > 0,
        ;
        assert(v * f >= 0) by (nonlinear_arith)
            requires
                v >= 0 && f >= 0,
        ;
        assert((v * f) / u <= (v * u - v) / u) by (nonlinear_arith)
            requires
                v * f <= v * u - v && u > 0,
        ;
    } else {
        let w = -v;
        assert(w * f <= w * (u - 1)) by (nonlinear_arith)
            requires
                w > 0 && f <= u - 1,
        ;
        assert(w * (u - 1) == w * u - w);
        assert((w * u - w) / u < w) by (nonlinear_arith)
            requires
                w > 0 && u > 0,
        ;
        assert(w * f >= 0) by (nonlinear_arith)
            requires
                w >= 0 && f >= 0,
        ;
        assert((w * f) / u <= (w * u - w) / u) by (nonlinear_arith)
            requires
                w * f <= w * u - w && u > 0,
        ;
        assert(-(v * f) == w * f) by (nonlinear_arith)
            requires
                w == -v,
        ;
    }
}

} // verus!
