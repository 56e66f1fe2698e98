//! Fixed-point 2D vectors.
//!
//! Provides the componentwise operations the integrators use, plus the two
//! length-based operations the movement heuristics need: rescaling a vector
//! to a given length (normalisation) and clamping a vector's length from
//! above. Both rest on a verified integer square root, characterised in
//! specifications by `sqrt_floor`.

use vstd::math::abs;
use vstd::prelude::*;

use crate::fixed::{div_trunc, fmul, mul_fp, tdiv};

verus! {

/// Largest component magnitude accepted by the length-based operations:
/// squares of two such components still sum inside `i64`.
pub const LEN_COMP_MAX: i64 = 2_000_000_000;

/// A fixed-point 2D vector (thousandths of a unit per component).
#[derive(Clone, Copy, Debug, PartialEq, Eq, Structural)]
pub struct Vec2 {
    pub x: i64,
    pub y: i64,
}

/// Integer square root, defined by counting up; `lemma_sqrt_floor_bracket`
/// gives the usual characterisation.
pub open spec fn sqrt_floor(n: int) -> int
    decreases n,
{
    if n < 1 {
        0
    } else {
        let p = sqrt_floor(n - 1);
        if (p + 1) * (p + 1) <= n {
            p + 1
        } else {
            p
        }
    }
}

pub proof fn lemma_sqrt_floor_bracket(n: int)
    requires
        n >= 0,
    ensures
        0 <= sqrt_floor(n),
        sqrt_floor(n) * sqrt_floor(n) <= n,
        n < (sqrt_floor(n) + 1) * (sqrt_floor(n) + 1),
    decreases n,
{
    if n >= 1 {
        lemma_sqrt_floor_bracket(n - 1);
        let p = sqrt_floor(n - 1);
        if (p + 1) * (p + 1) <= n {
            assert(n < (p + 2) * (p + 2)) by (nonlinear_arith)
                requires
                    n - 1 < (p + 1) * (p + 1) && p >= 0,
            ;
        }
    }
}

pub proof fn lemma_sqrt_floor_unique(n: int, r: int)
    requires
        n >= 0,
        r >= 0,
        r * r <= n,
        n < (r + 1) * (r + 1),
    ensures
        r == sqrt_floor(n),
{
    lemma_sqrt_floor_bracket(n);
    let s = sqrt_floor(n);
    if r < s {
        assert((r + 1) * (r + 1) <= s * s) by (nonlinear_arith)
            requires
                0 <= r && r + 1 <= s,
        ;
    }
    if s < r {
        assert((s + 1) * (s + 1) <= r * r) by (nonlinear_arith)
            requires
                0 <= s && s + 1 <= r,
        ;
    }
}

pub proof fn lemma_sqrt_floor_square(k: int)
    requires
        k >= 0,
    ensures
        sqrt_floor(k * k) == k,
{
    assert(k * k >= 0) by (nonlinear_arith)
        requires
            k >= 0,
    ;
    assert(k * k < (k + 1) * (k + 1)) by (nonlinear_arith)
        requires
            k >= 0,
    ;
    lemma_sqrt_floor_unique(k * k, k);
}

pub proof fn lemma_sqrt_floor_monotonic(a: int, b: int)
    requires
        0 <= a <= b,
    ensures
        sqrt_floor(a) <= sqrt_floor(b),
{
    lemma_sqrt_floor_bracket(a);
    lemma_sqrt_floor_bracket(b);
    let sa = sqrt_floor(a);
    let sb = sqrt_floor(b);
    if sb < sa {
        assert((sb + 1) * (sb + 1) <= sa * sa) by (nonlinear_arith)
            requires
                0 <= sb && sb + 1 <= sa,
        ;
    }
}

/// Integer square root by bisection.
pub fn isqrt_u64(n: u64) -> (r: u64)
    ensures
        r == sqrt_floor(n as int),
        r <= 0xFFFF_FFFF,
{
    let mut lo: u64 = 0;
    let mut hi: u64 = 4_294_967_296;
    proof {
        assert(n < 4_294_967_296 * 4_294_967_296) by (nonlinear_arith)
            requires
                n <= 0xFFFF_FFFF_FFFF_FFFF,
        ;
    }
    while lo + 1 < hi
        invariant
            lo < hi <= 4_294_967_296,
            lo * lo <= n,
            n < hi * hi,
        decreases hi - lo,
    {
        let mid = lo + (hi - lo) / 2;
        proof {
            assert(mid * mid <= 0xFFFF_FFFE_0000_0001) by (nonlinear_arith)
                requires
                    mid <= 0xFFFF_FFFF,
            ;
        }
        if mid * mid <= n {
            lo = mid;
        } else {
            hi = mid;
        }
    }
    proof {
        lemma_sqrt_floor_unique(n as int, lo as int);
    }
    lo
}

/// Squared length of a vector as a mathematical integer.
pub open spec fn len_sq(v: Vec2) -> int {
    v.x * v.x + v.y * v.y
}

/// Length (rounded down) of a vector.
pub open spec fn vlen(v: Vec2) -> int {
    sqrt_floor(len_sq(v))
}

/// A component never exceeds the vector's length.
pub proof fn lemma_component_le_len(v: Vec2)
    ensures
        abs(v.x as int) <= vlen(v),
        abs(v.y as int) <= vlen(v),
{
    let ax: int = abs(v.x as int) as int;
    let ay: int = abs(v.y as int) as int;
    assert(ax * ax == v.x * v.x && ay * ay == v.y * v.y) by (nonlinear_arith)
        requires
            ax == abs(v.x as int) && ay == abs(v.y as int),
    ;
    assert(ay * ay >= 0) by (nonlinear_arith);
    assert(ax * ax >= 0) by (nonlinear_arith);
    lemma_sqrt_floor_square(ax);
    lemma_sqrt_floor_monotonic(ax * ax, len_sq(v));
    lemma_sqrt_floor_square(ay);
    lemma_sqrt_floor_monotonic(ay * ay, len_sq(v));
}

impl Vec2 {
    /// The zero vector.
    pub fn zero() -> (r: Vec2)
        ensures
            r == (Vec2 { x: 0, y: 0 }),
    {
        Vec2 { x: 0, y: 0 }
    }

    /// Componentwise sum.
    pub fn plus(self, o: Vec2) -> (r: Vec2)
        requires
            i64::MIN <= self.x + o.x <= i64::MAX,
            i64::MIN <= self.y + o.y <= i64::MAX,
        ensures
            r.x == self.x + o.x,
            r.y == self.y + o.y,
    {
        Vec2 { x: self.x + o.x, y: self.y + o.y }
    }

    /// Componentwise difference.
    pub fn minus(self, o: Vec2) -> (r: Vec2)
        requires
            i64::MIN <= self.x - o.x <= i64::MAX,
            i64::MIN <= self.y - o.y <= i64::MAX,
        ensures
            r.x == self.x - o.x,
            r.y == self.y - o.y,
    {
        Vec2 { x: self.x - o.x, y: self.y - o.y }
    }

    /// Fixed-point scaling of both components by `f`.
    pub fn scaled(self, f: i64) -> (r: Vec2)
        requires
            -0x7000_0000_0000_0000 <= self.x * f <= 0x7000_0000_0000_0000,
            -0x7000_0000_0000_0000 <= self.y * f <= 0x7000_0000_0000_0000,
        ensures
            r.x == fmul(self.x as int, f as int),
            r.y == fmul(self.y as int, f as int),
    {
        Vec2 { x: mul_fp(self.x, f), y: mul_fp(self.y, f) }
    }

    /// Length of the vector, rounded down.
    pub fn length(self) -> (r: i64)
        requires
            -LEN_COMP_MAX <= self.x <= LEN_COMP_MAX,
            -LEN_COMP_MAX <= self.y <= LEN_COMP_MAX,
        ensures
            r == vlen(self),
            0 <= r <= 3_000_000_000,
    {
        proof {
            assert(self.x * self.x <= LEN_COMP_MAX * LEN_COMP_MAX && self.x * self.x >= 0)
                by (nonlinear_arith)
                requires
                    -LEN_COMP_MAX <= self.x <= LEN_COMP_MAX,
            ;
            assert(self.y * self.y <= LEN_COMP_MAX * LEN_COMP_MAX && self.y * self.y >= 0)
                by (nonlinear_arith)
                requires
                    -LEN_COMP_MAX <= self.y <= LEN_COMP_MAX,
            ;
        }
        let s: i64 = self.x * self.x + self.y * self.y;
        let r = isqrt_u64(s as u64);
        proof {
            assert(3_000_000_000 * 3_000_000_000 > 2 * (LEN_COMP_MAX * LEN_COMP_MAX))
                by (nonlinear_arith)
            ;
            lemma_sqrt_floor_bracket(s as int);
            if r > 3_000_000_000 {
                assert(sqrt_floor(s as int) * sqrt_floor(s as int) > 3_000_000_000
                    * 3_000_000_000) by (nonlinear_arith)
                    requires
                        sqrt_floor(s as int) > 3_000_000_000,
                ;
            }
        }
        r as i64
    }

    /// The vector rescaled to length `target` (componentwise
    /// `x * target / |v|`, truncated); the zero vector stays zero.
    pub fn with_length(self, target: i64) -> (r: Vec2)
        requires
            -LEN_COMP_MAX <= self.x <= LEN_COMP_MAX,
            -LEN_COMP_MAX <= self.y <= LEN_COMP_MAX,
            0 <= target <= 2_000_000_000,
        ensures
            self.x == 0 && self.y == 0 ==> r == (Vec2 { x: 0, y: 0 }),
            !(self.x == 0 && self.y == 0) ==> r.x == tdiv(self.x * target, vlen(self)) && r.y
                == tdiv(self.y * target, vlen(self)),
            abs(r.x as int) <= target,
            abs(r.y as int) <= target,
    {
        if self.x == 0 && self.y == 0 {
            Vec2 { x: 0, y: 0 }
        } else {
            let n = self.length();
            proof {
                assert(len_sq(self) >= 0) by (nonlinear_arith);
                lemma_sqrt_floor_bracket(len_sq(self));
                if n == 0 {
                    assert(self.x * self.x >= 1 || self.y * self.y >= 1) by (nonlinear_arith)
                        requires
                            self.x != 0 || self.y != 0,
                    ;
                    assert(self.x * self.x >= 0 && self.y * self.y >= 0) by (nonlinear_arith);
                }
                lemma_component_le_len(self);
                assert(self.x * target <= 0x7000_0000_0000_0000 && self.x * target
                    >= -0x7000_0000_0000_0000) by (nonlinear_arith)
                    requires
                        -LEN_COMP_MAX <= self.x <= LEN_COMP_MAX && 0 <= target
                            <= 2_000_000_000,
                ;
                assert(self.y * target <= 0x7000_0000_0000_0000 && self.y * target
                    >= -0x7000_0000_0000_0000) by (nonlinear_arith)
                    requires
                        -LEN_COMP_MAX <= self.y <= LEN_COMP_MAX && 0 <= target
                            <= 2_000_000_000,
                ;
            }
            let rx = div_trunc(self.x * target, n);
            let ry = div_trunc(self.y * target, n);
            proof {
                lemma_scaled_component_bound(self.x as int, target as int, vlen(self));
                lemma_scaled_component_bound(self.y as int, target as int, vlen(self));
            }
            Vec2 { x: rx, y: ry }
        }
    }

    /// The vector unchanged if its length is at most `max`, else rescaled to
    /// length `max`.
    pub fn clamp_length(self, max: i64) -> (r: Vec2)
        requires
            -LEN_COMP_MAX <= self.x <= LEN_COMP_MAX,
            -LEN_COMP_MAX <= self.y <= LEN_COMP_MAX,
            0 <= max <= 2_000_000_000,
        ensures
            vlen(self) <= max ==> r == self,
            vlen(self) > max ==> r.x == tdiv(self.x * max, vlen(self)) && r.y == tdiv(
                self.y * max,
                vlen(self),
            ),
            abs(r.x as int) <= max,
            abs(r.y as int) <= max,
    {
        let n = self.length();
        if n <= max {
            proof {
                lemma_component_le_len(self);
            }
            self
        } else {
            proof {
                lemma_component_le_len(self);
                assert(self.x * max <= 0x7000_0000_0000_0000 && self.x * max
                    >= -0x7000_0000_0000_0000) by (nonlinear_arith)
                    requires
                        -LEN_COMP_MAX <= self.x <= LEN_COMP_MAX && 0 <= max <= 2_000_000_000,
                ;
                assert(self.y * max <= 0x7000_0000_0000_0000 && self.y * max
                    >= -0x7000_0000_0000_0000) by (nonlinear_arith)
                    requires
                        -LEN_COMP_MAX <= self.y <= LEN_COMP_MAX && 0 <= max <= 2_000_000_000,
                ;
            }
            let rx = div_trunc(self.x * max, n);
            let ry = div_trunc(self.y * max, n);
            proof {
                lemma_scaled_component_bound(self.x as int, max as int, vlen(self));
                lemma_scaled_component_bound(self.y as int, max as int, vlen(self));
            }
            Vec2 { x: rx, y: ry }
        }
    }
}

/// `|c| <= n` and `t >= 0` give `|c * t / n| <= t`.
proof fn lemma_scaled_component_bound(c: int, t: int, n: int)
    requires
        n >= 1,
        abs(c) <= n,
        t >= 0,
    ensures
        abs(tdiv(c * t, n)) <= t,
{
    if c >= 0 {
        assert(c * t <= n * t && c * t >= 0) by (nonlinear_arith)
            requires
                0 <= c <= n && t >= 0,
        ;
        assert((c * t) / n <= (n * t) / n) by (nonlinear_arith)
            requires
                c * t <= n * t && n >= 1,
        ;
        assert((n * t) / n == t) by (nonlinear_arith)
            requires
                n >= 1 && t >= 0,
        ;
        assert((c * t) / n >= 0) by (nonlinear_arith)
            requires
                c * t >= 0 && n >= 1,
        ;
    } else {
        let d = -c;
        assert(d * t <= n * t && d * t >= 0 && -(c * t) == d * t) by (nonlinear_arith)
            requires
                0 <= d <= n && t >= 0 && d == -c,
        ;
        assert((d * t) / n <= (n * t) / n) by (nonlinear_arith)
            requires
                d * t <= n * t && n >= 1,
        ;
        assert((n * t) / n == t) by (nonlinear_arith)
            requires
                n >= 1 && t >= 0,
        ;
        assert((d * t) / n >= 0) by (nonlinear_arith)
            requires
                d * t >= 0 && n >= 1,
        ;
    }
}

} // verus!
