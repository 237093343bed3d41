//! Fixed-point planar vectors: a coordinate is an `i64` count of
//! `1 / UNIT` of a length unit, so `UNIT` stands for `1.0`.
use vstd::prelude::*;

verus! {

/// Number of fixed-point steps in one unit (`1.0`).
pub const UNIT: i64 = 1000;

/// A planar vector in fixed-point coordinates.
#[derive(Clone, Copy, Debug, PartialEq, Eq, Structural)]
pub struct Vec2 {
    pub x: i64,
    pub y: i64,
}

/// The nearest `i64` to `v`: `v` itself when it fits.
pub open spec fn sat(v: int) -> int {
    if v < i64::MIN {
        i64::MIN as int
    } else if v > i64::MAX {
        i64::MAX as int
    } else {
        v
    }
}

/// `v / UNIT`, rounded toward zero.
pub open spec fn fx_div(v: int) -> int {
    if v >= 0 {
        v / (UNIT as int)
    } else {
        -((-v) / (UNIT as int))
    }
}

/// Fixed-point product `a * b`, rounded toward zero and saturated.
pub open spec fn fx_mul(a: int, b: int) -> int {
    sat(fx_div(a * b))
}

/// Squared length of `v`, in squared fixed-point steps.
pub open spec fn norm2(v: Vec2) -> int {
    v.x * v.x + v.y * v.y
}

/// Squared distance between `a` and `b`.
pub open spec fn dist2(a: Vec2, b: Vec2) -> int {
    (b.x - a.x) * (b.x - a.x) + (b.y - a.y) * (b.y - a.y)
}

/// Componentwise saturated sum.
pub open spec fn add_spec(a: Vec2, b: Vec2) -> Vec2 {
    Vec2 { x: sat(a.x + b.x) as i64, y: sat(a.y + b.y) as i64 }
}

/// `v` scaled by the fixed-point factor `s`.
pub open spec fn scale_spec(v: Vec2, s: int) -> Vec2 {
    Vec2 { x: fx_mul(v.x as int, s) as i64, y: fx_mul(v.y as int, s) as i64 }
}

/// Whether `r` is the integer square root of `n`, rounded down.
pub open spec fn is_isqrt(n: int, r: int) -> bool {
    0 <= r && r * r <= n < (r + 1) * (r + 1)
}

impl Vec2 {
    pub fn new(x: i64, y: i64) -> (r: Vec2)
        ensures
            r == (Vec2 { x, y }),
    {
        Vec2 { x, y }
    }

    pub fn zero() -> (r: Vec2)
        ensures
            r == (Vec2 { x: 0, y: 0 }),
    {
        Vec2 { x: 0, y: 0 }
    }

    /// Componentwise sum, saturated at the bounds of `i64`.
    pub fn add(&self, o: &Vec2) -> (r: Vec2)
        ensures
            r == add_spec(*self, *o),
    {
        Vec2 { x: sat_i128(self.x as i128 + o.x as i128), y: sat_i128(self.y as i128 + o.y as i128) }
    }

    /// This vector multiplied by the fixed-point factor `s`.
    pub fn scale(&self, s: i64) -> (r: Vec2)
        ensures
            r == scale_spec(*self, s as int),
    {
        Vec2 { x: mul_fx(self.x, s), y: mul_fx(self.y, s) }
    }

    /// Squared length, exact.
    pub fn norm2(&self) -> (r: u128)
        ensures
            r == norm2(*self),
    {
        let ax: u128 = abs_u128(self.x);
        let ay: u128 = abs_u128(self.y);
        assert(ax * ax <= 0x4000_0000_0000_0000_0000_0000_0000_0000) by (nonlinear_arith)
            requires ax <= 0x8000_0000_0000_0000;
        assert(ay * ay <= 0x4000_0000_0000_0000_0000_0000_0000_0000) by (nonlinear_arith)
            requires ay <= 0x8000_0000_0000_0000;
        assert(ax * ax == self.x * self.x) by (nonlinear_arith)
            requires ax == self.x || ax == -self.x;
        assert(ay * ay == self.y * self.y) by (nonlinear_arith)
            requires ay == self.y || ay == -self.y;
        ax * ax + ay * ay
    }
}

fn abs_u128(v: i64) -> (r: u128)
    ensures
        r == v || r == -v,
        r >= 0,
        r <= 0x8000_0000_0000_0000,
{
    if v >= 0 {
        v as u128
    } else {
        (-(v as i128)) as u128
    }
}

/// The nearest `i64` to `v`.
pub fn sat_i128(v: i128) -> (r: i64)
    ensures
        r == sat(v as int),
{
    if v < i64::MIN as i128 {
        i64::MIN
    } else if v > i64::MAX as i128 {
        i64::MAX
    } else {
        v as i64
    }
}

/// `v / UNIT`, rounded toward zero.
pub fn div_fx(v: i128) -> (r: i128)
    requires
        v > i128::MIN,
    ensures
        r == fx_div(v as int),
{
    if v >= 0 {
        v / (UNIT as i128)
    } else {
        let n: i128 = -v;
        -(n / (UNIT as i128))
    }
}

/// Fixed-point product of `a` and `b`.
pub fn mul_fx(a: i64, b: i64) -> (r: i64)
    ensures
        r == fx_mul(a as int, b as int),
{
    assert(-0x4000_0000_0000_0000_0000_0000_0000_0000 <= a * b <= 0x4000_0000_0000_0000_0000_0000_0000_0000)
        by (nonlinear_arith)
        requires
            i64::MIN <= a <= i64::MAX,
            i64::MIN <= b <= i64::MAX,
    ;
    sat_i128(div_fx(a as i128 * b as i128))
}

/// Integer square root of `n`, rounded down.
pub fn isqrt(n: u128) -> (r: u128)
    ensures
        is_isqrt(n as int, r as int),
{
    let mut lo: u128 = 0;
    let mut hi: u128 = 0x1_0000_0000_0000_0000;
    assert(hi * hi > n) by (nonlinear_arith)
        requires hi == 0x1_0000_0000_0000_0000, n < 0x1_0000_0000_0000_0000_0000_0000_0000_0000;
    while hi - lo > 1
        invariant
            lo < hi <= 0x1_0000_0000_0000_0000,
            lo * lo <= n,
            n < hi * hi,
        decreases hi - lo,
    {
        let mid: u128 = lo + (hi - lo) / 2;
        assert(mid * mid < 0x1_0000_0000_0000_0000_0000_0000_0000_0000) by (nonlinear_arith)
            requires mid < 0x1_0000_0000_0000_0000;
        if mid * mid <= n {
            lo = mid;
        } else {
            hi = mid;
        }
    }
    assert(hi == lo + 1);
    lo
}

} // verus!
