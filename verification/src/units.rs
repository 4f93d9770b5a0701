//! Fixed-point units and the integer arithmetic every other module builds on.
//!
//! Lengths are counted in thousandths of a pixel, velocities in those units
//! per second, time in milliseconds and angles in millionths of a radian.
//! Every quotient rounds toward zero, so that mirrored motion stays mirrored.

use vstd::prelude::*;

verus! {

/// Length units in one screen pixel.
pub const UNITS_PER_PIXEL: i32 = 1000;

/// Milliseconds in one second.
pub const MS_PER_SECOND: i32 = 1000;

/// The value that stands for one in the components of a heading.
pub const HEADING_SCALE: u64 = 10_000_000_000;

/// The largest angle, in millionths of a radian, that is still short of a
/// quarter turn.
pub const QUARTER_TURN: u32 = 1_570_796;

/// Absolute value.
pub open spec fn magnitude(n: int) -> int {
    if n < 0 {
        -n
    } else {
        n
    }
}

/// The quotient of `n` by `d`, rounded toward zero. Meaningful for `d != 0`.
pub open spec fn quot(n: int, d: int) -> int {
    if d > 0 {
        if n >= 0 {
            n / d
        } else {
            -((-n) / d)
        }
    } else {
        if n >= 0 {
            -(n / (-d))
        } else {
            (-n) / (-d)
        }
    }
}

/// `v` limited to the interval from `lo` to `hi`.
pub open spec fn clamp(v: int, lo: int, hi: int) -> int {
    if v < lo {
        lo
    } else if v > hi {
        hi
    } else {
        v
    }
}

/// `-1` for a negative number and `1` for every other.
pub open spec fn sign(v: int) -> int {
    if v < 0 {
        -1
    } else {
        1
    }
}

/// A quotient rounded toward zero is no farther from zero than its dividend,
/// and lies on the side of zero that the signs of both operands give.
pub proof fn lemma_quot_bounds(n: int, d: int)
    requires
        d != 0,
    ensures
        magnitude(quot(n, d)) <= magnitude(n),
        (n >= 0 && d > 0) || (n <= 0 && d < 0) ==> quot(n, d) >= 0,
        (n >= 0 && d < 0) || (n <= 0 && d > 0) ==> quot(n, d) <= 0,
        n == 0 ==> quot(n, d) == 0,
{
    let a = magnitude(n);
    let b = magnitude(d);
    assert(0 <= a / b <= a) by (nonlinear_arith)
        requires
            a >= 0,
            b >= 1,
    ;
}

/// Dividing a product by one of its positive factors bounds the quotient by
/// the other factor: `|n| <= bound * |d|` gives `|quot(n, d)| <= bound`.
pub proof fn lemma_quot_le(n: int, d: int, bound: int)
    requires
        d != 0,
        bound >= 0,
        magnitude(n) <= bound * magnitude(d),
    ensures
        magnitude(quot(n, d)) <= bound,
{
    let a = magnitude(n);
    let b = magnitude(d);
    assert(a / b <= bound) by (nonlinear_arith)
        requires
            a >= 0,
            b >= 1,
            bound >= 0,
            a <= bound * b,
    ;
    assert(0 <= a / b) by (nonlinear_arith)
        requires
            a >= 0,
            b >= 1,
    ;
}

/// The magnitude of a product is bounded by the product of bounds on its
/// factors.
pub proof fn lemma_product_bound(a: int, b: int, a_max: int, b_max: int)
    requires
        magnitude(a) <= a_max,
        magnitude(b) <= b_max,
    ensures
        magnitude(a * b) <= a_max * b_max,
        -(a_max * b_max) <= a * b <= a_max * b_max,
{
    let x = magnitude(a);
    let y = magnitude(b);
    assert(x * y <= a_max * b_max) by (nonlinear_arith)
        requires
            0 <= x <= a_max,
            0 <= y <= b_max,
    ;
    assert(a * b == x * y || a * b == -(x * y)) by (nonlinear_arith)
        requires
            x == a || x == -a,
            y == b || y == -b,
    ;
}

/// Divides `n` by `d`, rounding toward zero.
pub fn div_toward_zero(n: i128, d: i128) -> (q: i128)
    requires
        d != 0,
        d > i128::MIN,
        n > i128::MIN,
    ensures
        q == quot(n as int, d as int),
        magnitude(q as int) <= magnitude(n as int),
{
    proof {
        lemma_quot_bounds(n as int, d as int);
    }
    let a: i128 = if n < 0 { -n } else { n };
    let b: i128 = if d < 0 { -d } else { d };
    if (n < 0) == (d < 0) {
        a / b
    } else {
        -(a / b)
    }
}

/// Multiplies `a` by `b` and divides the product by `d`, rounding toward
/// zero.
pub fn mul_div(a: i128, b: i128, d: i128) -> (q: i128)
    requires
        d != 0,
        d > i128::MIN,
        i128::MIN < a * b <= i128::MAX,
    ensures
        q == quot(a * b, d as int),
        magnitude(q as int) <= magnitude(a * b),
{
    div_toward_zero(a * b, d)
}

/// The square of a coordinate or velocity.
pub fn square(v: i32) -> (r: i64)
    ensures
        r == v * v,
        0 <= r <= 0x4000_0000_0000_0000,
{
    assert(0 <= v * v <= 0x8000_0000 * 0x8000_0000) by (nonlinear_arith)
        requires
            -0x8000_0000 <= v <= 0x8000_0000,
    ;
    (v as i64) * (v as i64)
}

/// Brings a wide intermediate result back into the range of a coordinate.
pub fn saturate(v: i128) -> (r: i32)
    ensures
        r == clamp(v as int, i32::MIN as int, i32::MAX as int),
{
    if v < i32::MIN as i128 {
        i32::MIN
    } else if v > i32::MAX as i128 {
        i32::MAX
    } else {
        v as i32
    }
}

/// The integer square root: the one `r` with `r * r <= n < (r + 1) * (r + 1)`.
pub fn isqrt(n: u64) -> (r: u32)
    ensures
        r * r <= n < (r + 1) * (r + 1),
{
    let mut lo: u64 = 0;
    let mut hi: u64 = 0x1_0000_0000;
    while hi - lo > 1
        invariant
            lo < hi <= 0x1_0000_0000,
            lo * lo <= n < hi * hi,
        decreases hi - lo,
    {
        let mid: u64 = lo + (hi - lo) / 2;
        assert(mid * mid <= 0xffff_ffff * 0xffff_ffff) by (nonlinear_arith)
            requires
                0 <= mid <= 0xffff_ffff,
        ;
        if mid * mid <= n {
            lo = mid;
        } else {
            hi = mid;
        }
    }
    lo as u32
}

} // verus!
