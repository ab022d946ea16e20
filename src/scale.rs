//! Clamping and the fixed-point scale shared by all controllers.
use vstd::prelude::*;

verus! {

/// Denominator of a controller's raw output sum: the sum counts
/// millionths of a thousandth of full scale.
pub const OUTPUT_DENOM: i128 = 1_000_000;

/// `x` held to the interval `[lo, hi]`.
pub open spec fn clamp(x: int, lo: int, hi: int) -> int {
    if x < lo {
        lo
    } else if x > hi {
        hi
    } else {
        x
    }
}

/// Magnitude of an integer.
pub open spec fn abs(x: int) -> int {
    if x < 0 {
        -x
    } else {
        x
    }
}

/// A raw output sum `n` (over `OUTPUT_DENOM`) rounded down to a channel
/// value and held to `[lo, hi]`.
pub open spec fn scaled_output(n: int, lo: int, hi: int) -> int {
    clamp(n / 1_000_000, lo, hi)
}

/// Clamping never moves a value away from zero when the interval holds zero.
pub proof fn lemma_clamp_shrinks(x: int, bound: int)
    requires
        bound >= 0,
    ensures
        abs(clamp(x, -bound, bound)) <= abs(x),
        -bound <= clamp(x, -bound, bound) <= bound,
{
}

/// A bound on the magnitude of a product from bounds on its factors.
pub proof fn lemma_mul_bound(a: int, b: int, x: int, y: int)
    requires
        abs(a) <= x,
        abs(b) <= y,
    ensures
        abs(a * b) <= x * y,
{
    assert(abs(a * b) <= x * y) by (nonlinear_arith)
        requires
            abs(a) <= x,
            abs(b) <= y,
    ;
}

/// Rounds the raw sum `n` down to a channel value in `[lo, hi]`.
pub fn clamp_scaled(n: i128, lo: i32, hi: i32) -> (r: i32)
    requires
        -1000 <= lo <= hi <= 1000,
    ensures
        r == scaled_output(n as int, lo as int, hi as int),
        lo <= r <= hi,
{
    let lo_w = lo as i128;
    let hi_w = hi as i128;
    if n < (lo_w + 1) * OUTPUT_DENOM {
        lo
    } else if n >= hi_w * OUTPUT_DENOM {
        hi
    } else {
        let q = (n - lo_w * OUTPUT_DENOM) / OUTPUT_DENOM + lo_w;
        assert(q == n as int / 1_000_000);
        q as i32
    }
}

/// Holds `x` to `[-bound, bound]`.
pub fn clamp_symmetric(x: i128, bound: u32) -> (r: i64)
    ensures
        r == clamp(x as int, -(bound as int), bound as int),
{
    let b = bound as i128;
    if x < -b {
        -(bound as i64)
    } else if x > b {
        bound as i64
    } else {
        x as i64
    }
}

} // verus!
