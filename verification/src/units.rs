//! World units and the integer arithmetic shared by the rules.

use vstd::prelude::*;

verus! {

/// How many world units make one pixel.
pub const UNITS_PER_PIXEL: i64 = 1000;

/// Largest magnitude of a position or length that the screen and the difficulty may hold.
pub const WORLD_LIMIT: i64 = 100_000_000_000_000_000;

/// Largest window width or height the rules are stated for: 3.2 million pixels.
pub const WINDOW_LIMIT: i64 = 3_200_000_000;

/// Largest sprite scale factor, the one that fits a window `WINDOW_LIMIT` high.
pub const SCALE_LIMIT: i64 = 10_000;

/// The quotient of `a` by a positive `b`, rounded toward zero.
pub open spec fn div_toward_zero(a: int, b: int) -> int {
    if a >= 0 {
        a / b
    } else {
        -((-a) / b)
    }
}

/// `x` clamped into the range of `i32`.
pub open spec fn saturate_i32(x: int) -> int {
    if x < i32::MIN {
        i32::MIN as int
    } else if x > i32::MAX {
        i32::MAX as int
    } else {
        x
    }
}

/// `value * numerator / denominator` for non-negative operands, rounded down.
pub open spec fn scaled(value: int, numerator: int, denominator: int) -> int {
    (value * numerator) / denominator
}

/// Clamps `x` into the range of `i32`.
pub fn saturating_i32(x: i64) -> (r: i32)
    ensures
        r == saturate_i32(x as int),
{
    if x < i32::MIN as i64 {
        i32::MIN
    } else if x > i32::MAX as i64 {
        i32::MAX
    } else {
        x as i32
    }
}

/// Multiplies `value` by `numerator / denominator` without losing the product's high bits.
pub fn scale_value(value: i64, numerator: i64, denominator: i64) -> (r: i64)
    requires
        0 <= value,
        0 <= numerator,
        0 < denominator,
        scaled(value as int, numerator as int, denominator as int) <= i64::MAX,
    ensures
        r == scaled(value as int, numerator as int, denominator as int),
{
    assert(0 <= (value as int) * (numerator as int) <= i64::MAX * i64::MAX) by (nonlinear_arith)
        requires
            0 <= value <= i64::MAX,
            0 <= numerator <= i64::MAX,
    ;
    let wide: i128 = (value as i128) * (numerator as i128);
    let q: i128 = wide / (denominator as i128);
    q as i64
}

} // verus!
