use vstd::prelude::*;

verus! {

/// The raw value of the fixed-point number 1.
pub const ONE: i32 = 65536;

/// The raw value of the fixed-point number 1/2.
pub const HALF: i32 = 32768;

/// A simple struct that represents the size of an object, in 16.16 fixed point.
#[derive(Clone, Copy, Debug, Default, PartialEq, Eq, Structural)]
pub struct Size {
    /// The width of the object.
    pub width: i32,
    /// The height of the object.
    pub height: i32,
}

/// A simple struct that represents a point or position, in 16.16 fixed point.
#[derive(Clone, Copy, Debug, Default, PartialEq, Eq, Structural)]
pub struct Point {
    /// The x-coordinate of the point.
    pub x: i32,
    /// The y-coordinate of the point.
    pub y: i32,
}

/// Clamps a mathematical integer into the range of `i32`.
pub open spec fn clamp_i32(v: int) -> int {
    if v < i32::MIN {
        i32::MIN as int
    } else if v > i32::MAX {
        i32::MAX as int
    } else {
        v
    }
}

/// A raw value scaled by `ONE` (such as the product of two raw values),
/// brought back to a raw value: rounded toward negative infinity, since
/// division by a positive number in specifications is floor division.
pub open spec fn unscale(n: int) -> int {
    n / (ONE as int)
}

/// The fixed-point product of `a` and `b`, rounded down and saturated.
pub open spec fn fixed_product(a: int, b: int) -> int {
    clamp_i32(unscale(a * b))
}

/// The largest magnitude that the scaled intermediate values of this
/// library reach: three products of two `i32` values.
pub open spec fn wide_bound() -> int {
    0x1_0000_0000_0000_0000
}

/// Floor division by `ONE`.
pub fn unscale_wide(n: i128) -> (q: i128)
    requires
        -wide_bound() <= n <= wide_bound(),
    ensures
        q == unscale(n as int),
        -wide_bound() <= q <= wide_bound(),
{
    let q: i128 = if n >= 0 {
        n / 65536
    } else {
        -((-n + 65535) / 65536)
    };
    assert(q == (n as int) / (ONE as int)) by {
        if n < 0 {
            let m = -n + 65535;
            assert(m / 65536 * 65536 <= m < m / 65536 * 65536 + 65536) by (nonlinear_arith)
                requires
                    m >= 0,
            ;
            assert((n as int) / 65536 * 65536 <= n < (n as int) / 65536 * 65536 + 65536)
                by (nonlinear_arith);
        }
    }
    q
}

/// Saturates a wide value into an `i32`.
pub fn saturate(n: i128) -> (r: i32)
    ensures
        r == clamp_i32(n as int),
{
    if n < i32::MIN as i128 {
        i32::MIN
    } else if n > i32::MAX as i128 {
        i32::MAX
    } else {
        n as i32
    }
}

/// The product of two `i32` values, widened.
pub fn wide_product(a: i32, b: i32) -> (r: i128)
    ensures
        r == a * b,
        -0x4000_0000_0000_0000 <= r <= 0x4000_0000_0000_0000,
{
    assert(-0x4000_0000_0000_0000 <= (a as int) * (b as int) <= 0x4000_0000_0000_0000)
        by (nonlinear_arith)
        requires
            i32::MIN <= a <= i32::MAX,
            i32::MIN <= b <= i32::MAX,
    ;
    (a as i128) * (b as i128)
}

/// Multiplies two fixed-point numbers, rounding down and saturating.
pub fn fixed_mul(a: i32, b: i32) -> (r: i32)
    ensures
        r == fixed_product(a as int, b as int),
{
    saturate(unscale_wide(wide_product(a, b)))
}

} // verus!
