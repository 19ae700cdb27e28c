//! Screen points and rectangles in physical pixels, and DPI scaling.

use vstd::prelude::*;

verus! {

/// A point on the virtual screen.
#[derive(Clone, Copy, Debug, Default, Eq, PartialEq, Structural)]
pub struct Point {
    pub x: i32,
    pub y: i32,
}

/// A rectangle whose right and bottom edges are exclusive.
#[derive(Clone, Copy, Debug, Default, Eq, PartialEq, Structural)]
pub struct Rect {
    pub left: i32,
    pub top: i32,
    pub right: i32,
    pub bottom: i32,
}

/// Integer division rounding toward zero, as machine division does, for a
/// positive divisor.
pub open spec fn trunc_div(a: int, b: int) -> int {
    if a >= 0 {
        a / b
    } else {
        -((-a) / b)
    }
}

/// The larger of two values.
pub open spec fn max_int(a: int, b: int) -> int {
    if a >= b {
        a
    } else {
        b
    }
}

/// `v` limited to the closed interval from `lo` to `hi`.
pub open spec fn clamp_int(v: int, lo: int, hi: int) -> int {
    if v < lo {
        lo
    } else if v > hi {
        hi
    } else {
        v
    }
}

/// The larger of two coordinates.
pub fn max_i32(a: i32, b: i32) -> (r: i32)
    ensures
        r == max_int(a as int, b as int),
{
    if a >= b {
        a
    } else {
        b
    }
}

/// `v` limited to the closed interval from `lo` to `hi`.
pub fn clamp_i32(v: i32, lo: i32, hi: i32) -> (r: i32)
    requires
        lo <= hi,
    ensures
        r == clamp_int(v as int, lo as int, hi as int),
        lo <= r <= hi,
{
    if v < lo {
        lo
    } else if v > hi {
        hi
    } else {
        v
    }
}

/// `a - b`, saturating at the bounds of `i32`.
pub fn saturating_sub_i32(a: i32, b: i32) -> (r: i32)
    ensures
        r == clamp_int(a - b, i32::MIN as int, i32::MAX as int),
{
    let d = a as i64 - b as i64;
    if d < i32::MIN as i64 {
        i32::MIN
    } else if d > i32::MAX as i64 {
        i32::MAX
    } else {
        d as i32
    }
}

/// The value of a 96-DPI logical length at `dpi`.
pub open spec fn scaled(value: int, dpi: int) -> int {
    value * dpi / 96
}

/// Converts a 96-DPI logical length to physical pixels at `dpi`.
pub fn scale(value: i32, dpi: u32) -> (r: i32)
    requires
        0 <= value,
        value * dpi <= i32::MAX,
    ensures
        r == scaled(value as int, dpi as int),
{
    assert(0 <= value * dpi) by (nonlinear_arith)
        requires
            0 <= value,
            0 <= dpi,
    ;
    let product = value as i64 * dpi as i64;
    (product / 96) as i32
}

} // verus!
