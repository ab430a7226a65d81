//! The font of the user interface.
use vstd::prelude::*;

verus! {

const UI_FONT_POINT_SIZE: i32 = 11;

/// The point size of the interface font.
pub fn ui_font_point_size() -> (r: i32)
    ensures
        r == 11,
{
    UI_FONT_POINT_SIZE
}

/// The quotient of `a` by `b`, rounded toward zero.
pub open spec fn quotient_toward_zero(a: int, b: int) -> int {
    if a >= 0 {
        a / b
    } else {
        -((-a) / b)
    }
}

/// The logical font height for a point size on a screen of `dpi` dots per
/// inch: negative, so that it names the character height.
pub fn point_size_to_logical_height(point_size: i32, dpi: i32) -> (r: i32)
    requires
        i32::MIN <= point_size * dpi <= i32::MAX,
    ensures
        r == -quotient_toward_zero(point_size * dpi, 72),
{
    let product: i32 = point_size * dpi;
    let q: i32 = if product >= 0 {
        product / 72
    } else {
        {
        let m: i64 = -(product as i64);
        let q64: i64 = m / 72;
        -(q64 as i32)
    }
    };
    -q
}

} // verus!
