//! Colors and metrics shared by every control.
use vstd::prelude::*;

verus! {

/// A color given by its red, green and blue parts.
#[derive(Debug, Clone, Copy, PartialEq, Eq, Structural)]
pub struct RgbColor {
    pub r: u8,
    pub g: u8,
    pub b: u8,
}

impl RgbColor {
    /// The color with the given parts.
    pub fn new(r: u8, g: u8, b: u8) -> (c: RgbColor)
        ensures
            c == (RgbColor { r, g, b }),
    {
        RgbColor { r, g, b }
    }

    /// The color as a Windows `COLORREF` value: red in the low byte, then
    /// green, then blue.
    pub fn colorref_value(self) -> (v: u32)
        ensures
            v == self.r + self.g * 256 + self.b * 65536,
    {
        self.r as u32 + (self.g as u32) * 256 + (self.b as u32) * 65536
    }
}

/// The owner-draw state flag of a selected or pressed item.
pub const ODS_SELECTED: u32 = 0x0001;

/// The owner-draw state flag of a disabled item.
pub const ODS_DISABLED: u32 = 0x0004;

/// The owner-draw state flag of a checked item.
pub const ODS_CHECKED: u32 = 0x0008;

/// The owner-draw state flag of a focused item.
pub const ODS_FOCUS: u32 = 0x0010;

/// The owner-draw state flag of an item under the mouse.
pub const ODS_HOTLIGHT: u32 = 0x0040;

/// The flag is set in the owner-draw state.
pub open spec fn has_flag(item_state: u32, flag: u32) -> bool {
    item_state & flag != 0
}

/// The accent blue of primary actions.
#[verifier::allow_in_spec]
pub fn color_primary() -> RgbColor
    returns
        (RgbColor { r: 37, g: 99, b: 235 }),
{
    RgbColor { r: 37, g: 99, b: 235 }
}

/// The accent blue under the mouse.
#[verifier::allow_in_spec]
pub fn color_primary_hover() -> RgbColor
    returns
        (RgbColor { r: 30, g: 90, b: 224 }),
{
    RgbColor { r: 30, g: 90, b: 224 }
}

/// The accent blue while pressed.
#[verifier::allow_in_spec]
pub fn color_primary_pressed() -> RgbColor
    returns
        (RgbColor { r: 29, g: 78, b: 216 }),
{
    RgbColor { r: 29, g: 78, b: 216 }
}

/// Text on the accent blue.
#[verifier::allow_in_spec]
pub fn color_primary_text() -> RgbColor
    returns
        (RgbColor { r: 255, g: 255, b: 255 }),
{
    RgbColor { r: 255, g: 255, b: 255 }
}

/// The red of destructive actions.
#[verifier::allow_in_spec]
pub fn color_danger() -> RgbColor
    returns
        (RgbColor { r: 220, g: 38, b: 38 }),
{
    RgbColor { r: 220, g: 38, b: 38 }
}

/// The red of destructive actions under the mouse.
#[verifier::allow_in_spec]
pub fn color_danger_hover() -> RgbColor
    returns
        (RgbColor { r: 185, g: 28, b: 28 }),
{
    RgbColor { r: 185, g: 28, b: 28 }
}

/// A faint red surface.
#[verifier::allow_in_spec]
pub fn color_danger_soft() -> RgbColor
    returns
        (RgbColor { r: 254, g: 242, b: 242 }),
{
    RgbColor { r: 254, g: 242, b: 242 }
}

/// A faint blue surface for focus and selection.
#[verifier::allow_in_spec]
pub fn color_focus_soft() -> RgbColor
    returns
        (RgbColor { r: 219, g: 234, b: 254 }),
{
    RgbColor { r: 219, g: 234, b: 254 }
}

/// Text on the faint blue surface.
#[verifier::allow_in_spec]
pub fn color_focus_text() -> RgbColor
    returns
        (RgbColor { r: 30, g: 64, b: 175 }),
{
    RgbColor { r: 30, g: 64, b: 175 }
}

/// Ordinary text.
#[verifier::allow_in_spec]
pub fn color_text() -> RgbColor
    returns
        (RgbColor { r: 31, g: 41, b: 55 }),
{
    RgbColor { r: 31, g: 41, b: 55 }
}

/// The white surface of controls.
#[verifier::allow_in_spec]
pub fn color_surface() -> RgbColor
    returns
        (RgbColor { r: 255, g: 255, b: 255 }),
{
    RgbColor { r: 255, g: 255, b: 255 }
}

/// A slightly grey surface.
#[verifier::allow_in_spec]
pub fn color_surface_subtle() -> RgbColor
    returns
        (RgbColor { r: 248, g: 250, b: 252 }),
{
    RgbColor { r: 248, g: 250, b: 252 }
}

/// The surface under the mouse.
#[verifier::allow_in_spec]
pub fn color_surface_hover() -> RgbColor
    returns
        (RgbColor { r: 241, g: 245, b: 249 }),
{
    RgbColor { r: 241, g: 245, b: 249 }
}

/// The surface while pressed.
#[verifier::allow_in_spec]
pub fn color_surface_pressed() -> RgbColor
    returns
        (RgbColor { r: 226, g: 232, b: 240 }),
{
    RgbColor { r: 226, g: 232, b: 240 }
}

/// The ordinary border.
#[verifier::allow_in_spec]
pub fn color_border() -> RgbColor
    returns
        (RgbColor { r: 203, g: 213, b: 225 }),
{
    RgbColor { r: 203, g: 213, b: 225 }
}

/// The border under the mouse.
#[verifier::allow_in_spec]
pub fn color_border_strong() -> RgbColor
    returns
        (RgbColor { r: 148, g: 163, b: 184 }),
{
    RgbColor { r: 148, g: 163, b: 184 }
}

/// The surface of a disabled control.
#[verifier::allow_in_spec]
pub fn color_disabled_surface() -> RgbColor
    returns
        (RgbColor { r: 243, g: 244, b: 246 }),
{
    RgbColor { r: 243, g: 244, b: 246 }
}

/// The border of a disabled control.
#[verifier::allow_in_spec]
pub fn color_disabled_border() -> RgbColor
    returns
        (RgbColor { r: 209, g: 213, b: 219 }),
{
    RgbColor { r: 209, g: 213, b: 219 }
}

/// The text of a disabled control.
#[verifier::allow_in_spec]
pub fn color_disabled_text() -> RgbColor
    returns
        (RgbColor { r: 156, g: 163, b: 175 }),
{
    RgbColor { r: 156, g: 163, b: 175 }
}

/// The height of an ordinary control.
pub const CONTROL_HEIGHT: i32 = 34;

/// The height of a primary button.
pub const PRIMARY_BUTTON_HEIGHT: i32 = 36;

/// The narrowest a button gets.
pub const BUTTON_MIN_WIDTH: i32 = 72;

/// The height of a list item.
pub const LIST_ITEM_HEIGHT: u32 = 36;

/// The corner radius of controls.
pub const CONTROL_RADIUS: i32 = 7;

/// How far inside a control its focus ring is drawn.
pub const FOCUS_RING_INSET: i32 = 2;

/// The small spacing.
pub const SPACE_SM: i32 = 8;

/// The medium spacing.
pub const SPACE_MD: i32 = 12;

/// The dots per inch at which metrics are given.
pub const BASE_DPI: u32 = 96;

/// The quotient of `a` by `b`, rounded toward zero.
pub open spec fn div_toward_zero(a: int, b: int) -> int {
    if a >= 0 {
        a / b
    } else {
        -((-a) / b)
    }
}

/// A metric given at 96 dpi, scaled to `dpi` and rounded half up (a dpi of
/// 0 counts as 1).
pub open spec fn scaled_metric(value: i32, dpi: u32) -> int {
    let d: int = if dpi == 0 {
        1
    } else {
        dpi as int
    };
    div_toward_zero(value * d + 48, 96)
}

/// `value`, given at 96 dpi, for a screen of `dpi` dots per inch, rounded to
/// the nearest pixel; a result outside `i32` wraps as `as` does.
pub fn scale_for_dpi(value: i32, dpi: u32) -> (r: i32)
    ensures
        r == scaled_metric(value, dpi) as i32,
{
    let d: i64 = if dpi == 0 {
        1
    } else {
        dpi as i64
    };
    let v: i64 = value as i64;
    assert(-0x8000_0000 * 0xffff_ffff <= v * d <= 0x7fff_ffff * 0xffff_ffff) by (nonlinear_arith)
        requires
            -0x8000_0000 <= v <= 0x7fff_ffff,
            1 <= d <= 0xffff_ffff,
    ;
    let n: i64 = v * d + 48;
    let q: i64 = if n >= 0 {
        n / 96
    } else {
        -((-n) / 96)
    };
    q as i32
}

} // verus!
