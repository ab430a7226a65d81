//! The profile drop-down of the translation window, drawn with a modern frame.
use vstd::prelude::*;

verus! {

/// What is happening to a drop-down.
#[derive(Debug, Clone, Copy, PartialEq, Eq, Structural)]
pub struct ComboVisualState {
    pub focused: bool,
    pub dropped: bool,
    pub disabled: bool,
}

impl ComboVisualState {
    /// A drop-down that is closed, enabled and not focused.
    pub fn normal() -> (s: ComboVisualState)
        ensures
            !s.focused && !s.dropped && !s.disabled,
    {
        ComboVisualState { focused: false, dropped: false, disabled: false }
    }
}

/// A color given by its red, green and blue parts.
#[derive(Debug, Clone, Copy, PartialEq, Eq, Structural)]
pub struct RgbColor {
    pub r: u8,
    pub g: u8,
    pub b: u8,
}

impl RgbColor {
    /// The color with the given parts.
    pub fn new(r: u8, g: u8, b: u8) -> (c: RgbColor)
        ensures
            c == (RgbColor { r, g, b }),
    {
        RgbColor { r, g, b }
    }
}

/// The colors a drop-down is drawn with.
#[derive(Debug, Clone, Copy, PartialEq, Eq, Structural)]
pub struct ComboPalette {
    pub background: RgbColor,
    pub border: RgbColor,
    pub text: RgbColor,
}

/// A rectangle by its edges.
#[derive(Debug, Clone, Copy, PartialEq, Eq, Structural)]
pub struct ComboTextRect {
    pub left: i32,
    pub top: i32,
    pub right: i32,
    pub bottom: i32,
}

/// A rectangle by its corner and size.
#[derive(Debug, Clone, Copy, PartialEq, Eq, Structural)]
pub struct ComboRect {
    pub x: i32,
    pub y: i32,
    pub width: i32,
    pub height: i32,
}

/// The room between the drop-down and its frame.
pub const MODERN_COMBO_FRAME_GUTTER: i32 = 2;

/// The height of the closed drop-down's frame.
pub const MODERN_COMBO_VISIBLE_HEIGHT: i32 = 26;

/// The colors of a drop-down in the given state.
pub open spec fn combo_colors(state: ComboVisualState) -> ComboPalette {
    if state.disabled {
        ComboPalette {
            background: RgbColor { r: 243, g: 244, b: 246 },
            border: RgbColor { r: 209, g: 213, b: 219 },
            text: RgbColor { r: 156, g: 163, b: 175 },
        }
    } else {
        ComboPalette {
            background: RgbColor { r: 255, g: 255, b: 255 },
            border: if state.focused || state.dropped {
                RgbColor { r: 37, g: 99, b: 235 }
            } else {
                RgbColor { r: 203, g: 213, b: 225 }
            },
            text: RgbColor { r: 31, g: 41, b: 55 },
        }
    }
}

/// The colors of a drop-down: muted when disabled, else white with a blue
/// border while focused or open.
pub fn combo_palette(state: ComboVisualState) -> (p: ComboPalette)
    ensures
        p == combo_colors(state),
{
    if state.disabled {
        return ComboPalette {
            background: RgbColor::new(243, 244, 246),
            border: RgbColor::new(209, 213, 219),
            text: RgbColor::new(156, 163, 175),
        };
    }
    ComboPalette {
        background: RgbColor::new(255, 255, 255),
        border: if state.focused || state.dropped {
            RgbColor::new(37, 99, 235)
        } else {
            RgbColor::new(203, 213, 225)
        },
        text: RgbColor::new(31, 41, 55),
    }
}

/// The control is the profile drop-down, which the application frames.
pub fn is_modern_combo(id: usize) -> (r: bool)
    ensures
        r == (id == 2106),
{
    id == 2106
}

/// The control keeps the border that Windows draws.
pub fn combo_uses_native_border(id: usize) -> (r: bool)
    ensures
        r == (id != 2106),
{
    !is_modern_combo(id)
}

/// The frame drawn around a drop-down whose closed part has the given edges:
/// a gutter wider on each side and as high as the visible part.
pub fn modern_combo_frame_rect(left: i32, top: i32, right: i32, _bottom: i32) -> (r: ComboTextRect)
    requires
        left >= i32::MIN + MODERN_COMBO_FRAME_GUTTER,
        top >= i32::MIN + MODERN_COMBO_FRAME_GUTTER,
        right <= i32::MAX - MODERN_COMBO_FRAME_GUTTER,
        top <= i32::MAX - MODERN_COMBO_VISIBLE_HEIGHT,
    ensures
        r.left == left - MODERN_COMBO_FRAME_GUTTER,
        r.top == top - MODERN_COMBO_FRAME_GUTTER,
        r.right == right + MODERN_COMBO_FRAME_GUTTER,
        r.bottom == top - MODERN_COMBO_FRAME_GUTTER + MODERN_COMBO_VISIBLE_HEIGHT,
{
    ComboTextRect {
        left: left - MODERN_COMBO_FRAME_GUTTER,
        top: top - MODERN_COMBO_FRAME_GUTTER,
        right: right + MODERN_COMBO_FRAME_GUTTER,
        bottom: top - MODERN_COMBO_FRAME_GUTTER + MODERN_COMBO_VISIBLE_HEIGHT,
    }
}

/// Where the drop-down itself goes when it is given the rectangle `x, y,
/// width, height`: ours moves inside its frame by the gutter and narrows by
/// twice the gutter (to no less than 1); others keep the rectangle.
pub fn modern_combo_child_rect(id: usize, x: i32, y: i32, width: i32, height: i32) -> (r: ComboRect)
    requires
        id == 2106 ==> x <= i32::MAX - MODERN_COMBO_FRAME_GUTTER && y <= i32::MAX
            - MODERN_COMBO_FRAME_GUTTER && width >= i32::MIN + 2 * MODERN_COMBO_FRAME_GUTTER,
    ensures
        id == 2106 ==> r == (ComboRect {
            x: (x + MODERN_COMBO_FRAME_GUTTER) as i32,
            y: (y + MODERN_COMBO_FRAME_GUTTER) as i32,
            width: if width - 2 * MODERN_COMBO_FRAME_GUTTER >= 1 {
                (width - 2 * MODERN_COMBO_FRAME_GUTTER) as i32
            } else {
                1
            },
            height,
        }),
        id != 2106 ==> r == (ComboRect { x, y, width, height }),
{
    if is_modern_combo(id) {
        let inner: i32 = width - MODERN_COMBO_FRAME_GUTTER * 2;
        return ComboRect {
            x: x + MODERN_COMBO_FRAME_GUTTER,
            y: y + MODERN_COMBO_FRAME_GUTTER,
            width: if inner >= 1 {
                inner
            } else {
                1
            },
            height,
        };
    }
    ComboRect { x, y, width, height }
}

} // verus!
