//! Text fields drawn with a modern frame.
pub use crate::ui::theme::RgbColor;
use crate::ui::theme::{
    color_border, color_border_strong, color_disabled_border, color_disabled_surface,
    color_disabled_text, color_primary, color_surface, color_surface_subtle, color_text,
};
use vstd::prelude::*;

verus! {

/// The two kinds of text field.
#[derive(Debug, Clone, Copy, PartialEq, Eq, Structural)]
pub enum EditKind {
    SingleLine,
    MultiLine,
}

/// What is happening to a text field.
#[derive(Debug, Clone, Copy, PartialEq, Eq, Structural)]
pub struct EditVisualState {
    pub focused: bool,
    pub hot: bool,
    pub readonly: bool,
    pub disabled: bool,
}

impl EditVisualState {
    /// A text field that is idle, writable, enabled and not focused.
    pub fn normal() -> (s: EditVisualState)
        ensures
            !s.focused && !s.hot && !s.readonly && !s.disabled,
    {
        EditVisualState { focused: false, hot: false, readonly: false, disabled: false }
    }
}

/// The colors a text field is drawn with.
#[derive(Debug, Clone, Copy, PartialEq, Eq, Structural)]
pub struct EditPalette {
    pub background: RgbColor,
    pub border: RgbColor,
    pub text: RgbColor,
}

/// A rectangle by its corner and size.
#[derive(Debug, Clone, Copy, PartialEq, Eq, Structural)]
pub struct EditRect {
    pub x: i32,
    pub y: i32,
    pub width: i32,
    pub height: i32,
}

/// A rectangle by its edges.
#[derive(Debug, Clone, Copy, PartialEq, Eq, Structural)]
pub struct EditTextRect {
    pub left: i32,
    pub top: i32,
    pub right: i32,
    pub bottom: i32,
}

/// Which window paints the frame of a text field.
#[derive(Debug, Clone, Copy, PartialEq, Eq, Structural)]
pub enum EditBorderPaintTarget {
    ParentFrame,
}

/// The room between a text field and its frame.
pub const EDIT_FRAME_GUTTER: i32 = 4;

/// The left and right padding of the text in a multi-line field.
pub const MULTILINE_EDIT_HORIZONTAL_PADDING: i32 = 8;

/// The top and bottom padding of the text in a multi-line field.
pub const MULTILINE_EDIT_VERTICAL_PADDING: i32 = 6;

/// The frame of a text field is painted by its parent window.
pub fn edit_border_paint_target() -> (r: EditBorderPaintTarget)
    ensures
        r == EditBorderPaintTarget::ParentFrame,
{
    EditBorderPaintTarget::ParentFrame
}

/// The colors of a text field in the given state.
pub open spec fn edit_colors(state: EditVisualState) -> EditPalette {
    if state.disabled {
        EditPalette {
            background: color_disabled_surface(),
            border: color_disabled_border(),
            text: color_disabled_text(),
        }
    } else {
        EditPalette {
            background: if state.readonly {
                color_surface_subtle()
            } else {
                color_surface()
            },
            border: if state.focused {
                color_primary()
            } else if state.hot {
                color_border_strong()
            } else {
                color_border()
            },
            text: color_text(),
        }
    }
}

/// The colors of a text field: muted when disabled, grey when read-only,
/// with a blue border while focused and a darker one under the mouse.
pub fn edit_palette(state: EditVisualState) -> (p: EditPalette)
    ensures
        p == edit_colors(state),
{
    if state.disabled {
        return EditPalette {
            background: color_disabled_surface(),
            border: color_disabled_border(),
            text: color_disabled_text(),
        };
    }
    let background = if state.readonly {
        color_surface_subtle()
    } else {
        color_surface()
    };
    EditPalette {
        background,
        border: if state.focused {
            color_primary()
        } else if state.hot {
            color_border_strong()
        } else {
            color_border()
        },
        text: color_text(),
    }
}

/// The kind of the text field with the given control id, if it is one of
/// ours.
pub open spec fn edit_kind_of(id: usize) -> Option<EditKind> {
    if id == 2101 || id == 2102 {
        Some(EditKind::MultiLine)
    } else if id == 3102 || id == 3104 || id == 3105 || id == 3106 || id == 3107 || id == 3108 {
        Some(EditKind::SingleLine)
    } else {
        None
    }
}

/// The kind of a text field: the two of the translation window are
/// multi-line, those of the settings window single-line.
pub fn edit_kind_for_control(id: usize) -> (r: Option<EditKind>)
    ensures
        r == edit_kind_of(id),
{
    match id {
        2101 | 2102 => Some(EditKind::MultiLine),
        3102 | 3104 | 3105 | 3106 | 3107 | 3108 => Some(EditKind::SingleLine),
        _ => None,
    }
}

/// The control is a text field that the application frames.
pub fn is_modern_edit(id: usize) -> (r: bool)
    ensures
        r == edit_kind_of(id).is_some(),
{
    edit_kind_for_control(id).is_some()
}

/// The control keeps the border that Windows draws.
pub fn edit_uses_native_border(id: usize) -> (r: bool)
    ensures
        r == edit_kind_of(id).is_none(),
{
    !is_modern_edit(id)
}

/// Asking a text field for its colors does not repaint its frame.
pub fn modern_edit_color_query_invalidates_border() -> (r: bool)
    ensures
        !r,
{
    false
}

/// The distance from `last` to `current` on a tick counter that wraps.
pub open spec fn ticks_since(last: u32, current: u32) -> int {
    if current >= last {
        current - last
    } else {
        current + 0x1_0000_0000 - last
    }
}

/// A click selects all of a single-line field when it comes within the
/// double-click time of a double click (the tick counter may have wrapped).
pub fn single_line_third_click_selects_all(
    last_double_click_time: Option<u32>,
    current_time: u32,
    double_click_time: u32,
) -> (r: bool)
    ensures
        r == (last_double_click_time matches Some(last) && ticks_since(last, current_time)
            <= double_click_time),
{
    match last_double_click_time {
        Some(last) => current_time.wrapping_sub(last) <= double_click_time,
        None => false,
    }
}

/// Where a framed text field goes inside the rectangle `x, y, width, height`:
/// in by the gutter on each side, no smaller than 1 by 1.
pub fn modern_edit_child_rect(x: i32, y: i32, width: i32, height: i32) -> (r: EditRect)
    requires
        x <= i32::MAX - EDIT_FRAME_GUTTER,
        y <= i32::MAX - EDIT_FRAME_GUTTER,
        width >= i32::MIN + 2 * EDIT_FRAME_GUTTER,
        height >= i32::MIN + 2 * EDIT_FRAME_GUTTER,
    ensures
        r.x == x + EDIT_FRAME_GUTTER,
        r.y == y + EDIT_FRAME_GUTTER,
        r.width == (if width - 2 * EDIT_FRAME_GUTTER >= 1 {
            width - 2 * EDIT_FRAME_GUTTER
        } else {
            1
        }),
        r.height == (if height - 2 * EDIT_FRAME_GUTTER >= 1 {
            height - 2 * EDIT_FRAME_GUTTER
        } else {
            1
        }),
{
    let inner_width: i32 = width - EDIT_FRAME_GUTTER * 2;
    let inner_height: i32 = height - EDIT_FRAME_GUTTER * 2;
    EditRect {
        x: x + EDIT_FRAME_GUTTER,
        y: y + EDIT_FRAME_GUTTER,
        width: if inner_width >= 1 {
            inner_width
        } else {
            1
        },
        height: if inner_height >= 1 {
            inner_height
        } else {
            1
        },
    }
}

/// The frame drawn around a text field with the given edges: a gutter wider
/// on each side.
pub fn modern_edit_frame_rect(left: i32, top: i32, right: i32, bottom: i32) -> (r: EditTextRect)
    requires
        left >= i32::MIN + EDIT_FRAME_GUTTER,
        top >= i32::MIN + EDIT_FRAME_GUTTER,
        right <= i32::MAX - EDIT_FRAME_GUTTER,
        bottom <= i32::MAX - EDIT_FRAME_GUTTER,
    ensures
        r.left == left - EDIT_FRAME_GUTTER,
        r.top == top - EDIT_FRAME_GUTTER,
        r.right == right + EDIT_FRAME_GUTTER,
        r.bottom == bottom + EDIT_FRAME_GUTTER,
{
    EditTextRect {
        left: left - EDIT_FRAME_GUTTER,
        top: top - EDIT_FRAME_GUTTER,
        right: right + EDIT_FRAME_GUTTER,
        bottom: bottom + EDIT_FRAME_GUTTER,
    }
}

/// The text area inside a multi-line field of the given size: padded on
/// every side, never inverted.
pub fn multiline_edit_text_rect(width: i32, height: i32) -> (r: EditTextRect)
    requires
        width >= i32::MIN + MULTILINE_EDIT_HORIZONTAL_PADDING,
        height >= i32::MIN + MULTILINE_EDIT_VERTICAL_PADDING,
    ensures
        r.left == MULTILINE_EDIT_HORIZONTAL_PADDING,
        r.top == MULTILINE_EDIT_VERTICAL_PADDING,
        r.right == (if width - MULTILINE_EDIT_HORIZONTAL_PADDING >= MULTILINE_EDIT_HORIZONTAL_PADDING {
            width - MULTILINE_EDIT_HORIZONTAL_PADDING
        } else {
            MULTILINE_EDIT_HORIZONTAL_PADDING as int
        }),
        r.bottom == (if height - MULTILINE_EDIT_VERTICAL_PADDING >= MULTILINE_EDIT_VERTICAL_PADDING {
            height - MULTILINE_EDIT_VERTICAL_PADDING
        } else {
            MULTILINE_EDIT_VERTICAL_PADDING as int
        }),
{
    let right: i32 = width - MULTILINE_EDIT_HORIZONTAL_PADDING;
    let bottom: i32 = height - MULTILINE_EDIT_VERTICAL_PADDING;
    EditTextRect {
        left: MULTILINE_EDIT_HORIZONTAL_PADDING,
        top: MULTILINE_EDIT_VERTICAL_PADDING,
        right: if right >= MULTILINE_EDIT_HORIZONTAL_PADDING {
            right
        } else {
            MULTILINE_EDIT_HORIZONTAL_PADDING
        },
        bottom: if bottom >= MULTILINE_EDIT_VERTICAL_PADDING {
            bottom
        } else {
            MULTILINE_EDIT_VERTICAL_PADDING
        },
    }
}

} // verus!
