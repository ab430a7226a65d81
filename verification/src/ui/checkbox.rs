//! The owner-drawn check box of the settings window.
pub use crate::ui::theme::RgbColor;
use crate::ui::theme::{
    color_border, color_disabled_border, color_disabled_surface, color_disabled_text,
    color_primary, color_primary_hover, color_primary_text, color_surface, color_surface_subtle,
    color_text,
};
use crate::ui::theme::{has_flag, ODS_CHECKED, ODS_DISABLED, ODS_FOCUS, ODS_HOTLIGHT};
use vstd::prelude::*;

verus! {

/// What is happening to a check box.
#[derive(Debug, Clone, Copy, PartialEq, Eq, Structural)]
pub struct CheckboxVisualState {
    pub checked: bool,
    pub hot: bool,
    pub disabled: bool,
    pub focused: bool,
}

impl CheckboxVisualState {
    /// An unchecked check box that is idle, enabled and not focused.
    pub fn normal() -> (s: CheckboxVisualState)
        ensures
            !s.checked && !s.hot && !s.disabled && !s.focused,
    {
        CheckboxVisualState { checked: false, hot: false, disabled: false, focused: false }
    }
}

/// The colors a check box is drawn with.
#[derive(Debug, Clone, Copy, PartialEq, Eq, Structural)]
pub struct CheckboxPalette {
    pub box_background: RgbColor,
    pub box_border: RgbColor,
    pub check: RgbColor,
    pub text: RgbColor,
}

/// Where the box of a check box is drawn, relative to the control.
#[derive(Debug, Clone, Copy, PartialEq, Eq, Structural)]
pub struct CheckboxBoxRect {
    pub left: i32,
    pub top: i32,
    pub right: i32,
    pub bottom: i32,
}

/// The side of the box.
pub const CHECKBOX_BOX_SIZE: i32 = 18;

/// The gap between the box and the label.
pub const CHECKBOX_TEXT_GAP: i32 = 8;

/// The colors of a check box in the given state.
pub open spec fn checkbox_colors(state: CheckboxVisualState) -> CheckboxPalette {
    if state.disabled {
        CheckboxPalette {
            box_background: color_disabled_surface(),
            box_border: color_disabled_border(),
            check: color_disabled_text(),
            text: color_disabled_text(),
        }
    } else if state.checked {
        let fill = if state.hot {
            color_primary_hover()
        } else {
            color_primary()
        };
        CheckboxPalette {
            box_background: fill,
            box_border: fill,
            check: color_primary_text(),
            text: color_text(),
        }
    } else {
        CheckboxPalette {
            box_background: if state.hot || state.focused {
                color_surface_subtle()
            } else {
                color_surface()
            },
            box_border: if state.hot || state.focused {
                color_primary()
            } else {
                color_border()
            },
            check: color_primary_text(),
            text: color_text(),
        }
    }
}

/// The colors of a check box: muted when disabled, filled with the accent
/// when checked, with an accent border when hot or focused.
pub fn checkbox_palette(state: CheckboxVisualState) -> (p: CheckboxPalette)
    ensures
        p == checkbox_colors(state),
{
    if state.disabled {
        return CheckboxPalette {
            box_background: color_disabled_surface(),
            box_border: color_disabled_border(),
            check: color_disabled_text(),
            text: color_disabled_text(),
        };
    }
    if state.checked {
        let fill = if state.hot {
            color_primary_hover()
        } else {
            color_primary()
        };
        return CheckboxPalette {
            box_background: fill,
            box_border: fill,
            check: color_primary_text(),
            text: color_text(),
        };
    }
    CheckboxPalette {
        box_background: if state.hot || state.focused {
            color_surface_subtle()
        } else {
            color_surface()
        },
        box_border: if state.hot || state.focused {
            color_primary()
        } else {
            color_border()
        },
        check: color_primary_text(),
        text: color_text(),
    }
}

/// The box of a check box of the given height: at the left edge, centred
/// vertically, never above the top.
pub fn checkbox_box_rect(control_height: i32) -> (r: CheckboxBoxRect)
    ensures
        r.left == 0,
        r.right == CHECKBOX_BOX_SIZE,
        r.top == (if control_height - CHECKBOX_BOX_SIZE >= 0 {
            (control_height - CHECKBOX_BOX_SIZE) / 2
        } else {
            0
        }),
        r.bottom == r.top + CHECKBOX_BOX_SIZE,
{
    let top: i32 = if control_height >= CHECKBOX_BOX_SIZE {
        (control_height - CHECKBOX_BOX_SIZE) / 2
    } else {
        0
    };
    CheckboxBoxRect { left: 0, top, right: CHECKBOX_BOX_SIZE, bottom: top + CHECKBOX_BOX_SIZE }
}

/// Where the label starts: after the box and a gap.
pub fn checkbox_text_left() -> (r: i32)
    ensures
        r == CHECKBOX_BOX_SIZE + CHECKBOX_TEXT_GAP,
{
    CHECKBOX_BOX_SIZE + CHECKBOX_TEXT_GAP
}

/// The control is the auto-start check box, which the application draws.
pub fn is_modern_checkbox(id: usize) -> (r: bool)
    ensures
        r == (id == 3117),
{
    id == 3117
}

/// The control keeps the border that Windows draws.
pub fn checkbox_uses_native_border(id: usize) -> (r: bool)
    ensures
        r == (id != 3117),
{
    !is_modern_checkbox(id)
}

/// The state of a check box after a click.
pub fn checkbox_toggled_state(checked: bool) -> (r: bool)
    ensures
        r == !checked,
{
    !checked
}

/// The state of a check box being drawn, from the owner-draw state flags,
/// the checked state the application keeps and whether the mouse is over
/// it.
pub fn checkbox_visual_state(item_state: u32, checked: bool, mouse_over: bool) -> (s: CheckboxVisualState)
    ensures
        s.checked == (checked || has_flag(item_state, ODS_CHECKED)),
        s.hot == (mouse_over || has_flag(item_state, ODS_HOTLIGHT)),
        s.disabled == has_flag(item_state, ODS_DISABLED),
        s.focused == has_flag(item_state, ODS_FOCUS),
{
    CheckboxVisualState {
        checked: checked || item_state & ODS_CHECKED != 0,
        hot: mouse_over || item_state & ODS_HOTLIGHT != 0,
        disabled: item_state & ODS_DISABLED != 0,
        focused: item_state & ODS_FOCUS != 0,
    }
}

} // verus!
