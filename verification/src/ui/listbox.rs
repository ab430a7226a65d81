//! The profile list of the settings window, drawn with a modern frame.
pub use crate::ui::theme::RgbColor;
use crate::ui::theme::{
    color_border, color_disabled_border, color_disabled_surface, color_disabled_text,
    color_focus_soft, color_focus_text, color_primary, color_surface, color_surface_hover,
    color_text, CONTROL_RADIUS, LIST_ITEM_HEIGHT,
};
use crate::ui::theme::{has_flag, ODS_DISABLED, ODS_SELECTED};
use vstd::prelude::*;

verus! {

/// What is happening to a list.
#[derive(Debug, Clone, Copy, PartialEq, Eq, Structural)]
pub struct ListBoxVisualState {
    pub focused: bool,
    pub disabled: bool,
}

impl ListBoxVisualState {
    /// A list that is enabled and not focused.
    pub fn normal() -> (s: ListBoxVisualState)
        ensures
            !s.focused && !s.disabled,
    {
        ListBoxVisualState { focused: false, disabled: false }
    }
}

/// What is happening to an item of a list.
#[derive(Debug, Clone, Copy, PartialEq, Eq, Structural)]
pub struct ListBoxItemVisualState {
    pub selected: bool,
    pub hot: bool,
    pub disabled: bool,
}

impl ListBoxItemVisualState {
    /// An item that is not selected, not under the mouse and enabled.
    pub fn normal() -> (s: ListBoxItemVisualState)
        ensures
            !s.selected && !s.hot && !s.disabled,
    {
        ListBoxItemVisualState { selected: false, hot: false, disabled: false }
    }
}

/// The colors a list is drawn with.
#[derive(Debug, Clone, Copy, PartialEq, Eq, Structural)]
pub struct ListBoxPalette {
    pub background: RgbColor,
    pub border: RgbColor,
    pub text: RgbColor,
}

/// The colors an item is drawn with.
#[derive(Debug, Clone, Copy, PartialEq, Eq, Structural)]
pub struct ListBoxItemPalette {
    pub background: RgbColor,
    pub text: RgbColor,
}

/// A rectangle by its edges.
#[derive(Debug, Clone, Copy, PartialEq, Eq, Structural)]
pub struct ListBoxTextRect {
    pub left: i32,
    pub top: i32,
    pub right: i32,
    pub bottom: i32,
}

/// The height of an item.
pub const MODERN_LISTBOX_ITEM_HEIGHT: u32 = LIST_ITEM_HEIGHT;

/// The left and right padding of an item's text.
pub const MODERN_LISTBOX_TEXT_PADDING: i32 = 10;

/// The corner radius of the list's frame.
pub const MODERN_LISTBOX_RADIUS: i32 = CONTROL_RADIUS;

/// The colors of a list in the given state.
pub open spec fn listbox_colors(state: ListBoxVisualState) -> ListBoxPalette {
    if state.disabled {
        ListBoxPalette {
            background: color_disabled_surface(),
            border: color_disabled_border(),
            text: color_disabled_text(),
        }
    } else {
        ListBoxPalette {
            background: color_surface(),
            border: if state.focused {
                color_primary()
            } else {
                color_border()
            },
            text: color_text(),
        }
    }
}

/// The colors of a list: muted when disabled, else white with a blue border
/// while focused.
pub fn listbox_palette(state: ListBoxVisualState) -> (p: ListBoxPalette)
    ensures
        p == listbox_colors(state),
{
    if state.disabled {
        return ListBoxPalette {
            background: color_disabled_surface(),
            border: color_disabled_border(),
            text: color_disabled_text(),
        };
    }
    ListBoxPalette {
        background: color_surface(),
        border: if state.focused {
            color_primary()
        } else {
            color_border()
        },
        text: color_text(),
    }
}

/// The colors of an item in the given state.
pub open spec fn listbox_item_colors(state: ListBoxItemVisualState) -> ListBoxItemPalette {
    if state.disabled {
        ListBoxItemPalette { background: color_disabled_surface(), text: color_disabled_text() }
    } else if state.selected {
        ListBoxItemPalette { background: color_focus_soft(), text: color_focus_text() }
    } else if state.hot {
        ListBoxItemPalette { background: color_surface_hover(), text: color_text() }
    } else {
        ListBoxItemPalette { background: color_surface(), text: color_text() }
    }
}

/// The colors of an item: muted when disabled, light blue when selected (as
/// in the drop-down), grey under the mouse, else white.
pub fn listbox_item_palette(state: ListBoxItemVisualState) -> (p: ListBoxItemPalette)
    ensures
        p == listbox_item_colors(state),
{
    if state.disabled {
        return ListBoxItemPalette {
            background: color_disabled_surface(),
            text: color_disabled_text(),
        };
    }
    if state.selected {
        ListBoxItemPalette { background: color_focus_soft(), text: color_focus_text() }
    } else if state.hot {
        ListBoxItemPalette { background: color_surface_hover(), text: color_text() }
    } else {
        ListBoxItemPalette { background: color_surface(), text: color_text() }
    }
}

/// The control is the profile list, which the application draws.
pub fn is_modern_listbox(id: usize) -> (r: bool)
    ensures
        r == (id == 3101),
{
    id == 3101
}

/// The control keeps the border that Windows draws.
pub fn listbox_uses_native_border(id: usize) -> (r: bool)
    ensures
        r == (id != 3101),
{
    !is_modern_listbox(id)
}

/// Where the text of an item with the given rectangle goes: padded on the
/// left and right, never inverted.
pub fn modern_listbox_text_rect(rect: ListBoxTextRect) -> (r: ListBoxTextRect)
    requires
        rect.left <= i32::MAX - MODERN_LISTBOX_TEXT_PADDING,
        rect.right >= i32::MIN + MODERN_LISTBOX_TEXT_PADDING,
    ensures
        r.left == rect.left + MODERN_LISTBOX_TEXT_PADDING,
        r.top == rect.top,
        r.right == (if rect.right - MODERN_LISTBOX_TEXT_PADDING >= rect.left
            + MODERN_LISTBOX_TEXT_PADDING {
            rect.right - MODERN_LISTBOX_TEXT_PADDING
        } else {
            rect.left + MODERN_LISTBOX_TEXT_PADDING
        }),
        r.bottom == rect.bottom,
{
    let left: i32 = rect.left + MODERN_LISTBOX_TEXT_PADDING;
    let right: i32 = rect.right - MODERN_LISTBOX_TEXT_PADDING;
    ListBoxTextRect {
        left,
        top: rect.top,
        right: if right >= left {
            right
        } else {
            left
        },
        bottom: rect.bottom,
    }
}

/// The state of a list item being drawn, from the owner-draw state flags
/// and the item the mouse is over.
pub fn listbox_item_visual_state(item_state: u32, item: usize, hot_item: Option<usize>) -> (s: ListBoxItemVisualState)
    ensures
        s.selected == has_flag(item_state, ODS_SELECTED),
        s.hot == (hot_item == Some(item)),
        s.disabled == has_flag(item_state, ODS_DISABLED),
{
    ListBoxItemVisualState {
        selected: item_state & ODS_SELECTED != 0,
        hot: match hot_item {
            Some(h) => h == item,
            None => false,
        },
        disabled: item_state & ODS_DISABLED != 0,
    }
}

} // verus!
