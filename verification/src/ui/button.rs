//! Owner-drawn push buttons: their roles and colors.
pub use crate::ui::theme::RgbColor;
use crate::ui::theme::{
    color_border, color_border_strong, color_danger, color_danger_hover, color_danger_soft,
    color_disabled_border, color_disabled_surface, color_disabled_text, color_focus_soft,
    color_primary, color_primary_hover, color_primary_pressed, color_primary_text, color_surface,
    color_surface_hover, color_surface_pressed, color_text,
};
use crate::ui::theme::{has_flag, ODS_DISABLED, ODS_FOCUS, ODS_HOTLIGHT, ODS_SELECTED};
use vstd::prelude::*;

verus! {

/// What a button stands for, which decides its colors.
#[derive(Debug, Clone, Copy, PartialEq, Eq, Structural)]
pub enum ButtonRole {
    Primary,
    Secondary,
    Danger,
    /// A borderless button that shows a border only while focused.
    Plain,
}

/// What is happening to a button.
#[derive(Debug, Clone, Copy, PartialEq, Eq, Structural)]
pub struct ButtonVisualState {
    pub pressed: bool,
    pub hot: bool,
    pub disabled: bool,
    pub focused: bool,
}

impl ButtonVisualState {
    /// A button that is idle, enabled and not focused.
    pub fn normal() -> (s: ButtonVisualState)
        ensures
            !s.pressed && !s.hot && !s.disabled && !s.focused,
    {
        ButtonVisualState { pressed: false, hot: false, disabled: false, focused: false }
    }
}

/// The colors a button is drawn with.
#[derive(Debug, Clone, Copy, PartialEq, Eq, Structural)]
pub struct ButtonPalette {
    pub background: RgbColor,
    pub border: RgbColor,
    pub text: RgbColor,
    pub focus: RgbColor,
}

/// The colors of a button with the given role in the given state.
pub open spec fn button_colors(role: ButtonRole, state: ButtonVisualState) -> ButtonPalette {
    if state.disabled {
        ButtonPalette {
            background: color_disabled_surface(),
            border: color_disabled_border(),
            text: color_disabled_text(),
            focus: color_primary(),
        }
    } else {
        match role {
            ButtonRole::Primary => {
                let background = if state.pressed {
                    color_primary_pressed()
                } else if state.hot {
                    color_primary_hover()
                } else {
                    color_primary()
                };
                ButtonPalette {
                    background,
                    border: background,
                    text: color_primary_text(),
                    focus: color_focus_soft(),
                }
            },
            ButtonRole::Secondary => ButtonPalette {
                background: if state.pressed {
                    color_surface_pressed()
                } else if state.hot {
                    color_surface_hover()
                } else {
                    color_surface()
                },
                border: if state.hot || state.pressed {
                    color_border_strong()
                } else {
                    color_border()
                },
                text: color_text(),
                focus: color_primary(),
            },
            ButtonRole::Danger => ButtonPalette {
                background: if state.pressed || state.hot {
                    color_danger_soft()
                } else {
                    color_surface()
                },
                border: if state.hot || state.pressed {
                    color_danger_hover()
                } else {
                    color_border()
                },
                text: color_danger(),
                focus: color_danger(),
            },
            ButtonRole::Plain => ButtonPalette {
                background: if state.pressed {
                    color_surface_pressed()
                } else if state.hot {
                    color_surface_hover()
                } else {
                    color_surface()
                },
                border: if state.focused {
                    color_primary()
                } else {
                    color_surface()
                },
                text: color_text(),
                focus: color_primary(),
            },
        }
    }
}

/// The colors of a button with the given role in the given state: muted
/// when disabled, else by role, darker while hot and darker still while
/// pressed.
pub fn button_palette(role: ButtonRole, state: ButtonVisualState) -> (p: ButtonPalette)
    ensures
        p == button_colors(role, state),
{
    if state.disabled {
        return ButtonPalette {
            background: color_disabled_surface(),
            border: color_disabled_border(),
            text: color_disabled_text(),
            focus: color_primary(),
        };
    }
    match role {
        ButtonRole::Primary => {
            let background = if state.pressed {
                color_primary_pressed()
            } else if state.hot {
                color_primary_hover()
            } else {
                color_primary()
            };
            ButtonPalette {
                background,
                border: background,
                text: color_primary_text(),
                focus: color_focus_soft(),
            }
        },
        ButtonRole::Secondary => ButtonPalette {
            background: if state.pressed {
                color_surface_pressed()
            } else if state.hot {
                color_surface_hover()
            } else {
                color_surface()
            },
            border: if state.hot || state.pressed {
                color_border_strong()
            } else {
                color_border()
            },
            text: color_text(),
            focus: color_primary(),
        },
        ButtonRole::Danger => ButtonPalette {
            background: if state.pressed || state.hot {
                color_danger_soft()
            } else {
                color_surface()
            },
            border: if state.hot || state.pressed {
                color_danger_hover()
            } else {
                color_border()
            },
            text: color_danger(),
            focus: color_danger(),
        },
        ButtonRole::Plain => ButtonPalette {
            background: if state.pressed {
                color_surface_pressed()
            } else if state.hot {
                color_surface_hover()
            } else {
                color_surface()
            },
            border: if state.focused {
                color_primary()
            } else {
                color_surface()
            },
            text: color_text(),
            focus: color_primary(),
        },
    }
}

/// The role of the button with the given control id, if it is one of ours.
pub open spec fn role_of_control(id: usize) -> Option<ButtonRole> {
    if id == 2001 || id == 3004 {
        Some(ButtonRole::Primary)
    } else if id == 3002 {
        Some(ButtonRole::Danger)
    } else if id == 2002 || id == 3001 || id == 3003 || id == 3005 || id == 3116 || id == 3119
        || id == 3121 {
        Some(ButtonRole::Secondary)
    } else {
        None
    }
}

/// The control is a button that the application draws itself.
pub fn is_owner_draw_button(id: usize) -> (r: bool)
    ensures
        r == role_of_control(id).is_some(),
{
    button_role_for_control(id).is_some()
}

/// The control keeps the border that Windows draws.
pub fn button_uses_native_border(id: usize) -> (r: bool)
    ensures
        r == role_of_control(id).is_none(),
{
    !is_owner_draw_button(id)
}

/// A focus ring is drawn inside the button.
pub fn button_draws_inner_focus_ring(state: ButtonVisualState) -> (r: bool)
    ensures
        r == (state.focused && !state.disabled),
{
    state.focused && !state.disabled
}

/// The role of the button with the given control id: the translate and save
/// buttons are primary, delete is dangerous, the others of ours secondary.
pub fn button_role_for_control(id: usize) -> (r: Option<ButtonRole>)
    ensures
        r == role_of_control(id),
{
    match id {
        2001 | 3004 => Some(ButtonRole::Primary),
        3002 => Some(ButtonRole::Danger),
        2002 | 3001 | 3003 | 3005 | 3116 | 3119 | 3121 => Some(ButtonRole::Secondary),
        _ => None,
    }
}

/// The state of a button being drawn, from the owner-draw state flags and
/// whether the mouse is over it: pressed when selected, hot when the mouse
/// is over it or the flags say so.
pub fn button_visual_state(item_state: u32, mouse_over: bool) -> (s: ButtonVisualState)
    ensures
        s.pressed == has_flag(item_state, ODS_SELECTED),
        s.hot == (mouse_over || has_flag(item_state, ODS_HOTLIGHT)),
        s.disabled == has_flag(item_state, ODS_DISABLED),
        s.focused == has_flag(item_state, ODS_FOCUS),
{
    ButtonVisualState {
        pressed: item_state & ODS_SELECTED != 0,
        hot: mouse_over || item_state & ODS_HOTLIGHT != 0,
        disabled: item_state & ODS_DISABLED != 0,
        focused: item_state & ODS_FOCUS != 0,
    }
}

} // verus!
