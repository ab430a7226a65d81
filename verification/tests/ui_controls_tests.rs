use ait::ui::button::button_visual_state;
use ait::ui::checkbox::checkbox_visual_state;
use ait::ui::listbox::listbox_item_visual_state;
use ait::ui::button::{
    button_draws_inner_focus_ring, button_palette, button_role_for_control,
    button_uses_native_border, is_owner_draw_button, ButtonRole, ButtonVisualState,
};
use ait::ui::checkbox::{
    checkbox_box_rect, checkbox_palette, checkbox_text_left, checkbox_toggled_state,
    checkbox_uses_native_border, is_modern_checkbox, CheckboxVisualState,
};
use ait::ui::combo::{
    combo_palette, combo_uses_native_border, is_modern_combo, modern_combo_child_rect,
    modern_combo_frame_rect, ComboVisualState,
};
use ait::ui::edit::{
    edit_border_paint_target, edit_kind_for_control, edit_palette, edit_uses_native_border,
    is_modern_edit, modern_edit_child_rect, modern_edit_color_query_invalidates_border,
    modern_edit_frame_rect, multiline_edit_text_rect, single_line_third_click_selects_all,
    EditBorderPaintTarget, EditKind, EditVisualState,
};
use ait::ui::font::{point_size_to_logical_height, ui_font_point_size};
use ait::ui::listbox::{
    is_modern_listbox, listbox_item_palette, listbox_palette, listbox_uses_native_border,
    modern_listbox_text_rect, ListBoxItemVisualState, ListBoxTextRect, ListBoxVisualState,
};
use ait::ui::theme::{scale_for_dpi, RgbColor, CONTROL_HEIGHT, LIST_ITEM_HEIGHT};

#[test]
fn maps_known_primary_buttons() {
    assert_eq!(button_role_for_control(2001), Some(ButtonRole::Primary));
    assert_eq!(button_role_for_control(3004), Some(ButtonRole::Primary));
}

#[test]
fn maps_known_secondary_buttons() {
    for id in [2002, 3001, 3003, 3005, 3116, 3119, 3121] {
        assert_eq!(button_role_for_control(id), Some(ButtonRole::Secondary));
        assert!(is_owner_draw_button(id));
    }
}

#[test]
fn maps_delete_button_to_danger_role() {
    assert_eq!(button_role_for_control(3002), Some(ButtonRole::Danger));
}

#[test]
fn button_ignores_unknown_controls() {
    assert_eq!(button_role_for_control(9999), None);
    assert!(!is_owner_draw_button(9999));
}

#[test]
fn primary_palette_uses_quiet_blue() {
    let palette = button_palette(ButtonRole::Primary, ButtonVisualState::normal());
    assert_eq!(palette.background, RgbColor::new(37, 99, 235));
    assert_eq!(palette.text, RgbColor::new(255, 255, 255));
}

#[test]
fn secondary_palette_uses_white_surface() {
    let palette = button_palette(ButtonRole::Secondary, ButtonVisualState::normal());
    assert_eq!(palette.background, RgbColor::new(255, 255, 255));
    assert_eq!(palette.border, RgbColor::new(203, 213, 225));
    assert_eq!(palette.text, RgbColor::new(31, 41, 55));
}

#[test]
fn disabled_palette_removes_primary_emphasis() {
    let state = ButtonVisualState {
        disabled: true,
        ..ButtonVisualState::normal()
    };
    let palette = button_palette(ButtonRole::Primary, state);
    assert_eq!(palette.background, RgbColor::new(243, 244, 246));
    assert_eq!(palette.text, RgbColor::new(156, 163, 175));
}

#[test]
fn owner_draw_buttons_do_not_use_native_border() {
    assert!(!button_uses_native_border(2001));
    assert!(!button_uses_native_border(3004));
    assert!(button_uses_native_border(9999));
}

#[test]
fn primary_focus_ring_uses_contrast_color() {
    let palette = button_palette(ButtonRole::Primary, ButtonVisualState::normal());
    assert_eq!(palette.focus, RgbColor::new(219, 234, 254));
}

#[test]
fn focused_button_draws_inner_focus_ring() {
    let state = ButtonVisualState {
        focused: true,
        ..ButtonVisualState::normal()
    };

    assert!(button_draws_inner_focus_ring(state));
}

#[test]
fn maps_settings_auto_start_checkbox() {
    assert!(is_modern_checkbox(3117));
    assert!(!checkbox_uses_native_border(3117));
}

#[test]
fn checkbox_ignores_unknown_controls() {
    assert!(!is_modern_checkbox(9999));
    assert!(checkbox_uses_native_border(9999));
}

#[test]
fn unchecked_checkbox_uses_white_surface() {
    let palette = checkbox_palette(CheckboxVisualState::normal());
    assert_eq!(palette.box_background, RgbColor::new(255, 255, 255));
    assert_eq!(palette.box_border, RgbColor::new(203, 213, 225));
    assert_eq!(palette.text, RgbColor::new(31, 41, 55));
}

#[test]
fn checked_checkbox_uses_primary_fill() {
    let palette = checkbox_palette(CheckboxVisualState {
        checked: true,
        ..CheckboxVisualState::normal()
    });
    assert_eq!(palette.box_background, RgbColor::new(37, 99, 235));
    assert_eq!(palette.check, RgbColor::new(255, 255, 255));
}

#[test]
fn focused_unchecked_checkbox_uses_active_border() {
    let palette = checkbox_palette(CheckboxVisualState {
        focused: true,
        ..CheckboxVisualState::normal()
    });
    assert_eq!(palette.box_border, RgbColor::new(37, 99, 235));
}

#[test]
fn disabled_checkbox_uses_muted_colors() {
    let palette = checkbox_palette(CheckboxVisualState {
        disabled: true,
        ..CheckboxVisualState::normal()
    });
    assert_eq!(palette.box_background, RgbColor::new(243, 244, 246));
    assert_eq!(palette.text, RgbColor::new(156, 163, 175));
}

#[test]
fn checkbox_box_is_vertically_centered() {
    let rect = checkbox_box_rect(28);
    assert_eq!(rect.left, 0);
    assert_eq!(rect.top, 5);
    assert_eq!(rect.right, 18);
    assert_eq!(rect.bottom, 23);
}

#[test]
fn checkbox_text_leaves_gap_after_box() {
    assert_eq!(checkbox_text_left(), 26);
}

#[test]
fn checkbox_click_toggles_state() {
    assert!(checkbox_toggled_state(false));
    assert!(!checkbox_toggled_state(true));
}

#[test]
fn maps_translation_profile_combo() {
    assert!(is_modern_combo(2106));
}

#[test]
fn combo_ignores_unknown_controls() {
    assert!(!is_modern_combo(9999));
    assert!(combo_uses_native_border(9999));
}

#[test]
fn modern_combo_does_not_use_native_border() {
    assert!(!combo_uses_native_border(2106));
}

#[test]
fn normal_combo_uses_white_surface() {
    let palette = combo_palette(ComboVisualState::normal());
    assert_eq!(palette.background, ait::ui::combo::RgbColor::new(255, 255, 255));
    assert_eq!(palette.border, ait::ui::combo::RgbColor::new(203, 213, 225));
    assert_eq!(palette.text, ait::ui::combo::RgbColor::new(31, 41, 55));
}

#[test]
fn focused_combo_uses_blue_border() {
    let palette = combo_palette(ComboVisualState {
        focused: true,
        ..ComboVisualState::normal()
    });
    assert_eq!(palette.border, ait::ui::combo::RgbColor::new(37, 99, 235));
}

#[test]
fn dropped_combo_uses_active_border() {
    let palette = combo_palette(ComboVisualState {
        dropped: true,
        ..ComboVisualState::normal()
    });
    assert_eq!(palette.border, ait::ui::combo::RgbColor::new(37, 99, 235));
}

#[test]
fn disabled_combo_uses_muted_colors() {
    let palette = combo_palette(ComboVisualState {
        disabled: true,
        ..ComboVisualState::normal()
    });
    assert_eq!(palette.background, ait::ui::combo::RgbColor::new(243, 244, 246));
    assert_eq!(palette.border, ait::ui::combo::RgbColor::new(209, 213, 219));
    assert_eq!(palette.text, ait::ui::combo::RgbColor::new(156, 163, 175));
}

#[test]
fn frame_rect_matches_control_bounds() {
    let rect = modern_combo_frame_rect(410, 14, 586, 234);
    assert_eq!(rect.left, 408);
    assert_eq!(rect.top, 12);
    assert_eq!(rect.right, 588);
    assert_eq!(rect.bottom, 38);
}

#[test]
fn modern_combo_child_rect_leaves_room_for_parent_drawn_visible_frame() {
    let rect = modern_combo_child_rect(2106, 408, 12, 180, 220);
    assert!(rect.x > 408);
    assert!(rect.y > 12);
    assert!(rect.width < 180);
    assert_eq!(rect.height, 220);
}

#[test]
fn maps_translation_multiline_edits() {
    assert_eq!(edit_kind_for_control(2101), Some(EditKind::MultiLine));
    assert_eq!(edit_kind_for_control(2102), Some(EditKind::MultiLine));
}

#[test]
fn maps_settings_single_line_edits() {
    for id in [3102, 3104, 3105, 3106, 3107, 3108] {
        assert_eq!(edit_kind_for_control(id), Some(EditKind::SingleLine));
        assert!(is_modern_edit(id));
    }
}

#[test]
fn edit_ignores_unknown_controls() {
    assert_eq!(edit_kind_for_control(9999), None);
    assert!(!is_modern_edit(9999));
    assert!(edit_uses_native_border(9999));
}

#[test]
fn normal_edit_uses_white_surface() {
    let palette = edit_palette(EditVisualState::normal());
    assert_eq!(palette.background, RgbColor::new(255, 255, 255));
    assert_eq!(palette.border, RgbColor::new(203, 213, 225));
    assert_eq!(palette.text, RgbColor::new(31, 41, 55));
}

#[test]
fn focused_edit_uses_blue_border() {
    let palette = edit_palette(EditVisualState {
        focused: true,
        ..EditVisualState::normal()
    });
    assert_eq!(palette.border, RgbColor::new(37, 99, 235));
}

#[test]
fn readonly_edit_is_distinct_from_disabled() {
    let readonly = edit_palette(EditVisualState {
        readonly: true,
        ..EditVisualState::normal()
    });
    let disabled = edit_palette(EditVisualState {
        disabled: true,
        ..EditVisualState::normal()
    });

    assert_eq!(readonly.background, RgbColor::new(248, 250, 252));
    assert_eq!(readonly.text, RgbColor::new(31, 41, 55));
    assert_eq!(disabled.background, RgbColor::new(243, 244, 246));
    assert_eq!(disabled.text, RgbColor::new(156, 163, 175));
    assert_ne!(readonly, disabled);
}

#[test]
fn edit_border_is_painted_on_control_window() {
    assert_eq!(
        edit_border_paint_target(),
        EditBorderPaintTarget::ParentFrame
    );
}

#[test]
fn color_query_does_not_schedule_border_repaint() {
    assert!(!modern_edit_color_query_invalidates_border());
}

#[test]
fn modern_multiline_edit_leaves_space_for_parent_drawn_rounded_border() {
    let rect = modern_edit_child_rect(16, 38, 572, 96);

    assert!(rect.x > 16);
    assert!(rect.y > 38);
    assert_eq!(rect.x - 16, 4);
    assert_eq!(rect.y - 38, 4);
    assert_eq!(rect.width, 572 - (rect.x - 16) * 2);
    assert_eq!(rect.height, 96 - (rect.y - 38) * 2);
}

#[test]
fn single_line_third_click_selects_all_after_recent_double_click() {
    assert!(single_line_third_click_selects_all(Some(100), 250, 500));
    assert!(!single_line_third_click_selects_all(Some(100), 700, 500));
    assert!(!single_line_third_click_selects_all(None, 250, 500));
}

#[test]
fn multiline_edit_text_rect_adds_readable_inner_padding() {
    let rect = multiline_edit_text_rect(564, 88);

    assert_eq!(rect.left, 8);
    assert_eq!(rect.top, 6);
    assert_eq!(rect.right, 564 - 8);
    assert_eq!(rect.bottom, 88 - 6);
}

#[test]
fn point_size_to_logical_height_uses_negative_logical_height() {
    assert_eq!(point_size_to_logical_height(11, 96), -14);
    assert_eq!(point_size_to_logical_height(11, 144), -22);
}

#[test]
fn ui_font_uses_readable_11_point_size() {
    assert_eq!(ui_font_point_size(), 11);
}

#[test]
fn maps_settings_profile_listbox() {
    assert!(is_modern_listbox(3101));
    assert!(!listbox_uses_native_border(3101));
}

#[test]
fn listbox_ignores_unknown_controls() {
    assert!(!is_modern_listbox(9999));
    assert!(listbox_uses_native_border(9999));
}

#[test]
fn normal_listbox_uses_white_surface() {
    let palette = listbox_palette(ListBoxVisualState::normal());
    assert_eq!(palette.background, RgbColor::new(255, 255, 255));
    assert_eq!(palette.border, RgbColor::new(203, 213, 225));
    assert_eq!(palette.text, RgbColor::new(31, 41, 55));
}

#[test]
fn focused_listbox_uses_active_border() {
    let palette = listbox_palette(ListBoxVisualState {
        focused: true,
        ..ListBoxVisualState::normal()
    });
    assert_eq!(palette.border, RgbColor::new(37, 99, 235));
}

#[test]
fn selected_item_matches_combo_dropdown_selection() {
    let palette = listbox_item_palette(ListBoxItemVisualState {
        selected: true,
        ..ListBoxItemVisualState::normal()
    });
    assert_eq!(palette.background, RgbColor::new(219, 234, 254));
    assert_eq!(palette.text, RgbColor::new(30, 64, 175));
}

#[test]
fn text_rect_adds_horizontal_padding() {
    let rect = modern_listbox_text_rect(ListBoxTextRect {
        left: 0,
        top: 0,
        right: 220,
        bottom: 32,
    });
    assert_eq!(rect.left, 10);
    assert_eq!(rect.right, 210);
}

#[test]
fn standard_component_metrics_are_consistent() {
    assert_eq!(CONTROL_HEIGHT, 34);
    assert_eq!(LIST_ITEM_HEIGHT, 36);
}

#[test]
fn dpi_scaling_uses_96_dpi_baseline() {
    assert_eq!(scale_for_dpi(34, 96), 34);
    assert_eq!(scale_for_dpi(34, 120), 43);
    assert_eq!(scale_for_dpi(34, 144), 51);
}

#[test]
fn edit_frame_rect_grows_by_the_gutter() {
    let rect = modern_edit_frame_rect(20, 30, 120, 60);
    assert_eq!((rect.left, rect.top, rect.right, rect.bottom), (16, 26, 124, 64));
}

#[test]
fn dpi_scaling_rounds_to_nearest_and_treats_zero_dpi_as_one() {
    assert_eq!(scale_for_dpi(1, 144), 2);
    assert_eq!(scale_for_dpi(-34, 120), -42);
    assert_eq!(scale_for_dpi(96, 0), 1);
}

#[test]
fn small_controls_never_get_inverted_rectangles() {
    let rect = modern_edit_child_rect(0, 0, 3, 5);
    assert_eq!((rect.width, rect.height), (1, 1));
    let text = multiline_edit_text_rect(4, 4);
    assert_eq!((text.right, text.bottom), (8, 6));
    let combo = modern_combo_child_rect(2106, 0, 0, 2, 10);
    assert_eq!(combo.width, 1);
    let other = modern_combo_child_rect(7, 5, 6, 7, 8);
    assert_eq!((other.x, other.y, other.width, other.height), (5, 6, 7, 8));
    let box_rect = checkbox_box_rect(10);
    assert_eq!((box_rect.top, box_rect.bottom), (0, 18));
}

#[test]
fn third_click_detection_survives_a_wrapped_tick_counter() {
    assert!(single_line_third_click_selects_all(Some(u32::MAX - 10), 20, 500));
}

#[test]
fn hover_state_round_trips_for_button_hwnd() {
    let mut hot = ait::ui::tracker::WindowStateTracker::new();
    let hwnd: isize = 12345;

    hot.set(hwnd, false);
    hot.set(hwnd, true);
    assert!(hot.is_set(hwnd));

    hot.set(hwnd, false);
    assert!(!hot.is_set(hwnd));
}

#[test]
fn hover_state_round_trips_for_checkbox_hwnd() {
    let mut hot = ait::ui::tracker::WindowStateTracker::default();
    let hwnd: isize = 3117;

    hot.set(hwnd, false);
    hot.set(hwnd, true);
    assert!(hot.is_set(hwnd));

    hot.set(hwnd, false);
    assert!(!hot.is_set(hwnd));
}

#[test]
fn dropped_state_round_trips_for_combo_hwnd() {
    let mut dropped = ait::ui::tracker::WindowStateTracker::new();
    let hwnd: isize = 2106;

    dropped.set(hwnd, false);
    dropped.set(hwnd, true);
    assert!(dropped.is_set(hwnd));
    dropped.set(7, true);
    assert!(!dropped.is_set(hwnd));

    dropped.set(7, false);
    assert!(!dropped.is_set(hwnd));
}

#[test]
fn owner_draw_item_states_read_their_flags() {
    let b = button_visual_state(0x0001 | 0x0010, false);
    assert!(b.pressed && b.focused && !b.hot && !b.disabled);
    assert!(button_visual_state(0x0040, false).hot);
    let c = checkbox_visual_state(0x0004, true, true);
    assert!(c.checked && c.hot && c.disabled && !c.focused);
    let i = listbox_item_visual_state(0x0001, 3, Some(3));
    assert!(i.selected && i.hot && !i.disabled);
    assert!(!listbox_item_visual_state(0, 3, Some(4)).hot);
}

#[test]
fn colors_convert_to_colorref_values() {
    assert_eq!(RgbColor::new(37, 99, 235).colorref_value(), 0x00EB_6325);
}
