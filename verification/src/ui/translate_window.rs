//! The translation window: its state, layout and reactions to input.
use crate::app::TranslationWorkflowResult;
use crate::config::AppSettings;
use crate::error::{user_summary_text, AppError};
use crate::text::{is_blank, owned, str_blank, str_chars, str_equal, string_from_chars};
use crate::ui::edit::ticks_since;
use vstd::prelude::*;

verus! {

/// A rectangle by its corner and size.
#[derive(Debug, Clone, Copy, PartialEq, Eq, Structural)]
pub struct ControlRect {
    pub x: i32,
    pub y: i32,
    pub width: i32,
    pub height: i32,
}

/// Where each control of the translation window goes.
#[derive(Debug, Clone, Copy, PartialEq, Eq, Structural)]
pub struct TranslationWindowLayout {
    pub profile_combo: ControlRect,
    pub source_label: ControlRect,
    pub source_edit: ControlRect,
    pub translated_label: ControlRect,
    pub translated_edit: ControlRect,
    pub status_text: ControlRect,
    pub translate_button: ControlRect,
}

/// The smaller of two integers.
pub open spec fn min_of(a: int, b: int) -> int {
    if a <= b {
        a
    } else {
        b
    }
}

/// The larger of two integers.
pub open spec fn max_of(a: int, b: int) -> int {
    if a >= b {
        a
    } else {
        b
    }
}

/// `v` brought into `lo..=hi`.
pub open spec fn clamp_of(v: int, lo: int, hi: int) -> int {
    if v < lo {
        lo
    } else if v > hi {
        hi
    } else {
        v
    }
}

/// The rectangle with the given corner and size.
pub open spec fn rect_of(x: int, y: int, width: int, height: int) -> ControlRect {
    ControlRect { x: x as i32, y: y as i32, width: width as i32, height: height as i32 }
}

/// The layout of the translation window for a client area of the given size
/// (a size below 1 counts as 1). From the top: the profile drop-down at the
/// right and the source label at the left, the source text, the translation
/// label, the translation, then the status line at the left and the
/// translate button at the right, each shrunk to fit a small window.
pub open spec fn window_layout(client_width: i32, client_height: i32) -> TranslationWindowLayout {
    let margin = 16int;
    let gap = 10int;
    let uw = max_of(client_width as int, 1);
    let uh = max_of(client_height as int, 1);
    let content_x = min_of(margin, uw - 1);
    let content_width = max_of(uw - content_x - margin, 1);
    let combo_width = min_of(180, content_width);
    let combo_height = min_of(26, uh);
    let button_width = min_of(52, content_width);
    let button_height = min_of(28, uh);
    let button_x = clamp_of(uw - margin - button_width, 0, uw - button_width);
    let bottom_y = clamp_of(uh - margin - button_height, 0, uh - button_height);
    let status_width = max_of(button_x - margin - gap, 1);
    let label_height = min_of(20, uh);
    let status_height = min_of(22, uh);
    let source_label_y = min_of(14, uh - label_height);
    let source_edit_y = min_of(source_label_y + label_height + 4, uh - 1);
    let edit_area_bottom = max_of(bottom_y - gap, source_edit_y + 1);
    let available = max_of(edit_area_bottom - source_edit_y - (gap + label_height + 4), 2);
    let half = available / 2;
    let source_edit_height = min_of(
        max_of(min_of(half, 200), min_of(64, max_of(half, 1))),
        uh - source_edit_y,
    );
    let translated_label_y = min_of(source_edit_y + source_edit_height + gap, uh - 1);
    let translated_edit_y = min_of(translated_label_y + label_height + 4, uh - 1);
    let translated_edit_height = min_of(
        max_of(bottom_y - translated_edit_y - gap, 1),
        uh - translated_edit_y,
    );
    TranslationWindowLayout {
        profile_combo: rect_of(
            clamp_of(uw - margin - combo_width, 0, uw - combo_width),
            min_of(12, uh - combo_height),
            combo_width,
            combo_height,
        ),
        source_label: rect_of(content_x, source_label_y, min_of(80, content_width), label_height),
        source_edit: rect_of(content_x, source_edit_y, content_width, source_edit_height),
        translated_label: rect_of(
            content_x,
            translated_label_y,
            min_of(80, content_width),
            min_of(label_height, uh - translated_label_y),
        ),
        translated_edit: rect_of(
            content_x,
            translated_edit_y,
            content_width,
            translated_edit_height,
        ),
        status_text: rect_of(
            content_x,
            min_of(bottom_y + 3, uh - status_height),
            status_width,
            status_height,
        ),
        translate_button: rect_of(button_x, bottom_y, button_width, button_height),
    }
}

/// The rectangle is not empty and lies inside a client area of the given
/// size.
pub open spec fn rect_inside(r: ControlRect, width: int, height: int) -> bool {
    &&& r.width > 0
    &&& r.height > 0
    &&& r.x >= 0
    &&& r.y >= 0
    &&& r.x + r.width <= width
    &&& r.y + r.height <= height
}

/// Every control of the layout is non-empty and inside a client area of
/// the given size.
pub open spec fn layout_inside(l: TranslationWindowLayout, width: int, height: int) -> bool {
    &&& rect_inside(l.profile_combo, width, height)
    &&& rect_inside(l.source_label, width, height)
    &&& rect_inside(l.source_edit, width, height)
    &&& rect_inside(l.translated_label, width, height)
    &&& rect_inside(l.translated_edit, width, height)
    &&& rect_inside(l.status_text, width, height)
    &&& rect_inside(l.translate_button, width, height)
}

/// Every control of the layout is non-empty and inside the client area.
proof fn lemma_layout_inside(client_width: i32, client_height: i32)
    ensures
        layout_inside(
            window_layout(client_width, client_height),
            max_of(client_width as int, 1),
            max_of(client_height as int, 1),
        ),
{
}

fn min_i32(a: i32, b: i32) -> (r: i32)
    ensures
        r == min_of(a as int, b as int),
{
    if a <= b {
        a
    } else {
        b
    }
}

fn max_i32(a: i32, b: i32) -> (r: i32)
    ensures
        r == max_of(a as int, b as int),
{
    if a >= b {
        a
    } else {
        b
    }
}

fn clamp_i32(v: i32, lo: i32, hi: i32) -> (r: i32)
    requires
        lo <= hi,
    ensures
        r == clamp_of(v as int, lo as int, hi as int),
{
    if v < lo {
        lo
    } else if v > hi {
        hi
    } else {
        v
    }
}

/// Where the controls of the translation window go in a client area of the
/// given size. Every control is non-empty and inside the client area (taken
/// as at least 1 by 1), however small it is.
pub fn translation_window_layout(client_width: i32, client_height: i32) -> (l: TranslationWindowLayout)
    ensures
        l == window_layout(client_width, client_height),
        layout_inside(
            l,
            max_of(client_width as int, 1),
            max_of(client_height as int, 1),
        ),
{
    proof {
        lemma_layout_inside(client_width, client_height);
    }
    let margin: i32 = 16;
    let gap: i32 = 10;
    let label_height_max: i32 = 20;
    let status_height_max: i32 = 22;
    let button_width_max: i32 = 52;
    let button_height_max: i32 = 28;
    let min_edit_height: i32 = 64;
    let max_source_edit_height: i32 = 200;

    let usable_width = max_i32(client_width, 1);
    let usable_height = max_i32(client_height, 1);
    let content_x = min_i32(margin, usable_width - 1);
    let content_width = max_i32(usable_width - content_x - margin, 1);
    let combo_width = min_i32(180, content_width);
    let combo_height = min_i32(26, usable_height);
    let button_width = min_i32(button_width_max, content_width);
    let button_height = min_i32(button_height_max, usable_height);
    let button_x = clamp_i32(usable_width - margin - button_width, 0, usable_width - button_width);
    let bottom_y = clamp_i32(
        usable_height - margin - button_height,
        0,
        usable_height - button_height,
    );
    let status_width = max_i32(button_x - margin - gap, 1);
    let label_height = min_i32(label_height_max, usable_height);
    let status_height = min_i32(status_height_max, usable_height);

    let profile_combo = ControlRect {
        x: clamp_i32(usable_width - margin - combo_width, 0, usable_width - combo_width),
        y: min_i32(12, usable_height - combo_height),
        width: combo_width,
        height: combo_height,
    };
    let source_label = ControlRect {
        x: content_x,
        y: min_i32(14, usable_height - label_height),
        width: min_i32(80, content_width),
        height: label_height,
    };
    let source_edit_y = min_i32(source_label.y + label_height + 4, usable_height - 1);
    let edit_area_bottom = max_i32(bottom_y - gap, source_edit_y + 1);
    let fixed_between_edits = gap + label_height + 4;
    let available_edit_height = max_i32(edit_area_bottom - source_edit_y - fixed_between_edits, 2);
    let half_edit_height = available_edit_height / 2;
    let source_edit_height = min_i32(
        max_i32(
            min_i32(half_edit_height, max_source_edit_height),
            min_i32(min_edit_height, max_i32(half_edit_height, 1)),
        ),
        usable_height - source_edit_y,
    );
    let translated_label_y = min_i32(source_edit_y + source_edit_height + gap, usable_height - 1);
    let translated_edit_y = min_i32(translated_label_y + label_height + 4, usable_height - 1);
    let translated_edit_height = min_i32(
        max_i32(bottom_y - translated_edit_y - gap, 1),
        usable_height - translated_edit_y,
    );

    TranslationWindowLayout {
        profile_combo,
        source_label,
        source_edit: ControlRect {
            x: content_x,
            y: source_edit_y,
            width: content_width,
            height: source_edit_height,
        },
        translated_label: ControlRect {
            x: content_x,
            y: translated_label_y,
            width: min_i32(80, content_width),
            height: min_i32(label_height, usable_height - translated_label_y),
        },
        translated_edit: ControlRect {
            x: content_x,
            y: translated_edit_y,
            width: content_width,
            height: translated_edit_height,
        },
        status_text: ControlRect {
            x: content_x,
            y: min_i32(bottom_y + 3, usable_height - status_height),
            width: status_width,
            height: status_height,
        },
        translate_button: ControlRect {
            x: button_x,
            y: bottom_y,
            width: button_width,
            height: button_height,
        },
    }
}


/// How the window is being shown.
#[derive(Debug, Clone, Copy, PartialEq, Eq, Structural)]
pub enum ShowMode {
    Starting,
    Loading,
    Result,
    Error,
}

impl ShowMode {
    /// Showing the window in this mode takes the focus: all but `Starting`,
    /// so that the application the text was taken from keeps it.
    pub fn activates_window(self) -> (r: bool)
        ensures
            r == !(self is Starting),
    {
        !matches!(self, ShowMode::Starting)
    }
}

/// Where the window stands among the others.
#[derive(Debug, Clone, Copy, PartialEq, Eq, Structural)]
pub enum WindowZOrder {
    NotTopmost,
    TopmostNoActivate,
}

/// The window is never pinned above the others.
pub fn window_z_order() -> (r: WindowZOrder)
    ensures
        r == WindowZOrder::NotTopmost,
{
    WindowZOrder::NotTopmost
}

/// The window is raised above the others, without the focus, only while a
/// translation is starting.
pub fn show_window_z_order(mode: ShowMode) -> (r: WindowZOrder)
    ensures
        r == (if mode is Starting {
            WindowZOrder::TopmostNoActivate
        } else {
            WindowZOrder::NotTopmost
        }),
{
    match mode {
        ShowMode::Starting => WindowZOrder::TopmostNoActivate,
        ShowMode::Loading | ShowMode::Result | ShowMode::Error => WindowZOrder::NotTopmost,
    }
}

/// What to do with the window when it is to be shown.
#[derive(Debug, Clone, Copy, PartialEq, Eq, Structural)]
pub enum ShowAction {
    PositionAndActivate,
    ActivateOnly,
    KeepPosition,
}

/// A window already shown has its temporary raise taken back once the
/// translation is past its start.
pub fn show_window_needs_topmost_reset(mode: ShowMode, action: ShowAction) -> (r: bool)
    ensures
        r == (!(mode is Starting) && (action is ActivateOnly || action is KeepPosition)),
{
    !matches!(mode, ShowMode::Starting) && matches!(
        action,
        ShowAction::ActivateOnly | ShowAction::KeepPosition
    )
}

/// A visible window in the background is raised, without the focus, when a
/// translation starts.
pub fn show_window_needs_topmost_raise(mode: ShowMode, action: ShowAction) -> (r: bool)
    ensures
        r == (mode is Starting && action is ActivateOnly),
{
    matches!(mode, ShowMode::Starting) && matches!(action, ShowAction::ActivateOnly)
}

/// The smallest client area the window can be resized to.
pub fn translation_window_min_client_size() -> (r: (i32, i32))
    ensures
        r == (420i32, 300i32),
{
    (420, 300)
}

/// The height of the opened profile drop-down.
pub fn translation_profile_combo_dropdown_height() -> (r: i32)
    ensures
        r == 220,
{
    220
}

/// The update button shows only when a newer release is known.
pub fn translation_window_update_button_visible(
    status: Option<&crate::update::UpdateStatus>,
) -> (r: bool)
    ensures
        r == (status matches Some(s) && *s is UpdateAvailable),
{
    match status {
        Some(crate::update::UpdateStatus::UpdateAvailable { .. }) => true,
        _ => false,
    }
}

/// What to do when a profile is picked in the drop-down.
#[derive(Debug, Clone, PartialEq, Eq)]
pub enum ProfileSelectionAction {
    SaveDefaultOnly { profile_id: String },
    SaveDefaultAndRetranslate { profile_id: String },
}

/// Picking a profile makes it the default; the source is translated again
/// with it unless the source is blank.
pub fn profile_selection_action(profile_id: &str, source_text: &str) -> (r: ProfileSelectionAction)
    ensures
        is_blank(source_text@) ==> (r matches ProfileSelectionAction::SaveDefaultOnly {
            profile_id: p,
        } && p@ == profile_id@),
        !is_blank(source_text@) ==> (r matches ProfileSelectionAction::SaveDefaultAndRetranslate {
            profile_id: p,
        } && p@ == profile_id@),
{
    if str_blank(source_text) {
        ProfileSelectionAction::SaveDefaultOnly { profile_id: owned(profile_id) }
    } else {
        ProfileSelectionAction::SaveDefaultAndRetranslate { profile_id: owned(profile_id) }
    }
}

/// Where the window is positioned when it is shown: a hidden window is
/// placed and activated, a visible one in the background only activated,
/// one in the foreground left where the user put it.
pub fn show_action(is_visible: bool, is_foreground: bool) -> (r: ShowAction)
    ensures
        !is_visible ==> r == ShowAction::PositionAndActivate,
        is_visible && !is_foreground ==> r == ShowAction::ActivateOnly,
        is_visible && is_foreground ==> r == ShowAction::KeepPosition,
{
    if !is_visible {
        ShowAction::PositionAndActivate
    } else if !is_foreground {
        ShowAction::ActivateOnly
    } else {
        ShowAction::KeepPosition
    }
}

/// What a key press in a text field of the window does.
#[derive(Debug, Clone, Copy, PartialEq, Eq, Structural)]
pub enum EditShortcutAction {
    Nothing,
    SelectAll,
    HideWindow,
}

/// What a typed character in a text field of the window does.
#[derive(Debug, Clone, Copy, PartialEq, Eq, Structural)]
pub enum EditCharAction {
    Default,
    Swallow,
}

/// Ctrl+A selects all, Escape hides the window, other keys do what they
/// always do.
pub fn edit_shortcut_action(vk: u32, ctrl_down: bool) -> (r: EditShortcutAction)
    ensures
        r == (if ctrl_down && vk == 0x41 {
            EditShortcutAction::SelectAll
        } else if vk == 0x1B {
            EditShortcutAction::HideWindow
        } else {
            EditShortcutAction::Nothing
        }),
{
    let vk_a: u32 = 0x41;
    let vk_escape: u32 = 0x1B;
    if ctrl_down && vk == vk_a {
        EditShortcutAction::SelectAll
    } else if vk == vk_escape {
        EditShortcutAction::HideWindow
    } else {
        EditShortcutAction::Nothing
    }
}

/// The control character that Ctrl+A types is dropped, so that it does not
/// beep; others go through.
pub fn edit_char_action(ch: u32) -> (r: EditCharAction)
    ensures
        r == (if ch == 1 {
            EditCharAction::Swallow
        } else {
            EditCharAction::Default
        }),
{
    if ch == 1 {
        EditCharAction::Swallow
    } else {
        EditCharAction::Default
    }
}

/// The line break of a Windows text field.
pub open spec fn crlf() -> Seq<char> {
    seq!['\r', '\n']
}

/// A character that ends a line in its own right: line feed, vertical tab,
/// form feed, next line or line separator.
pub open spec fn is_line_end(c: char) -> bool {
    c == '\n' || c == '\u{000B}' || c == '\u{000C}' || c == '\u{0085}' || c == '\u{2028}'
}

/// `s` as a Windows text field shows it: a carriage return, with the line
/// feed after it if there is one, and each other line end become a CR LF; a
/// paragraph separator becomes two.
pub open spec fn display_text(s: Seq<char>) -> Seq<char>
    decreases s.len(),
{
    if s.len() == 0 {
        Seq::empty()
    } else if s[0] == '\r' {
        if s.len() > 1 && s[1] == '\n' {
            crlf() + display_text(s.subrange(2, s.len() as int))
        } else {
            crlf() + display_text(s.drop_first())
        }
    } else if is_line_end(s[0]) {
        crlf() + display_text(s.drop_first())
    } else if s[0] == '\u{2029}' {
        crlf() + crlf() + display_text(s.drop_first())
    } else {
        seq![s[0]] + display_text(s.drop_first())
    }
}

proof fn lemma_display_crlf(t: Seq<char>)
    ensures
        display_text(crlf() + t) == crlf() + display_text(t),
{
    let s = crlf() + t;
    assert(s[0] == '\r' && s[1] == '\n');
    assert(s.subrange(2, s.len() as int) == t);
}

proof fn lemma_display_plain(c: char, t: Seq<char>)
    requires
        c != '\r',
        !is_line_end(c),
        c != '\u{2029}',
    ensures
        display_text(seq![c] + t) == seq![c] + display_text(t),
{
    let s = seq![c] + t;
    assert(s[0] == c);
    assert(s.drop_first() == t);
}

/// Showing a text that is already shown changes nothing.
pub proof fn law_display_text_idempotent(s: Seq<char>)
    ensures
        display_text(display_text(s)) == display_text(s),
    decreases s.len(),
{
    if s.len() > 0 {
        if s[0] == '\r' {
            if s.len() > 1 && s[1] == '\n' {
                law_display_text_idempotent(s.subrange(2, s.len() as int));
                lemma_display_crlf(display_text(s.subrange(2, s.len() as int)));
            } else {
                law_display_text_idempotent(s.drop_first());
                lemma_display_crlf(display_text(s.drop_first()));
            }
        } else if is_line_end(s[0]) {
            law_display_text_idempotent(s.drop_first());
            lemma_display_crlf(display_text(s.drop_first()));
        } else if s[0] == '\u{2029}' {
            let t = display_text(s.drop_first());
            law_display_text_idempotent(s.drop_first());
            lemma_display_crlf(t);
            lemma_display_crlf(crlf() + t);
            assert(crlf() + crlf() + t == crlf() + (crlf() + t));
            assert(crlf() + crlf() + display_text(t) == crlf() + (crlf() + display_text(t)));
        } else {
            law_display_text_idempotent(s.drop_first());
            lemma_display_plain(s[0], display_text(s.drop_first()));
        }
    }
}

/// A line end that a Windows text field does not show as one: vertical
/// tab, form feed, next line, line separator or paragraph separator.
pub open spec fn is_foreign_line_end(c: char) -> bool {
    c == '\u{000B}' || c == '\u{000C}' || c == '\u{0085}' || c == '\u{2028}' || c == '\u{2029}'
}

/// The character at `i` of `t` is no foreign line end, a CR there has an
/// LF after it, and an LF there has a CR before it.
pub open spec fn line_char_ok(t: Seq<char>, i: int) -> bool {
    &&& !is_foreign_line_end(t[i])
    &&& (t[i] == '\r' ==> i + 1 < t.len() && t[i + 1] == '\n')
    &&& (t[i] == '\n' ==> i > 0 && t[i - 1] == '\r')
}

/// Every line of `t` ends with CR LF, and no other line end is in it.
pub open spec fn lines_paired(t: Seq<char>) -> bool {
    forall|i: int| 0 <= i < t.len() ==> #[trigger] line_char_ok(t, i)
}

/// `s` holds no character that ends a line.
pub open spec fn has_no_line_end(s: Seq<char>) -> bool {
    forall|i: int|
        0 <= i < s.len() ==> !(#[trigger] s[i] == '\r' || is_line_end(s[i]) || s[i] == '\u{2029}')
}

proof fn lemma_paired_after_crlf(t: Seq<char>)
    requires
        lines_paired(t),
    ensures
        lines_paired(crlf() + t),
{
    let u = crlf() + t;
    assert forall|i: int| 0 <= i < u.len() implies #[trigger] line_char_ok(u, i) by {
        if i >= 2 {
            assert(line_char_ok(t, i - 2));
            assert(u[i] == t[i - 2]);
            if u[i] == '\r' {
                assert(u[i + 1] == t[i - 1]);
            }
            if u[i] == '\n' && i > 2 {
                assert(u[i - 1] == t[i - 3]);
            }
        }
    }
}

proof fn lemma_paired_after_plain(c: char, t: Seq<char>)
    requires
        lines_paired(t),
        c != '\r',
        !is_line_end(c),
        c != '\u{2029}',
    ensures
        lines_paired(seq![c] + t),
{
    let u = seq![c] + t;
    assert forall|i: int| 0 <= i < u.len() implies #[trigger] line_char_ok(u, i) by {
        if i >= 1 {
            assert(line_char_ok(t, i - 1));
            assert(u[i] == t[i - 1]);
            if u[i] == '\r' {
                assert(u[i + 1] == t[i]);
            }
            if u[i] == '\n' && i > 1 {
                assert(u[i - 1] == t[i - 2]);
            }
        }
    }
}

/// What a text field is given has every line end as CR LF and no other
/// line end; a text without line ends is given as it is.
pub proof fn law_display_text_pairs_line_ends(s: Seq<char>)
    ensures
        lines_paired(display_text(s)),
        has_no_line_end(s) ==> display_text(s) == s,
    decreases s.len(),
{
    if s.len() > 0 {
        if s[0] == '\r' {
            if s.len() > 1 && s[1] == '\n' {
                law_display_text_pairs_line_ends(s.subrange(2, s.len() as int));
                lemma_paired_after_crlf(display_text(s.subrange(2, s.len() as int)));
            } else {
                law_display_text_pairs_line_ends(s.drop_first());
                lemma_paired_after_crlf(display_text(s.drop_first()));
            }
        } else if is_line_end(s[0]) {
            law_display_text_pairs_line_ends(s.drop_first());
            lemma_paired_after_crlf(display_text(s.drop_first()));
        } else if s[0] == '\u{2029}' {
            let t = display_text(s.drop_first());
            law_display_text_pairs_line_ends(s.drop_first());
            lemma_paired_after_crlf(t);
            lemma_paired_after_crlf(crlf() + t);
            assert(crlf() + crlf() + t == crlf() + (crlf() + t));
        } else {
            let rest = s.drop_first();
            law_display_text_pairs_line_ends(rest);
            lemma_paired_after_plain(s[0], display_text(rest));
            if has_no_line_end(s) {
                assert forall|i: int| 0 <= i < rest.len() implies !(#[trigger] rest[i] == '\r'
                    || is_line_end(rest[i]) || rest[i] == '\u{2029}') by {
                    assert(rest[i] == s[i + 1]);
                }
                assert(seq![s[0]] + rest == s);
            }
        }
    }
}

/// `text` as a Windows multi-line text field must be given it: every line
/// end as CR LF (see `display_text`).
pub fn edit_display_text(text: &str) -> (r: String)
    ensures
        r@ == display_text(text@),
{
    let v = str_chars(text);
    let n = v.len();
    let mut out: Vec<char> = Vec::new();
    let mut i: usize = 0;
    assert(v@.subrange(0, n as int) == v@);
    assert(out@ + display_text(v@) == display_text(v@));
    while i < n
        invariant
            n == v.len(),
            i <= n,
            out@ + display_text(v@.subrange(i as int, n as int)) == display_text(v@),
        decreases n - i,
    {
        let ghost rest = v@.subrange(i as int, n as int);
        let ch = v[i];
        assert(rest[0] == ch);
        assert(rest.drop_first() == v@.subrange(i + 1, n as int));
        if ch == '\r' {
            out.push('\r');
            out.push('\n');
            if i + 1 < n && v[i + 1] == '\n' {
                assert(rest[1] == v@[i + 1]);
                assert(rest.subrange(2, rest.len() as int) == v@.subrange(i + 2, n as int));
                i = i + 2;
            } else {
                i = i + 1;
            }
        } else if ch == '\n' || ch == '\u{000B}' || ch == '\u{000C}' || ch == '\u{0085}' || ch
            == '\u{2028}' {
            out.push('\r');
            out.push('\n');
            i = i + 1;
        } else if ch == '\u{2029}' {
            out.push('\r');
            out.push('\n');
            out.push('\r');
            out.push('\n');
            i = i + 1;
        } else {
            out.push(ch);
            i = i + 1;
        }
    }
    assert(v@.subrange(n as int, n as int) == Seq::<char>::empty());
    assert(out@ + Seq::<char>::empty() == out@);
    string_from_chars(&out)
}

/// A carriage return or line feed, as a UTF-16 unit.
pub open spec fn is_newline_unit(u: u16) -> bool {
    u == 13 || u == 10
}

/// The start of the line that holds position `i`: back past every unit that
/// is not a line break.
pub open spec fn line_start(text: Seq<u16>, i: int) -> int
    decreases i,
{
    if i > 0 && i <= text.len() && !is_newline_unit(text[i - 1]) {
        line_start(text, i - 1)
    } else {
        i
    }
}

/// The first position from `i` on that is not a line break.
pub open spec fn skip_line_breaks(text: Seq<u16>, i: int) -> int
    decreases text.len() - i,
{
    if 0 <= i < text.len() && is_newline_unit(text[i]) {
        skip_line_breaks(text, i + 1)
    } else {
        i
    }
}

/// The first line break from `i` on, or the end of the text.
pub open spec fn line_end(text: Seq<u16>, i: int) -> int
    decreases text.len() - i,
{
    if 0 <= i < text.len() && !is_newline_unit(text[i]) {
        line_end(text, i + 1)
    } else {
        i
    }
}

/// The paragraph around position `char_index` (taken as the last position
/// when past it): from the start of its line, past any line breaks there, to
/// the next line break; empty where these cross.
pub open spec fn paragraph_range(text: Seq<u16>, char_index: int) -> (int, int) {
    if text.len() == 0 {
        (0, 0)
    } else {
        let index = min_of(char_index, text.len() - 1);
        let start = skip_line_breaks(text, line_start(text, index));
        let end = line_end(text, index);
        if end < start {
            (start, start)
        } else {
            (start, end)
        }
    }
}

fn is_newline_utf16(value: u16) -> (r: bool)
    ensures
        r == is_newline_unit(value),
{
    value == 13 || value == 10
}

/// The paragraph that a triple click at `char_index` selects in the UTF-16
/// text of a field (see `paragraph_range`).
pub fn paragraph_selection_range_utf16(text: &[u16], char_index: usize) -> (r: (usize, usize))
    ensures
        (r.0 as int, r.1 as int) == paragraph_range(text@, char_index as int),
        r.0 <= r.1 <= text@.len(),
{
    let n = text.len();
    if n == 0 {
        return (0, 0);
    }
    let index: usize = if char_index < n - 1 {
        char_index
    } else {
        n - 1
    };
    let mut start: usize = index;
    while start > 0 && !is_newline_utf16(text[start - 1])
        invariant
            n == text@.len(),
            start <= index < n,
            line_start(text@, start as int) == line_start(text@, index as int),
        decreases start,
    {
        start = start - 1;
    }
    assert(line_start(text@, start as int) == start);
    let ghost first = start as int;
    while start < n && is_newline_utf16(text[start])
        invariant
            n == text@.len(),
            first <= start <= n,
            skip_line_breaks(text@, start as int) == skip_line_breaks(text@, first),
        decreases n - start,
    {
        start = start + 1;
    }
    let mut end: usize = index;
    while end < n && !is_newline_utf16(text[end])
        invariant
            n == text@.len(),
            index <= end <= n,
            line_end(text@, end as int) == line_end(text@, index as int),
        decreases n - end,
    {
        end = end + 1;
    }
    if end < start {
        (start, start)
    } else {
        (start, end)
    }
}

/// A click counts as the third of a triple click when it comes within the
/// double-click time of a double click (the tick counter may have wrapped).
pub fn is_third_click_after_double_click(
    last_double_click_time: Option<u32>,
    current_time: u32,
    double_click_time: u32,
) -> (r: bool)
    ensures
        r == (last_double_click_time matches Some(last) && ticks_since(last, current_time)
            <= double_click_time),
{
    match last_double_click_time {
        Some(last) => current_time.wrapping_sub(last) <= double_click_time,
        None => false,
    }
}

/// What the translation window shows.
#[derive(Debug, Clone)]
pub struct TranslationWindowState {
    pub source_text: String,
    pub translated_text: String,
    pub loading: bool,
    pub error: Option<String>,
}

impl TranslationWindowState {
    /// A translation starts: the window shows that it is busy and no error;
    /// the texts stay until the result arrives.
    pub fn mark_starting(&mut self)
        ensures
            final(self).loading,
            final(self).error is None,
            final(self).source_text == old(self).source_text,
            final(self).translated_text == old(self).translated_text,
    {
        self.loading = true;
        self.error = None;
    }

    /// A translation finished: the window shows its source and translation,
    /// and is no longer busy.
    pub fn apply_translation_result(&mut self, result: &TranslationWorkflowResult)
        ensures
            final(self).source_text@ == result.source_text@,
            final(self).translated_text@ == result.translated_text@,
            !final(self).loading,
            final(self).error is None,
    {
        self.source_text = result.source_text.clone();
        self.translated_text = result.translated_text.clone();
        self.loading = false;
        self.error = None;
    }

    /// Switching the profile failed: the message is shown and the texts
    /// stay.
    pub fn with_profile_switch_error(self, message: String) -> (r: TranslationWindowState)
        ensures
            r.source_text == self.source_text,
            r.translated_text == self.translated_text,
            !r.loading,
            r.error == Some(message),
    {
        let mut next = self;
        next.loading = false;
        next.error = Some(message);
        next
    }

    /// A translation failed: what the user is told of the error is shown
    /// and the texts stay.
    pub fn with_app_error(self, err: &AppError) -> (r: TranslationWindowState)
        ensures
            r.source_text == self.source_text,
            r.translated_text == self.translated_text,
            !r.loading,
            r.error matches Some(m) && m@ == user_summary_text(*err),
    {
        let mut next = self;
        next.loading = false;
        next.error = Some(err.user_summary());
        next
    }
}

impl TranslationWindowState {
    /// A translation of a given text starts: the window shows the text,
    /// no translation, that it is busy and no error.
    pub fn begin_loading(&mut self, source_text: String)
        ensures
            final(self).source_text == source_text,
            final(self).translated_text@ == Seq::<char>::empty(),
            final(self).loading,
            final(self).error is None,
    {
        self.source_text = source_text;
        self.translated_text = String::new();
        self.loading = true;
        self.error = None;
    }

    /// A translation ended: its result is shown, or what the user is told
    /// of its error (the texts then stay).
    pub fn finish(&mut self, result: &crate::error::Result<TranslationWorkflowResult>)
        ensures
            !final(self).loading,
            match result {
                Ok(r) => final(self).source_text@ == r.source_text@ && final(self).translated_text@
                    == r.translated_text@ && final(self).error is None,
                Err(e) => final(self).source_text == old(self).source_text
                    && final(self).translated_text == old(self).translated_text
                    && (final(self).error matches Some(m) && m@ == user_summary_text(*e)),
            },
    {
        match result {
            Ok(r) => self.apply_translation_result(r),
            Err(e) => {
                self.loading = false;
                self.error = Some(e.user_summary());
            },
        }
    }
}

/// The status line of the window in each mode: what it is doing, that it
/// is done, or the error (a generic failure when there is none).
pub open spec fn status_line_text(mode: ShowMode, error: Option<Seq<char>>) -> Seq<char> {
    match mode {
        ShowMode::Starting => "正在取词..."@,
        ShowMode::Loading => "正在翻译..."@,
        ShowMode::Result => "翻译完成"@,
        ShowMode::Error => match error {
            Some(m) => m,
            None => "翻译失败"@,
        },
    }
}

/// The status line of the window in the given mode (see
/// `status_line_text`).
pub fn translation_status_text(mode: ShowMode, error: Option<&str>) -> (r: String)
    ensures
        r@ == status_line_text(
            mode,
            match error {
                Some(m) => Some(m@),
                None => None,
            },
        ),
{
    match mode {
        ShowMode::Starting => owned("正在取词..."),
        ShowMode::Loading => owned("正在翻译..."),
        ShowMode::Result => owned("翻译完成"),
        ShowMode::Error => match error {
            Some(m) => owned(m),
            None => owned("翻译失败"),
        },
    }
}

/// An entry of the profile drop-down.
#[derive(Debug, Clone, PartialEq, Eq)]
pub struct TranslationProfileOption {
    pub id: String,
    pub label: String,
    pub active: bool,
}

impl TranslationProfileOption {
    /// The entries of the drop-down: one per profile, in order, labelled
    /// with its name, the one with the active id marked.
    pub fn from_settings(settings: &AppSettings, active_profile_id: &str) -> (r: Vec<
        TranslationProfileOption,
    >)
        ensures
            r.len() == settings@.translator_profiles.len(),
            forall|i: int|
                0 <= i < r.len() ==> {
                    let p = #[trigger] settings@.translator_profiles[i];
                    &&& r@[i].id@ == p.id
                    &&& r@[i].label@ == p.name
                    &&& r@[i].active == (p.id == active_profile_id@)
                },
    {
        let profiles = &settings.translator_profiles;
        let mut options: Vec<TranslationProfileOption> = Vec::new();
        let mut i: usize = 0;
        while i < profiles.len()
            invariant
                i <= profiles.len(),
                profiles@ == settings.translator_profiles@,
                options.len() == i,
                forall|j: int|
                    0 <= j < i ==> {
                        let p = #[trigger] settings@.translator_profiles[j];
                        &&& options@[j].id@ == p.id
                        &&& options@[j].label@ == p.name
                        &&& options@[j].active == (p.id == active_profile_id@)
                    },
            decreases profiles.len() - i,
        {
            let profile = &profiles[i];
            assert(settings@.translator_profiles[i as int] == profiles@[i as int]@);
            options.push(
                TranslationProfileOption {
                    id: profile.id.clone(),
                    label: profile.name.clone(),
                    active: str_equal(profile.id.as_str(), active_profile_id),
                },
            );
            i = i + 1;
        }
        options
    }
}

/// Where the window goes when it is shown near the mouse: 12 pixels right
/// of and below the cursor, moved back inside the work area `(left, top,
/// right, bottom)` of the screen.
pub fn window_position_near_cursor(
    cursor: (i32, i32),
    window_size: (i32, i32),
    work_area: (i32, i32, i32, i32),
) -> (r: (i32, i32))
    requires
        cursor.0 <= i32::MAX - 12,
        cursor.1 <= i32::MAX - 12,
        i32::MIN <= work_area.2 - window_size.0 <= i32::MAX,
        i32::MIN <= work_area.3 - window_size.1 <= i32::MAX,
        work_area.0 <= work_area.2 - window_size.0,
        work_area.1 <= work_area.3 - window_size.1,
    ensures
        r.0 == clamp_of(cursor.0 + 12, work_area.0 as int, work_area.2 - window_size.0),
        r.1 == clamp_of(cursor.1 + 12, work_area.1 as int, work_area.3 - window_size.1),
        work_area.0 <= r.0 && r.0 + window_size.0 <= work_area.2,
        work_area.1 <= r.1 && r.1 + window_size.1 <= work_area.3,
{
    let (left, top, right, bottom) = work_area;
    let (width, height) = window_size;
    let x = clamp_i32(cursor.0 + 12, left, right - width);
    let y = clamp_i32(cursor.1 + 12, top, bottom - height);
    (x, y)
}

/// In a window at least as tall as its minimum size, the translation gets
/// at least as much room as the source, and the source no more than 200
/// pixels.
pub proof fn law_translation_gets_the_larger_edit(client_width: i32, client_height: i32)
    requires
        client_height >= 300,
    ensures
        window_layout(client_width, client_height).source_edit.height <= 200,
        window_layout(client_width, client_height).translated_edit.height >= window_layout(
            client_width,
            client_height,
        ).source_edit.height,
{
}

proof fn lemma_line_start_clear(text: Seq<u16>, i: int)
    requires
        0 <= i <= text.len(),
    ensures
        0 <= line_start(text, i) <= i,
        forall|k: int| line_start(text, i) <= k < i ==> !is_newline_unit(#[trigger] text[k]),
    decreases i,
{
    if i > 0 && !is_newline_unit(text[i - 1]) {
        lemma_line_start_clear(text, i - 1);
    }
}

proof fn lemma_skip_line_breaks_bound(text: Seq<u16>, i: int)
    requires
        0 <= i <= text.len(),
    ensures
        i <= skip_line_breaks(text, i) <= text.len(),
        skip_line_breaks(text, i) < text.len() ==> !is_newline_unit(
            text[skip_line_breaks(text, i)],
        ),
    decreases text.len() - i,
{
    if i < text.len() && is_newline_unit(text[i]) {
        lemma_skip_line_breaks_bound(text, i + 1);
    }
}

proof fn lemma_line_end_clear(text: Seq<u16>, i: int)
    requires
        0 <= i <= text.len(),
    ensures
        i <= line_end(text, i) <= text.len(),
        forall|k: int| i <= k < line_end(text, i) ==> !is_newline_unit(#[trigger] text[k]),
    decreases text.len() - i,
{
    if i < text.len() && !is_newline_unit(text[i]) {
        lemma_line_end_clear(text, i + 1);
    }
}

/// The paragraph a triple click selects holds no line break and lies within
/// the text.
pub proof fn law_paragraph_has_no_line_break(text: Seq<u16>, char_index: int)
    requires
        char_index >= 0,
    ensures
        0 <= paragraph_range(text, char_index).0 <= paragraph_range(text, char_index).1
            <= text.len(),
        forall|k: int|
            paragraph_range(text, char_index).0 <= k < paragraph_range(text, char_index).1
                ==> !is_newline_unit(#[trigger] text[k]),
{
    if text.len() > 0 {
        let index = min_of(char_index, text.len() - 1);
        lemma_line_start_clear(text, index);
        let s0 = line_start(text, index);
        lemma_skip_line_breaks_bound(text, s0);
        lemma_line_end_clear(text, index);
        let start = skip_line_breaks(text, s0);
        let end = line_end(text, index);
        if start <= end {
            assert forall|k: int| start <= k < end implies !is_newline_unit(#[trigger] text[k]) by {
                if k < index {
                    assert(s0 <= k);
                }
            }
        }
    }
}

} // verus!
