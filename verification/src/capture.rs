//! Taking the selected text: from the focused control where it tells its
//! selection, else by copying it through the clipboard.
use crate::error::{error_text, AppError, Result};
use crate::text::{is_blank, owned, str_blank, str_chars, string_from_chars};
use vstd::prelude::*;

verus! {

/// The text that was selected.
#[derive(Debug, Clone, PartialEq, Eq)]
pub struct CapturedText {
    pub text: String,
}

/// Why no text could be taken.
#[derive(Debug, Clone, Copy, PartialEq, Eq, Structural)]
pub enum CaptureErrorKind {
    NoText,
    ClipboardUnavailable,
    CopyFailed,
}

/// Why no text could be taken, with a message.
#[derive(Debug, Clone, PartialEq, Eq)]
pub struct CaptureError {
    pub kind: CaptureErrorKind,
    pub message: String,
}

impl CaptureError {
    /// The text of the error: its message.
    pub fn display_string(&self) -> (r: String)
        ensures
            r@ == self.message@,
    {
        self.message.clone()
    }
}

/// Reading and writing the clipboard, and the number of its changes.
pub trait ClipboardBackend {
    fn read_text(&self) -> Result<Option<String>>;

    fn write_text(&self, text: &str) -> Result<()>;

    /// A number that changes whenever the clipboard's content changes.
    fn sequence_number(&self) -> Result<u32>;
}

/// Sending the copy shortcut to the focused window.
pub trait CopyBackend {
    fn send_copy(&self) -> Result<()>;
}

/// A copy source that sends nothing, so that the clipboard never changes.
pub struct NoCopyBackend;

impl CopyBackend for NoCopyBackend {
    fn send_copy(&self) -> (r: Result<()>)
        ensures
            r is Ok,
    {
        Ok(())
    }
}

/// A key event of the copy shortcut.
#[derive(Debug, Clone, Copy, PartialEq, Eq, Structural)]
pub enum CopyAction {
    ReleaseCtrl,
    ReleaseAlt,
    ReleaseShift,
    ReleaseWin,
    ReleaseTab,
    ReleaseEscape,
    ReleaseCapsLock,
    ReleaseC,
    PressCtrl,
    PressC,
}

/// The key events that copy the selection: first every key that the user
/// may still hold from the hotkey is released, so that it does not change
/// the shortcut; then Ctrl+C is pressed and released.
pub open spec fn copy_key_sequence() -> Seq<CopyAction> {
    seq![
        CopyAction::ReleaseCtrl,
        CopyAction::ReleaseAlt,
        CopyAction::ReleaseShift,
        CopyAction::ReleaseWin,
        CopyAction::ReleaseTab,
        CopyAction::ReleaseEscape,
        CopyAction::ReleaseCapsLock,
        CopyAction::ReleaseC,
        CopyAction::PressCtrl,
        CopyAction::PressC,
        CopyAction::ReleaseC,
        CopyAction::ReleaseCtrl,
    ]
}

/// The key events that copy the selection (see `copy_key_sequence`).
pub fn copy_key_actions() -> (r: Vec<CopyAction>)
    ensures
        r@ == copy_key_sequence(),
{
    vec![
        CopyAction::ReleaseCtrl,
        CopyAction::ReleaseAlt,
        CopyAction::ReleaseShift,
        CopyAction::ReleaseWin,
        CopyAction::ReleaseTab,
        CopyAction::ReleaseEscape,
        CopyAction::ReleaseCapsLock,
        CopyAction::ReleaseC,
        CopyAction::PressCtrl,
        CopyAction::PressC,
        CopyAction::ReleaseC,
        CopyAction::ReleaseCtrl,
    ]
}

/// The virtual-key code of the key of an event, and whether the key goes
/// up.
pub open spec fn copy_action_key_spec(action: CopyAction) -> (u16, bool) {
    match action {
        CopyAction::ReleaseCtrl => (0x11, true),
        CopyAction::ReleaseAlt => (0x12, true),
        CopyAction::ReleaseShift => (0x10, true),
        CopyAction::ReleaseWin => (0x5B, true),
        CopyAction::ReleaseTab => (0x09, true),
        CopyAction::ReleaseEscape => (0x1B, true),
        CopyAction::ReleaseCapsLock => (0x14, true),
        CopyAction::ReleaseC => (0x43, true),
        CopyAction::PressCtrl => (0x11, false),
        CopyAction::PressC => (0x43, false),
    }
}

/// The virtual-key code of an event's key, and whether the key goes up
/// (see `copy_action_key_spec`).
pub fn copy_action_key(action: CopyAction) -> (r: (u16, bool))
    ensures
        r == copy_action_key_spec(action),
{
    match action {
        CopyAction::ReleaseCtrl => (0x11, true),
        CopyAction::ReleaseAlt => (0x12, true),
        CopyAction::ReleaseShift => (0x10, true),
        CopyAction::ReleaseWin => (0x5B, true),
        CopyAction::ReleaseTab => (0x09, true),
        CopyAction::ReleaseEscape => (0x1B, true),
        CopyAction::ReleaseCapsLock => (0x14, true),
        CopyAction::ReleaseC => (0x43, true),
        CopyAction::PressCtrl => (0x11, false),
        CopyAction::PressC => (0x43, false),
    }
}

/// Asking the focused control for its selection.
pub trait SelectionBackend {
    fn read_selected_text(&self) -> Result<Option<String>>;
}

/// A selection source that never has a selection.
pub struct NoSelectionBackend;

impl SelectionBackend for NoSelectionBackend {
    fn read_selected_text(&self) -> (r: Result<Option<String>>)
        ensures
            r matches Ok(None),
    {
        Ok(None)
    }
}

/// Takes the selected text, from the selection source if it has one, else
/// by copying it through the clipboard, waiting at most `copy_wait` for the
/// copy.
pub struct CaptureService<B, S = NoSelectionBackend, C = NoCopyBackend> {
    backend: B,
    selection: S,
    copy: C,
    copy_wait: std::time::Duration,
}

impl<B: ClipboardBackend> CaptureService<B> {
    /// A service on the given clipboard, without a selection source or a
    /// copy source.
    pub fn new(backend: B, copy_wait: std::time::Duration) -> (s: Self)
        ensures
            s.backend_spec() == backend,
            s.copy_wait_spec() == copy_wait,
    {
        CaptureService { backend, selection: NoSelectionBackend, copy: NoCopyBackend, copy_wait }
    }
}

impl<B, S, C> CaptureService<B, S, C> {
    /// The clipboard of the service.
    pub closed spec fn backend_spec(&self) -> B {
        self.backend
    }

    /// The selection source of the service.
    pub closed spec fn selection_spec(&self) -> S {
        self.selection
    }

    /// The copy source of the service.
    pub closed spec fn copy_spec(&self) -> C {
        self.copy
    }

    /// How long the service waits for a copy.
    pub closed spec fn copy_wait_spec(&self) -> std::time::Duration {
        self.copy_wait
    }

    /// The same service with another selection source.
    pub fn with_selection<NextSelection>(self, selection: NextSelection) -> (s: CaptureService<
        B,
        NextSelection,
        C,
    >)
        ensures
            s.backend_spec() == self.backend_spec(),
            s.selection_spec() == selection,
            s.copy_spec() == self.copy_spec(),
            s.copy_wait_spec() == self.copy_wait_spec(),
    {
        CaptureService {
            backend: self.backend,
            selection,
            copy: self.copy,
            copy_wait: self.copy_wait,
        }
    }

    /// The same service with another copy source.
    pub fn with_copy<NextCopy>(self, copy: NextCopy) -> (s: CaptureService<B, S, NextCopy>)
        ensures
            s.backend_spec() == self.backend_spec(),
            s.selection_spec() == self.selection_spec(),
            s.copy_spec() == copy,
            s.copy_wait_spec() == self.copy_wait_spec(),
    {
        CaptureService {
            backend: self.backend,
            selection: self.selection,
            copy,
            copy_wait: self.copy_wait,
        }
    }

    /// The clipboard of the service.
    pub fn backend(&self) -> (b: &B)
        ensures
            *b == self.backend_spec(),
    {
        &self.backend
    }

    /// The selection source of the service.
    pub fn selection(&self) -> (s: &S)
        ensures
            *s == self.selection_spec(),
    {
        &self.selection
    }

    /// The copy source of the service.
    pub fn copy(&self) -> (c: &C)
        ensures
            *c == self.copy_spec(),
    {
        &self.copy
    }

    /// How long the service waits for a copy.
    pub fn copy_wait(&self) -> (d: std::time::Duration)
        ensures
            d == self.copy_wait_spec(),
    {
        self.copy_wait
    }
}

/// The error for a clipboard that could not be used, with the text of the
/// failure.
pub open spec fn clipboard_error(err: AppError) -> (CaptureErrorKind, Seq<char>) {
    (CaptureErrorKind::ClipboardUnavailable, error_text(err))
}

/// A failure of the clipboard, as a capture error.
pub fn to_capture_error(err: AppError) -> (e: CaptureError)
    ensures
        e.kind == CaptureErrorKind::ClipboardUnavailable,
        e.message@ == error_text(err),
{
    CaptureError { kind: CaptureErrorKind::ClipboardUnavailable, message: err.display_string() }
}

/// A failure to send the copy shortcut, as a capture error.
pub fn copy_failed_error(err: AppError) -> (e: CaptureError)
    ensures
        e.kind == CaptureErrorKind::CopyFailed,
        e.message@ == error_text(err),
{
    CaptureError { kind: CaptureErrorKind::CopyFailed, message: err.display_string() }
}

/// The error when the clipboard stayed unreadable until the deadline.
pub fn clipboard_timeout_error() -> (e: CaptureError)
    ensures
        e.kind == CaptureErrorKind::ClipboardUnavailable,
        e.message@ == "取词错误: "@ + "读取剪贴板失败"@,
{
    to_capture_error(AppError::Capture(owned("读取剪贴板失败")))
}

/// A character of a selection as it is kept: a full-width semicolon and
/// curly quotes become their ASCII forms.
pub open spec fn normalized_selection_char(c: char) -> char {
    if c == '；' {
        ';'
    } else if c == '“' || c == '”' {
        '"'
    } else if c == '‘' || c == '’' {
        '\''
    } else {
        c
    }
}

/// The object replacement character and the replacement character, which
/// some controls put in their selection for what is not text.
pub open spec fn is_selection_artifact(c: char) -> bool {
    c == '\u{fffc}' || c == '\u{fffd}'
}

/// A selection as it is kept: without artifacts, each other character
/// normalized.
pub open spec fn normalized_selection(s: Seq<char>) -> Seq<char>
    decreases s.len(),
{
    if s.len() == 0 {
        Seq::empty()
    } else {
        let rest = normalized_selection(s.drop_last());
        if is_selection_artifact(s.last()) {
            rest
        } else {
            rest.push(normalized_selection_char(s.last()))
        }
    }
}

/// A character that normalizing a selection leaves out or changes: the
/// object replacement character, the replacement character, the full-width
/// semicolon and the curly quotes.
pub open spec fn touched_by_normalizing(c: char) -> bool {
    c == '\u{fffc}' || c == '\u{fffd}' || c == '；' || c == '“' || c == '”' || c == '‘' || c
        == '’'
}

/// Normalizing keeps every other character, in order: a selection without
/// those characters (line breaks, tabs and any other text included) comes
/// back unchanged; and the result holds no replacement character, no
/// full-width semicolon and no curly quote.
pub proof fn law_normalizing_keeps_other_text(s: Seq<char>)
    ensures
        (forall|i: int| 0 <= i < s.len() ==> !touched_by_normalizing(#[trigger] s[i]))
            ==> normalized_selection(s) == s,
        forall|i: int|
            0 <= i < normalized_selection(s).len() ==> !touched_by_normalizing(
                #[trigger] normalized_selection(s)[i],
            ),
        normalized_selection(s).len() <= s.len(),
    decreases s.len(),
{
    if s.len() > 0 {
        law_normalizing_keeps_other_text(s.drop_last());
        let r = normalized_selection(s.drop_last());
        if forall|i: int| 0 <= i < s.len() ==> !touched_by_normalizing(#[trigger] s[i]) {
            assert forall|i: int| 0 <= i < s.drop_last().len() implies !touched_by_normalizing(
                #[trigger] s.drop_last()[i],
            ) by {
                assert(s.drop_last()[i] == s[i]);
            }
            assert(!touched_by_normalizing(s[s.len() - 1]));
            assert(s.drop_last().push(s.last()) == s);
        }
        let n = normalized_selection(s);
        assert forall|i: int| 0 <= i < n.len() implies !touched_by_normalizing(#[trigger] n[i]) by {
            if i < r.len() {
                assert(n[i] == r[i]);
            }
        }
    }
}

/// A selection read from a control, with the artifacts that controls add
/// taken out and full-width punctuation made ASCII.
pub fn normalize_selection_text(text: &str) -> (r: String)
    ensures
        r@ == normalized_selection(text@),
{
    let v = str_chars(text);
    let mut out: Vec<char> = Vec::new();
    let mut i: usize = 0;
    while i < v.len()
        invariant
            i <= v.len(),
            out@ == normalized_selection(v@.take(i as int)),
        decreases v.len() - i,
    {
        let c = v[i];
        assert(v@.take(i + 1).drop_last() == v@.take(i as int));
        if c == '\u{fffc}' || c == '\u{fffd}' {
        } else if c == '；' {
            out.push(';');
        } else if c == '“' || c == '”' {
            out.push('"');
        } else if c == '‘' || c == '’' {
            out.push('\'');
        } else {
            out.push(c);
        }
        i = i + 1;
    }
    assert(v@.take(v.len() as int) == v@);
    string_from_chars(&out)
}

/// What the selection source said: its text, normalized, when it had one
/// that is not blank; else nothing, and the clipboard is tried.
pub open spec fn selection_outcome_text(read: std::result::Result<Option<Seq<char>>, ()>) -> Option<Seq<char>> {
    match read {
        Ok(Some(t)) => if is_blank(normalized_selection(t)) {
            None
        } else {
            Some(normalized_selection(t))
        },
        _ => None,
    }
}

/// The text taken from the selection source, if it gave one that is not
/// blank; a failure of the source falls back to the clipboard.
pub fn selection_capture(read: Result<Option<String>>) -> (r: Option<CapturedText>)
    ensures
        match read {
            Ok(Some(t)) => if is_blank(normalized_selection(t@)) {
                r is None
            } else {
                r matches Some(c) && c.text@ == normalized_selection(t@)
            },
            _ => r is None,
        },
{
    match read {
        Ok(Some(t)) => {
            let text = normalize_selection_text(t.as_str());
            if str_blank(text.as_str()) {
                None
            } else {
                Some(CapturedText { text })
            }
        },
        _ => None,
    }
}

/// What to do after a read of the clipboard.
#[derive(Debug)]
pub enum ClipboardReadStep {
    /// The clipboard was read.
    Done(Option<String>),
    /// The clipboard failed and the time is up.
    Failed(CaptureError),
    /// The clipboard failed; read it again.
    Retry,
}

/// What to do after a read of the clipboard: keep what was read; on a
/// failure, give up once the time is up, else read again.
pub fn clipboard_read_step(read: Result<Option<String>>, deadline_passed: bool) -> (r: ClipboardReadStep)
    ensures
        match read {
            Ok(t) => r matches ClipboardReadStep::Done(x) && x == t,
            Err(e) => if deadline_passed {
                r matches ClipboardReadStep::Failed(ce) && ce.kind
                    == CaptureErrorKind::ClipboardUnavailable && ce.message@ == error_text(e)
            } else {
                r is Retry
            },
        },
{
    match read {
        Ok(t) => ClipboardReadStep::Done(t),
        Err(e) => if deadline_passed {
            ClipboardReadStep::Failed(to_capture_error(e))
        } else {
            ClipboardReadStep::Retry
        },
    }
}

/// The clipboard changed since the copy was sent: its sequence number
/// could be read and differs from the one before.
pub fn clipboard_sequence_changed(before: u32, now: Result<u32>) -> (r: bool)
    ensures
        r == (now matches Ok(n) && n != before),
{
    match now {
        Ok(n) => n != before,
        Err(_) => false,
    }
}

/// The clipboard holds the copied text: a text that is not blank.
pub fn copied_text_arrived(read: &Option<String>) -> (r: bool)
    ensures
        r == (read matches Some(t) && !is_blank(t@)),
{
    match read {
        Some(value) => !str_blank(value.as_str()),
        None => false,
    }
}

/// The message when the copy gave no text.
pub open spec fn no_text_message() -> Seq<char> {
    "没有取到选中文本"@
}

/// The message when the clipboard did not change after the copy.
pub open spec fn copy_unchanged_message() -> Seq<char> {
    "复制选中文本失败"@
}

/// What the copy gave: a failure when the clipboard did not change; else
/// the copied text, which must not be blank.
pub fn copied_capture(clipboard_changed: bool, copied: Option<String>) -> (r: std::result::Result<
    CapturedText,
    CaptureError,
>)
    ensures
        !clipboard_changed ==> (r matches Err(e) && e.kind == CaptureErrorKind::CopyFailed
            && e.message@ == copy_unchanged_message()),
        clipboard_changed ==> match copied {
            Some(t) => if is_blank(t@) {
                r matches Err(e) && e.kind == CaptureErrorKind::NoText && e.message@
                    == no_text_message()
            } else {
                r matches Ok(c) && c.text == t
            },
            None => r matches Err(e) && e.kind == CaptureErrorKind::NoText && e.message@
                == no_text_message(),
        },
{
    if !clipboard_changed {
        return Err(
            CaptureError { kind: CaptureErrorKind::CopyFailed, message: owned("复制选中文本失败") },
        );
    }
    let text = match copied {
        Some(t) => t,
        None => String::new(),
    };
    if str_blank(text.as_str()) {
        return Err(CaptureError { kind: CaptureErrorKind::NoText, message: owned("没有取到选中文本") });
    }
    Ok(CapturedText { text })
}

/// Where the taking of the selection stands.
#[derive(Debug)]
pub enum CaptureState {
    /// Nothing asked yet.
    Start,
    /// The selection source was asked.
    SelectionAsked,
    /// The clipboard was asked for the text it holds before the copy.
    PreviousAsked,
    /// The clipboard was asked for its sequence number before the copy.
    SequenceAsked { previous: Option<String> },
    /// The copy shortcut was sent.
    CopySent { previous: Option<String>, before: u32 },
    /// Waiting for the clipboard to change; `last` is the last text read.
    Polling { previous: Option<String>, before: u32, changed: bool, last: Option<String> },
    /// The clipboard changed and was asked for its text.
    CopiedAsked { previous: Option<String>, before: u32, last: Option<String> },
    /// Done.
    Finished,
}

/// What the program learned after carrying out an action.
#[derive(Debug)]
pub enum CaptureEvent {
    /// The taking starts.
    Begin,
    /// The selection source answered.
    SelectionRead(Result<Option<String>>),
    /// The clipboard's text before the copy was read; whether the time for
    /// it is up.
    PreviousRead { read: Result<Option<String>>, deadline_passed: bool },
    /// The clipboard's sequence number before the copy was read.
    SequenceRead(Result<u32>),
    /// The copy shortcut was sent.
    CopyDone(Result<()>),
    /// The clipboard's sequence number was read again; whether the time for
    /// the copy is up.
    SequencePolled { sequence: Result<u32>, deadline_passed: bool },
    /// The clipboard's text after the copy was read; whether the time for
    /// the copy is up.
    CopiedRead { read: Result<Option<String>>, deadline_passed: bool },
}

/// What the program is to do next.
#[derive(Debug)]
pub enum CaptureAction {
    /// Ask the selection source.
    ReadSelection,
    /// Read the clipboard's text, after a short pause when `wait`.
    ReadPrevious { wait: bool },
    /// Read the clipboard's sequence number.
    ReadSequence,
    /// Send the copy shortcut.
    SendCopy,
    /// Read the clipboard's sequence number, after a short pause when
    /// `wait`.
    PollSequence { wait: bool },
    /// Read the clipboard's text.
    ReadCopied,
    /// Put `restore` back on the clipboard when there is one, and end with
    /// `outcome`.
    Finish { restore: Option<String>, outcome: std::result::Result<CapturedText, CaptureError> },
}

/// The event is the answer to the action that the state asked for.
pub open spec fn event_fits(state: CaptureState, event: CaptureEvent) -> bool {
    match state {
        CaptureState::Start => event is Begin,
        CaptureState::SelectionAsked => event is SelectionRead,
        CaptureState::PreviousAsked => event is PreviousRead,
        CaptureState::SequenceAsked { .. } => event is SequenceRead,
        CaptureState::CopySent { .. } => event is CopyDone,
        CaptureState::Polling { .. } => event is SequencePolled,
        CaptureState::CopiedAsked { .. } => event is CopiedRead,
        CaptureState::Finished => false,
    }
}

/// The event is the answer to the action that the state asked for (see
/// `event_fits`).
pub fn capture_event_fits(state: &CaptureState, event: &CaptureEvent) -> (r: bool)
    ensures
        r == event_fits(*state, *event),
{
    match state {
        CaptureState::Start => matches!(event, CaptureEvent::Begin),
        CaptureState::SelectionAsked => matches!(event, CaptureEvent::SelectionRead(_)),
        CaptureState::PreviousAsked => matches!(event, CaptureEvent::PreviousRead { .. }),
        CaptureState::SequenceAsked { .. } => matches!(event, CaptureEvent::SequenceRead(_)),
        CaptureState::CopySent { .. } => matches!(event, CaptureEvent::CopyDone(_)),
        CaptureState::Polling { .. } => matches!(event, CaptureEvent::SequencePolled { .. }),
        CaptureState::CopiedAsked { .. } => matches!(event, CaptureEvent::CopiedRead { .. }),
        CaptureState::Finished => false,
    }
}

/// The clipboard's text after the copy was read, and it is not blank.
pub open spec fn copied_arrives(read: Result<Option<String>>) -> bool {
    read matches Ok(Some(t)) && !is_blank(t@)
}

/// The action ends the taking, putting `restore` back, with an outcome that
/// `copied_capture` gives for `changed` and `copied`.
pub open spec fn finishes_with_copy(
    action: CaptureAction,
    restore: Option<String>,
    changed: bool,
    copied: Option<String>,
) -> bool {
    action matches CaptureAction::Finish { restore: x, outcome } && x == restore && if !changed {
        outcome matches Err(e) && e.kind == CaptureErrorKind::CopyFailed && e.message@
            == copy_unchanged_message()
    } else {
        match copied {
            Some(t) => if is_blank(t@) {
                outcome matches Err(e) && e.kind == CaptureErrorKind::NoText && e.message@
                    == no_text_message()
            } else {
                outcome matches Ok(c) && c.text == t
            },
            None => outcome matches Err(e) && e.kind == CaptureErrorKind::NoText && e.message@
                == no_text_message(),
        }
    }
}

/// The action ends the taking without touching the clipboard, failing
/// with `kind` and the text of `err`.
pub open spec fn fails_untouched(action: CaptureAction, kind: CaptureErrorKind, err: AppError) -> bool {
    action matches CaptureAction::Finish { restore: None, outcome: Err(e) } && e.kind == kind
        && e.message@ == error_text(err)
}

/// One step of taking the selection: from where it stands and what was
/// learned, where it stands next and what to do.
///
/// The selection source is asked first; a text from it ends the taking
/// without touching the clipboard. Otherwise the clipboard's text is read
/// (again after a pause while it fails and time is left), then its
/// sequence number, then the copy is sent, and the sequence number is
/// polled until it changes and the clipboard holds text, or time is up.
/// Once the copy was sent, the taking ends by putting the text read before
/// back.
pub fn capture_step(state: CaptureState, event: CaptureEvent) -> (r: (CaptureState, CaptureAction))
    requires
        event_fits(state, event),
    ensures
        match (state, event) {
            (CaptureState::Start, _) => r.0 is SelectionAsked && r.1 is ReadSelection,
            (CaptureState::SelectionAsked, CaptureEvent::SelectionRead(read)) => match read {
                Ok(Some(t)) => if is_blank(normalized_selection(t@)) {
                    r.0 is PreviousAsked && r.1 == (CaptureAction::ReadPrevious { wait: false })
                } else {
                    r.0 is Finished && (r.1 matches CaptureAction::Finish {
                        restore: None,
                        outcome: Ok(c),
                    } && c.text@ == normalized_selection(t@))
                },
                _ => r.0 is PreviousAsked && r.1 == (CaptureAction::ReadPrevious { wait: false }),
            },
            (CaptureState::PreviousAsked, CaptureEvent::PreviousRead { read, deadline_passed }) =>
                match read {
                Ok(t) => r.0 == (CaptureState::SequenceAsked { previous: t }) && r.1 is ReadSequence,
                Err(e) => if deadline_passed {
                    r.0 is Finished && fails_untouched(r.1, CaptureErrorKind::ClipboardUnavailable, e)
                } else {
                    r.0 is PreviousAsked && r.1 == (CaptureAction::ReadPrevious { wait: true })
                },
            },
            (CaptureState::SequenceAsked { previous }, CaptureEvent::SequenceRead(seq)) => match seq {
                Ok(n) => r.0 == (CaptureState::CopySent { previous, before: n }) && r.1 is SendCopy,
                Err(e) => r.0 is Finished && fails_untouched(
                    r.1,
                    CaptureErrorKind::ClipboardUnavailable,
                    e,
                ),
            },
            (CaptureState::CopySent { previous, before }, CaptureEvent::CopyDone(sent)) => match sent {
                Ok(_) => r.0 == (CaptureState::Polling {
                    previous,
                    before,
                    changed: false,
                    last: None,
                }) && r.1 == (CaptureAction::PollSequence { wait: false }),
                Err(e) => r.0 is Finished && fails_untouched(r.1, CaptureErrorKind::CopyFailed, e),
            },
            (
                CaptureState::Polling { previous, before, changed, last },
                CaptureEvent::SequencePolled { sequence, deadline_passed },
            ) => if sequence matches Ok(n) && n != before {
                r.0 == (CaptureState::CopiedAsked { previous, before, last }) && r.1 is ReadCopied
            } else if deadline_passed {
                r.0 is Finished && finishes_with_copy(r.1, previous, changed, last)
            } else {
                r.0 == (CaptureState::Polling { previous, before, changed, last }) && r.1 == (
                CaptureAction::PollSequence { wait: true })
            },
            (
                CaptureState::CopiedAsked { previous, before, last },
                CaptureEvent::CopiedRead { read, deadline_passed },
            ) => {
                let seen = match read {
                    Ok(t) => t,
                    Err(_) => last,
                };
                if copied_arrives(read) {
                    r.0 is Finished && finishes_with_copy(r.1, previous, true, seen)
                } else if deadline_passed {
                    r.0 is Finished && finishes_with_copy(r.1, previous, true, seen)
                } else {
                    r.0 == (CaptureState::Polling { previous, before, changed: true, last: seen })
                        && r.1 == (CaptureAction::PollSequence { wait: true })
                }
            },
            _ => false,
        },
{
    match state {
        CaptureState::Start => (CaptureState::SelectionAsked, CaptureAction::ReadSelection),
        CaptureState::SelectionAsked => {
            let read = match event {
                CaptureEvent::SelectionRead(read) => read,
                _ => {
                    proof {
                        assert(false);
                    }
                    Ok(None)
                },
            };
            match selection_capture(read) {
                Some(c) => (
                    CaptureState::Finished,
                    CaptureAction::Finish { restore: None, outcome: Ok(c) },
                ),
                None => (CaptureState::PreviousAsked, CaptureAction::ReadPrevious { wait: false }),
            }
        },
        CaptureState::PreviousAsked => {
            let (read, deadline_passed) = match event {
                CaptureEvent::PreviousRead { read, deadline_passed } => (read, deadline_passed),
                _ => {
                    proof {
                        assert(false);
                    }
                    (Ok(None), false)
                },
            };
            match clipboard_read_step(read, deadline_passed) {
                ClipboardReadStep::Done(t) => (
                    CaptureState::SequenceAsked { previous: t },
                    CaptureAction::ReadSequence,
                ),
                ClipboardReadStep::Failed(e) => (
                    CaptureState::Finished,
                    CaptureAction::Finish { restore: None, outcome: Err(e) },
                ),
                ClipboardReadStep::Retry => (
                    CaptureState::PreviousAsked,
                    CaptureAction::ReadPrevious { wait: true },
                ),
            }
        },
        CaptureState::SequenceAsked { previous } => {
            let seq = match event {
                CaptureEvent::SequenceRead(seq) => seq,
                _ => {
                    proof {
                        assert(false);
                    }
                    Ok(0)
                },
            };
            match seq {
                Ok(n) => (CaptureState::CopySent { previous, before: n }, CaptureAction::SendCopy),
                Err(e) => (
                    CaptureState::Finished,
                    CaptureAction::Finish { restore: None, outcome: Err(to_capture_error(e)) },
                ),
            }
        },
        CaptureState::CopySent { previous, before } => {
            let sent = match event {
                CaptureEvent::CopyDone(sent) => sent,
                _ => {
                    proof {
                        assert(false);
                    }
                    Ok(())
                },
            };
            match sent {
                Ok(_) => (
                    CaptureState::Polling { previous, before, changed: false, last: None },
                    CaptureAction::PollSequence { wait: false },
                ),
                Err(e) => (
                    CaptureState::Finished,
                    CaptureAction::Finish { restore: None, outcome: Err(copy_failed_error(e)) },
                ),
            }
        },
        CaptureState::Polling { previous, before, changed, last } => {
            let (sequence, deadline_passed) = match event {
                CaptureEvent::SequencePolled { sequence, deadline_passed } => (
                    sequence,
                    deadline_passed,
                ),
                _ => {
                    proof {
                        assert(false);
                    }
                    (Ok(0), false)
                },
            };
            if clipboard_sequence_changed(before, sequence) {
                (CaptureState::CopiedAsked { previous, before, last }, CaptureAction::ReadCopied)
            } else if deadline_passed {
                (
                    CaptureState::Finished,
                    CaptureAction::Finish { restore: previous, outcome: copied_capture(changed, last) },
                )
            } else {
                (
                    CaptureState::Polling { previous, before, changed, last },
                    CaptureAction::PollSequence { wait: true },
                )
            }
        },
        CaptureState::CopiedAsked { previous, before, last } => {
            let (read, deadline_passed) = match event {
                CaptureEvent::CopiedRead { read, deadline_passed } => (read, deadline_passed),
                _ => {
                    proof {
                        assert(false);
                    }
                    (Ok(None), false)
                },
            };
            let arrived = match &read {
                Ok(t) => copied_text_arrived(t),
                Err(_) => false,
            };
            let seen = match read {
                Ok(t) => t,
                Err(_) => last,
            };
            if arrived || deadline_passed {
                (
                    CaptureState::Finished,
                    CaptureAction::Finish { restore: previous, outcome: copied_capture(true, seen) },
                )
            } else {
                (
                    CaptureState::Polling { previous, before, changed: true, last: seen },
                    CaptureAction::PollSequence { wait: true },
                )
            }
        },
        CaptureState::Finished => {
            proof {
                assert(false);
            }
            (CaptureState::Finished, CaptureAction::ReadSelection)
        },
    }
}

} // verus!
