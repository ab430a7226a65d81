use ait::capture::{
    clipboard_read_step, clipboard_sequence_changed, clipboard_timeout_error, copied_capture,
    copied_text_arrived, copy_action_key, copy_failed_error, copy_key_actions,
    normalize_selection_text, selection_capture, to_capture_error, CaptureErrorKind,
    CaptureService, ClipboardBackend, ClipboardReadStep, CopyAction, CopyBackend,
    NoCopyBackend, NoSelectionBackend, SelectionBackend,
};
use ait::capture::{
    capture_event_fits, capture_step, CaptureAction, CaptureError, CaptureEvent, CaptureState,
    CapturedText,
};
use ait::error::AppError;
use std::cell::RefCell;
use std::rc::Rc;
use std::time::{Duration, Instant};

#[test]
fn selection_text_normalization_drops_uia_artifacts() {
    assert_eq!(
        normalize_selection_text("left；right\u{fffc}\u{fffd}“quoted”‘single’"),
        "left;right\"quoted\"'single'"
    );
}

#[test]
fn selection_source_text_is_used_unless_blank_or_failed() {
    assert_eq!(
        selection_capture(Ok(Some("uia selection".to_string()))).unwrap().text,
        "uia selection"
    );
    assert!(selection_capture(Ok(Some(" \u{fffc} ".to_string()))).is_none());
    assert!(selection_capture(Ok(None)).is_none());
    assert!(selection_capture(Err(AppError::Capture("no TextPattern".to_string()))).is_none());
}

#[test]
fn clipboard_reads_are_retried_until_the_deadline() {
    assert!(matches!(
        clipboard_read_step(Ok(Some("x".to_string())), true),
        ClipboardReadStep::Done(Some(_))
    ));
    assert!(matches!(
        clipboard_read_step(Err(AppError::Capture("busy".to_string())), false),
        ClipboardReadStep::Retry
    ));
    match clipboard_read_step(Err(AppError::Capture("busy".to_string())), true) {
        ClipboardReadStep::Failed(err) => {
            assert_eq!(err.kind, CaptureErrorKind::ClipboardUnavailable);
            assert_eq!(err.message, "取词错误: busy");
        }
        _ => panic!("expected a failure"),
    }
    assert_eq!(clipboard_timeout_error().message, "取词错误: 读取剪贴板失败");
}

#[test]
fn copied_text_must_not_be_blank() {
    assert!(copied_text_arrived(&Some("new".to_string())));
    assert!(!copied_text_arrived(&Some("  ".to_string())));
    assert!(!copied_text_arrived(&None));
}

#[test]
fn clipboard_change_is_told_by_the_sequence_number() {
    assert!(clipboard_sequence_changed(7, Ok(8)));
    assert!(!clipboard_sequence_changed(7, Ok(7)));
    assert!(!clipboard_sequence_changed(7, Err(AppError::Capture("busy".to_string()))));
}

#[test]
fn copied_capture_refuses_blank_copies() {
    let err = copied_capture(true, Some(String::new())).unwrap_err();
    assert_eq!(err.kind, CaptureErrorKind::NoText);
    assert_eq!(err.display_string(), "没有取到选中文本");
    assert_eq!(copied_capture(true, Some("selected text".to_string())).unwrap().text, "selected text");
    assert_eq!(copied_capture(true, None).unwrap_err().kind, CaptureErrorKind::NoText);
}

#[test]
fn copied_capture_fails_without_clipboard_change() {
    let err = copied_capture(false, Some("selected text".to_string())).unwrap_err();
    assert_eq!(err.kind, CaptureErrorKind::CopyFailed);
    assert_eq!(err.message, "复制选中文本失败");
}

#[test]
fn copy_key_actions_release_held_keys_first() {
    assert_eq!(
        copy_key_actions(),
        vec![
            CopyAction::ReleaseCtrl,
            CopyAction::ReleaseAlt,
            CopyAction::ReleaseShift,
            CopyAction::ReleaseWin,
            CopyAction::ReleaseTab,
            CopyAction::ReleaseEscape,
            CopyAction::ReleaseCapsLock,
            CopyAction::ReleaseC,
            CopyAction::PressCtrl,
            CopyAction::PressC,
            CopyAction::ReleaseC,
            CopyAction::ReleaseCtrl,
        ]
    );
}

#[test]
fn copy_actions_name_their_keys() {
    assert_eq!(copy_action_key(CopyAction::PressCtrl), (0x11, false));
    assert_eq!(copy_action_key(CopyAction::ReleaseCtrl), (0x11, true));
    assert_eq!(copy_action_key(CopyAction::PressC), (0x43, false));
    assert_eq!(copy_action_key(CopyAction::ReleaseWin), (0x5B, true));
    assert_eq!(copy_action_key(CopyAction::ReleaseCapsLock), (0x14, true));
}

#[test]
fn capture_errors_carry_the_failure_text() {
    let err = to_capture_error(AppError::Capture("打开剪贴板失败".to_string()));
    assert_eq!(err.kind, CaptureErrorKind::ClipboardUnavailable);
    assert_eq!(err.message, "取词错误: 打开剪贴板失败");
    let err = copy_failed_error(AppError::Capture("发送复制快捷键失败".to_string()));
    assert_eq!(err.kind, CaptureErrorKind::CopyFailed);
}

struct NullClipboard;

impl ClipboardBackend for NullClipboard {
    fn read_text(&self) -> ait::error::Result<Option<String>> {
        Ok(None)
    }

    fn write_text(&self, _text: &str) -> ait::error::Result<()> {
        Ok(())
    }

    fn sequence_number(&self) -> ait::error::Result<u32> {
        Ok(3)
    }
}

struct FailingCopy;

impl CopyBackend for FailingCopy {
    fn send_copy(&self) -> ait::error::Result<()> {
        Err(AppError::Capture("no keyboard".to_string()))
    }
}

#[test]
fn capture_service_keeps_its_parts() {
    let service = CaptureService::new(NullClipboard, Duration::from_millis(20));
    assert_eq!(service.copy_wait(), Duration::from_millis(20));
    assert!(service.backend().read_text().unwrap().is_none());
    assert!(service.selection().read_selected_text().unwrap().is_none());
    assert!(service.copy().send_copy().is_ok());
    assert!(NoCopyBackend.send_copy().is_ok());
    let service = service.with_selection(NoSelectionBackend).with_copy(FailingCopy);
    assert_eq!(service.copy_wait(), Duration::from_millis(20));
    assert_eq!(service.backend().sequence_number().unwrap(), 3);
    assert!(service.copy().send_copy().is_err());
}

/// Carries out the capture steps on the given parts, as the program does.
fn run_capture<B: ClipboardBackend, S: SelectionBackend, C: CopyBackend>(
    service: &CaptureService<B, S, C>,
) -> Result<CapturedText, CaptureError> {
    let mut deadline = Instant::now() + service.copy_wait();
    let mut state = CaptureState::Start;
    let mut event = CaptureEvent::Begin;
    loop {
        assert!(capture_event_fits(&state, &event));
        let (next, action) = capture_step(state, event);
        state = next;
        event = match action {
            CaptureAction::ReadSelection => {
                let read = service.selection().read_selected_text();
                deadline = Instant::now() + service.copy_wait();
                CaptureEvent::SelectionRead(read)
            }
            CaptureAction::ReadPrevious { .. } => {
                let read = service.backend().read_text();
                CaptureEvent::PreviousRead { read, deadline_passed: Instant::now() >= deadline }
            }
            CaptureAction::ReadSequence => CaptureEvent::SequenceRead(service.backend().sequence_number()),
            CaptureAction::SendCopy => {
                let sent = service.copy().send_copy();
                deadline = Instant::now() + service.copy_wait();
                CaptureEvent::CopyDone(sent)
            }
            CaptureAction::PollSequence { .. } => {
                let sequence = service.backend().sequence_number();
                CaptureEvent::SequencePolled { sequence, deadline_passed: Instant::now() >= deadline }
            }
            CaptureAction::ReadCopied => {
                let read = service.backend().read_text();
                CaptureEvent::CopiedRead { read, deadline_passed: Instant::now() >= deadline }
            }
            CaptureAction::Finish { restore, outcome } => {
                if let Some(old) = restore {
                    let _ = service.backend().write_text(&old);
                }
                return outcome;
            }
        };
    }
}

#[derive(Default)]
struct FakeCaptureState {
    current: RefCell<Option<String>>,
    copied: RefCell<Option<String>>,
    read_failures: RefCell<usize>,
    writes: RefCell<Vec<String>>,
    sequence: RefCell<u32>,
    advance_sequence_on_copy: RefCell<bool>,
    actions: RefCell<Vec<CopyAction>>,
}

#[derive(Clone, Default)]
struct FakeClipboard(Rc<FakeCaptureState>);

#[derive(Clone, Default)]
struct FakeCopy(Rc<FakeCaptureState>);

impl ClipboardBackend for FakeClipboard {
    fn read_text(&self) -> ait::error::Result<Option<String>> {
        let mut failures = self.0.read_failures.borrow_mut();
        if *failures > 0 {
            *failures -= 1;
            return Err(AppError::Capture("clipboard temporarily unavailable".to_string()));
        }
        Ok(self.0.current.borrow().clone())
    }

    fn write_text(&self, text: &str) -> ait::error::Result<()> {
        self.0.writes.borrow_mut().push(text.to_string());
        *self.0.current.borrow_mut() = Some(text.to_string());
        *self.0.sequence.borrow_mut() += 1;
        Ok(())
    }

    fn sequence_number(&self) -> ait::error::Result<u32> {
        Ok(*self.0.sequence.borrow())
    }
}

impl CopyBackend for FakeCopy {
    fn send_copy(&self) -> ait::error::Result<()> {
        self.0.actions.borrow_mut().extend(copy_key_actions());
        if let Some(text) = self.0.copied.borrow().clone() {
            *self.0.current.borrow_mut() = Some(text);
            if *self.0.advance_sequence_on_copy.borrow() {
                *self.0.sequence.borrow_mut() += 1;
            }
        }
        Ok(())
    }
}

fn fake_pair() -> (FakeClipboard, FakeCopy) {
    let state = Rc::new(FakeCaptureState::default());
    (FakeClipboard(state.clone()), FakeCopy(state))
}

#[derive(Default)]
struct FakeSelection {
    selected: RefCell<Option<String>>,
    failure: RefCell<Option<AppError>>,
}

impl SelectionBackend for FakeSelection {
    fn read_selected_text(&self) -> ait::error::Result<Option<String>> {
        if let Some(err) = self.failure.borrow_mut().take() {
            return Err(err);
        }
        Ok(self.selected.borrow().clone())
    }
}

#[test]
fn capture_restores_previous_text_clipboard() {
    let (fake, copy) = fake_pair();
    *fake.0.current.borrow_mut() = Some("old clipboard".to_string());
    *fake.0.copied.borrow_mut() = Some("selected text".to_string());
    *fake.0.advance_sequence_on_copy.borrow_mut() = true;
    let service = CaptureService::new(fake, Duration::from_millis(20)).with_copy(copy);

    let captured = run_capture(&service).unwrap();

    assert_eq!(captured.text, "selected text");
    assert_eq!(service.backend().read_text().unwrap(), Some("old clipboard".to_string()));
}

#[test]
fn capture_returns_empty_when_copy_produces_no_text() {
    let (fake, copy) = fake_pair();
    *fake.0.current.borrow_mut() = Some("old clipboard".to_string());
    *fake.0.copied.borrow_mut() = Some(String::new());
    *fake.0.advance_sequence_on_copy.borrow_mut() = true;
    let service = CaptureService::new(fake, Duration::from_millis(20)).with_copy(copy);

    let err = run_capture(&service).unwrap_err();

    assert_eq!(err.kind, CaptureErrorKind::NoText);
    assert_eq!(service.backend().read_text().unwrap(), Some("old clipboard".to_string()));
}

#[test]
fn capture_prefers_selection_backend_without_touching_clipboard() {
    let (fake, copy) = fake_pair();
    *fake.0.current.borrow_mut() = Some("old clipboard".to_string());
    *fake.0.copied.borrow_mut() = Some("clipboard copy".to_string());
    let selection = FakeSelection::default();
    *selection.selected.borrow_mut() = Some("uia selection".to_string());
    let service = CaptureService::new(fake, Duration::from_millis(1))
        .with_selection(selection)
        .with_copy(copy.clone());

    let captured = run_capture(&service).unwrap();

    assert_eq!(captured.text, "uia selection");
    assert!(copy.0.actions.borrow().is_empty());
    assert!(service.backend().0.writes.borrow().is_empty());
}

#[test]
fn capture_normalizes_known_uia_text_artifacts() {
    let (fake, copy) = fake_pair();
    *fake.0.current.borrow_mut() = Some("old clipboard".to_string());
    *fake.0.copied.borrow_mut() = Some("clipboard copy".to_string());
    let selection = FakeSelection::default();
    *selection.selected.borrow_mut() =
        Some("left；right\u{fffc}\u{fffd}“quoted”‘single’".to_string());
    let service = CaptureService::new(fake, Duration::from_millis(1))
        .with_selection(selection)
        .with_copy(copy.clone());

    let captured = run_capture(&service).unwrap();

    assert_eq!(captured.text, "left;right\"quoted\"'single'");
    assert!(copy.0.actions.borrow().is_empty());
}

#[test]
fn capture_polls_until_copied_text_arrives() {
    #[derive(Default)]
    struct DelayedState {
        reads: RefCell<usize>,
        text: RefCell<Option<String>>,
        sequence: RefCell<u32>,
    }

    #[derive(Clone, Default)]
    struct DelayedClipboard(Rc<DelayedState>);

    #[derive(Clone, Default)]
    struct DelayedCopy(Rc<DelayedState>);

    impl ClipboardBackend for DelayedClipboard {
        fn read_text(&self) -> ait::error::Result<Option<String>> {
            *self.0.reads.borrow_mut() += 1;
            Ok(self.0.text.borrow().clone())
        }

        fn write_text(&self, text: &str) -> ait::error::Result<()> {
            *self.0.text.borrow_mut() = Some(text.to_string());
            *self.0.sequence.borrow_mut() += 1;
            Ok(())
        }

        fn sequence_number(&self) -> ait::error::Result<u32> {
            Ok(*self.0.sequence.borrow())
        }
    }

    impl CopyBackend for DelayedCopy {
        fn send_copy(&self) -> ait::error::Result<()> {
            *self.0.text.borrow_mut() = Some("delayed selected text".to_string());
            *self.0.sequence.borrow_mut() += 1;
            Ok(())
        }
    }

    let state = Rc::new(DelayedState::default());
    *state.text.borrow_mut() = Some("old clipboard".to_string());
    let service = CaptureService::new(DelayedClipboard(state.clone()), Duration::from_millis(20))
        .with_copy(DelayedCopy(state));

    let captured = run_capture(&service).unwrap();

    assert_eq!(captured.text, "delayed selected text");
}

#[test]
fn capture_retries_when_clipboard_is_temporarily_unavailable() {
    let (fake, copy) = fake_pair();
    *fake.0.current.borrow_mut() = Some("old clipboard".to_string());
    *fake.0.copied.borrow_mut() = Some("selected text".to_string());
    *fake.0.advance_sequence_on_copy.borrow_mut() = true;
    *fake.0.read_failures.borrow_mut() = 1;
    let service = CaptureService::new(fake, Duration::from_millis(20)).with_copy(copy);

    let captured = run_capture(&service).unwrap();

    assert_eq!(captured.text, "selected text");
}

#[test]
fn capture_releases_interfering_keys_before_copy() {
    let (fake, copy) = fake_pair();
    *fake.0.current.borrow_mut() = Some("old clipboard".to_string());
    *fake.0.copied.borrow_mut() = Some("selected text".to_string());
    *fake.0.advance_sequence_on_copy.borrow_mut() = true;
    let service = CaptureService::new(fake, Duration::from_millis(20)).with_copy(copy.clone());

    let captured = run_capture(&service).unwrap();

    assert_eq!(captured.text, "selected text");
    assert_eq!(
        *copy.0.actions.borrow(),
        vec![
            CopyAction::ReleaseCtrl,
            CopyAction::ReleaseAlt,
            CopyAction::ReleaseShift,
            CopyAction::ReleaseWin,
            CopyAction::ReleaseTab,
            CopyAction::ReleaseEscape,
            CopyAction::ReleaseCapsLock,
            CopyAction::ReleaseC,
            CopyAction::PressCtrl,
            CopyAction::PressC,
            CopyAction::ReleaseC,
            CopyAction::ReleaseCtrl,
        ]
    );
}

#[test]
fn capture_fails_when_copy_does_not_change_clipboard_sequence() {
    let (fake, copy) = fake_pair();
    *fake.0.current.borrow_mut() = Some("old clipboard".to_string());
    *fake.0.copied.borrow_mut() = Some("selected text".to_string());
    *fake.0.advance_sequence_on_copy.borrow_mut() = false;
    let service = CaptureService::new(fake, Duration::from_millis(1)).with_copy(copy);

    let err = run_capture(&service).unwrap_err();

    assert_eq!(err.kind, CaptureErrorKind::CopyFailed);
    assert_eq!(service.backend().read_text().unwrap(), Some("old clipboard".to_string()));
}

#[test]
fn capture_falls_back_to_clipboard_when_selection_backend_errors() {
    let (fake, copy) = fake_pair();
    *fake.0.current.borrow_mut() = Some("old clipboard".to_string());
    *fake.0.copied.borrow_mut() = Some("selected text".to_string());
    *fake.0.advance_sequence_on_copy.borrow_mut() = true;
    let selection = FakeSelection::default();
    *selection.failure.borrow_mut() = Some(AppError::Capture(
        "focus element does not support TextPattern".to_string(),
    ));
    let service = CaptureService::new(fake, Duration::from_millis(20))
        .with_selection(selection)
        .with_copy(copy);

    let captured = run_capture(&service).unwrap();

    assert_eq!(captured.text, "selected text");
}

#[test]
fn capture_step_starts_with_the_selection() {
    let (state, action) = capture_step(CaptureState::Start, CaptureEvent::Begin);
    assert!(matches!(state, CaptureState::SelectionAsked));
    assert!(matches!(action, CaptureAction::ReadSelection));
    let (_, action) = capture_step(
        CaptureState::Polling {
            previous: Some("old".to_string()),
            before: 4,
            changed: false,
            last: None,
        },
        CaptureEvent::SequencePolled { sequence: Ok(4), deadline_passed: true },
    );
    match action {
        CaptureAction::Finish { restore, outcome } => {
            assert_eq!(restore, Some("old".to_string()));
            assert_eq!(outcome.unwrap_err().kind, CaptureErrorKind::CopyFailed);
        }
        _ => panic!("expected the end"),
    }
}
