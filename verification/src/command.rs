//! The commands the user can give the application.
use vstd::prelude::*;

verus! {

/// A command from the tray menu, the hotkey or a window.
#[derive(Debug, Clone, Copy, PartialEq, Eq, Structural)]
pub enum AppCommand {
    TranslateSelection,
    TranslateClipboard,
    OpenSettings,
    OpenLatestRelease,
    RetryTranslation,
    CopyTranslation,
    Exit,
}

} // verus!
