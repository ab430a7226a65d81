//! The notification-area icon and its menu.
use vstd::prelude::*;

verus! {

/// Shows the translation window.
pub const MENU_SHOW_TRANSLATION_WINDOW: usize = 1001;

/// Opens the settings window.
pub const MENU_SETTINGS: usize = 1002;

/// Quits the application.
pub const MENU_EXIT: usize = 1004;

/// Opens the directory of the logs.
pub const MENU_OPEN_LOG_DIRECTORY: usize = 1005;

/// Opens the page of the latest release.
pub const MENU_OPEN_LATEST_RELEASE: usize = 1006;

/// The name of the window class that receives the icon's messages.
pub const TRAY_WINDOW_CLASS_NAME: &'static str = "ait_tray_window";

} // verus!
