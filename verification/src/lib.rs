//! A tray translator for selected text: the settings, hotkeys, secrets,
//! translation requests and answers, and the behaviour of its windows.
pub mod app;
pub mod capture;
pub mod command;
pub mod config;
pub mod diagnostics;
pub mod error;
pub mod hotkey;
pub mod json;
pub mod logging;
pub mod secret;
pub mod startup;
pub mod text;
pub mod translator;
pub mod ui;
pub mod update;
