//! What the windows of the application look like and how they react,
//! written as plain functions of their state.
pub mod theme;
pub mod font;
pub mod button;
pub mod checkbox;
pub mod combo;
pub mod edit;
pub mod listbox;
pub mod translate_window;
pub mod tray;
pub mod settings_window;
pub mod tracker;
