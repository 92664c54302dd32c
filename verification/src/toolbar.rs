//! The floating toolbar: the table of instances behind it, its window and its preferences.

pub mod board;
pub mod fullscreen;
pub mod host;
pub mod messages;
pub mod polled;
pub mod prefs;
pub mod tooltip;
pub mod window;
