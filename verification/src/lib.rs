//! The decision logic of the iuv input method on Windows, verified with Verus.

pub mod candwin;
pub mod capture;
pub mod composition;
pub mod config;
pub mod ctl;
pub mod daemon;
pub mod daemon_client;
pub mod geometry;
pub mod hotkey;
pub mod ime;
pub mod imm;
pub mod json;
pub mod jsonc;
pub mod key_routing;
pub mod logs;
pub mod menu;
pub mod paths;
pub mod perf;
pub mod registration;
pub mod session_bridge;
pub mod settings;
pub mod sprites;
pub mod text;
pub mod text_service;
pub mod toolbar;
pub mod tray;
pub mod ui_element;
pub mod wire;
