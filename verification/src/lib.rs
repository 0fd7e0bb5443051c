//! Event handling, control-mode logic and configuration rules of the
//! Surface Dial daemon.

pub mod error;
pub mod fake_input;
pub mod dial_device;
pub mod controller;
pub mod config_mode;
pub mod focus_watcher;
