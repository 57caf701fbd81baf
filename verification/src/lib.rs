//! Core logic of the DVD copying tool: argument and title parsing, configuration
//! defaults, rip planning, HandBrake output interpretation, update selection and
//! the state held by the user interface.

pub mod text;
pub mod error;
pub mod utils;
pub mod cli;
pub mod dvd;
pub mod disc;
pub mod config;
pub mod platform;
pub mod paths;
pub mod json;
pub mod pattern;
pub mod gui;
pub mod version;
pub mod updater;
pub mod upload;
pub mod handbrake_manager;
pub mod handbrake_auto_fix;
pub mod session;
pub mod single_window;
