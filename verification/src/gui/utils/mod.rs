//! Helpers for the interface: update checks and file-system names.

pub mod updates;
pub mod file_browser;
