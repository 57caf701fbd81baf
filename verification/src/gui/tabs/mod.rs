//! The state behind the tabs of the interface.

pub mod updates;
pub mod handbrake;
