//! What the interface remembers between frames.

pub mod ui_state;
