//! One run of the command-line tool: its state, where the disc is looked for,
//! and the choices made while planning the rips.

pub mod state;
pub mod startup;
pub mod runner;
