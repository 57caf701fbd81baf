//! DVD handling: titles and their chapters, rip planning, the HandBrake scan
//! and the command lines that rip and eject.

pub mod detection;
pub mod ripping;
pub mod scanning;
pub mod types;

pub use types::{Dvd, RipTask, Title};
