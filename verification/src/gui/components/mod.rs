//! The pieces the interface is built from: toasts, task states and the exit
//! confirmation.

pub mod toast;
pub mod status;
pub mod exit_confirmation;
