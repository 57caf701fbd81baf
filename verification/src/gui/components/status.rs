//! The states a task can be shown in, and the kinds of status marks.

use vstd::prelude::*;

verus! {

/// Task status enumeration
#[derive(Debug, Clone, Copy, PartialEq, Eq, Structural)]
pub enum TaskStatus {
    Pending,
    Running,
    Completed,
    Failed,
    Cancelled,
}

/// Status type enumeration for colored indicators
#[derive(Debug, Clone, Copy, PartialEq, Eq, Structural)]
pub enum StatusType {
    Success,
    Warning,
    Error,
    Info,
    Normal,
    Muted,
}

impl TaskStatus {
    /// The word a task's state is shown with, and whether its mark glows.
    pub fn label(&self) -> (r: (&'static str, bool))
        ensures
            r.0@ == (match *self {
                TaskStatus::Pending => "Pending"@,
                TaskStatus::Running => "Running"@,
                TaskStatus::Completed => "Completed"@,
                TaskStatus::Failed => "Failed"@,
                TaskStatus::Cancelled => "Cancelled"@,
            }),
            r.1 == (match *self {
                TaskStatus::Pending | TaskStatus::Cancelled => false,
                _ => true,
            }),
    {
        match self {
            TaskStatus::Pending => ("Pending", false),
            TaskStatus::Running => ("Running", true),
            TaskStatus::Completed => ("Completed", true),
            TaskStatus::Failed => ("Failed", true),
            TaskStatus::Cancelled => ("Cancelled", false),
        }
    }
}

} // verus!
