//! The state of a run and how ripping results move it on.

use vstd::prelude::*;
use crate::config::Config;
use crate::dvd::types::RipTask;
use crate::error::{error_message, AppError};
use crate::text::{decimal_digits, owned, push_decimal, push_str, starts_with};

verus! {

/// Where a run stands.
#[derive(Debug, PartialEq, Eq)]
pub enum AppStatus {
    Idle,
    Ready,
    Scanning,
    ScanComplete(usize),
    Ripping { completed: usize, total: usize },
    RipComplete,
    /// Upload progress in percent.
    Uploading { percent: u32 },
    UploadComplete,
    Completed,
    Error(String),
}

/// The configuration, the planned rips and the status of a run.
#[derive(Debug)]
pub struct AppState {
    pub config: Config,
    pub rip_tasks: Vec<RipTask>,
    pub status: AppStatus,
}

/// The beginning of the message recorded when a ripping task fails.
pub open spec fn task_failure_prefix(task_index: usize) -> Seq<char> {
    "Task "@ + decimal_digits(task_index as nat) + " failed: "@
}

/// The status ripping ends in: a run whose every task reported success is
/// complete; any other status stays.
pub open spec fn settled(status: AppStatus, task_count: usize) -> AppStatus {
    match status {
        AppStatus::Ripping { completed, total } => if completed == total {
            AppStatus::Completed
        } else {
            status
        },
        AppStatus::Idle => if task_count == 0 {
            AppStatus::Completed
        } else {
            status
        },
        _ => status,
    }
}

impl AppState {
    /// A run that has not started: idle, with nothing planned.
    pub fn new(config: Config) -> (r: AppState)
        ensures
            r.config == config,
            r.rip_tasks@.len() == 0,
            r.status == AppStatus::Idle,
    {
        AppState { config, rip_tasks: Vec::new(), status: AppStatus::Idle }
    }

    /// The disc is being scanned.
    pub fn start_scanning(&mut self)
        ensures
            final(self).status == AppStatus::Scanning,
            final(self).config == old(self).config,
            final(self).rip_tasks@ == old(self).rip_tasks@,
    {
        self.status = AppStatus::Scanning;
    }

    /// The run failed before ripping; the status records the error's message.
    pub fn fail(&mut self, error: &AppError)
        ensures
            final(self).status matches AppStatus::Error(m) && starts_with(m@, error_message(*error))
                && (!(error is Io) ==> m@ == error_message(*error)),
            final(self).config == old(self).config,
            final(self).rip_tasks@ == old(self).rip_tasks@,
    {
        let m = error.message();
        proof {
            if !(error is Io) {
                assert(m@.take(error_message(*error).len() as int) =~= error_message(*error));
            }
        }
        self.status = AppStatus::Error(m);
    }

    /// Records the planned rips. With none, the run is complete and `false`
    /// comes back; otherwise ripping starts at zero of their number.
    pub fn begin_ripping(&mut self, tasks: Vec<RipTask>) -> (r: bool)
        ensures
            r == (tasks@.len() > 0),
            final(self).config == old(self).config,
            tasks@.len() == 0 ==> final(self).status == AppStatus::Completed && final(self).rip_tasks@
                == old(self).rip_tasks@,
            tasks@.len() > 0 ==> final(self).status == (AppStatus::Ripping { completed: 0, total: tasks@.len() as usize })
                && final(self).rip_tasks@ == tasks@,
    {
        if tasks.len() == 0 {
            self.status = AppStatus::Completed;
            return false;
        }
        let total = tasks.len();
        self.rip_tasks = tasks;
        self.status = AppStatus::Ripping { completed: 0, total };
        true
    }

    /// Takes in the result of ripping task `task_index`.
    pub fn handle_task_result(&mut self, task_index: usize, result: Result<(), AppError>)
        requires
            old(self).status matches AppStatus::Ripping { completed, total } ==> completed < usize::MAX,
        ensures
            final(self).config == old(self).config,
            final(self).rip_tasks@ == old(self).rip_tasks@,
            !(old(self).status is Ripping) ==> final(self).status == old(self).status,
            old(self).status matches AppStatus::Ripping { completed, total } ==> match result {
                Ok(_) => if completed + 1 >= total {
                    final(self).status == AppStatus::Completed
                } else {
                    final(self).status == (AppStatus::Ripping { completed: (completed + 1) as usize, total })
                },
                Err(e) => final(self).status matches AppStatus::Error(m)
                    && starts_with(m@, task_failure_prefix(task_index) + error_message(e))
                    && (!(e is Io) ==> m@ == task_failure_prefix(task_index) + error_message(e)),
            },
    {
        match self.status {
            AppStatus::Ripping { completed, total } => {
                let done = completed + 1;
                match result {
                    Err(e) => {
                        let mut m = owned("Task ");
                        push_decimal(&mut m, task_index as u64);
                        push_str(&mut m, " failed: ");
                        let ghost before = m@;
                        let text = e.message();
                        push_str(&mut m, text.as_str());
                        proof {
                            let p = task_failure_prefix(task_index) + error_message(e);
                            assert(before == task_failure_prefix(task_index));
                            assert(m@ =~= before + text@);
                            assert(m@.take(p.len() as int) =~= p);
                        }
                        self.status = AppStatus::Error(m);
                    },
                    Ok(_) => {
                        if done >= total {
                            self.status = AppStatus::Completed;
                        } else {
                            self.status = AppStatus::Ripping { completed: done, total };
                        }
                    },
                }
            },
            _ => {},
        }
    }

    /// Settles the status once every task has reported: a run whose tasks all
    /// reported success is complete, and so is an idle run with no tasks.
    pub fn settle(&mut self, task_count: usize)
        ensures
            final(self).status == settled(old(self).status, task_count),
            final(self).config == old(self).config,
            final(self).rip_tasks@ == old(self).rip_tasks@,
    {
        match self.status {
            AppStatus::Ripping { completed, total } => {
                if completed == total {
                    self.status = AppStatus::Completed;
                }
            },
            AppStatus::Idle => {
                if task_count == 0 {
                    self.status = AppStatus::Completed;
                }
            },
            _ => {},
        }
    }
}

} // verus!
