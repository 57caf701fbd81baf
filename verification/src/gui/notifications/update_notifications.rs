//! Toasts about updates, shown without repeating themselves too often.

use vstd::prelude::*;
use crate::gui::state::ui_state::ToastType;
use crate::text::{owned, push_str};
use crate::updater::{UpdateProgress, UpdateStatus};

verus! {

/// When the last update toast was shown (milliseconds of the wall clock) and
/// whether the available update was already announced.
#[derive(Debug, Default)]
pub struct UpdateNotificationManager {
    pub last_notification_ms: Option<u64>,
    pub update_available_notified: bool,
}

/// Whole seconds from `then` to `now`, if the clock has not gone back.
pub open spec fn elapsed_secs(then: u64, now: u64) -> Option<int> {
    if now >= then {
        Some((now - then) / 1000)
    } else {
        None
    }
}

/// The toast announcing an update.
pub open spec fn available_text(tag: Seq<char>) -> Seq<char> {
    "Update Available: "@ + tag + ". Click Updates tab to install."@
}

/// The toast saying the version is the latest.
pub open spec fn up_to_date_text() -> Seq<char> {
    "You're running the latest version of Copy DVD."@
}

/// The toast saying the check failed.
pub open spec fn check_failed_text() -> Seq<char> {
    "Unable to check for updates. Please check your internet connection."@
}

/// Whether the "up to date" toast is due: the check happened less than 30 s
/// ago, and either no toast was shown yet or the last one is more than 300 s
/// old.
pub open spec fn up_to_date_due(last_notification: Option<u64>, last_check: Option<u64>, now: u64) -> bool {
    match last_check {
        Some(c) => match (elapsed_secs(c, now), last_notification) {
            (Some(cs), Some(n)) => match elapsed_secs(n, now) {
                Some(ns) => cs < 30 && ns > 300,
                None => false,
            },
            (Some(cs), None) => cs < 30,
            _ => false,
        },
        None => false,
    }
}

/// Whether the "check failed" toast is due: none was shown yet, or the last
/// one is more than 300 s old.
pub open spec fn error_due(last_notification: Option<u64>, now: u64) -> bool {
    match last_notification {
        Some(n) => match elapsed_secs(n, now) {
            Some(ns) => ns > 300,
            None => false,
        },
        None => true,
    }
}

/// The toast a finished or failed installation gives.
pub open spec fn progress_toast(progress: Option<UpdateProgress>) -> Option<(Seq<char>, ToastType)> {
    match progress {
        Some(UpdateProgress::Complete) => Some(
            ("Update has been installed successfully. Restart to use the new version."@, ToastType::Success),
        ),
        Some(UpdateProgress::Failed(e)) => Some(("Update installation failed: "@ + e@, ToastType::Error)),
        _ => None,
    }
}

/// The toasts as plain values.
pub open spec fn toast_views(ts: Seq<(String, ToastType)>) -> Seq<(Seq<char>, ToastType)> {
    Seq::new(ts.len(), |i: int| (ts[i].0@, ts[i].1))
}

/// The toast the update status gives, if any is due.
pub open spec fn status_toast(
    m: UpdateNotificationManager,
    status: Option<UpdateStatus>,
    last_check: Option<u64>,
    now: u64,
) -> Option<(Seq<char>, ToastType)> {
    match status {
        Some(UpdateStatus::UpdateAvailable { latest, .. }) => if !m.update_available_notified {
            Some((available_text(latest.tag_name@), ToastType::Info))
        } else {
            None
        },
        Some(UpdateStatus::UpToDate) => if up_to_date_due(m.last_notification_ms, last_check, now) {
            Some((up_to_date_text(), ToastType::Success))
        } else {
            None
        },
        Some(UpdateStatus::Error(_)) => if error_due(m.last_notification_ms, now) {
            Some((check_failed_text(), ToastType::Error))
        } else {
            None
        },
        None => None,
    }
}

/// The toasts due, in order: the one about the status, then the one about the
/// installation.
pub open spec fn due_toasts(
    m: UpdateNotificationManager,
    status: Option<UpdateStatus>,
    last_check: Option<u64>,
    progress: Option<UpdateProgress>,
    now: u64,
) -> Seq<(Seq<char>, ToastType)> {
    let a: Seq<(Seq<char>, ToastType)> = match status_toast(m, status, last_check, now) {
        Some(t) => seq![t],
        None => Seq::empty(),
    };
    match progress_toast(progress) {
        Some(t) => a.push(t),
        None => a,
    }
}

impl UpdateNotificationManager {
    /// Nothing shown yet.
    pub fn new() -> (r: UpdateNotificationManager)
        ensures
            r.last_notification_ms is None,
            !r.update_available_notified,
    {
        UpdateNotificationManager { last_notification_ms: None, update_available_notified: false }
    }

    /// Forgets what was shown.
    pub fn reset_notifications(&mut self)
        ensures
            final(self).last_notification_ms is None,
            !final(self).update_available_notified,
    {
        self.update_available_notified = false;
        self.last_notification_ms = None;
    }

    /// The toasts due for the current update status, the time of the last
    /// check and the installation progress, at `now_ms`. An available update
    /// is announced once; "up to date" follows a recent check, at most every
    /// five minutes; a failed check is reported at most every five minutes. A
    /// toast about the status records the time; being up to date makes a later
    /// update announceable again.
    pub fn check_and_notify(
        &mut self,
        status: Option<UpdateStatus>,
        last_check_ms: Option<u64>,
        progress: Option<UpdateProgress>,
        now_ms: u64,
    ) -> (r: Vec<(String, ToastType)>)
        ensures
            toast_views(r@) == due_toasts(*old(self), status, last_check_ms, progress, now_ms),
            status_toast(*old(self), status, last_check_ms, now_ms) is Some ==> final(self).last_notification_ms
                == Some(now_ms),
            status_toast(*old(self), status, last_check_ms, now_ms) is None ==> final(self).last_notification_ms
                == old(self).last_notification_ms,
            final(self).update_available_notified == (match status {
                Some(UpdateStatus::UpdateAvailable { .. }) => true,
                Some(UpdateStatus::UpToDate) => false,
                _ => old(self).update_available_notified,
            }),
    {
        let ghost before = *self;
        let mut out: Vec<(String, ToastType)> = Vec::new();
        let shown: Option<(String, ToastType)> = match &status {
            Some(UpdateStatus::UpdateAvailable { latest, .. }) => {
                if !self.update_available_notified {
                    self.update_available_notified = true;
                    let mut m = owned("Update Available: ");
                    push_str(&mut m, latest.tag_name.as_str());
                    push_str(&mut m, ". Click Updates tab to install.");
                    Some((m, ToastType::Info))
                } else {
                    None
                }
            },
            Some(UpdateStatus::UpToDate) => {
                let due = match last_check_ms {
                    Some(c) => {
                        if now_ms >= c {
                            let cs = (now_ms - c) / 1000;
                            match self.last_notification_ms {
                                Some(n) => now_ms >= n && cs < 30 && (now_ms - n) / 1000 > 300,
                                None => cs < 30,
                            }
                        } else {
                            false
                        }
                    },
                    None => false,
                };
                self.update_available_notified = false;
                if due {
                    Some((owned("You're running the latest version of Copy DVD."), ToastType::Success))
                } else {
                    None
                }
            },
            Some(UpdateStatus::Error(_)) => {
                let due = match self.last_notification_ms {
                    Some(n) => now_ms >= n && (now_ms - n) / 1000 > 300,
                    None => true,
                };
                if due {
                    Some(
                        (
                            owned("Unable to check for updates. Please check your internet connection."),
                            ToastType::Error,
                        ),
                    )
                } else {
                    None
                }
            },
            None => None,
        };
        match shown {
            Some(t) => {
                self.last_notification_ms = Some(now_ms);
                out.push(t);
            },
            None => {},
        }
        let ghost after_status = toast_views(out@);
        match &progress {
            Some(UpdateProgress::Complete) => {
                out.push(
                    (
                        owned("Update has been installed successfully. Restart to use the new version."),
                        ToastType::Success,
                    ),
                );
            },
            Some(UpdateProgress::Failed(e)) => {
                let mut m = owned("Update installation failed: ");
                push_str(&mut m, e.as_str());
                out.push((m, ToastType::Error));
            },
            _ => {},
        }
        proof {
            let a: Seq<(Seq<char>, ToastType)> = match status_toast(before, status, last_check_ms, now_ms) {
                Some(t) => seq![t],
                None => Seq::empty(),
            };
            assert(after_status =~= a);
            assert(toast_views(out@) =~= due_toasts(before, status, last_check_ms, progress, now_ms));
        }
        out
    }

    /// The toast asking for a restart after an update.
    pub fn show_restart_prompt(&self) -> (r: (String, ToastType))
        ensures
            r.0@ == "Please restart Copy DVD to complete the update process."@,
            r.1 == ToastType::Info,
    {
        (owned("Please restart Copy DVD to complete the update process."), ToastType::Info)
    }
}

/// A failed check is reported again only after more than five minutes.
pub proof fn lemma_no_repeated_error_toast(m: UpdateNotificationManager, message: String, last_check: Option<u64>, now: u64)
    requires
        m.last_notification_ms matches Some(n) && n <= now && now - n < 301000,
    ensures
        status_toast(m, Some(UpdateStatus::Error(message)), last_check, now) is None,
{
}

/// An available update is announced once until the version is found up to
/// date again.
pub proof fn lemma_update_announced_once(
    m: UpdateNotificationManager,
    current: String,
    latest: crate::updater::Release,
    changelog: String,
    last_check: Option<u64>,
    now: u64,
)
    requires
        m.update_available_notified,
    ensures
        status_toast(
            m,
            Some(UpdateStatus::UpdateAvailable { current, latest, changelog }),
            last_check,
            now,
        ) is None,
{
}

} // verus!
