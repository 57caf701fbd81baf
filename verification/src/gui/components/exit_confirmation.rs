//! Asking before the application closes while work is under way.

use vstd::prelude::*;
use crate::gui::state::ui_state::HandBrakeOperationStatus;
use crate::session::state::{AppState, AppStatus};

verus! {

/// Whether the exit dialog is open and whether leaving was confirmed.
#[derive(Debug, Default)]
pub struct ExitConfirmationDialog {
    pub show: bool,
    pub confirmed: bool,
}

/// What the exit dialog warns about, most urgent first.
#[derive(Debug, Clone, Copy, PartialEq, Eq, Structural)]
pub enum ExitPrompt {
    ActiveTasks,
    HandBrakeOperations,
    UpdateOperations,
    PendingUpdate,
    Plain,
}

/// The buttons of the exit dialog: stay (keep running, wait, cancel), leave
/// (force exit, exit, exit without update), or restart and install the update.
#[derive(Debug, Clone, Copy, PartialEq, Eq, Structural)]
pub enum ExitChoice {
    Stay,
    Leave,
    RestartAndUpdate,
}

/// The warning shown: running tasks first, then HandBrake work, then update
/// work, then a waiting update, else a plain question.
pub open spec fn spec_exit_prompt(active_tasks: bool, pending_updates: bool, handbrake_ops: bool, update_ops: bool) -> ExitPrompt {
    if active_tasks {
        ExitPrompt::ActiveTasks
    } else if handbrake_ops {
        ExitPrompt::HandBrakeOperations
    } else if update_ops {
        ExitPrompt::UpdateOperations
    } else if pending_updates {
        ExitPrompt::PendingUpdate
    } else {
        ExitPrompt::Plain
    }
}

impl ExitConfirmationDialog {
    /// Opens the dialog; nothing is confirmed yet.
    pub fn request_exit(&mut self)
        ensures
            final(self).show,
            !final(self).confirmed,
    {
        self.show = true;
        self.confirmed = false;
    }

    /// Whether leaving was confirmed.
    pub fn is_confirmed(&self) -> (r: bool)
        ensures
            r == self.confirmed,
    {
        self.confirmed
    }

    /// Closes the dialog and forgets any confirmation.
    pub fn reset(&mut self)
        ensures
            !final(self).show,
            !final(self).confirmed,
    {
        self.show = false;
        self.confirmed = false;
    }

    /// The warning the dialog shows.
    pub fn prompt(active_tasks: bool, pending_updates: bool, handbrake_ops: bool, update_ops: bool) -> (r: ExitPrompt)
        ensures
            r == spec_exit_prompt(active_tasks, pending_updates, handbrake_ops, update_ops),
    {
        if active_tasks {
            ExitPrompt::ActiveTasks
        } else if handbrake_ops {
            ExitPrompt::HandBrakeOperations
        } else if update_ops {
            ExitPrompt::UpdateOperations
        } else if pending_updates {
            ExitPrompt::PendingUpdate
        } else {
            ExitPrompt::Plain
        }
    }

    /// Takes in the button pressed; the result says whether the window closes.
    /// Staying closes the dialog only; leaving confirms; restarting to update
    /// closes without confirming.
    pub fn answer(&mut self, choice: ExitChoice) -> (r: bool)
        ensures
            !final(self).show,
            r == (choice != ExitChoice::Stay),
            choice == ExitChoice::Leave ==> final(self).confirmed,
            choice != ExitChoice::Leave ==> final(self).confirmed == old(self).confirmed,
    {
        self.show = false;
        match choice {
            ExitChoice::Stay => false,
            ExitChoice::Leave => {
                self.confirmed = true;
                true
            },
            ExitChoice::RestartAndUpdate => true,
        }
    }
}

/// Whether the run is scanning, ripping or uploading.
pub fn has_active_ripping_tasks(app_state: &AppState) -> (r: bool)
    ensures
        r == (app_state.status is Scanning || app_state.status is Ripping || app_state.status is Uploading),
{
    match app_state.status {
        AppStatus::Scanning | AppStatus::Ripping { .. } | AppStatus::Uploading { .. } => true,
        _ => false,
    }
}

/// Whether HandBrake is being checked, downloaded, unpacked, installed or
/// verified.
pub fn handbrake_busy(status: &HandBrakeOperationStatus) -> (r: bool)
    ensures
        r == (*status is CheckingStatus || *status is Downloading || *status is Extracting || *status is Installing
            || *status is VerifyingInstallation),
{
    match status {
        HandBrakeOperationStatus::CheckingStatus | HandBrakeOperationStatus::Downloading { .. }
        | HandBrakeOperationStatus::Extracting | HandBrakeOperationStatus::Installing
        | HandBrakeOperationStatus::VerifyingInstallation => true,
        _ => false,
    }
}

impl ExitConfirmationDialog {
    /// The window was asked to close. While work is under way and leaving was
    /// not confirmed, the close is held back (the result) and the dialog
    /// opens; otherwise nothing changes.
    pub fn close_requested(&mut self, active_tasks: bool, pending_updates: bool, handbrake_ops: bool, update_ops: bool) -> (hold: bool)
        ensures
            hold == ((active_tasks || pending_updates || handbrake_ops || update_ops) && !old(self).confirmed),
            hold ==> final(self).show && !final(self).confirmed,
            !hold ==> *final(self) == *old(self),
    {
        let should_confirm = active_tasks || pending_updates || handbrake_ops || update_ops;
        if should_confirm && !self.confirmed {
            self.request_exit();
            true
        } else {
            false
        }
    }
}

} // verus!
