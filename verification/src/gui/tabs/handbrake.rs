//! What the HandBrake tab reports while it checks, verifies or downloads
//! HandBrake: the status shown, the version, and the desktop notice.

use vstd::prelude::*;
use crate::error::{error_message, AppError};
use crate::gui::notifications::{notify_error, notify_info, notify_success, NotificationRequest};
use crate::gui::state::ui_state::{shows_error, HandBrakeOperationStatus, UiState};
use crate::text::{owned, push_str, starts_with};

verus! {

/// One report of the tab's background work.
#[derive(Debug)]
pub struct SetupReport {
    pub status: HandBrakeOperationStatus,
    pub version: Option<String>,
    pub notice: NotificationRequest,
}

/// Which operation a report is about.
#[derive(Debug, Clone, Copy, PartialEq, Eq, Structural)]
pub enum Operation {
    Check,
    Verify,
    Download,
}

/// The word an operation's messages use.
pub open spec fn operation_word(op: Operation) -> Seq<char> {
    match op {
        Operation::Check => "check"@,
        Operation::Verify => "verification"@,
        Operation::Download => "download"@,
    }
}

/// The report while HandBrake is looked at: checking for a check or a
/// download, verifying for a verification.
pub fn started_report(op: Operation) -> (r: SetupReport)
    ensures
        op == Operation::Verify ==> (r.status is VerifyingInstallation && r.notice.body@
            == "Verifying HandBrake installation..."@),
        op != Operation::Verify ==> (r.status is CheckingStatus && r.notice.body@ == "Checking HandBrake status..."@),
        r.version is None,
        r.notice.title@ == "CopyDVD"@,
        r.notice.timeout_ms == 4000,
{
    match op {
        Operation::Verify => SetupReport {
            status: HandBrakeOperationStatus::VerifyingInstallation,
            version: None,
            notice: notify_info("Verifying HandBrake installation..."),
        },
        _ => SetupReport {
            status: HandBrakeOperationStatus::CheckingStatus,
            version: None,
            notice: notify_info("Checking HandBrake status..."),
        },
    }
}

/// The report when the download starts.
pub fn downloading_report() -> (r: SetupReport)
    ensures
        r.status == (HandBrakeOperationStatus::Downloading { percent: 0 }),
        r.version is None,
        r.notice.body@ == "Downloading HandBrake..."@,
        r.notice.timeout_ms == 4000,
{
    SetupReport {
        status: HandBrakeOperationStatus::Downloading { percent: 0 },
        version: None,
        notice: notify_info("Downloading HandBrake..."),
    }
}

/// The report when HandBrake is usable: idle, with its version when known,
/// and a notice that it is ready (or verified, after a verification).
pub fn ready_report(op: Operation, version: Option<String>) -> (r: SetupReport)
    ensures
        r.status is Idle,
        r.version == version,
        r.notice.title@ == "CopyDVD"@,
        r.notice.timeout_ms == 5000,
        op == Operation::Verify ==> r.notice.body@ == (match version {
            Some(v) => "HandBrake "@ + v@ + " verified"@,
            None => "HandBrake verified successfully"@,
        }),
        op != Operation::Verify ==> r.notice.body@ == (match version {
            Some(v) => "HandBrake "@ + v@ + " ready"@,
            None => "HandBrake ready"@,
        }),
{
    let body = match &version {
        Some(v) => {
            let mut b = owned("HandBrake ");
            push_str(&mut b, v.as_str());
            match op {
                Operation::Verify => push_str(&mut b, " verified"),
                _ => push_str(&mut b, " ready"),
            }
            b
        },
        None => match op {
            Operation::Verify => owned("HandBrake verified successfully"),
            _ => owned("HandBrake ready"),
        },
    };
    let notice = notify_success(body.as_str());
    SetupReport { status: HandBrakeOperationStatus::Idle, version, notice }
}

/// The report when an operation failed: the error shown as the status and in
/// an error notice.
pub fn failed_report(op: Operation, error: &AppError) -> (r: SetupReport)
    ensures
        r.status matches HandBrakeOperationStatus::Error(m) && shows_error(
            m@,
            "HandBrake "@ + operation_word(op) + " failed: "@,
            *error,
        ) && r.notice.body@ == m@,
        r.version is None,
        r.notice.title@ == "CopyDVD - Error"@,
        r.notice.timeout_ms == 8000,
{
    let mut m = owned("HandBrake ");
    match op {
        Operation::Check => push_str(&mut m, "check"),
        Operation::Verify => push_str(&mut m, "verification"),
        Operation::Download => push_str(&mut m, "download"),
    }
    push_str(&mut m, " failed: ");
    let ghost prefix = m@;
    let text = error.message();
    push_str(&mut m, text.as_str());
    proof {
        let p = prefix + error_message(*error);
        assert(m@ =~= prefix + text@);
        assert(m@.take(p.len() as int) =~= p);
    }
    let notice = notify_error(m.as_str());
    SetupReport { status: HandBrakeOperationStatus::Error(m), version: None, notice }
}

/// Whether a download is needed: HandBrake is missing, or it is there but
/// fails verification.
pub fn needs_download(present: bool, verified: bool) -> (r: bool)
    ensures
        r == (!present || !verified),
{
    !present || !verified
}

/// Starting a download while a check seems stuck only resets the status to
/// idle (and the result says so); otherwise the tab starts checking.
pub fn begin_download_from_tab(ui: &mut UiState) -> (reset: bool)
    ensures
        reset == old(ui).handbrake_status is CheckingStatus,
        reset ==> final(ui).handbrake_status is Idle && final(ui).handbrake_version == old(ui).handbrake_version,
        !reset ==> final(ui).handbrake_status is CheckingStatus && final(ui).handbrake_version is None,
        final(ui).status_message == old(ui).status_message,
        final(ui).error_message == old(ui).error_message,
{
    match ui.handbrake_status {
        HandBrakeOperationStatus::CheckingStatus => {
            ui.handbrake_status = HandBrakeOperationStatus::Idle;
            true
        },
        _ => {
            ui.handbrake_status = HandBrakeOperationStatus::CheckingStatus;
            ui.handbrake_version = None;
            false
        },
    }
}

} // verus!
