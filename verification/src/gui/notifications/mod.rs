//! Desktop notifications: the title, text and display time of each kind.

pub mod update_notifications;

use vstd::prelude::*;
use crate::text::owned;

verus! {

/// A notification to show on the desktop; the time is in milliseconds.
#[derive(Debug)]
pub struct NotificationRequest {
    pub title: String,
    pub body: String,
    pub timeout_ms: u32,
}

/// The kinds of desktop notifications.
#[derive(Debug, Clone, Copy)]
pub struct OSNotifications;

fn request(title: &str, message: &str, timeout_ms: u32) -> (r: NotificationRequest)
    ensures
        r.title@ == title@,
        r.body@ == message@,
        r.timeout_ms == timeout_ms,
{
    NotificationRequest { title: owned(title), body: owned(message), timeout_ms }
}

impl OSNotifications {
    /// A success notification, shown for five seconds.
    pub fn success(title: &str, message: &str) -> (r: NotificationRequest)
        ensures
            r.title@ == title@,
            r.body@ == message@,
            r.timeout_ms == 5000,
    {
        request(title, message, 5000)
    }

    /// An error notification, shown for eight seconds.
    pub fn error(title: &str, message: &str) -> (r: NotificationRequest)
        ensures
            r.title@ == title@,
            r.body@ == message@,
            r.timeout_ms == 8000,
    {
        request(title, message, 8000)
    }

    /// A warning notification, shown for six seconds.
    pub fn warning(title: &str, message: &str) -> (r: NotificationRequest)
        ensures
            r.title@ == title@,
            r.body@ == message@,
            r.timeout_ms == 6000,
    {
        request(title, message, 6000)
    }

    /// An information notification, shown for four seconds.
    pub fn info(title: &str, message: &str) -> (r: NotificationRequest)
        ensures
            r.title@ == title@,
            r.body@ == message@,
            r.timeout_ms == 4000,
    {
        request(title, message, 4000)
    }
}

/// A success notification from the application.
pub fn notify_success(message: &str) -> (r: NotificationRequest)
    ensures
        r.title@ == "CopyDVD"@,
        r.body@ == message@,
        r.timeout_ms == 5000,
{
    OSNotifications::success("CopyDVD", message)
}

/// An error notification from the application.
pub fn notify_error(message: &str) -> (r: NotificationRequest)
    ensures
        r.title@ == "CopyDVD - Error"@,
        r.body@ == message@,
        r.timeout_ms == 8000,
{
    OSNotifications::error("CopyDVD - Error", message)
}

/// A warning notification from the application.
pub fn notify_warning(message: &str) -> (r: NotificationRequest)
    ensures
        r.title@ == "CopyDVD - Warning"@,
        r.body@ == message@,
        r.timeout_ms == 6000,
{
    OSNotifications::warning("CopyDVD - Warning", message)
}

/// An information notification from the application.
pub fn notify_info(message: &str) -> (r: NotificationRequest)
    ensures
        r.title@ == "CopyDVD"@,
        r.body@ == message@,
        r.timeout_ms == 4000,
{
    OSNotifications::info("CopyDVD", message)
}

} // verus!
