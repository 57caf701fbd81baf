//! Adding toasts and dropping the expired ones.

use vstd::prelude::*;
use crate::gui::state::ui_state::{toast_duration_ms, ToastNotification, ToastType};

verus! {

/// The toast `add_toast` appends: the message, the type, created at `now_ms`.
pub open spec fn is_new_toast(t: ToastNotification, message: String, toast_type: ToastType, now_ms: u64) -> bool {
    &&& t.message == message
    &&& t.toast_type == toast_type
    &&& t.created_at_ms == now_ms
    &&& t.duration_ms == toast_duration_ms(toast_type)
}

fn add_toast(toasts: &mut Vec<ToastNotification>, message: String, toast_type: ToastType, now_ms: u64)
    ensures
        final(toasts)@.len() == old(toasts)@.len() + 1,
        final(toasts)@.take(old(toasts)@.len() as int) == old(toasts)@,
        is_new_toast(final(toasts)@.last(), message, toast_type, now_ms),
{
    toasts.push(ToastNotification::new(message, toast_type, now_ms));
    assert(toasts@.take(old(toasts)@.len() as int) =~= old(toasts)@);
}

/// Appends a success toast.
pub fn add_success_toast(toasts: &mut Vec<ToastNotification>, message: String, now_ms: u64)
    ensures
        final(toasts)@.len() == old(toasts)@.len() + 1,
        final(toasts)@.take(old(toasts)@.len() as int) == old(toasts)@,
        is_new_toast(final(toasts)@.last(), message, ToastType::Success, now_ms),
{
    add_toast(toasts, message, ToastType::Success, now_ms);
}

/// Appends an error toast.
pub fn add_error_toast(toasts: &mut Vec<ToastNotification>, message: String, now_ms: u64)
    ensures
        final(toasts)@.len() == old(toasts)@.len() + 1,
        final(toasts)@.take(old(toasts)@.len() as int) == old(toasts)@,
        is_new_toast(final(toasts)@.last(), message, ToastType::Error, now_ms),
{
    add_toast(toasts, message, ToastType::Error, now_ms);
}

/// Appends a warning toast.
pub fn add_warning_toast(toasts: &mut Vec<ToastNotification>, message: String, now_ms: u64)
    ensures
        final(toasts)@.len() == old(toasts)@.len() + 1,
        final(toasts)@.take(old(toasts)@.len() as int) == old(toasts)@,
        is_new_toast(final(toasts)@.last(), message, ToastType::Warning, now_ms),
{
    add_toast(toasts, message, ToastType::Warning, now_ms);
}

/// Appends an information toast.
pub fn add_info_toast(toasts: &mut Vec<ToastNotification>, message: String, now_ms: u64)
    ensures
        final(toasts)@.len() == old(toasts)@.len() + 1,
        final(toasts)@.take(old(toasts)@.len() as int) == old(toasts)@,
        is_new_toast(final(toasts)@.last(), message, ToastType::Info, now_ms),
{
    add_toast(toasts, message, ToastType::Info, now_ms);
}

/// Whether a toast has expired at `now_ms`.
pub open spec fn expired(t: ToastNotification, now_ms: u64) -> bool {
    now_ms > t.created_at_ms && now_ms - t.created_at_ms > t.duration_ms
}

/// The toasts still shown at `now_ms`, in their order.
pub open spec fn live_toasts(ts: Seq<ToastNotification>, now_ms: u64) -> Seq<ToastNotification>
    decreases ts.len(),
{
    if ts.len() == 0 {
        Seq::empty()
    } else if expired(ts.last(), now_ms) {
        live_toasts(ts.drop_last(), now_ms)
    } else {
        live_toasts(ts.drop_last(), now_ms).push(ts.last())
    }
}

/// Drops the toasts that have expired at `now_ms`, keeping the others in
/// order.
pub fn remove_expired_toasts(toasts: &mut Vec<ToastNotification>, now_ms: u64)
    ensures
        final(toasts)@ == live_toasts(old(toasts)@, now_ms),
{
    let mut kept: Vec<ToastNotification> = Vec::new();
    let mut rest: Vec<ToastNotification> = Vec::new();
    std::mem::swap(&mut rest, toasts);
    let ghost all = rest@;
    assert(all.skip(0) =~= all);
    while rest.len() > 0
        invariant
            all == old(toasts)@,
            rest@.len() <= all.len(),
            rest@ == all.skip(all.len() - rest@.len()),
            kept@ == live_toasts(all.take(all.len() - rest@.len()), now_ms),
        decreases rest@.len(),
    {
        let ghost n = all.len() - rest@.len();
        let t = rest.remove(0);
        proof {
            assert(t == all[n]);
            assert(rest@ =~= all.skip(n + 1));
            assert(all.take(n + 1).drop_last() =~= all.take(n));
            assert(all.take(n + 1).last() == all[n]);
        }
        if !t.is_expired(now_ms) {
            kept.push(t);
        }
    }
    assert(all.take(all.len() as int) =~= all);
    *toasts = kept;
}

/// How a toast of each type looks: its fill and border colours (`0xRRGGBB`;
/// icon and text are white), its icon and its heading.
pub open spec fn spec_toast_appearance(t: ToastType) -> (u32, u32, Seq<char>, Seq<char>) {
    match t {
        ToastType::Success => (0x22c55e, 0x16a34a, "\u{2713}"@, "Success"@),
        ToastType::Error => (0xef4444, 0xdc2626, "\u{2715}"@, "Error"@),
        ToastType::Warning => (0xf59e0b, 0xd97706, "\u{26a0}"@, "Warning"@),
        ToastType::Info => (0x3b82f6, 0x2563eb, "\u{24d8}"@, "Info"@),
    }
}

/// The fill and border colours, icon and heading of a toast of type `t`.
pub fn toast_appearance(t: ToastType) -> (r: (u32, u32, &'static str, &'static str))
    ensures
        (r.0, r.1, r.2@, r.3@) == spec_toast_appearance(t),
{
    match t {
        ToastType::Success => (0x22c55e, 0x16a34a, "\u{2713}", "Success"),
        ToastType::Error => (0xef4444, 0xdc2626, "\u{2715}", "Error"),
        ToastType::Warning => (0xf59e0b, 0xd97706, "\u{26a0}", "Warning"),
        ToastType::Info => (0x3b82f6, 0x2563eb, "\u{24d8}", "Info"),
    }
}

} // verus!
