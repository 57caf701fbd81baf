//! The fixes tried when macOS stops the downloaded HandBrake binary: which
//! attributes are removed, which permissions are set, how the security
//! settings are opened, and whether anything was fixed.

use vstd::prelude::*;
use crate::error::AppError;
use crate::text::{chars_of, contains_chars, contains_seq, owned, string_views};

verus! {

/// Automatic macOS security fixes for HandBrake
#[derive(Debug, Clone, Copy)]
pub struct MacOSAutoFix;

/// The extended attributes that mark a download as quarantined.
pub open spec fn spec_quarantine_attributes() -> Seq<Seq<char>> {
    seq![
        "com.apple.quarantine"@,
        "com.apple.metadata:kMDItemWhereFroms"@,
        "com.apple.metadata:kMDItemDownloadedDate"@,
    ]
}

/// The commands that open the security settings, tried in order until one
/// starts.
pub open spec fn spec_security_preference_commands() -> Seq<(Seq<char>, Seq<Seq<char>>)> {
    seq![
        ("open"@, seq!["/System/Library/PreferencePanes/Security.prefPane"@]),
        ("open"@, seq!["-a"@, "System Preferences"@]),
        ("open"@, seq!["-a"@, "System Settings"@]),
    ]
}

/// What the caller does next in a run of the fixes: each fix in turn, then
/// the run's result (whether any fix took effect, or the error that stopped
/// it).
#[derive(Debug)]
pub enum FixAction {
    /// Remove the quarantine attributes (`quarantine_attributes`) and report
    /// whether any was removed.
    RemoveQuarantine,
    /// Add the missing executable bits and report whether any was missing,
    /// or the error.
    SetPermissions,
    /// Open the security settings (`security_preference_commands`) and
    /// report whether one started.
    OpenPreferences,
    /// The run is over.
    Done(Result<bool, AppError>),
}

impl MacOSAutoFix {
    /// A run starts with the quarantine attributes; no fix has taken effect.
    pub fn start_fixes() -> (r: (bool, FixAction))
        ensures
            !r.0,
            r.1 is RemoveQuarantine,
    {
        (false, FixAction::RemoveQuarantine)
    }

    /// After the quarantine attributes: the permissions are set next.
    pub fn after_quarantine(applied: bool, removed: bool) -> (r: (bool, FixAction))
        ensures
            r.0 == (applied || removed),
            r.1 is SetPermissions,
    {
        (applied || removed, FixAction::SetPermissions)
    }

    /// After the permissions: an error ends the run with it, and the
    /// security settings are not opened; otherwise they are opened next.
    pub fn after_permissions(applied: bool, result: Result<bool, AppError>) -> (r: (bool, FixAction))
        ensures
            result matches Err(e) ==> (r.1 matches FixAction::Done(Err(f)) && f == e),
            result matches Ok(p) ==> (r.0 == (applied || p) && r.1 is OpenPreferences),
    {
        match result {
            Err(e) => (applied, FixAction::Done(Err(e))),
            Ok(p) => (applied || p, FixAction::OpenPreferences),
        }
    }

    /// After the security settings: the run ends, telling whether any fix
    /// took effect.
    pub fn after_preferences(applied: bool, opened: bool) -> (r: (bool, FixAction))
        ensures
            r.0 == (applied || opened),
            r.1 matches FixAction::Done(Ok(b)) && b == (applied || opened),
    {
        (applied || opened, FixAction::Done(Ok(applied || opened)))
    }
}

impl MacOSAutoFix {
    /// Runs the outcome of the three fixes together: quarantine removal, then
    /// permissions, then opening the security settings. An error setting the
    /// permissions stops the run; otherwise the result says whether any fix
    /// took effect.
    pub fn attempt_all_fixes(
        quarantine_removed: bool,
        permissions_set: Result<bool, AppError>,
        preferences_opened: bool,
    ) -> (r: Result<bool, AppError>)
        ensures
            permissions_set is Err ==> r == permissions_set,
            permissions_set matches Ok(p) ==> r == Ok::<bool, AppError>(quarantine_removed || p || preferences_opened),
    {
        let mut fixes_applied = false;
        if quarantine_removed {
            fixes_applied = true;
        }
        match permissions_set {
            Ok(p) => {
                if p {
                    fixes_applied = true;
                }
            },
            Err(e) => {
                return Err(e);
            },
        }
        if preferences_opened {
            fixes_applied = true;
        }
        Ok(fixes_applied)
    }

    /// The attributes removed from the binary, in order.
    pub fn quarantine_attributes() -> (r: Vec<String>)
        ensures
            string_views(r@) == spec_quarantine_attributes(),
    {
        let mut v: Vec<String> = Vec::new();
        v.push(owned("com.apple.quarantine"));
        v.push(owned("com.apple.metadata:kMDItemWhereFroms"));
        v.push(owned("com.apple.metadata:kMDItemDownloadedDate"));
        assert(string_views(v@) =~= spec_quarantine_attributes());
        v
    }

    /// The permission bits with read and execute for everyone and write for
    /// the owner added, and whether that changes them.
    pub fn executable_mode(current_mode: u32) -> (r: (u32, bool))
        ensures
            r.0 == current_mode | 0o755u32,
            r.1 == (r.0 != current_mode),
    {
        let new_mode = current_mode | 0o755u32;
        (new_mode, new_mode != current_mode)
    }

    /// The commands tried to open the security settings.
    pub fn security_preference_commands() -> (r: Vec<(String, Vec<String>)>)
        ensures
            r@.len() == 3,
            forall|i: int| 0 <= i < 3 ==> (#[trigger] r@[i]).0@ == spec_security_preference_commands()[i].0
                && string_views(r@[i].1@) == spec_security_preference_commands()[i].1,
    {
        let mut a: Vec<String> = Vec::new();
        a.push(owned("/System/Library/PreferencePanes/Security.prefPane"));
        let mut b: Vec<String> = Vec::new();
        b.push(owned("-a"));
        b.push(owned("System Preferences"));
        let mut c: Vec<String> = Vec::new();
        c.push(owned("-a"));
        c.push(owned("System Settings"));
        assert(string_views(a@) =~= seq!["/System/Library/PreferencePanes/Security.prefPane"@]);
        assert(string_views(b@) =~= seq!["-a"@, "System Preferences"@]);
        assert(string_views(c@) =~= seq!["-a"@, "System Settings"@]);
        let mut v: Vec<(String, Vec<String>)> = Vec::new();
        v.push((owned("open"), a));
        v.push((owned("open"), b));
        v.push((owned("open"), c));
        v
    }

    /// Whether the listing of `xattr -l` shows the quarantine attribute.
    pub fn listing_has_quarantine(listing: &str) -> (r: bool)
        ensures
            r == contains_seq(listing@, "com.apple.quarantine"@),
    {
        let l = chars_of(listing);
        let q = chars_of("com.apple.quarantine");
        contains_chars(l.as_slice(), q.as_slice())
    }
}

} // verus!
