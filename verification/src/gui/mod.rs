//! State and decisions behind the graphical interface: tabs, toasts,
//! notifications, detected drives and the update checker's bookkeeping.

pub mod utils;
pub mod state;
pub mod components;
pub mod notifications;
pub mod theme;
pub mod tabs;

use vstd::prelude::*;
use crate::gui::state::ui_state::Tab;
use crate::text::{chars_of, contains_chars, contains_seq, decimal_digits, owned, push_char, push_decimal, push_str};

verus! {

/// How the check of the HandBrake installation is going.
#[derive(Debug)]
pub enum HandBrakeStatus {
    Verifying,
    /// The binary's path.
    Verified(String),
    /// Why the check failed.
    Error(String),
}

/// A drive or volume that may hold a DVD.
#[derive(Debug)]
pub struct DvdDriveInfo {
    pub path: String,
    pub drive_type: DvdDriveType,
    pub label: String,
    pub has_video_ts: bool,
}

/// Whether a DVD is seen as a mounted volume or as a drive device.
#[derive(Debug, Clone, Copy, PartialEq, Eq, Structural)]
pub enum DvdDriveType {
    MountedVolume,
    PhysicalDrive,
}

/// The drives found, best first, and the one selected.
#[derive(Debug)]
pub struct DvdDetectionResult {
    pub drives: Vec<DvdDriveInfo>,
    pub selected_index: usize,
}

impl DvdDriveInfo {
    /// A copy of the entry.
    pub fn duplicate(&self) -> (r: DvdDriveInfo)
        ensures
            r == *self,
    {
        DvdDriveInfo {
            path: self.path.clone(),
            drive_type: self.drive_type,
            label: self.label.clone(),
            has_video_ts: self.has_video_ts,
        }
    }
}

/// How strongly a drive is preferred (lower first): volumes with a
/// `VIDEO_TS` folder, then among equals mounted volumes before devices.
pub open spec fn drive_rank(d: DvdDriveInfo) -> int {
    (if d.has_video_ts {
        0int
    } else {
        2int
    }) + (if d.drive_type == DvdDriveType::MountedVolume {
        0int
    } else {
        1int
    })
}

/// The drives of rank `r`, in their order.
pub open spec fn drives_of_rank(ds: Seq<DvdDriveInfo>, r: int) -> Seq<DvdDriveInfo>
    decreases ds.len(),
{
    if ds.len() == 0 {
        Seq::empty()
    } else if drive_rank(ds.last()) == r {
        drives_of_rank(ds.drop_last(), r).push(ds.last())
    } else {
        drives_of_rank(ds.drop_last(), r)
    }
}

/// The drives ordered by preference; drives equally preferred keep their
/// order (a stable sort).
pub open spec fn ranked_drives(ds: Seq<DvdDriveInfo>) -> Seq<DvdDriveInfo> {
    drives_of_rank(ds, 0) + drives_of_rank(ds, 1) + drives_of_rank(ds, 2) + drives_of_rank(ds, 3)
}

fn rank_of(d: &DvdDriveInfo) -> (r: u8)
    ensures
        r == drive_rank(*d),
{
    let a: u8 = if d.has_video_ts {
        0
    } else {
        2
    };
    let b: u8 = match d.drive_type {
        DvdDriveType::MountedVolume => 0,
        DvdDriveType::PhysicalDrive => 1,
    };
    a + b
}

fn push_rank(out: &mut Vec<DvdDriveInfo>, drives: &Vec<DvdDriveInfo>, rank: u8)
    ensures
        final(out)@ == old(out)@ + drives_of_rank(drives@, rank as int),
{
    let ghost start = out@;
    let mut i: usize = 0;
    while i < drives.len()
        invariant
            i <= drives@.len(),
            out@ == start + drives_of_rank(drives@.take(i as int), rank as int),
        decreases drives@.len() - i,
    {
        assert(drives@.take(i + 1).drop_last() =~= drives@.take(i as int));
        assert(drives@.take(i + 1).last() == drives@[i as int]);
        if rank_of(&drives[i]) == rank {
            out.push(drives[i].duplicate());
            assert(out@ =~= start + drives_of_rank(drives@.take(i + 1), rank as int));
        }
        i = i + 1;
    }
    assert(drives@.take(drives@.len() as int) =~= drives@);
}

/// The detection result for the drives found: none when nothing was found,
/// else the drives best first with the first one selected.
pub fn rank_drives(drives: Vec<DvdDriveInfo>) -> (r: Option<DvdDetectionResult>)
    ensures
        drives@.len() == 0 ==> r is None,
        drives@.len() > 0 ==> (r matches Some(d) && d.drives@ == ranked_drives(drives@) && d.selected_index == 0),
{
    if drives.len() == 0 {
        return None;
    }
    let mut out: Vec<DvdDriveInfo> = Vec::new();
    push_rank(&mut out, &drives, 0);
    push_rank(&mut out, &drives, 1);
    push_rank(&mut out, &drives, 2);
    push_rank(&mut out, &drives, 3);
    assert(out@ =~= ranked_drives(drives@));
    Some(DvdDetectionResult { drives: out, selected_index: 0 })
}

/// Every drive has one of the four ranks.
proof fn lemma_rank_range(d: DvdDriveInfo)
    ensures
        0 <= drive_rank(d) <= 3,
{
}

/// The drives of one rank are never more than the drives.
proof fn lemma_rank_count(ds: Seq<DvdDriveInfo>)
    ensures
        drives_of_rank(ds, 0).len() + drives_of_rank(ds, 1).len() + drives_of_rank(ds, 2).len()
            + drives_of_rank(ds, 3).len() == ds.len(),
    decreases ds.len(),
{
    if ds.len() > 0 {
        lemma_rank_count(ds.drop_last());
        lemma_rank_range(ds.last());
    }
}

/// Ranking keeps every drive exactly once: as many drives come out as went
/// in.
pub proof fn lemma_ranking_keeps_all(ds: Seq<DvdDriveInfo>)
    ensures
        ranked_drives(ds).len() == ds.len(),
{
    lemma_rank_count(ds);
}

/// The thread count chosen on the first start for `cpus` processors: one on
/// up to two, one spare on up to four, two spare above.
pub open spec fn spec_optimal_threads(cpus: usize) -> usize {
    if cpus <= 2 {
        1
    } else if cpus <= 4 {
        (cpus - 1) as usize
    } else {
        (cpus - 2) as usize
    }
}

/// The thread count chosen on the first start.
pub fn optimal_thread_count(cpus: usize) -> (r: usize)
    ensures
        r == spec_optimal_threads(cpus),
        r >= 1,
{
    if cpus <= 2 {
        1
    } else if cpus <= 4 {
        cpus - 1
    } else {
        cpus - 2
    }
}

/// Until when the verification notice stays after a HandBrake status
/// arrives at `now_ms`: five seconds after a successful check, otherwise as
/// before.
pub fn verification_notice_until(status: &HandBrakeStatus, now_ms: u64, before: Option<u64>) -> (r: Option<u64>)
    requires
        now_ms <= u64::MAX - 5000,
    ensures
        status is Verified ==> r == Some((now_ms + 5000) as u64),
        !(status is Verified) ==> r == before,
{
    match status {
        HandBrakeStatus::Verified(_) => Some(now_ms + 5000),
        _ => before,
    }
}

/// Whether the HandBrake notice is shown: always on the HandBrake tab once
/// there is a status; elsewhere while checking or after an error, and after
/// a successful check only until the notice's time runs out.
pub open spec fn spec_notice_visible(status: Option<HandBrakeStatus>, tab: Tab, until_ms: Option<u64>, now_ms: u64) -> bool {
    match status {
        Some(s) => if tab == Tab::HandBrake {
            true
        } else {
            match s {
                HandBrakeStatus::Verified(_) => match until_ms {
                    Some(u) => now_ms < u,
                    None => false,
                },
                _ => true,
            }
        },
        None => false,
    }
}

/// Whether the HandBrake notice is shown.
pub fn handbrake_notice_visible(status: &Option<HandBrakeStatus>, tab: Tab, until_ms: Option<u64>, now_ms: u64) -> (r: bool)
    ensures
        r == spec_notice_visible(*status, tab, until_ms, now_ms),
{
    match status {
        Some(s) => {
            if tab == Tab::HandBrake {
                return true;
            }
            match s {
                HandBrakeStatus::Verified(_) => match until_ms {
                    Some(u) => now_ms < u,
                    None => false,
                },
                _ => true,
            }
        },
        None => false,
    }
}

/// The label of the button that checks HandBrake again: it mentions the
/// automatic fixes when the error says they were tried.
pub fn retry_label(error: &str) -> (r: &'static str)
    ensures
        contains_seq(error@, "Automatic security fixes were attempted"@) ==> r@ == "Retry After Auto-Fix"@,
        !contains_seq(error@, "Automatic security fixes were attempted"@) ==> r@ == "Retry HandBrake Verification"@,
{
    let e = chars_of(error);
    let p = chars_of("Automatic security fixes were attempted");
    if contains_chars(e.as_slice(), p.as_slice()) {
        "Retry After Auto-Fix"
    } else {
        "Retry HandBrake Verification"
    }
}

/// A mounted volume that holds a `VIDEO_TS` folder, named after its folder.
pub fn mounted_dvd_volume(path: String, label: String) -> (r: DvdDriveInfo)
    ensures
        r.path == path,
        r.label == label,
        r.drive_type == DvdDriveType::MountedVolume,
        r.has_video_ts,
{
    DvdDriveInfo { path, drive_type: DvdDriveType::MountedVolume, label, has_video_ts: true }
}

/// A drive device at `path`, whose contents are not known.
pub fn physical_dvd_drive(path: &str) -> (r: DvdDriveInfo)
    ensures
        r.path@ == path@,
        r.label@ == "DVD Drive ("@ + path@ + ")"@,
        r.drive_type == DvdDriveType::PhysicalDrive,
        !r.has_video_ts,
{
    let mut label = owned("DVD Drive (");
    push_str(&mut label, path);
    push_str(&mut label, ")");
    DvdDriveInfo { path: owned(path), drive_type: DvdDriveType::PhysicalDrive, label, has_video_ts: false }
}

/// A Windows drive letter found to hold a DVD: a mounted volume when its
/// root has a `VIDEO_TS` folder, otherwise an optical drive.
pub fn windows_dvd_drive(letter: char, has_video_ts: bool) -> (r: DvdDriveInfo)
    ensures
        r.path@ == seq![letter, ':', '\\'],
        r.label@ == "DVD Drive ("@ + seq![letter] + ")"@,
        r.drive_type == (if has_video_ts { DvdDriveType::MountedVolume } else { DvdDriveType::PhysicalDrive }),
        r.has_video_ts == has_video_ts,
{
    let mut path = String::new();
    push_char(&mut path, letter);
    push_char(&mut path, ':');
    push_char(&mut path, '\\');
    let mut label = owned("DVD Drive (");
    push_char(&mut label, letter);
    push_str(&mut label, ")");
    let drive_type = if has_video_ts {
        DvdDriveType::MountedVolume
    } else {
        DvdDriveType::PhysicalDrive
    };
    DvdDriveInfo { path, drive_type, label, has_video_ts }
}

/// `diskutil info` describes an optical drive: it mentions `DVD` or `CD`.
pub fn describes_optical_drive(info: &str) -> (r: bool)
    ensures
        r == (contains_seq(info@, "DVD"@) || contains_seq(info@, "CD"@)),
{
    let i = chars_of(info);
    let dvd = chars_of("DVD");
    let cd = chars_of("CD");
    contains_chars(i.as_slice(), dvd.as_slice()) || contains_chars(i.as_slice(), cd.as_slice())
}

/// `fsutil fsinfo drives` lists drive `letter`.
pub fn lists_drive_letter(drives_info: &str, letter: char) -> (r: bool)
    ensures
        r == contains_seq(drives_info@, seq![letter, ':']),
{
    let i = chars_of(drives_info);
    let mut p: Vec<char> = Vec::new();
    p.push(letter);
    p.push(':');
    assert(p@ =~= seq![letter, ':']);
    contains_chars(i.as_slice(), p.as_slice())
}

/// `wmic logicaldisk` reports a CD-ROM drive (drive type 5).
pub fn reports_cdrom_drive(type_info: &str) -> (r: bool)
    ensures
        r == contains_seq(type_info@, "DriveType=5"@),
{
    let i = chars_of(type_info);
    let p = chars_of("DriveType=5");
    contains_chars(i.as_slice(), p.as_slice())
}

/// The device paths probed for drives on Linux, in order.
pub fn linux_device_paths() -> (r: Vec<&'static str>)
    ensures
        r@.len() == 5,
        r@[0]@ == "/dev/dvd"@,
        r@[1]@ == "/dev/cdrom"@,
        r@[2]@ == "/dev/sr0"@,
        r@[3]@ == "/dev/sr1"@,
        r@[4]@ == "/dev/sr2"@,
{
    vec!["/dev/dvd", "/dev/cdrom", "/dev/sr0", "/dev/sr1", "/dev/sr2"]
}

/// The directories on Linux whose folders may be mounted discs, in order;
/// in the last one they sit one level deeper, under each user.
pub fn linux_mount_bases() -> (r: Vec<&'static str>)
    ensures
        r@.len() == 3,
        r@[0]@ == "/media"@,
        r@[1]@ == "/mnt"@,
        r@[2]@ == "/run/media"@,
{
    vec!["/media", "/mnt", "/run/media"]
}

/// The disk devices asked about on macOS, in order.
pub fn macos_device_paths() -> (r: Vec<&'static str>)
    ensures
        r@.len() == 4,
        r@[0]@ == "/dev/disk1"@,
        r@[1]@ == "/dev/disk2"@,
        r@[2]@ == "/dev/disk3"@,
        r@[3]@ == "/dev/disk4"@,
{
    vec!["/dev/disk1", "/dev/disk2", "/dev/disk3", "/dev/disk4"]
}

/// The notice shown when a scan starts from automatic detection: the drive
/// chosen, and how many were found when more than one.
pub open spec fn spec_detection_notice(count: nat, label: Seq<char>, path: Seq<char>) -> Seq<char> {
    if count > 1 {
        "Found "@ + decimal_digits(count) + " DVD drive(s). Selected: "@ + label + " ("@ + path + ")"@
    } else {
        "Found DVD: "@ + label + " ("@ + path + ")"@
    }
}

/// The drive a scan starts from after automatic detection: its path, and the
/// notice to show, with whether it is shown as a success (a single drive)
/// or as information (a choice among several).
pub fn detected_drive_choice(result: &DvdDetectionResult) -> (r: (String, String, bool))
    requires
        result.selected_index < result.drives@.len(),
    ensures
        r.0 == result.drives@[result.selected_index as int].path,
        r.1@ == spec_detection_notice(
            result.drives@.len(),
            result.drives@[result.selected_index as int].label@,
            result.drives@[result.selected_index as int].path@,
        ),
        r.2 == (result.drives@.len() == 1),
{
    let d = &result.drives[result.selected_index];
    let count = result.drives.len();
    let mut notice: String;
    if count > 1 {
        notice = owned("Found ");
        push_decimal(&mut notice, count as u64);
        push_str(&mut notice, " DVD drive(s). Selected: ");
    } else {
        notice = owned("Found DVD: ");
    }
    push_str(&mut notice, d.label.as_str());
    push_str(&mut notice, " (");
    push_str(&mut notice, d.path.as_str());
    push_str(&mut notice, ")");
    (d.path.clone(), notice, count == 1)
}

} // verus!
