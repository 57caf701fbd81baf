//! Where a disc is looked for when none is named.

use vstd::prelude::*;
use crate::error::AppError;
use crate::platform::TargetOs;
use crate::text::{owned, string_views};

verus! {

/// The drive roots `D:\` to `Z:\` that are searched on Windows.
pub open spec fn windows_drive_roots() -> Seq<Seq<char>> {
    Seq::new(23, |k: int| seq![(68 + k) as char, ':', '\\'])
}

/// The places a disc is looked for, in order, on systems where they are fixed:
/// the optical drive devices on Linux, the drive roots on Windows. On macOS
/// the mounted volumes are searched instead.
pub open spec fn spec_dvd_candidates(os: TargetOs) -> Seq<Seq<char>> {
    match os {
        TargetOs::Linux => seq!["/dev/sr0"@, "/dev/cdrom"@],
        TargetOs::Windows => windows_drive_roots(),
        _ => Seq::empty(),
    }
}

/// The places a disc is looked for on `os`.
pub fn dvd_candidates(os: TargetOs) -> (r: Vec<String>)
    ensures
        string_views(r@) == spec_dvd_candidates(os),
{
    let mut v: Vec<String> = Vec::new();
    match os {
        TargetOs::Linux => {
            v.push(owned("/dev/sr0"));
            v.push(owned("/dev/cdrom"));
        },
        TargetOs::Windows => {
            let mut d: u8 = 68;
            while d <= 90
                invariant
                    68 <= d <= 91,
                    v@.len() == d - 68,
                    forall|j: int| 0 <= j < v@.len() ==> (#[trigger] v@[j])@ == seq![(68 + j) as char, ':', '\\'],
                decreases 91 - d,
            {
                let mut s = String::new();
                crate::text::push_char(&mut s, d as char);
                crate::text::push_char(&mut s, ':');
                crate::text::push_char(&mut s, '\\');
                proof {
                    assert(s@ =~= seq![(68 + (d - 68)) as char, ':', '\\']);
                }
                v.push(s);
                d = d + 1;
            }
        },
        _ => {},
    }
    assert(string_views(v@) =~= spec_dvd_candidates(os));
    v
}

/// The first place where a disc was found, given each candidate with whether
/// it holds one.
pub open spec fn first_found(found: Seq<(Seq<char>, bool)>) -> Option<Seq<char>>
    decreases found.len(),
{
    if found.len() == 0 {
        None
    } else if found[0].1 {
        Some(found[0].0)
    } else {
        first_found(found.drop_first())
    }
}

/// The detected disc: the first candidate that holds one, else the error that
/// no disc was found.
pub fn auto_detect_dvd(found: &Vec<(String, bool)>) -> (r: Result<String, AppError>)
    ensures
        first_found(Seq::new(found@.len(), |k: int| (found@[k].0@, found@[k].1))) matches Some(p) ==> (r matches Ok(s)
            && s@ == p),
        first_found(Seq::new(found@.len(), |k: int| (found@[k].0@, found@[k].1))) is None ==> (r matches Err(
            AppError::DvdNotFound(m),
        ) && m@ == "auto-detected DVD"@),
{
    let ghost all = Seq::new(found@.len(), |k: int| (found@[k].0@, found@[k].1));
    let mut i: usize = 0;
    assert(all.skip(0) =~= all);
    while i < found.len()
        invariant
            i <= found@.len(),
            all == Seq::new(found@.len(), |k: int| (found@[k].0@, found@[k].1)),
            first_found(all) == first_found(all.skip(i as int)),
        decreases found@.len() - i,
    {
        assert(all.skip(i as int).drop_first() =~= all.skip(i + 1));
        if found[i].1 {
            return Ok(found[i].0.clone());
        }
        i = i + 1;
    }
    assert(all.skip(i as int).len() == 0);
    Err(AppError::DvdNotFound(owned("auto-detected DVD")))
}

} // verus!
