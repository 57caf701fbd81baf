//! Names and checks for the paths the user picks.

use vstd::prelude::*;
use crate::paths::{file_name, path_file_name};
use crate::text::{
    chars_of, contains_chars, contains_seq, ends_with, has_prefix, has_suffix, owned, starts_with, to_lowercase,
    unicode_lowercase, utf8_len, utf8_len_capped,
};

verus! {

/// Get a user-friendly name for a DVD path: its final name, or the whole
/// path when it has none.
pub fn get_dvd_display_name(path: &str) -> (r: String)
    ensures
        r@ == (match file_name(path@) {
            Some(n) => n,
            None => path@,
        }),
{
    match path_file_name(path) {
        Some(n) => n,
        None => owned(path),
    }
}

/// A directory entry looks like part of a DVD when its lowercase name ends in
/// `.vob`, `.ifo` or `.bup`.
pub fn is_dvd_file_name(name: &str) -> (r: bool)
    ensures
        r == (ends_with(unicode_lowercase(name@), ".vob"@) || ends_with(unicode_lowercase(name@), ".ifo"@)
            || ends_with(unicode_lowercase(name@), ".bup"@)),
{
    let lower = to_lowercase(name);
    let l = chars_of(lower.as_str());
    let vob = chars_of(".vob");
    let ifo = chars_of(".ifo");
    let bup = chars_of(".bup");
    has_suffix(l.as_slice(), vob.as_slice()) || has_suffix(l.as_slice(), ifo.as_slice()) || has_suffix(
        l.as_slice(),
        bup.as_slice(),
    )
}

/// The checks on a chosen input directory, from what the file system said:
/// the path must be given, exist and be a directory; a directory that cannot
/// be read reports the system's reason.
pub fn validate_path(path: &str, exists: bool, is_dir: bool, read_error: Option<String>) -> (r: Result<(), String>)
    ensures
        path@.len() == 0 ==> (r matches Err(m) && m@ == "Path cannot be empty"@),
        path@.len() > 0 && !exists ==> (r matches Err(m) && m@ == "Path does not exist"@),
        path@.len() > 0 && exists && !is_dir ==> (r matches Err(m) && m@ == "Path must be a directory"@),
        path@.len() > 0 && exists && is_dir ==> match read_error {
            Some(e) => r matches Err(m) && m@ == "Cannot access directory: "@ + e@,
            None => r is Ok,
        },
{
    if path.is_empty() {
        return Err(owned("Path cannot be empty"));
    }
    if !exists {
        return Err(owned("Path does not exist"));
    }
    if !is_dir {
        return Err(owned("Path must be a directory"));
    }
    match read_error {
        Some(e) => {
            let mut m = owned("Cannot access directory: ");
            crate::text::push_str(&mut m, e.as_str());
            Err(m)
        },
        None => Ok(()),
    }
}

/// A folder under `/Volumes` is taken for optical media when its lowercase
/// name mentions `dvd` or `cd`, or is longer than three bytes and not hidden.
pub fn looks_like_optical_volume(name: &str) -> (r: bool)
    ensures
        r == (contains_seq(unicode_lowercase(name@), "dvd"@) || contains_seq(unicode_lowercase(name@), "cd"@) || (
        utf8_len(unicode_lowercase(name@)) > 3 && !starts_with(unicode_lowercase(name@), "."@))),
{
    let lower = to_lowercase(name);
    let l = chars_of(lower.as_str());
    let dvd = chars_of("dvd");
    let cd = chars_of("cd");
    let dot = chars_of(".");
    contains_chars(l.as_slice(), dvd.as_slice()) || contains_chars(l.as_slice(), cd.as_slice()) || (utf8_len_capped(
        l.as_slice(),
        4,
    ) > 3 && !has_prefix(l.as_slice(), dot.as_slice()))
}

/// The paths on Linux that are offered as drives when they exist, in order.
pub fn linux_optical_paths() -> (r: Vec<&'static str>)
    ensures
        r@.len() == 8,
        r@[0]@ == "/dev/sr0"@,
        r@[1]@ == "/dev/sr1"@,
        r@[2]@ == "/dev/cdrom"@,
        r@[3]@ == "/dev/dvd"@,
        r@[4]@ == "/media/cdrom"@,
        r@[5]@ == "/media/dvd"@,
        r@[6]@ == "/mnt/cdrom"@,
        r@[7]@ == "/mnt/dvd"@,
{
    vec!["/dev/sr0", "/dev/sr1", "/dev/cdrom", "/dev/dvd", "/media/cdrom", "/media/dvd", "/mnt/cdrom", "/mnt/dvd"]
}

} // verus!
