//! Recognising a DVD structure.

use vstd::prelude::*;
use crate::error::AppError;

verus! {

/// Accepts `path` as a DVD when it holds a `VIDEO_TS` directory (whether it
/// does is looked up by the caller).
pub fn verify_dvd_path(path: &str, has_video_ts_dir: bool) -> (r: Result<(), AppError>)
    ensures
        has_video_ts_dir <==> r is Ok,
        r matches Err(e) ==> e matches AppError::DvdNotFound(p) && p@ == path@,
{
    if has_video_ts_dir {
        Ok(())
    } else {
        Err(AppError::DvdNotFound(crate::text::owned(path)))
    }
}

} // verus!
