//! The updates tab: when it checks by itself, what it keeps from background
//! results, how release notes are laid out, and how versions compare.

use vstd::prelude::*;
use crate::text::{
    chars_in_bytes, chars_of, has_prefix, lines_chars, lines_of, owned, push_str, slice_range, starts_with, string_from_chars,
    trim, trim_chars, trim_start_matches_char, utf8_len, utf8_len_capped, views,
};
use crate::updater::{Release, UpdateProgress, UpdateStatus};
use crate::version::{semver_greater, semver_parse, SemVer};

verus! {

/// What the updates tab remembers. Times are milliseconds of the wall clock.
#[derive(Debug)]
pub struct UpdatesTab {
    pub update_status: Option<UpdateStatus>,
    pub release_history: Vec<Release>,
    pub checking_for_updates: bool,
    pub download_progress: Option<UpdateProgress>,
    pub selected_release: Option<usize>,
    pub show_release_details: bool,
    pub auto_check_enabled: bool,
    pub last_check_ms: Option<u64>,
    pub error_message: Option<String>,
}

/// A result of background work for the tab.
#[derive(Debug)]
pub enum UpdatesTabResult {
    Status(UpdateStatus),
    Releases(Vec<Release>),
    Error(String),
}

/// How a line of release notes is shown.
#[derive(Debug)]
pub enum MarkdownLine {
    Heading(String),
    Subheading(String),
    Bullet(String),
    Text(String),
    Blank,
}

/// Whether an automatic check is due: never checked, the clock went back, or
/// more than an hour has passed.
pub open spec fn auto_check_due(last_check_ms: Option<u64>, now_ms: u64) -> bool {
    match last_check_ms {
        Some(t) => now_ms < t || (now_ms - t) / 1000 > 3600,
        None => true,
    }
}

impl UpdatesTab {
    /// A tab with automatic checks on and nothing known yet.
    pub fn new() -> (r: UpdatesTab)
        ensures
            r.auto_check_enabled,
            r.update_status is None,
            r.release_history@.len() == 0,
            !r.checking_for_updates,
            r.download_progress is None,
            r.selected_release is None,
            !r.show_release_details,
            r.last_check_ms is None,
            r.error_message is None,
    {
        UpdatesTab {
            update_status: None,
            release_history: Vec::new(),
            checking_for_updates: false,
            download_progress: None,
            selected_release: None,
            show_release_details: false,
            auto_check_enabled: true,
            last_check_ms: None,
            error_message: None,
        }
    }

    /// Whether the tab should check by itself now (checks run at most hourly).
    pub fn should_auto_check(&self, now_ms: u64) -> (r: bool)
        ensures
            r == auto_check_due(self.last_check_ms, now_ms),
    {
        match self.last_check_ms {
            Some(t) => now_ms < t || (now_ms - t) / 1000 > 3600,
            None => true,
        }
    }

    /// Starts a check unless one is running: the old status and error are
    /// cleared and the time recorded. The result says whether it started.
    pub fn begin_check(&mut self, now_ms: u64) -> (r: bool)
        ensures
            r == !old(self).checking_for_updates,
            !r ==> *final(self) == *old(self),
            r ==> *final(self) == (UpdatesTab {
                checking_for_updates: true,
                update_status: None,
                error_message: None,
                last_check_ms: Some(now_ms),
                ..*old(self)
            }),
    {
        if self.checking_for_updates {
            return false;
        }
        self.checking_for_updates = true;
        self.update_status = None;
        self.error_message = None;
        self.last_check_ms = Some(now_ms);
        true
    }

    /// Takes in a background result: a status ends the check, a release list
    /// replaces the history, an error ends the check and is shown.
    pub fn take_result(&mut self, result: UpdatesTabResult)
        ensures
            match result {
                UpdatesTabResult::Status(s) => *final(self) == (UpdatesTab {
                    update_status: Some(s),
                    checking_for_updates: false,
                    ..*old(self)
                }),
                UpdatesTabResult::Releases(rs) => *final(self) == (UpdatesTab { release_history: rs, ..*old(self) }),
                UpdatesTabResult::Error(e) => *final(self) == (UpdatesTab {
                    error_message: Some(e),
                    checking_for_updates: false,
                    ..*old(self)
                }),
            },
    {
        match result {
            UpdatesTabResult::Status(s) => {
                self.update_status = Some(s);
                self.checking_for_updates = false;
            },
            UpdatesTabResult::Releases(rs) => {
                self.release_history = rs;
            },
            UpdatesTabResult::Error(e) => {
                self.error_message = Some(e);
                self.checking_for_updates = false;
            },
        }
    }

    /// Takes in an installation progress report.
    pub fn take_progress(&mut self, progress: UpdateProgress)
        ensures
            *final(self) == (UpdatesTab { download_progress: Some(progress), ..*old(self) }),
    {
        self.download_progress = Some(progress);
    }

    /// An installation starts with the compatibility check.
    pub fn begin_update(&mut self)
        ensures
            *final(self) == (UpdatesTab { download_progress: Some(UpdateProgress::Checking), ..*old(self) }),
    {
        self.download_progress = Some(UpdateProgress::Checking);
    }
}

/// The error reported when the release history cannot be loaded.
pub fn history_error(reason: &str) -> (r: UpdatesTabResult)
    ensures
        r matches UpdatesTabResult::Error(m) && m@ == "Failed to load releases: "@ + reason@,
{
    let mut m = owned("Failed to load releases: ");
    push_str(&mut m, reason);
    UpdatesTabResult::Error(m)
}

/// A version text with its leading `v`s removed.
pub open spec fn without_v(s: Seq<char>) -> Seq<char> {
    crate::text::trim_start_char(s, 'v')
}

/// Whether `version1` is a later version than `version2` (each with any
/// leading `v` removed); false when either does not read as a version.
pub open spec fn spec_is_version_newer(version1: Seq<char>, version2: Seq<char>) -> bool {
    match (semver_parse(without_v(version1)), semver_parse(without_v(version2))) {
        (Some(a), Some(b)) => semver_greater(a, b),
        _ => false,
    }
}

/// Compares two version texts.
pub fn is_version_newer(version1: &str, version2: &str) -> (r: bool)
    ensures
        r == spec_is_version_newer(version1@, version2@),
{
    let a = chars_of(version1);
    let b = chars_of(version2);
    let ta = string_from_chars(trim_start_matches_char(a.as_slice(), 'v').as_slice());
    let tb = string_from_chars(trim_start_matches_char(b.as_slice(), 'v').as_slice());
    match (SemVer::parse(ta.as_str()), SemVer::parse(tb.as_str())) {
        (Some(x), Some(y)) => x.greater_than(&y),
        _ => false,
    }
}

/// `s` with every leading copy of `p` removed.
pub open spec fn strip_repeated(s: Seq<char>, p: Seq<char>) -> Seq<char>
    decreases s.len(),
{
    if p.len() > 0 && starts_with(s, p) {
        strip_repeated(s.skip(p.len() as int), p)
    } else {
        s
    }
}

fn strip_prefix_repeated(s: &[char], p: &str) -> (r: Vec<char>)
    ensures
        r@ == strip_repeated(s@, p@),
{
    let pc = chars_of(p);
    let mut i: usize = 0;
    assert(s@.skip(0) =~= s@);
    while pc.len() > 0 && i <= s.len() && has_prefix(slice_range(s, i, s.len()).as_slice(), pc.as_slice())
        invariant
            i <= s@.len(),
            pc@ == p@,
            strip_repeated(s@, p@) == strip_repeated(s@.skip(i as int), p@),
        decreases s@.len() - i,
    {
        assert(s@.subrange(i as int, s@.len() as int) =~= s@.skip(i as int));
        assert(s@.skip(i as int).skip(pc@.len() as int) =~= s@.skip(i + pc@.len()));
        i = i + pc.len();
    }
    assert(s@.subrange(i as int, s@.len() as int) =~= s@.skip(i as int));
    slice_range(s, i, s.len())
}

/// The way a line of release notes is shown: after trimming, `## ` starts
/// a heading, `### ` a subheading, `- ` or `* ` a bullet (the marker removed,
/// repeated ones too); other text is shown as it is, and a blank line as a
/// gap.
pub open spec fn spec_markdown_line(raw: Seq<char>) -> (int, Seq<char>) {
    let line = trim(raw);
    if starts_with(line, "## "@) {
        (0, strip_repeated(line, "## "@))
    } else if starts_with(line, "### "@) {
        (1, strip_repeated(line, "### "@))
    } else if starts_with(line, "- "@) {
        (2, strip_repeated(line, "- "@))
    } else if starts_with(line, "* "@) {
        (2, strip_repeated(line, "* "@))
    } else if line.len() > 0 {
        (3, line)
    } else {
        (4, line)
    }
}

/// The kind and text of a shown line, as numbered in `spec_markdown_line`.
pub open spec fn line_view(l: MarkdownLine) -> (int, Seq<char>) {
    match l {
        MarkdownLine::Heading(t) => (0, t@),
        MarkdownLine::Subheading(t) => (1, t@),
        MarkdownLine::Bullet(t) => (2, t@),
        MarkdownLine::Text(t) => (3, t@),
        MarkdownLine::Blank => (4, Seq::empty()),
    }
}

/// Lays out one line of release notes.
pub fn markdown_line(raw: &str) -> (r: MarkdownLine)
    ensures
        line_view(r) == spec_markdown_line(raw@),
{
    let rc = chars_of(raw);
    let line = trim_chars(rc.as_slice());
    let h2 = chars_of("## ");
    let h3 = chars_of("### ");
    let dash = chars_of("- ");
    let star = chars_of("* ");
    if has_prefix(line.as_slice(), h2.as_slice()) {
        MarkdownLine::Heading(string_from_chars(strip_prefix_repeated(line.as_slice(), "## ").as_slice()))
    } else if has_prefix(line.as_slice(), h3.as_slice()) {
        MarkdownLine::Subheading(string_from_chars(strip_prefix_repeated(line.as_slice(), "### ").as_slice()))
    } else if has_prefix(line.as_slice(), dash.as_slice()) {
        MarkdownLine::Bullet(string_from_chars(strip_prefix_repeated(line.as_slice(), "- ").as_slice()))
    } else if has_prefix(line.as_slice(), star.as_slice()) {
        MarkdownLine::Bullet(string_from_chars(strip_prefix_repeated(line.as_slice(), "* ").as_slice()))
    } else if line.len() > 0 {
        MarkdownLine::Text(string_from_chars(line.as_slice()))
    } else {
        MarkdownLine::Blank
    }
}

/// The summary a line of release notes offers, when longer than ten bytes: a
/// bullet's text, or a plain line that is not a heading.
pub open spec fn summary_candidate(raw: Seq<char>) -> Option<Seq<char>> {
    let line = trim(raw);
    if starts_with(line, "- "@) || starts_with(line, "* "@) {
        let s = strip_repeated(strip_repeated(line, "- "@), "* "@);
        if utf8_len(s) > 10 {
            Some(s)
        } else {
            None
        }
    } else if line.len() > 0 && !starts_with(line, "#"@) && utf8_len(line) > 10 {
        Some(line)
    } else {
        None
    }
}

/// The first of `lines`, from `i` on, that offers a summary.
pub open spec fn first_summary(lines: Seq<Seq<char>>, i: int) -> Option<Seq<char>>
    decreases lines.len() - i,
{
    if i < 0 || i >= lines.len() {
        None
    } else {
        match summary_candidate(lines[i]) {
            Some(s) => Some(s),
            None => first_summary(lines, i + 1),
        }
    }
}

/// The first `k` characters of `s` take 77 bytes: a long summary is cut there.
pub open spec fn cut_at_77(s: Seq<char>, k: int) -> bool {
    0 <= k <= s.len() && utf8_len(s.take(k)) == 77
}

/// `r` is the summary shown for release notes `body`: the first line that
/// offers one, cut after 77 bytes with `...` when longer than 80 bytes, or a
/// note that there is none.
pub open spec fn shown_summary(body: Seq<char>, r: Seq<char>) -> bool {
    match first_summary(lines_of(body), 0) {
        None => r == "No description available"@,
        Some(s) => if utf8_len(s) > 80 {
            exists|k: int| cut_at_77(s, k) && r == s.take(k) + "..."@
        } else {
            r == s
        },
    }
}

/// The summary of `body`, if it has to be cut, can be cut between characters.
pub open spec fn summary_cut_ok(body: Seq<char>) -> bool {
    match first_summary(lines_of(body), 0) {
        Some(s) => utf8_len(s) > 80 ==> exists|k: int| cut_at_77(s, k),
        None => true,
    }
}

fn shorten_summary(s: &[char]) -> (r: String)
    requires
        utf8_len(s@) > 80 ==> exists|k: int| cut_at_77(s@, k),
    ensures
        utf8_len(s@) > 80 ==> exists|k: int| cut_at_77(s@, k) && r@ == s@.take(k) + "..."@,
        utf8_len(s@) <= 80 ==> r@ == s@,
{
    if utf8_len_capped(s, 81) > 80 {
        match chars_in_bytes(s, 77) {
            Some(k) => {
                let mut out = string_from_chars(slice_range(s, 0, k).as_slice());
                push_str(&mut out, "...");
                proof {
                    reveal_strlit("...");
                    assert(s@.subrange(0, k as int) =~= s@.take(k as int));
                    assert(cut_at_77(s@, k as int));
                }
                out
            },
            None => {
                proof {
                    let k = choose|k: int| cut_at_77(s@, k);
                    assert(utf8_len(s@.take(k)) != 77);
                }
                string_from_chars(s)
            },
        }
    } else {
        string_from_chars(s)
    }
}

/// The first line of `body` that offers a summary, if any.
fn first_summary_text(body: &str) -> (r: Option<Vec<char>>)
    ensures
        r matches Some(s) ==> first_summary(lines_of(body@), 0) == Some(s@),
        r is None ==> first_summary(lines_of(body@), 0) is None,
{
    let bc = chars_of(body);
    let lines = lines_chars(bc.as_slice());
    let dash = chars_of("- ");
    let star = chars_of("* ");
    let hash = chars_of("#");
    proof {
        reveal_strlit("- ");
        reveal_strlit("* ");
        reveal_strlit("#");
    }
    let ghost ls = lines_of(body@);
    let mut i: usize = 0;
    while i < lines.len()
        invariant
            i <= lines@.len(),
            views(lines@) == ls,
            ls == lines_of(body@),
            dash@ == "- "@,
            star@ == "* "@,
            hash@ == "#"@,
            first_summary(ls, 0) == first_summary(ls, i as int),
        decreases lines@.len() - i,
    {
        assert(ls[i as int] == lines@[i as int]@);
        let line = trim_chars(lines[i].as_slice());
        let cand: Option<Vec<char>> = if has_prefix(line.as_slice(), dash.as_slice()) || has_prefix(
            line.as_slice(),
            star.as_slice(),
        ) {
            let a = strip_prefix_repeated(line.as_slice(), "- ");
            let s = strip_prefix_repeated(a.as_slice(), "* ");
            if utf8_len_capped(s.as_slice(), 11) > 10 {
                Some(s)
            } else {
                None
            }
        } else if line.len() > 0 && !has_prefix(line.as_slice(), hash.as_slice()) && utf8_len_capped(
            line.as_slice(),
            11,
        ) > 10 {
            Some(line)
        } else {
            None
        };
        assert(match cand {
            Some(c) => summary_candidate(ls[i as int]) == Some(c@),
            None => summary_candidate(ls[i as int]) is None,
        });
        match cand {
            Some(c) => {
                return Some(c);
            },
            None => {},
        }
        i = i + 1;
    }
    None
}

/// Whether the summary of `body` can be shown: it needs no cut, or its cut
/// after 77 bytes falls between characters.
pub fn summary_fits(body: &str) -> (r: bool)
    ensures
        r == summary_cut_ok(body@),
{
    match first_summary_text(body) {
        None => true,
        Some(s) => {
            if utf8_len_capped(s.as_slice(), 81) > 80 {
                match chars_in_bytes(s.as_slice(), 77) {
                    Some(k) => {
                        assert(cut_at_77(s@, k as int));
                        true
                    },
                    None => {
                        assert(!exists|k: int| cut_at_77(s@, k)) by {
                            if exists|k: int| cut_at_77(s@, k) {
                                let k = choose|k: int| cut_at_77(s@, k);
                                assert(utf8_len(s@.take(k)) != 77);
                            }
                        }
                        false
                    },
                }
            } else {
                true
            }
        },
    }
}

impl UpdatesTab {
    /// A one-line summary of release notes: the first bullet, or plain line
    /// that is not a heading, longer than ten bytes; cut after 77 bytes and
    /// ended with `...` when longer than 80. Whether the cut falls between
    /// characters is told by `summary_fits`.
    pub fn extract_summary(&self, body: &str) -> (r: String)
        requires
            summary_cut_ok(body@),
        ensures
            shown_summary(body@, r@),
    {
        match first_summary_text(body) {
            Some(c) => shorten_summary(c.as_slice()),
            None => owned("No description available"),
        }
    }
}

/// A release date in RFC 3339 form printed with a `chrono` format pattern,
/// or none when the text is not such a date.
pub uninterp spec fn rfc3339_formatted(text: Seq<char>, pattern: Seq<char>) -> Option<Seq<char>>;

/// The short date pattern of the release list.
pub open spec fn short_pattern() -> Seq<char> {
    "%Y-%m-%d"@
}

/// The long date pattern of the release details.
pub open spec fn long_pattern() -> Seq<char> {
    "%B %d, %Y at %H:%M UTC"@
}

/// `chrono::DateTime::parse_from_rfc3339` and `format`: the printed date
/// depends on the text and the pattern alone (the offset is the one written
/// in the text). Only the two patterns the tab uses are passed, both of which
/// `chrono` prints without error.
#[verifier::external_body]
fn format_rfc3339(text: &str, pattern: &str) -> (r: Option<String>)
    requires
        pattern@ == short_pattern() || pattern@ == long_pattern(),
    ensures
        r matches Some(s) ==> rfc3339_formatted(text@, pattern@) == Some(s@),
        r is None ==> rfc3339_formatted(text@, pattern@) is None,
{
    chrono::DateTime::parse_from_rfc3339(text).ok().map(|d| d.format(pattern).to_string())
}

/// The date shown beside a release in the list: `- ` and the short date.
pub fn list_date_label(formatted: Option<String>) -> (r: Option<String>)
    ensures
        formatted matches Some(d) ==> (r matches Some(l) && l@ == "- "@ + d@),
        formatted is None ==> r is None,
{
    match formatted {
        Some(d) => {
            let mut l = owned("- ");
            push_str(&mut l, d.as_str());
            Some(l)
        },
        None => None,
    }
}

/// The date shown in a release's details: `Released: ` and the long date.
pub fn details_date_label(formatted: Option<String>) -> (r: Option<String>)
    ensures
        formatted matches Some(d) ==> (r matches Some(l) && l@ == "Released: "@ + d@),
        formatted is None ==> r is None,
{
    match formatted {
        Some(d) => {
            let mut l = owned("Released: ");
            push_str(&mut l, d.as_str());
            Some(l)
        },
        None => None,
    }
}

/// The list's date label for a release published at `published_at`.
pub fn release_list_date(published_at: &str) -> (r: Option<String>)
    ensures
        rfc3339_formatted(published_at@, short_pattern()) matches Some(d) ==> (r matches Some(l) && l@ == "- "@ + d),
        rfc3339_formatted(published_at@, short_pattern()) is None ==> r is None,
{
    proof {
        reveal_strlit("%Y-%m-%d");
    }
    list_date_label(format_rfc3339(published_at, "%Y-%m-%d"))
}

/// The details' date label for a release published at `published_at`.
pub fn release_details_date(published_at: &str) -> (r: Option<String>)
    ensures
        rfc3339_formatted(published_at@, long_pattern()) matches Some(d) ==> (r matches Some(l) && l@
            == "Released: "@ + d),
        rfc3339_formatted(published_at@, long_pattern()) is None ==> r is None,
{
    proof {
        reveal_strlit("%B %d, %Y at %H:%M UTC");
    }
    details_date_label(format_rfc3339(published_at, "%B %d, %Y at %H:%M UTC"))
}

} // verus!
