//! Reading the titles out of a HandBrake scan.

use vstd::prelude::*;
use crate::dvd::types::{Chapter, Dvd, DvdSize, Title, TitleView, title_views};
use crate::error::AppError;
use crate::json::{JsonValue, member, member2, u64_at, u64_of};
use crate::pattern::{capture_group, group, group_views, regex_captures, regex_captures_of};
use crate::text::{
    chars_of, contains_chars, contains_seq, owned, push_str, string_from_chars, string_views,
    trim, trim_chars,
};

verus! {

/// A number, zero when absent.
pub open spec fn or_zero(n: Option<u64>) -> u64 {
    match n {
        Some(v) => v,
        None => 0,
    }
}

/// The chapter list of a title object (empty when missing or not a list).
pub open spec fn chapter_list(t: JsonValue) -> Seq<JsonValue> {
    match member(t, "ChapterList"@) {
        Some(JsonValue::Array(a)) => a@,
        _ => Seq::empty(),
    }
}

/// The chapter the `j`-th entry of a chapter list describes.
pub open spec fn chapter_from_json(c: JsonValue, j: int) -> Chapter {
    Chapter {
        number: (j + 1) as usize,
        duration: or_zero(u64_of(member2(c, "Duration"@, "Milliseconds"@))),
    }
}

/// The title the `i`-th entry of HandBrake's title list describes: missing
/// numbers count as zero, the frame size is truncated to 32 bits, and the
/// name is the description.
pub open spec fn title_from_json(t: JsonValue, i: int) -> TitleView {
    TitleView {
        number: (i + 1) as usize,
        duration: or_zero(u64_of(member2(t, "Duration"@, "Milliseconds"@))),
        size: DvdSize {
            width: or_zero(u64_of(member2(t, "Geometry"@, "Width"@))) as u32,
            height: or_zero(u64_of(member2(t, "Geometry"@, "Height"@))) as u32,
        },
        chapters: Seq::new(
            chapter_list(t).len(),
            |j: int| chapter_from_json(chapter_list(t)[j], j),
        ),
        description: match member(t, "Name"@) {
            Some(JsonValue::Str(s)) => Some(s@),
            _ => None,
        },
    }
}

/// Every list in the scan can be numbered from one in a `usize`.
pub open spec fn countable(title_list: Seq<JsonValue>) -> bool {
    &&& title_list.len() < usize::MAX
    &&& forall|i: int| 0 <= i < title_list.len() ==> chapter_list(#[trigger] title_list[i]).len() < usize::MAX
}

fn chapters_from_json(t: &JsonValue) -> (r: Vec<Chapter>)
    requires
        chapter_list(*t).len() < usize::MAX,
    ensures
        r@ == Seq::new(chapter_list(*t).len(), |j: int| chapter_from_json(chapter_list(*t)[j], j)),
{
    let mut chapters: Vec<Chapter> = Vec::new();
    match t.get("ChapterList") {
        Some(list) => match list.as_array() {
            Some(items) => {
                let mut j: usize = 0;
                while j < items.len()
                    invariant
                        j <= items@.len(),
                        items@ == chapter_list(*t),
                        items@.len() < usize::MAX,
                        chapters@ == Seq::new(j as nat, |k: int| chapter_from_json(items@[k], k)),
                    decreases items@.len() - j,
                {
                    let duration = match u64_at(&items[j], "Duration", "Milliseconds") {
                        Some(ms) => ms,
                        None => 0,
                    };
                    chapters.push(Chapter { number: j + 1, duration });
                    assert(chapters@ =~= Seq::new((j + 1) as nat, |k: int| chapter_from_json(items@[k], k)));
                    j = j + 1;
                }
            },
            None => {},
        },
        None => {},
    }
    assert(chapters@ =~= Seq::new(chapter_list(*t).len(), |j: int| chapter_from_json(chapter_list(*t)[j], j)));
    chapters
}

/// Converts HandBrake's JSON title list into titles, numbered from one.
pub fn parse_handbrake_json_titles(title_list: &Vec<JsonValue>) -> (r: Result<Vec<Title>, AppError>)
    requires
        countable(title_list@),
    ensures
        r matches Ok(ts) && title_views(ts@) == Seq::new(
            title_list@.len(),
            |i: int| title_from_json(title_list@[i], i),
        ),
{
    let mut titles: Vec<Title> = Vec::new();
    let mut i: usize = 0;
    while i < title_list.len()
        invariant
            i <= title_list@.len(),
            countable(title_list@),
            title_views(titles@) =~= Seq::new(i as nat, |k: int| title_from_json(title_list@[k], k)),
        decreases title_list@.len() - i,
    {
        let t = &title_list[i];
        assert(chapter_list(title_list@[i as int]).len() < usize::MAX);
        let duration = match u64_at(t, "Duration", "Milliseconds") {
            Some(ms) => ms,
            None => 0,
        };
        let width = match u64_at(t, "Geometry", "Width") {
            Some(w) => w,
            None => 0,
        };
        let height = match u64_at(t, "Geometry", "Height") {
            Some(h) => h,
            None => 0,
        };
        let description = match t.get("Name") {
            Some(n) => match n.as_str() {
                Some(s) => Some(s.clone()),
                None => None,
            },
            None => None,
        };
        let chapters = chapters_from_json(t);
        let ghost before = title_views(titles@);
        titles.push(Title {
            number: i + 1,
            duration,
            size: DvdSize { width: width as u32, height: height as u32 },
            chapters,
            description,
        });
        assert(title_views(titles@) =~= before.push(title_from_json(title_list@[i as int], i as int)));
        i = i + 1;
    }
    Ok(titles)
}

/// What came back from running the HandBrake scan: whether it exited
/// successfully, its exit status as text, its error output, and its standard
/// output read as JSON directly and, failing that, from the block after
/// `JSON Title Set:` (each `None` when it is not valid JSON).
#[derive(Debug)]
pub struct ScanOutcome {
    pub success: bool,
    pub status_text: String,
    pub stderr: String,
    pub stdout_json: Option<JsonValue>,
    pub title_set_json: Option<JsonValue>,
}

/// The JSON block HandBrake prints after `JSON Title Set:`, trimmed.
pub open spec fn spec_title_set_text(stdout: Seq<char>) -> Option<Seq<char>> {
    match group(regex_captures_of("JSON Title Set:(?s)(.*)"@, stdout), 1) {
        Some(g) => Some(trim(g)),
        None => None,
    }
}

/// Finds the JSON block HandBrake prints after `JSON Title Set:`.
pub fn json_title_set_text(stdout: &str) -> (r: Option<String>)
    ensures
        r matches Some(t) ==> spec_title_set_text(stdout@) == Some(t@),
        r is None ==> spec_title_set_text(stdout@) is None,
{
    let caps = regex_captures("JSON Title Set:(?s)(.*)", stdout);
    match capture_group(&caps, 1) {
        Some(g) => {
            let cs = chars_of(g.as_str());
            let t = trim_chars(cs.as_slice());
            Some(string_from_chars(t.as_slice()))
        },
        None => None,
    }
}

/// The title list inside a scan document, if it has one.
pub open spec fn title_list_of(doc: Option<JsonValue>) -> Option<Seq<JsonValue>> {
    match doc {
        Some(d) => match member(d, "TitleList"@) {
            Some(JsonValue::Array(a)) => Some(a@),
            _ => None,
        },
        None => None,
    }
}

fn title_list_in(doc: &Option<JsonValue>) -> (r: Option<&Vec<JsonValue>>)
    ensures
        r matches Some(a) ==> title_list_of(*doc) == Some(a@),
        r is None ==> title_list_of(*doc) is None,
{
    match doc {
        Some(d) => match d.get("TitleList") {
            Some(l) => l.as_array(),
            None => None,
        },
        None => None,
    }
}

/// HandBrake's way of saying the disc holds no titles.
pub open spec fn reports_no_titles(stderr: Seq<char>) -> bool {
    contains_seq(stderr, "No title found"@) || contains_seq(stderr, "no main feature found"@)
}

impl Dvd {
    /// The HandBrake command that scans the disc and prints JSON.
    pub fn scan_command(&self) -> (r: (String, Vec<String>))
        ensures
            r.0@ == (match self.config.handbrake_path {
                Some(p) => p@,
                None => "HandBrakeCLI"@,
            }),
            string_views(r.1@) == seq!["-i"@, self.path@, "--scan"@, "--json"@],
    {
        let program = match &self.config.handbrake_path {
            Some(p) => p.clone(),
            None => owned("HandBrakeCLI"),
        };
        let mut args: Vec<String> = Vec::new();
        args.push(owned("-i"));
        args.push(self.path.clone());
        args.push(owned("--scan"));
        args.push(owned("--json"));
        assert(string_views(args@) =~= seq!["-i"@, self.path@, "--scan"@, "--json"@]);
        (program, args)
    }

    /// Takes the titles from a finished scan. A failed scan that reports no
    /// titles leaves the disc with none; another failure is an error naming the
    /// status and HandBrake's output. A successful scan yields the title list of
    /// its JSON output, else of its `JSON Title Set:` block, else an error.
    pub fn scan_titles(&mut self, outcome: ScanOutcome) -> (r: Result<(), AppError>)
        requires
            title_list_of(outcome.stdout_json) matches Some(l) ==> countable(l),
            title_list_of(outcome.title_set_json) matches Some(l) ==> countable(l),
        ensures
            final(self).path == old(self).path,
            final(self).config == old(self).config,
            !outcome.success && reports_no_titles(outcome.stderr@) ==> (r is Ok
                && final(self).titles@.len() == 0),
            !outcome.success && !reports_no_titles(outcome.stderr@) ==> (r matches Err(
                AppError::HandbrakeError(m),
            ) && m@ == "HandBrakeCLI scan failed with status "@ + outcome.status_text@ + ": "@
                + outcome.stderr@ && final(self).titles@ == old(self).titles@),
            outcome.success ==> match (title_list_of(outcome.stdout_json), title_list_of(outcome.title_set_json)) {
                (Some(l), _) => r is Ok && title_views(final(self).titles@) == Seq::new(
                    l.len(),
                    |i: int| title_from_json(l[i], i),
                ),
                (None, Some(l)) => r is Ok && title_views(final(self).titles@) == Seq::new(
                    l.len(),
                    |i: int| title_from_json(l[i], i),
                ),
                (None, None) => (r matches Err(AppError::HandbrakeError(m)) && m@
                    == "Failed to parse HandBrakeCLI scan JSON output"@ && final(self).titles@
                    == old(self).titles@),
            },
    {
        if !outcome.success {
            let err = chars_of(outcome.stderr.as_str());
            let a = chars_of("No title found");
            let b = chars_of("no main feature found");
            if contains_chars(err.as_slice(), a.as_slice()) || contains_chars(err.as_slice(), b.as_slice()) {
                self.titles = Vec::new();
                return Ok(());
            }
            let mut m = owned("HandBrakeCLI scan failed with status ");
            push_str(&mut m, outcome.status_text.as_str());
            push_str(&mut m, ": ");
            push_str(&mut m, outcome.stderr.as_str());
            return Err(AppError::HandbrakeError(m));
        }
        match title_list_in(&outcome.stdout_json) {
            Some(list) => {
                match parse_handbrake_json_titles(list) {
                    Ok(ts) => {
                        self.titles = ts;
                        return Ok(());
                    },
                    Err(e) => {
                        return Err(e);
                    },
                }
            },
            None => {},
        }
        match title_list_in(&outcome.title_set_json) {
            Some(list) => {
                match parse_handbrake_json_titles(list) {
                    Ok(ts) => {
                        self.titles = ts;
                        Ok(())
                    },
                    Err(e) => Err(e),
                }
            },
            None => Err(AppError::HandbrakeError(owned("Failed to parse HandBrakeCLI scan JSON output"))),
        }
    }
}

} // verus!
