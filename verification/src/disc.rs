//! DVD handling driven by HandBrake's text output: titles with audio and
//! subtitle tracks, the main feature, per-chapter rip plans, and the readers
//! for the scan text and for `df`.

use vstd::prelude::*;
use crate::config::Config;
use crate::error::AppError;
use crate::paths::{join_path, joined};
use crate::pattern::{capture_group, group, regex_captures, regex_captures_of};
use crate::text::{
    all_digits, chars_of, chars_equal, decimal_string, decimal_digits, is_digit, join, join_chars,
    lines_chars, lines_of, owned, parse_unsigned, push_str, push_two_digits, split_words,
    string_from_chars, string_views, two_digits, unsigned_from_str, views, words, lemma_decimal_digits_shape,
};

verus! {

/// A chapter of a title; the duration is in whole seconds.
#[derive(Debug, Clone, Copy)]
pub struct Chapter {
    pub number: usize,
    pub duration: u64,
}

/// An audio track of a title.
#[derive(Debug)]
pub struct AudioTrack {
    pub number: usize,
    pub language: String,
    pub codec: String,
    pub channels: usize,
    pub iso639_2: String,
}

/// A subtitle track of a title.
#[derive(Debug)]
pub struct SubtitleTrack {
    pub number: usize,
    pub language: String,
}

/// Frame size, pixel aspect, and the frame rate as HandBrake printed it (a
/// decimal fraction such as `29.970`).
#[derive(Debug)]
pub struct VideoSize {
    pub width: usize,
    pub height: usize,
    pub pixel_aspect_width: usize,
    pub pixel_aspect_height: usize,
    pub fps: String,
}

/// A title on the disc; the duration is in whole seconds. Tracks are listed
/// with their numbers, in the order they were found.
#[derive(Debug)]
pub struct Title {
    pub number: usize,
    pub duration: u64,
    pub chapters: Vec<Chapter>,
    pub audio_tracks: Vec<(usize, AudioTrack)>,
    pub subtitle_tracks: Vec<(usize, SubtitleTrack)>,
    pub size: VideoSize,
}

/// One file to rip: a whole title, or one of its chapters.
#[derive(Debug)]
pub struct RipTask {
    pub title: Title,
    pub chapter: Option<usize>,
    pub output_path: String,
}

/// A disc, where it is mounted, and the titles found on it.
#[derive(Debug)]
pub struct Dvd {
    pub path: String,
    pub mount_point: Option<String>,
    pub titles: Vec<Title>,
    pub config: Config,
}

/// What a title holds, as plain values.
pub struct TitleView {
    pub number: usize,
    pub duration: u64,
    pub chapters: Seq<Chapter>,
    pub audio_tracks: Seq<(usize, AudioTrack)>,
    pub subtitle_tracks: Seq<(usize, SubtitleTrack)>,
    pub size: VideoSize,
}

impl View for Title {
    type V = TitleView;

    open spec fn view(&self) -> TitleView {
        TitleView {
            number: self.number,
            duration: self.duration,
            chapters: self.chapters@,
            audio_tracks: self.audio_tracks@,
            subtitle_tracks: self.subtitle_tracks@,
            size: self.size,
        }
    }
}

/// No track number is listed twice: each number names one track, as in a
/// map from numbers to tracks.
pub open spec fn numbers_distinct<T>(tracks: Seq<(usize, T)>) -> bool {
    forall|i: int, j: int| 0 <= i < j < tracks.len() ==> (#[trigger] tracks[i]).0 != (#[trigger] tracks[j]).0
}

/// The title's audio and subtitle tracks each have distinct numbers.
pub open spec fn tracks_well_formed(t: TitleView) -> bool {
    numbers_distinct(t.audio_tracks) && numbers_distinct(t.subtitle_tracks)
}

fn distinct_numbers<T>(tracks: &Vec<(usize, T)>) -> (r: bool)
    ensures
        r == numbers_distinct(tracks@),
{
    let mut i: usize = 0;
    while i < tracks.len()
        invariant
            i <= tracks@.len(),
            forall|a: int, b: int| 0 <= a < b < tracks@.len() && a < i ==> (#[trigger] tracks@[a]).0
                != (#[trigger] tracks@[b]).0,
        decreases tracks@.len() - i,
    {
        let mut j: usize = i + 1;
        while j < tracks.len()
            invariant
                i < tracks@.len(),
                i + 1 <= j <= tracks@.len(),
                forall|a: int, b: int| 0 <= a < b < tracks@.len() && a < i ==> (#[trigger] tracks@[a]).0
                    != (#[trigger] tracks@[b]).0,
                forall|b: int| i < b < j ==> tracks@[i as int].0 != (#[trigger] tracks@[b]).0,
            decreases tracks@.len() - j,
        {
            if tracks[i].0 == tracks[j].0 {
                return false;
            }
            j = j + 1;
        }
        i = i + 1;
    }
    true
}

/// The contents of each title.
pub open spec fn title_views(ts: Seq<Title>) -> Seq<TitleView> {
    Seq::new(ts.len(), |i: int| ts[i]@)
}

impl AudioTrack {
    /// A copy of the track.
    pub fn duplicate(&self) -> (r: AudioTrack)
        ensures
            r == *self,
    {
        AudioTrack {
            number: self.number,
            language: self.language.clone(),
            codec: self.codec.clone(),
            channels: self.channels,
            iso639_2: self.iso639_2.clone(),
        }
    }
}

impl SubtitleTrack {
    /// A copy of the track.
    pub fn duplicate(&self) -> (r: SubtitleTrack)
        ensures
            r == *self,
    {
        SubtitleTrack { number: self.number, language: self.language.clone() }
    }
}

impl VideoSize {
    /// A copy of the size.
    pub fn duplicate(&self) -> (r: VideoSize)
        ensures
            r == *self,
    {
        VideoSize {
            width: self.width,
            height: self.height,
            pixel_aspect_width: self.pixel_aspect_width,
            pixel_aspect_height: self.pixel_aspect_height,
            fps: self.fps.clone(),
        }
    }
}

impl Title {
    /// Whether the audio and subtitle tracks each have distinct numbers.
    pub fn has_distinct_track_numbers(&self) -> (r: bool)
        ensures
            r == tracks_well_formed(self@),
    {
        distinct_numbers(&self.audio_tracks) && distinct_numbers(&self.subtitle_tracks)
    }

    /// A copy of the title.
    pub fn duplicate(&self) -> (r: Title)
        ensures
            r@ == self@,
    {
        let mut chapters: Vec<Chapter> = Vec::new();
        let mut i: usize = 0;
        while i < self.chapters.len()
            invariant
                i <= self.chapters@.len(),
                chapters@ == self.chapters@.take(i as int),
            decreases self.chapters@.len() - i,
        {
            chapters.push(self.chapters[i]);
            assert(self.chapters@.take(i + 1) =~= self.chapters@.take(i as int).push(self.chapters@[i as int]));
            i = i + 1;
        }
        let mut audio: Vec<(usize, AudioTrack)> = Vec::new();
        let mut j: usize = 0;
        while j < self.audio_tracks.len()
            invariant
                j <= self.audio_tracks@.len(),
                audio@ == self.audio_tracks@.take(j as int),
            decreases self.audio_tracks@.len() - j,
        {
            let (k, t) = &self.audio_tracks[j];
            audio.push((*k, t.duplicate()));
            assert(self.audio_tracks@.take(j + 1) =~= self.audio_tracks@.take(j as int).push(self.audio_tracks@[j as int]));
            j = j + 1;
        }
        let mut subs: Vec<(usize, SubtitleTrack)> = Vec::new();
        let mut k: usize = 0;
        while k < self.subtitle_tracks.len()
            invariant
                k <= self.subtitle_tracks@.len(),
                subs@ == self.subtitle_tracks@.take(k as int),
            decreases self.subtitle_tracks@.len() - k,
        {
            let (n, t) = &self.subtitle_tracks[k];
            subs.push((*n, t.duplicate()));
            assert(self.subtitle_tracks@.take(k + 1) =~= self.subtitle_tracks@.take(k as int).push(self.subtitle_tracks@[k as int]));
            k = k + 1;
        }
        assert(self.chapters@.take(self.chapters@.len() as int) =~= self.chapters@);
        assert(self.audio_tracks@.take(self.audio_tracks@.len() as int) =~= self.audio_tracks@);
        assert(self.subtitle_tracks@.take(self.subtitle_tracks@.len() as int) =~= self.subtitle_tracks@);
        Title {
            number: self.number,
            duration: self.duration,
            chapters,
            audio_tracks: audio,
            subtitle_tracks: subs,
            size: self.size.duplicate(),
        }
    }
}

/// The title is among those selected (all are, without a selection).
pub open spec fn is_selected(sel: Option<Seq<usize>>, number: usize) -> bool {
    match sel {
        Some(s) => s.contains(number),
        None => true,
    }
}

/// The positions, in disc order, of the selected titles among the first `n`.
pub open spec fn selected_positions(ts: Seq<TitleView>, sel: Option<Seq<usize>>, n: nat) -> Seq<int>
    decreases n,
{
    if n == 0 {
        Seq::empty()
    } else {
        let p = selected_positions(ts, sel, (n - 1) as nat);
        if is_selected(sel, ts[n - 1].number) {
            p.push(n - 1)
        } else {
            p
        }
    }
}

/// One planned file: the title it comes from (its position on the disc), the
/// chapter if only one is ripped, and the output path.
pub struct PlannedFile {
    pub title_pos: int,
    pub chapter: Option<usize>,
    pub path: Seq<char>,
}

/// The files for one title: one per chapter when splitting and the title has
/// chapters, else one for the whole title. With several titles the names carry
/// the title number (`Title03_Ch01.mp4`, `Title03.mp4`); with one they do not
/// (`Chapter01.mp4`, `Movie.mp4`).
pub open spec fn files_for_title(
    ts: Seq<TitleView>,
    p: int,
    multi: bool,
    split: bool,
    out: Seq<char>,
) -> Seq<PlannedFile> {
    let t = ts[p];
    if split && t.chapters.len() > 0 {
        Seq::new(
            t.chapters.len(),
            |c: int|
                PlannedFile {
                    title_pos: p,
                    chapter: Some(t.chapters[c].number),
                    path: if multi {
                        joined(
                            out,
                            "Title"@ + two_digits(t.number as nat) + "_Ch"@ + two_digits(
                                t.chapters[c].number as nat,
                            ) + ".mp4"@,
                        )
                    } else {
                        joined(out, "Chapter"@ + two_digits(t.chapters[c].number as nat) + ".mp4"@)
                    },
                },
        )
    } else {
        seq![
            PlannedFile {
                title_pos: p,
                chapter: None,
                path: if multi {
                    joined(out, "Title"@ + two_digits(t.number as nat) + ".mp4"@)
                } else {
                    joined(out, "Movie.mp4"@)
                },
            },
        ]
    }
}

/// The files for the first `k` selected titles, in order.
pub open spec fn planned_files(
    ts: Seq<TitleView>,
    pos: Seq<int>,
    k: nat,
    split: bool,
    out: Seq<char>,
) -> Seq<PlannedFile>
    decreases k,
{
    if k == 0 {
        Seq::empty()
    } else {
        planned_files(ts, pos, (k - 1) as nat, split, out) + files_for_title(
            ts,
            pos[k - 1],
            pos.len() > 1,
            split,
            out,
        )
    }
}

/// The task carries the planned title, chapter and path.
pub open spec fn task_matches(task: RipTask, ts: Seq<TitleView>, f: PlannedFile) -> bool {
    &&& task.title@ == ts[f.title_pos]
    &&& task.chapter == f.chapter
    &&& task.output_path@ == f.path
}

/// The title with the longest duration; of several, the last one.
pub open spec fn is_main_feature(ts: Seq<TitleView>, i: int) -> bool {
    &&& 0 <= i < ts.len()
    &&& forall|j: int| 0 <= j < ts.len() ==> (#[trigger] ts[j]).duration <= ts[i].duration
    &&& forall|j: int| i < j < ts.len() ==> (#[trigger] ts[j]).duration < ts[i].duration
}

fn selection_contains(sel: &Option<Vec<usize>>, number: usize) -> (r: bool)
    ensures
        r == is_selected(
            match sel {
                Some(v) => Some(v@),
                None => None,
            },
            number,
        ),
{
    match sel {
        Some(v) => {
            let mut i: usize = 0;
            while i < v.len()
                invariant
                    i <= v@.len(),
                    *sel == Some(*v),
                    forall|k: int| 0 <= k < i ==> v@[k] != number,
                decreases v@.len() - i,
            {
                if v[i] == number {
                    assert(v@.contains(number));
                    return true;
                }
                i = i + 1;
            }
            false
        },
        None => true,
    }
}

fn file_for(out: &str, t: &Title, chapter: Option<usize>, multi: bool) -> (r: String)
    ensures
        chapter matches Some(c) ==> r@ == (if multi {
            joined(out@, "Title"@ + two_digits(t.number as nat) + "_Ch"@ + two_digits(c as nat) + ".mp4"@)
        } else {
            joined(out@, "Chapter"@ + two_digits(c as nat) + ".mp4"@)
        }),
        chapter is None ==> r@ == (if multi {
            joined(out@, "Title"@ + two_digits(t.number as nat) + ".mp4"@)
        } else {
            joined(out@, "Movie.mp4"@)
        }),
{
    let mut name = String::new();
    match chapter {
        Some(c) => {
            if multi {
                push_str(&mut name, "Title");
                push_two_digits(&mut name, t.number as u64);
                push_str(&mut name, "_Ch");
                push_two_digits(&mut name, c as u64);
                push_str(&mut name, ".mp4");
            } else {
                push_str(&mut name, "Chapter");
                push_two_digits(&mut name, c as u64);
                push_str(&mut name, ".mp4");
            }
        },
        None => {
            if multi {
                push_str(&mut name, "Title");
                push_two_digits(&mut name, t.number as u64);
                push_str(&mut name, ".mp4");
            } else {
                push_str(&mut name, "Movie.mp4");
            }
        },
    }
    join_path(out, name.as_str())
}

impl Dvd {
    /// A disc at `path` mounted at `mount_point` (found by the caller), with no
    /// titles scanned yet.
    pub fn new(path: String, mount_point: Option<String>, config: Config) -> (r: Dvd)
        ensures
            r.path == path,
            r.mount_point == mount_point,
            r.titles@.len() == 0,
            r.config == config,
    {
        Dvd { path, mount_point, titles: Vec::new(), config }
    }

    /// The main feature: the longest title (the last of several equally long).
    pub fn find_main_feature(&self) -> (r: Option<&Title>)
        ensures
            r is None <==> self.titles@.len() == 0,
            r matches Some(t) ==> exists|i: int|
                is_main_feature(title_views(self.titles@), i) && *t == #[trigger] self.titles@[i],
    {
        if self.titles.len() == 0 {
            return None;
        }
        let ghost ts = title_views(self.titles@);
        let mut best: usize = 0;
        let mut i: usize = 1;
        while i < self.titles.len()
            invariant
                1 <= i <= self.titles@.len(),
                best < i,
                ts == title_views(self.titles@),
                forall|j: int| 0 <= j < i ==> (#[trigger] ts[j]).duration <= ts[best as int].duration,
                forall|j: int| best < j < i ==> (#[trigger] ts[j]).duration < ts[best as int].duration,
            decreases self.titles@.len() - i,
        {
            if self.titles[i].duration >= self.titles[best].duration {
                best = i;
            }
            i = i + 1;
        }
        let t = &self.titles[best];
        assert(is_main_feature(ts, best as int) && *t == self.titles@[best as int]);
        Some(t)
    }

    /// The files to rip from the selected titles (all titles without a
    /// selection): per chapter when splitting, else per title.
    pub fn create_rip_tasks(&self, output_dir: &str, selected_titles: Option<Vec<usize>>, chapter_split: bool) -> (r: Vec<RipTask>)
        ensures
            ({
                let sel = match selected_titles {
                    Some(v) => Some(v@),
                    None => None,
                };
                let ts = title_views(self.titles@);
                let pos = selected_positions(ts, sel, ts.len());
                let plan = planned_files(ts, pos, pos.len(), chapter_split, output_dir@);
                &&& r@.len() == plan.len()
                &&& forall|k: int| 0 <= k < r@.len() ==> task_matches(#[trigger] r@[k], ts, plan[k])
            }),
    {
        let ghost sel = match selected_titles {
            Some(ref v) => Some(v@),
            None => None,
        };
        let ghost ts = title_views(self.titles@);
        let mut chosen: Vec<usize> = Vec::new();
        let mut i: usize = 0;
        while i < self.titles.len()
            invariant
                i <= self.titles@.len(),
                ts == title_views(self.titles@),
                sel == (match selected_titles {
                    Some(v) => Some(v@),
                    None => None,
                }),
                chosen@.len() == selected_positions(ts, sel, i as nat).len(),
                forall|k: int| 0 <= k < chosen@.len() ==> chosen@[k] as int == #[trigger] selected_positions(ts, sel, i as nat)[k]
                    && chosen@[k] < i,
            decreases self.titles@.len() - i,
        {
            assert(ts[i as int] == self.titles@[i as int]@);
            let ghost before = chosen@;
            let ghost prev = selected_positions(ts, sel, i as nat);
            if selection_contains(&selected_titles, self.titles[i].number) {
                chosen.push(i);
                assert(selected_positions(ts, sel, (i + 1) as nat) == prev.push(i as int));
                assert forall|k: int| 0 <= k < chosen@.len() implies chosen@[k] as int
                    == #[trigger] selected_positions(ts, sel, (i + 1) as nat)[k] && chosen@[k] < i + 1 by {
                    if k < before.len() {
                        assert(chosen@[k] == before[k]);
                    }
                }
            } else {
                assert(selected_positions(ts, sel, (i + 1) as nat) == prev);
            }
            i = i + 1;
        }
        let ghost pos = selected_positions(ts, sel, ts.len());
        assert(ts.len() == self.titles@.len());
        assert(forall|q: int| 0 <= q < chosen@.len() ==> chosen@[q] as int == #[trigger] pos[q]
            && chosen@[q] < self.titles@.len());
        let multi = chosen.len() > 1;
        let mut tasks: Vec<RipTask> = Vec::new();
        let mut k: usize = 0;
        while k < chosen.len()
            invariant
                k <= chosen@.len(),
                chosen@.len() == pos.len(),
                multi == (pos.len() > 1),
                ts == title_views(self.titles@),
                forall|q: int| 0 <= q < chosen@.len() ==> chosen@[q] as int == #[trigger] pos[q]
                    && chosen@[q] < self.titles@.len(),
                tasks@.len() == planned_files(ts, pos, k as nat, chapter_split, output_dir@).len(),
                forall|q: int| 0 <= q < tasks@.len() ==> task_matches(
                    #[trigger] tasks@[q],
                    ts,
                    planned_files(ts, pos, k as nat, chapter_split, output_dir@)[q],
                ),
            decreases chosen@.len() - k,
        {
            let ghost p = pos[k as int];
            assert(chosen@[k as int] as int == p && chosen@[k as int] < self.titles@.len());
            let title = &self.titles[chosen[k]];
            let ghost files = files_for_title(ts, p, multi, chapter_split, output_dir@);
            let ghost done = planned_files(ts, pos, k as nat, chapter_split, output_dir@);
            assert(ts[p] == title@);
            if chapter_split && title.chapters.len() > 0 {
                let mut c: usize = 0;
                while c < title.chapters.len()
                    invariant
                        c <= title.chapters@.len(),
                        ts[p] == title@,
                        title.chapters@.len() > 0,
                        chapter_split,
                        files == files_for_title(ts, p, multi, chapter_split, output_dir@),
                        tasks@.len() == done.len() + c,
                        forall|q: int| 0 <= q < tasks@.len() ==> task_matches(
                            #[trigger] tasks@[q],
                            ts,
                            (done + files)[q],
                        ),
                    decreases title.chapters@.len() - c,
                {
                    let number = title.chapters[c].number;
                    let output_path = file_for(output_dir, title, Some(number), multi);
                    let ghost before = tasks@;
                    tasks.push(RipTask { title: title.duplicate(), chapter: Some(number), output_path });
                    assert forall|q: int| 0 <= q < tasks@.len() implies task_matches(
                        #[trigger] tasks@[q],
                        ts,
                        (done + files)[q],
                    ) by {
                        if q < before.len() {
                            assert(tasks@[q] == before[q]);
                        } else {
                            assert((done + files)[q] == files[c as int]);
                        }
                    }
                    c = c + 1;
                }
            } else {
                let output_path = file_for(output_dir, title, None, multi);
                let ghost before = tasks@;
                tasks.push(RipTask { title: title.duplicate(), chapter: None, output_path });
                assert forall|q: int| 0 <= q < tasks@.len() implies task_matches(
                    #[trigger] tasks@[q],
                    ts,
                    (done + files)[q],
                ) by {
                    if q < before.len() {
                        assert(tasks@[q] == before[q]);
                    } else {
                        assert((done + files)[q] == files[0]);
                    }
                }
            }
            assert(planned_files(ts, pos, (k + 1) as nat, chapter_split, output_dir@) == done + files);
            k = k + 1;
        }
        tasks
    }
}

/// The pattern of HandBrake's title-count line.
pub open spec fn title_count_pattern() -> Seq<char> {
    "scan: DVD has (\\d+) title\\(s\\)"@
}

/// The pattern of HandBrake's progress line, which also gives the count.
pub open spec fn scanning_pattern() -> Seq<char> {
    "Scanning title \\d+ of (\\d+)"@
}

/// The pattern of a title's duration line.
pub open spec fn duration_pattern() -> Seq<char> {
    "duration: (\\d{2}):(\\d{2}):(\\d{2})"@
}

/// The pattern of a title's size line.
pub open spec fn size_pattern() -> Seq<char> {
    "size: (\\d+)x(\\d+), pixel aspect: (\\d+)/(\\d+).*?(\\d+\\.\\d+) fps"@
}

/// A captured group read as an unsigned number no larger than `max`.
pub open spec fn group_number(caps: Option<Seq<Option<Seq<char>>>>, i: int, max: nat) -> Option<nat> {
    match group(caps, i) {
        Some(g) => unsigned_from_str(g, max),
        None => None,
    }
}

/// The number of titles HandBrake reports: from the `DVD has N title(s)` line
/// if there is one (even if its number does not read), else from a
/// `Scanning title i of N` line.
pub open spec fn spec_title_count(output: Seq<char>) -> Option<nat> {
    let c1 = regex_captures_of(title_count_pattern(), output);
    if c1 is Some {
        group_number(c1, 1, usize::MAX as nat)
    } else {
        group_number(regex_captures_of(scanning_pattern(), output), 1, usize::MAX as nat)
    }
}

fn group_as_number(caps: &Option<Vec<Option<String>>>, i: usize, max: u64) -> (r: Option<u64>)
    ensures
        r matches Some(v) ==> group_number(
            match caps {
                Some(c) => Some(crate::pattern::group_views(c@)),
                None => None,
            },
            i as int,
            max as nat,
        ) == Some(v as nat),
        r is None ==> group_number(
            match caps {
                Some(c) => Some(crate::pattern::group_views(c@)),
                None => None,
            },
            i as int,
            max as nat,
        ) is None,
{
    match capture_group(caps, i) {
        Some(g) => {
            let cs = chars_of(g.as_str());
            parse_unsigned(cs.as_slice(), max)
        },
        None => None,
    }
}

/// Reads the number of titles from HandBrake's scan output.
pub fn parse_title_count(output: &str) -> (r: Option<usize>)
    ensures
        r matches Some(n) ==> spec_title_count(output@) == Some(n as nat),
        r is None ==> spec_title_count(output@) is None,
{
    let c1 = regex_captures("scan: DVD has (\\d+) title\\(s\\)", output);
    if c1.is_some() {
        return match group_as_number(&c1, 1, usize::MAX as u64) {
            Some(n) => Some(n as usize),
            None => None,
        };
    }
    let c2 = regex_captures("Scanning title \\d+ of (\\d+)", output);
    match group_as_number(&c2, 1, usize::MAX as u64) {
        Some(n) => Some(n as usize),
        None => None,
    }
}

/// `t` splits at position `i` into digits, one point and digits, with at
/// least one digit on each side.
pub open spec fn fraction_point_at(t: Seq<char>, i: int) -> bool {
    &&& 0 < i < t.len() - 1
    &&& t[i] == '.'
    &&& forall|q: int| 0 <= q < t.len() && q != i ==> is_digit(#[trigger] t[q])
}

/// `t` is a decimal fraction written with ASCII digits on both sides of one
/// point, which is what `str::parse::<f64>` accepts among the texts the size
/// pattern captures.
pub open spec fn is_decimal_fraction(t: Seq<char>) -> bool {
    exists|i: int| #[trigger] fraction_point_at(t, i)
}

fn decimal_fraction(t: &[char]) -> (r: bool)
    ensures
        r == is_decimal_fraction(t@),
{
    let mut i: usize = 0;
    while i < t.len() && t[i] != '.'
        invariant
            i <= t@.len(),
            forall|k: int| 0 <= k < i ==> t@[k] != '.',
        decreases t@.len() - i,
    {
        i = i + 1;
    }
    if i == 0 || i >= t.len() || i == t.len() - 1 {
        proof {
            if is_decimal_fraction(t@) {
                let w = choose|w: int| #[trigger] fraction_point_at(t@, w);
                if i < t@.len() && w != i {
                    assert(is_digit(t@[i as int]));
                }
            }
        }
        return false;
    }
    let mut ok = true;
    let mut k: usize = 0;
    while k < t.len()
        invariant
            0 < i < t@.len() - 1,
            t@[i as int] == '.',
            forall|q: int| 0 <= q < i ==> t@[q] != '.',
            k <= t@.len(),
            ok == (forall|q: int| 0 <= q < k && q != i ==> is_digit(#[trigger] t@[q])),
        decreases t@.len() - k,
    {
        if k != i && !('0' <= t[k] && t[k] <= '9') {
            ok = false;
        }
        k = k + 1;
    }
    proof {
        if ok {
            assert(fraction_point_at(t@, i as int));
        } else if is_decimal_fraction(t@) {
            let w = choose|w: int| #[trigger] fraction_point_at(t@, w);
            if w < i {
                assert(false);
            } else if w > i {
                assert(is_digit(t@[i as int]));
            }
        }
    }
    ok
}

/// The duration, in seconds, of the first `duration: HH:MM:SS` line.
pub open spec fn spec_duration(output: Seq<char>) -> Option<nat> {
    let c = regex_captures_of(duration_pattern(), output);
    match (group_number(c, 1, u64::MAX as nat), group_number(c, 2, u64::MAX as nat), group_number(c, 3, u64::MAX as nat)) {
        (Some(h), Some(m), Some(s)) => if h * 3600 + m * 60 + s <= u64::MAX {
            Some(h * 3600 + m * 60 + s)
        } else {
            None
        },
        _ => None,
    }
}

/// The frame size and rate of the first `size:` line.
pub open spec fn spec_size(output: Seq<char>) -> Option<(nat, nat, nat, nat, Seq<char>)> {
    let c = regex_captures_of(size_pattern(), output);
    match (
        group_number(c, 1, usize::MAX as nat),
        group_number(c, 2, usize::MAX as nat),
        group_number(c, 3, usize::MAX as nat),
        group_number(c, 4, usize::MAX as nat),
        group(c, 5),
    ) {
        (Some(w), Some(h), Some(aw), Some(ah), Some(fps)) => if is_decimal_fraction(fps) {
            Some((w, h, aw, ah, fps))
        } else {
            None
        },
        _ => None,
    }
}

/// Reads a title's duration and size from HandBrake's scan output. The
/// duration is looked for first; each missing piece is its own error.
pub fn parse_title_details(title_number: usize, output: &str) -> (r: Result<Title, AppError>)
    ensures
        spec_duration(output@) is None ==> (r matches Err(AppError::DvdParseFailed(m)) && m@
            == "Failed to parse title duration"@),
        spec_duration(output@) is Some && spec_size(output@) is None ==> (r matches Err(
            AppError::DvdParseFailed(m),
        ) && m@ == "Failed to parse video size"@),
        r matches Ok(t) ==> tracks_well_formed(t@),
        r matches Ok(t) ==> {
            &&& spec_duration(output@) == Some(t.duration as nat)
            &&& spec_size(output@) == Some(
                (
                    t.size.width as nat,
                    t.size.height as nat,
                    t.size.pixel_aspect_width as nat,
                    t.size.pixel_aspect_height as nat,
                    t.size.fps@,
                ),
            )
            &&& t.number == title_number
            &&& t.chapters@.len() == 0
            &&& t.audio_tracks@.len() == 0
            &&& t.subtitle_tracks@.len() == 0
        },
        spec_duration(output@) is Some && spec_size(output@) is Some ==> r is Ok,
{
    let dc = regex_captures("duration: (\\d{2}):(\\d{2}):(\\d{2})", output);
    let h = group_as_number(&dc, 1, u64::MAX);
    let m = group_as_number(&dc, 2, u64::MAX);
    let sec = group_as_number(&dc, 3, u64::MAX);
    let duration: u64 = match (h, m, sec) {
        (Some(h), Some(m), Some(sec)) => {
            if h > (u64::MAX - sec) / 3600 || m > (u64::MAX - sec - h * 3600) / 60 {
                proof {
                    assert(h * 3600 + m * 60 + sec > u64::MAX) by (nonlinear_arith)
                        requires
                            h > (u64::MAX - sec) / 3600 || (h <= (u64::MAX - sec) / 3600 && m > (u64::MAX - sec - h * 3600) / 60),
                            sec <= u64::MAX;
                }
                return Err(AppError::DvdParseFailed(owned("Failed to parse title duration")));
            }
            proof {
                assert(h * 3600 + m * 60 + sec <= u64::MAX) by (nonlinear_arith)
                    requires
                        h <= (u64::MAX - sec) / 3600,
                        m <= (u64::MAX - sec - h * 3600) / 60,
                        sec <= u64::MAX;
            }
            h * 3600 + m * 60 + sec
        },
        _ => {
            return Err(AppError::DvdParseFailed(owned("Failed to parse title duration")));
        },
    };
    let sc = regex_captures("size: (\\d+)x(\\d+), pixel aspect: (\\d+)/(\\d+).*?(\\d+\\.\\d+) fps", output);
    let w = group_as_number(&sc, 1, usize::MAX as u64);
    let ht = group_as_number(&sc, 2, usize::MAX as u64);
    let aw = group_as_number(&sc, 3, usize::MAX as u64);
    let ah = group_as_number(&sc, 4, usize::MAX as u64);
    let fps = capture_group(&sc, 5);
    match (w, ht, aw, ah, fps) {
        (Some(w), Some(ht), Some(aw), Some(ah), Some(fps)) => {
            let fc = chars_of(fps.as_str());
            if !decimal_fraction(fc.as_slice()) {
                return Err(AppError::DvdParseFailed(owned("Failed to parse video size")));
            }
            Ok(Title {
                number: title_number,
                duration,
                chapters: Vec::new(),
                audio_tracks: Vec::new(),
                subtitle_tracks: Vec::new(),
                size: VideoSize {
                    width: w as usize,
                    height: ht as usize,
                    pixel_aspect_width: aw as usize,
                    pixel_aspect_height: ah as usize,
                    fps,
                },
            })
        },
        _ => Err(AppError::DvdParseFailed(owned("Failed to parse video size"))),
    }
}

/// The mount directory `df -P` reports for `device`, looking at the lines
/// after the header from `i` on: the sixth field of the first line with at
/// least six fields whose first field is the device.
pub open spec fn df_match(lines: Seq<Seq<char>>, device: Seq<char>, i: int) -> Option<Seq<char>>
    decreases lines.len() - i,
{
    if i < 0 || i >= lines.len() {
        None
    } else {
        let f = words(lines[i]);
        if f.len() >= 6 && f[0] == device {
            Some(f[5])
        } else {
            df_match(lines, device, i + 1)
        }
    }
}

/// The mount directory of `device` in the output of `df -P` (whose first line
/// is a header).
pub open spec fn df_mount_point(df_output: Seq<char>, device: Seq<char>) -> Option<Seq<char>> {
    df_match(lines_of(df_output), device, 1)
}

/// Finds where `device` is mounted in the output of `df -P`.
pub fn mount_point_from_df(df_output: &str, device: &str) -> (r: Option<String>)
    ensures
        r matches Some(m) ==> df_mount_point(df_output@, device@) == Some(m@),
        r is None ==> df_mount_point(df_output@, device@) is None,
{
    let text = chars_of(df_output);
    let dev = chars_of(device);
    let lines = lines_chars(text.as_slice());
    let ghost ls = lines_of(df_output@);
    let mut i: usize = 1;
    while i < lines.len()
        invariant
            1 <= i,
            views(lines@) == ls,
            ls == lines_of(df_output@),
            dev@ == device@,
            df_match(ls, device@, 1) == df_match(ls, device@, i as int),
        decreases lines@.len() - i,
    {
        let fields = split_words(lines[i].as_slice());
        proof {
            assert(ls[i as int] == lines@[i as int]@);
        }
        if fields.len() >= 6 && chars_equal(fields[0].as_slice(), dev.as_slice()) {
            proof {
                assert(views(fields@)[0] == fields@[0]@);
                assert(views(fields@)[5] == fields@[5]@);
            }
            return Some(string_from_chars(fields[5].as_slice()));
        }
        proof {
            if views(fields@).len() >= 6 {
                assert(views(fields@)[0] == fields@[0]@);
            }
        }
        i = i + 1;
    }
    None
}

/// `n` copies of `s`.
pub open spec fn copies(s: Seq<char>, n: nat) -> Seq<Seq<char>> {
    Seq::new(n, |q: int| s)
}

/// The numbers of a title's tracks, as decimal text, in track order.
pub open spec fn track_numbers<T>(tracks: Seq<(usize, T)>) -> Seq<Seq<char>> {
    Seq::new(tracks.len(), |k: int| decimal_digits(tracks[k].0 as nat))
}

/// The HandBrake arguments that rip `task` from `mount_point` with `encoder`.
pub open spec fn spec_rip_arguments(task: RipTask, encoder: Seq<char>, mount_point: Seq<char>) -> Seq<Seq<char>> {
    let t = task.title;
    let audio = track_numbers(t.audio_tracks@);
    let subs = track_numbers(t.subtitle_tracks@);
    let base = seq!["--title"@, decimal_digits(t.number as nat), "--preset"@, "Production Standard"@, "--encoder"@, encoder];
    let with_audio = if audio.len() > 0 {
        base + seq!["--audio"@, join(audio, ","@), "--aencoder"@, join(copies("faac"@, audio.len()), ","@)]
    } else {
        base
    };
    let with_chapter = match task.chapter {
        Some(c) => with_audio + seq!["--chapters"@, decimal_digits(c as nat)],
        None => with_audio,
    };
    let with_subs = if subs.len() > 0 {
        with_chapter + seq!["--subtitle"@, join(subs, ","@)]
    } else {
        with_chapter
    };
    with_subs + seq!["--markers"@, "--optimize"@, "--input"@, mount_point, "--output"@, task.output_path@]
}

proof fn lemma_join_starts_with_first(parts: Seq<Seq<char>>, sep: Seq<char>)
    requires
        parts.len() > 0,
        forall|k: int| 0 <= k < parts.len() ==> (#[trigger] parts[k]).len() > 0,
    ensures
        join(parts, sep).len() > 0,
        join(parts, sep)[0] == parts[0][0],
    decreases parts.len(),
{
    if parts.len() > 1 {
        let d = parts.drop_last();
        assert forall|k: int| 0 <= k < d.len() implies (#[trigger] d[k]).len() > 0 by {
            assert(d[k] == parts[k]);
        }
        lemma_join_starts_with_first(d, sep);
        assert(d[0] == parts[0]);
    }
}

proof fn lemma_numbers_join_starts_with_digit<T>(tracks: Seq<(usize, T)>)
    requires
        tracks.len() > 0,
    ensures
        is_digit(join(track_numbers(tracks), ","@)[0]),
{
    let parts = track_numbers(tracks);
    assert forall|k: int| 0 <= k < parts.len() implies (#[trigger] parts[k]).len() > 0 by {
        lemma_decimal_digits_shape(tracks[k].0 as nat);
    }
    lemma_join_starts_with_first(parts, ","@);
    lemma_decimal_digits_shape(tracks[0].0 as nat);
}

/// The rip arguments ask for a chapter exactly when the task names one: a
/// task with a chapter `c` has `--chapters` followed by `c`; a whole-title
/// task has no `--chapters` argument (apart from an encoder, mount point or
/// output path that happens to be spelled so); and naming a chapter only
/// adds those two arguments to the whole-title ones.
pub proof fn lemma_chapter_asked_only_for_chapter_tasks(task: RipTask, encoder: Seq<char>, mount_point: Seq<char>)
    ensures
        ({
            let args = spec_rip_arguments(task, encoder, mount_point);
            task.chapter is None ==> forall|i: int|
                0 <= i < args.len() && #[trigger] args[i] == "--chapters"@ ==> args[i] == encoder || args[i]
                    == mount_point || args[i] == task.output_path@
        }),
        ({
            let args = spec_rip_arguments(task, encoder, mount_point);
            task.chapter matches Some(c) ==> exists|i: int|
                0 <= i && i + 1 < args.len() && #[trigger] args[i] == "--chapters"@ && args[i + 1] == decimal_digits(
                    c as nat,
                )
        }),
        ({
            let whole = spec_rip_arguments(RipTask { chapter: None, ..task }, encoder, mount_point);
            let part = spec_rip_arguments(task, encoder, mount_point);
            task.chapter matches Some(c) ==> exists|k: int|
                0 <= k <= whole.len() && part == whole.take(k) + seq!["--chapters"@, decimal_digits(c as nat)]
                    + whole.skip(k)
        }),
{
    let args = spec_rip_arguments(task, encoder, mount_point);
    let t = task.title;
    let audio = track_numbers(t.audio_tracks@);
    let subs = track_numbers(t.subtitle_tracks@);
    reveal_strlit("--chapters");
    reveal_strlit("--title");
    reveal_strlit("--preset");
    reveal_strlit("Production Standard");
    reveal_strlit("--encoder");
    reveal_strlit("--audio");
    reveal_strlit("--aencoder");
    reveal_strlit("--subtitle");
    reveal_strlit("--markers");
    reveal_strlit("--optimize");
    reveal_strlit("--input");
    reveal_strlit("--output");
    reveal_strlit("faac");
    reveal_strlit(",");
    lemma_decimal_digits_shape(t.number as nat);
    if audio.len() > 0 {
        lemma_numbers_join_starts_with_digit(t.audio_tracks@);
        let f = copies("faac"@, audio.len());
        assert forall|k: int| 0 <= k < f.len() implies (#[trigger] f[k]).len() > 0 by {}
        lemma_join_starts_with_first(f, ","@);
    }
    if subs.len() > 0 {
        lemma_numbers_join_starts_with_digit(t.subtitle_tracks@);
    }
    let base = seq!["--title"@, decimal_digits(t.number as nat), "--preset"@, "Production Standard"@, "--encoder"@, encoder];
    let with_audio = if audio.len() > 0 {
        base + seq!["--audio"@, join(audio, ","@), "--aencoder"@, join(copies("faac"@, audio.len()), ","@)]
    } else {
        base
    };
    let tail = seq!["--markers"@, "--optimize"@, "--input"@, mount_point, "--output"@, task.output_path@];
    let subs_part = if subs.len() > 0 {
        seq!["--subtitle"@, join(subs, ","@)]
    } else {
        Seq::<Seq<char>>::empty()
    };
    match task.chapter {
        None => {
            assert(args =~= with_audio + subs_part + tail);
            assert forall|i: int|
                0 <= i < args.len() && #[trigger] args[i] == "--chapters"@ implies args[i] == encoder || args[i]
                    == mount_point || args[i] == task.output_path@ by {
                let a = args[i];
                assert(a.len() == 10 && a[0] == '-' && a[2] == 'c');
                if i < with_audio.len() {
                    if i < 6 {
                        assert(args[i] == base[i]);
                        if i == 1 {
                            assert(is_digit(args[i][0]));
                        }
                    } else {
                        assert(args[i] == with_audio[i]);
                    }
                } else if i < with_audio.len() + subs_part.len() {
                    assert(args[i] == subs_part[i - with_audio.len()]);
                } else {
                    assert(args[i] == tail[i - with_audio.len() - subs_part.len()]);
                }
            }
        },
        Some(c) => {
            let ch = seq!["--chapters"@, decimal_digits(c as nat)];
            assert(args =~= with_audio + ch + subs_part + tail);
            let k = with_audio.len() as int;
            assert(args[k] == "--chapters"@);
            assert(args[k + 1] == decimal_digits(c as nat));
            let whole = spec_rip_arguments(RipTask { chapter: None, ..task }, encoder, mount_point);
            assert(whole =~= with_audio + subs_part + tail);
            assert(args =~= whole.take(k) + ch + whole.skip(k));
        },
    }
}

fn push_track_numbers<T>(out: &mut Vec<Vec<char>>, tracks: &Vec<(usize, T)>)
    requires
        old(out)@.len() == 0,
    ensures
        views(final(out)@) == track_numbers(tracks@),
{
    let mut k: usize = 0;
    while k < tracks.len()
        invariant
            k <= tracks@.len(),
            out@.len() == k,
            views(out@) == track_numbers(tracks@).take(k as int),
        decreases tracks@.len() - k,
    {
        let d = decimal_string(tracks[k].0 as u64);
        let cs = chars_of(d.as_str());
        let ghost cv = cs@;
        out.push(cs);
        assert(views(out@)[k as int] == cv);
        assert(views(out@) =~= track_numbers(tracks@).take(k + 1));
        k = k + 1;
    }
    assert(track_numbers(tracks@).take(tracks@.len() as int) =~= track_numbers(tracks@));
}

impl Dvd {
    /// The HandBrake arguments that rip `task`: title, preset, the configured
    /// encoder, the title's audio tracks (each encoded with `faac`), the
    /// chapter if one is chosen, the subtitle tracks, chapter markers, web
    /// optimisation, the mounted disc as input and the task's output file.
    /// A disc that is not mounted cannot be ripped. Track numbers are
    /// distinct, as in a map from numbers to tracks
    /// (`has_distinct_track_numbers` tells).
    pub fn rip_arguments(&self, task: &RipTask) -> (r: Result<Vec<String>, AppError>)
        requires
            tracks_well_formed(task.title@),
        ensures
            self.mount_point is None ==> (r matches Err(AppError::MountFailed(m)) && m@ == "DVD not mounted"@),
            self.mount_point matches Some(mp) ==> (r matches Ok(args) && string_views(args@)
                == spec_rip_arguments(*task, self.config.encode_algo@, mp@)),
    {
        let mount_point = match &self.mount_point {
            Some(m) => m,
            None => {
                return Err(AppError::MountFailed(owned("DVD not mounted")));
            },
        };
        let t = &task.title;
        let mut args: Vec<String> = Vec::new();
        args.push(owned("--title"));
        args.push(decimal_string(t.number as u64));
        args.push(owned("--preset"));
        args.push(owned("Production Standard"));
        args.push(owned("--encoder"));
        args.push(self.config.encode_algo.clone());
        let ghost base = string_views(args@);
        let mut audio: Vec<Vec<char>> = Vec::new();
        push_track_numbers(&mut audio, &t.audio_tracks);
        if audio.len() > 0 {
            let mut encoders: Vec<Vec<char>> = Vec::new();
            let mut k: usize = 0;
            while k < audio.len()
                invariant
                    k <= audio@.len(),
                    encoders@.len() == k,
                    forall|j: int| 0 <= j < k ==> (#[trigger] encoders@[j])@ == "faac"@,
                decreases audio@.len() - k,
            {
                encoders.push(chars_of("faac"));
                k = k + 1;
            }
            assert(views(encoders@) =~= copies("faac"@, audio@.len()));
            let comma = chars_of(",");
            args.push(owned("--audio"));
            args.push(join_chars(&audio, comma.as_slice()));
            args.push(owned("--aencoder"));
            args.push(join_chars(&encoders, comma.as_slice()));
        }
        let ghost after_audio = string_views(args@);
        if let Some(c) = task.chapter {
            args.push(owned("--chapters"));
            args.push(decimal_string(c as u64));
        }
        let ghost after_chapter = string_views(args@);
        let mut subs: Vec<Vec<char>> = Vec::new();
        push_track_numbers(&mut subs, &t.subtitle_tracks);
        if subs.len() > 0 {
            let comma = chars_of(",");
            args.push(owned("--subtitle"));
            args.push(join_chars(&subs, comma.as_slice()));
        }
        let ghost after_subs = string_views(args@);
        args.push(owned("--markers"));
        args.push(owned("--optimize"));
        args.push(owned("--input"));
        args.push(mount_point.clone());
        args.push(owned("--output"));
        args.push(task.output_path.clone());
        proof {
            let audio_v = track_numbers(t.audio_tracks@);
            let subs_v = track_numbers(t.subtitle_tracks@);
            let b = seq!["--title"@, decimal_digits(t.number as nat), "--preset"@, "Production Standard"@, "--encoder"@, self.config.encode_algo@];
            assert(base =~= b);
            let wa = if audio_v.len() > 0 {
                b + seq!["--audio"@, join(audio_v, ","@), "--aencoder"@, join(copies("faac"@, audio_v.len()), ","@)]
            } else {
                b
            };
            assert(after_audio =~= wa);
            let wc = match task.chapter {
                Some(c) => wa + seq!["--chapters"@, decimal_digits(c as nat)],
                None => wa,
            };
            assert(after_chapter =~= wc);
            let ws = if subs_v.len() > 0 {
                wc + seq!["--subtitle"@, join(subs_v, ","@)]
            } else {
                wc
            };
            assert(after_subs =~= ws);
            assert(string_views(args@) =~= ws + seq!["--markers"@, "--optimize"@, "--input"@, mount_point@, "--output"@, task.output_path@]);
        }
        Ok(args)
    }
}

} // verus!
