//! Creating a disc, planning which titles to rip and into which files, and the
//! HandBrake and eject command lines.

use vstd::prelude::*;
use crate::config::Config;
use crate::dvd::types::{Dvd, RipTask, Title, TitleView, title_views};
use crate::error::AppError;
use crate::paths::{join_path, joined};
use crate::platform::TargetOs;
use crate::text::{decimal_digits, decimal_string, owned, push_decimal, push_str, string_views};

verus! {

/// The title is among those selected (all are, without a selection).
pub open spec fn is_selected(sel: Option<Seq<usize>>, number: usize) -> bool {
    match sel {
        Some(s) => s.contains(number),
        None => true,
    }
}

/// The positions, in disc order, of the selected titles among the first `n`.
pub open spec fn selected_positions(ts: Seq<TitleView>, sel: Option<Seq<usize>>, n: nat) -> Seq<int>
    decreases n,
{
    if n == 0 {
        Seq::empty()
    } else {
        let p = selected_positions(ts, sel, (n - 1) as nat);
        if is_selected(sel, ts[n - 1].number) {
            p.push(n - 1)
        } else {
            p
        }
    }
}

/// The file a title is ripped into: `title_<number>.mkv` in the output directory.
pub open spec fn title_file(output_dir: Seq<char>, number: usize) -> Seq<char> {
    joined(output_dir, "title_"@ + decimal_digits(number as nat) + ".mkv"@)
}

/// The title with the longest duration; of several, the last one.
pub open spec fn is_main_feature(ts: Seq<TitleView>, i: int) -> bool {
    &&& 0 <= i < ts.len()
    &&& forall|j: int| 0 <= j < ts.len() ==> (#[trigger] ts[j]).duration <= ts[i].duration
    &&& forall|j: int| i < j < ts.len() ==> (#[trigger] ts[j]).duration < ts[i].duration
}

fn selection_contains(sel: &Option<Vec<usize>>, number: usize) -> (r: bool)
    ensures
        r == is_selected(
            match sel {
                Some(v) => Some(v@),
                None => None,
            },
            number,
        ),
{
    match sel {
        Some(v) => {
            let mut i: usize = 0;
            while i < v.len()
                invariant
                    i <= v@.len(),
                    *sel == Some(*v),
                    forall|k: int| 0 <= k < i ==> v@[k] != number,
                decreases v@.len() - i,
            {
                if v[i] == number {
                    assert(v@[i as int] == number);
                    assert(v@.contains(number));
                    return true;
                }
                i = i + 1;
            }
            false
        },
        None => true,
    }
}

impl Dvd {
    /// A disc at `path` with no titles scanned yet.
    pub fn new(path: String, config: Config) -> (r: Result<Dvd, AppError>)
        ensures
            r matches Ok(d) ==> d.path == path && d.titles@.len() == 0 && d.config == config,
            r is Ok,
    {
        Ok(Dvd { path, titles: Vec::new(), config })
    }

    /// One task per selected title (all titles without a selection), in disc
    /// order, each ripping into `title_<number>.mkv` in `output_dir`.
    pub fn create_rip_tasks(
        &self,
        output_dir: &str,
        selected_titles_numbers: Option<Vec<usize>>,
        chapter_split: bool,
    ) -> (r: Vec<RipTask>)
        ensures
            ({
                let sel = match selected_titles_numbers {
                    Some(v) => Some(v@),
                    None => None,
                };
                let ts = title_views(self.titles@);
                let pos = selected_positions(ts, sel, ts.len());
                &&& r@.len() == pos.len()
                &&& forall|k: int| 0 <= k < r@.len() ==> {
                    &&& (#[trigger] r@[k]).title@ == ts[pos[k]]
                    &&& r@[k].output_path@ == title_file(output_dir@, ts[pos[k]].number)
                    &&& r@[k].chapter_split == chapter_split
                }
            }),
    {
        let ghost sel = match selected_titles_numbers {
            Some(ref v) => Some(v@),
            None => None,
        };
        let ghost ts = title_views(self.titles@);
        let mut tasks: Vec<RipTask> = Vec::new();
        let mut i: usize = 0;
        while i < self.titles.len()
            invariant
                i <= self.titles@.len(),
                ts == title_views(self.titles@),
                sel == (match selected_titles_numbers {
                    Some(v) => Some(v@),
                    None => None,
                }),
                tasks@.len() == selected_positions(ts, sel, i as nat).len(),
                forall|k: int| 0 <= k < tasks@.len() ==> {
                    let pos = selected_positions(ts, sel, i as nat);
                    &&& (#[trigger] tasks@[k]).title@ == ts[pos[k]]
                    &&& tasks@[k].output_path@ == title_file(output_dir@, ts[pos[k]].number)
                    &&& tasks@[k].chapter_split == chapter_split
                },
            decreases self.titles@.len() - i,
        {
            let title = &self.titles[i];
            assert(ts[i as int] == title@);
            let ghost before = tasks@;
            if selection_contains(&selected_titles_numbers, title.number) {
                let mut name = owned("title_");
                push_decimal(&mut name, title.number as u64);
                push_str(&mut name, ".mkv");
                let output_path = join_path(output_dir, name.as_str());
                tasks.push(RipTask { title: title.duplicate(), output_path, chapter_split });
                assert forall|k: int| 0 <= k < tasks@.len() implies {
                    let pos = selected_positions(ts, sel, (i + 1) as nat);
                    &&& (#[trigger] tasks@[k]).title@ == ts[pos[k]]
                    &&& tasks@[k].output_path@ == title_file(output_dir@, ts[pos[k]].number)
                    &&& tasks@[k].chapter_split == chapter_split
                } by {
                    if k < before.len() {
                        assert(tasks@[k] == before[k]);
                    }
                }
            }
            i = i + 1;
        }
        tasks
    }

    /// The main feature: the longest title (the last of several equally long).
    pub fn find_main_feature(&self) -> (r: Option<&Title>)
        ensures
            r is None <==> self.titles@.len() == 0,
            r matches Some(t) ==> exists|i: int|
                is_main_feature(title_views(self.titles@), i) && *t == #[trigger] self.titles@[i],
    {
        if self.titles.len() == 0 {
            return None;
        }
        let ghost ts = title_views(self.titles@);
        let mut best: usize = 0;
        let mut i: usize = 1;
        while i < self.titles.len()
            invariant
                1 <= i <= self.titles@.len(),
                best < i,
                ts == title_views(self.titles@),
                forall|j: int| 0 <= j < i ==> (#[trigger] ts[j]).duration <= ts[best as int].duration,
                forall|j: int| best < j < i ==> (#[trigger] ts[j]).duration < ts[best as int].duration,
            decreases self.titles@.len() - i,
        {
            if self.titles[i].duration >= self.titles[best].duration {
                best = i;
            }
            i = i + 1;
        }
        let t = &self.titles[best];
        assert(is_main_feature(ts, best as int) && *t == self.titles@[best as int]);
        Some(t)
    }

    /// The HandBrake command that rips one task: the configured executable (or
    /// `HandBrakeCLI`) with input, title, output, preset, encoder and quality.
    pub fn rip_command_with(&self, task: &RipTask, preset: &str, quality: u32) -> (r: (String, Vec<String>))
        ensures
            r.0@ == (match self.config.handbrake_path {
                Some(p) => p@,
                None => "HandBrakeCLI"@,
            }),
            string_views(r.1@) == seq![
                "-i"@, self.path@, "-t"@, decimal_digits(task.title.number as nat),
                "-o"@, task.output_path@, "--preset"@, preset@,
                "-e"@, self.config.encode_algo@, "-q"@, decimal_digits(quality as nat)
            ],
    {
        let program = match &self.config.handbrake_path {
            Some(p) => p.clone(),
            None => owned("HandBrakeCLI"),
        };
        let mut args: Vec<String> = Vec::new();
        args.push(owned("-i"));
        args.push(self.path.clone());
        args.push(owned("-t"));
        args.push(decimal_string(task.title.number as u64));
        args.push(owned("-o"));
        args.push(task.output_path.clone());
        args.push(owned("--preset"));
        args.push(owned(preset));
        args.push(owned("-e"));
        args.push(self.config.encode_algo.clone());
        args.push(owned("-q"));
        args.push(decimal_string(quality as u64));
        assert(string_views(args@) =~= seq![
            "-i"@, self.path@, "-t"@, decimal_digits(task.title.number as nat),
            "-o"@, task.output_path@, "--preset"@, preset@,
            "-e"@, self.config.encode_algo@, "-q"@, decimal_digits(quality as nat)
        ]);
        (program, args)
    }

    /// The HandBrake command that rips one task with the default preset
    /// `Fast 1080p30` and quality 20.
    pub fn rip_command(&self, task: &RipTask) -> (r: (String, Vec<String>))
        ensures
            r.0@ == (match self.config.handbrake_path {
                Some(p) => p@,
                None => "HandBrakeCLI"@,
            }),
            string_views(r.1@) == seq![
                "-i"@, self.path@, "-t"@, decimal_digits(task.title.number as nat),
                "-o"@, task.output_path@, "--preset"@, "Fast 1080p30"@,
                "-e"@, self.config.encode_algo@, "-q"@, "20"@
            ],
    {
        proof {
            reveal_strlit("20");
            assert(decimal_digits(20) =~= "20"@) by {
                assert(decimal_digits(2) == seq!['2']);
            }
        }
        self.rip_command_with(task, "Fast 1080p30", 20)
    }

    /// The command that ejects the disc: `diskutil eject` on macOS, `eject` on
    /// Linux; none elsewhere.
    pub fn eject_command(&self, os: TargetOs) -> (r: Option<(String, Vec<String>)>)
        ensures
            os == TargetOs::MacOs ==> (r matches Some(c) && c.0@ == "diskutil"@
                && string_views(c.1@) == seq!["eject"@, self.path@]),
            os == TargetOs::Linux ==> (r matches Some(c) && c.0@ == "eject"@
                && string_views(c.1@) == seq![self.path@]),
            os != TargetOs::MacOs && os != TargetOs::Linux ==> r is None,
    {
        match os {
            TargetOs::MacOs => {
                let mut args: Vec<String> = Vec::new();
                args.push(owned("eject"));
                args.push(self.path.clone());
                assert(string_views(args@) =~= seq!["eject"@, self.path@]);
                Some((owned("diskutil"), args))
            },
            TargetOs::Linux => {
                let mut args: Vec<String> = Vec::new();
                args.push(self.path.clone());
                assert(string_views(args@) =~= seq![self.path@]);
                Some((owned("eject"), args))
            },
            _ => None,
        }
    }
}

/// What the end of a rip means: success, or a HandBrake error naming the
/// title, the exit status and HandBrake's error output.
pub fn rip_outcome(title_number: usize, success: bool, status_text: &str, stderr: &str) -> (r: Result<(), AppError>)
    ensures
        success ==> r is Ok,
        !success ==> (r matches Err(AppError::HandbrakeError(m)) && m@ == "HandBrakeCLI failed for title "@
            + decimal_digits(title_number as nat) + " with status "@ + status_text@ + ": "@ + stderr@),
{
    if success {
        return Ok(());
    }
    let mut m = owned("HandBrakeCLI failed for title ");
    push_decimal(&mut m, title_number as u64);
    push_str(&mut m, " with status ");
    push_str(&mut m, status_text);
    push_str(&mut m, ": ");
    push_str(&mut m, stderr);
    Err(AppError::HandbrakeError(m))
}

/// What the end of an eject command means on `os`.
pub fn eject_outcome(os: TargetOs, success: bool) -> (r: Result<(), AppError>)
    ensures
        success ==> r is Ok,
        !success && os == TargetOs::MacOs ==> (r matches Err(AppError::DvdError(m)) && m@ == "diskutil eject failed"@),
        !success && os == TargetOs::Linux ==> (r matches Err(AppError::DvdError(m)) && m@ == "eject command failed"@),
        !success && os != TargetOs::MacOs && os != TargetOs::Linux ==> r is Ok,
{
    if success {
        return Ok(());
    }
    match os {
        TargetOs::MacOs => Err(AppError::DvdError(owned("diskutil eject failed"))),
        TargetOs::Linux => Err(AppError::DvdError(owned("eject command failed"))),
        _ => Ok(()),
    }
}

} // verus!
