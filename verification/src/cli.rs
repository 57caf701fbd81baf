//! Command-line arguments and the parser for the title selection option.

use vstd::prelude::*;
use crate::upload::UploadMethod;
use crate::text::{
    chars_of, contains_char, decimal_digits, owned, parse_unsigned, push_char, push_chars,
    push_decimal, split_chars, split_on, unsigned_from_str, views,
};

verus! {

/// Options of the command-line interface.
#[derive(Debug, Clone)]
pub struct Args {
    /// Path to DVD drive or directory
    pub input: Option<String>,
    /// Output directory or file path
    pub output: Option<String>,
    /// Rip only the main feature (longest title)
    pub main_feature: bool,
    /// Specific titles to rip
    pub titles: Option<Vec<usize>>,
    /// Split chapters into separate files
    pub chapter_split: Option<bool>,
    /// Number of simultaneous ripping threads
    pub threads: Option<usize>,
    /// Scan DVD and display title information
    pub scan: bool,
    /// Eject DVD after ripping
    pub eject: bool,
    /// Encoding algorithm to use (x264 or x265)
    pub encoder: String,
    /// Force CLI mode (no GUI)
    pub cli_mode: bool,
    /// Upload to server after ripping
    pub upload: bool,
    /// Video quality for HandBrake (0-51, lower is better)
    pub quality: Option<u32>,
    /// HandBrake preset name
    pub preset: Option<String>,
    /// Upload server host name
    pub server: Option<String>,
    /// Upload user name
    pub username: Option<String>,
    /// Remote directory to upload into
    pub remote_path: Option<String>,
    /// Upload tool to use
    pub method: Option<UploadMethod>,
}

/// A title number as `str::parse::<usize>` reads it.
pub open spec fn title_number(part: Seq<char>) -> Option<usize> {
    match unsigned_from_str(part, usize::MAX as nat) {
        Some(v) => Some(v as usize),
        None => None,
    }
}

/// The numbers `a, a + 1, ..., b`.
pub open spec fn inclusive_range(a: usize, b: usize) -> Seq<usize> {
    Seq::new((b - a + 1) as nat, |k: int| (a + k) as usize)
}

/// What one comma-separated piece of the title option stands for: a single
/// number, or an inclusive range `start-end`; otherwise the error message.
pub open spec fn titles_of_part(part: Seq<char>) -> Result<Seq<usize>, Seq<char>> {
    if part.contains('-') {
        let range = split_on(part, '-');
        if range.len() != 2 {
            Err("Invalid title range: "@ + part)
        } else if title_number(range[0]) is None {
            Err("Invalid title number: "@ + range[0])
        } else if title_number(range[1]) is None {
            Err("Invalid title number: "@ + range[1])
        } else {
            let a = title_number(range[0])->0;
            let b = title_number(range[1])->0;
            if a > b {
                Err("Invalid title range: "@ + decimal_digits(a as nat) + "-"@ + decimal_digits(b as nat))
            } else {
                Ok(inclusive_range(a, b))
            }
        }
    } else {
        match title_number(part) {
            Some(t) => Ok(seq![t]),
            None => Err("Invalid title number: "@ + part),
        }
    }
}

/// The titles named by the first `k` pieces, stopping at the first bad piece.
pub open spec fn titles_of_parts(parts: Seq<Seq<char>>, k: nat) -> Result<Seq<usize>, Seq<char>>
    decreases k,
{
    if k == 0 {
        Ok(Seq::empty())
    } else {
        match titles_of_parts(parts, (k - 1) as nat) {
            Err(e) => Err(e),
            Ok(v) => match titles_of_part(parts[k - 1]) {
                Err(e) => Err(e),
                Ok(w) => Ok(v + w),
            },
        }
    }
}

/// The titles a title option such as `"1,3-5"` selects, in the order written.
pub open spec fn spec_parse_titles(s: Seq<char>) -> Result<Seq<usize>, Seq<char>> {
    let parts = split_on(s, ',');
    titles_of_parts(parts, parts.len())
}

fn push_range(out: &mut Vec<usize>, start: usize, end: usize)
    requires
        start <= end,
    ensures
        final(out)@ == old(out)@ + inclusive_range(start, end),
{
    let ghost base = out@;
    let n = end - start;
    let mut k: usize = 0;
    loop
        invariant_except_break
            k <= n,
            out@ == base + Seq::new(k as nat, |j: int| (start + j) as usize),
        invariant
            n == end - start,
            start <= end,
        ensures
            out@ == base + inclusive_range(start, end),
        decreases n - k,
    {
        out.push(start + k);
        assert(Seq::new((k + 1) as nat, |j: int| (start + j) as usize)
            =~= Seq::new(k as nat, |j: int| (start + j) as usize).push((start + k) as usize));
        if k == n {
            assert(Seq::new((k + 1) as nat, |j: int| (start + j) as usize) =~= inclusive_range(start, end));
            break;
        }
        k = k + 1;
    }
}

fn number_error(text: &[char]) -> (e: String)
    ensures
        e@ == "Invalid title number: "@ + text@,
{
    let mut e = owned("Invalid title number: ");
    push_chars(&mut e, text);
    e
}

fn parse_title_part(part: &[char], out: &mut Vec<usize>) -> (r: Result<(), String>)
    ensures
        r is Ok ==> (titles_of_part(part@) matches Ok(w) && final(out)@ == old(out)@ + w),
        r matches Err(e) ==> titles_of_part(part@) == Err::<Seq<usize>, Seq<char>>(e@),
{
    if contains_char(part, '-') {
        let range = split_chars(part, '-');
        if range.len() != 2 {
            let mut e = owned("Invalid title range: ");
            push_chars(&mut e, part);
            return Err(e);
        }
        assert(range@[0]@ == split_on(part@, '-')[0]);
        assert(range@[1]@ == split_on(part@, '-')[1]);
        let start = match parse_unsigned(range[0].as_slice(), usize::MAX as u64) {
            Some(v) => v as usize,
            None => {
                return Err(number_error(range[0].as_slice()));
            },
        };
        let end = match parse_unsigned(range[1].as_slice(), usize::MAX as u64) {
            Some(v) => v as usize,
            None => {
                return Err(number_error(range[1].as_slice()));
            },
        };
        if start > end {
            let mut e = owned("Invalid title range: ");
            push_decimal(&mut e, start as u64);
            push_char(&mut e, '-');
            push_decimal(&mut e, end as u64);
            assert(e@ =~= "Invalid title range: "@ + decimal_digits(start as nat) + "-"@ + decimal_digits(end as nat)) by {
                reveal_strlit("-");
            }
            return Err(e);
        }
        push_range(out, start, end);
        Ok(())
    } else {
        match parse_unsigned(part, usize::MAX as u64) {
            Some(v) => {
                out.push(v as usize);
                Ok(())
            },
            None => Err(number_error(part)),
        }
    }
}

/// Parses a comma-separated list of title numbers and inclusive ranges.
pub fn parse_titles(s: &str) -> (r: Result<Vec<usize>, String>)
    ensures
        r matches Ok(v) ==> spec_parse_titles(s@) == Ok::<Seq<usize>, Seq<char>>(v@),
        r matches Err(e) ==> spec_parse_titles(s@) == Err::<Seq<usize>, Seq<char>>(e@),
{
    let cs = chars_of(s);
    let parts = split_chars(cs.as_slice(), ',');
    let ghost pv = views(parts@);
    let mut titles: Vec<usize> = Vec::new();
    let mut i: usize = 0;
    while i < parts.len()
        invariant
            i <= parts@.len(),
            pv == views(parts@),
            pv == split_on(s@, ','),
            titles_of_parts(pv, i as nat) == Ok::<Seq<usize>, Seq<char>>(titles@),
        decreases parts@.len() - i,
    {
        assert(parts@[i as int]@ == pv[i as int]);
        match parse_title_part(parts[i].as_slice(), &mut titles) {
            Ok(()) => {},
            Err(e) => {
                assert(titles_of_parts(pv, (i + 1) as nat) == Err::<Seq<usize>, Seq<char>>(e@));
                proof {
                    lemma_titles_error_persists(pv, (i + 1) as nat, pv.len(), e@);
                }
                return Err(e);
            },
        }
        i = i + 1;
    }
    Ok(titles)
}

proof fn lemma_titles_error_persists(parts: Seq<Seq<char>>, k: nat, n: nat, e: Seq<char>)
    requires
        k <= n,
        titles_of_parts(parts, k) == Err::<Seq<usize>, Seq<char>>(e),
    ensures
        titles_of_parts(parts, n) == Err::<Seq<usize>, Seq<char>>(e),
    decreases n - k,
{
    if k < n {
        lemma_titles_error_persists(parts, k + 1, n, e);
    }
}

} // verus!
