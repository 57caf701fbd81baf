//! Regular-expression matching, done by the `regex` crate.

use vstd::prelude::*;

verus! {

/// The capture groups of the leftmost match of `pattern` in `text`, as the
/// `regex` crate finds them (group 0 is the whole match; a group that took no
/// part is `None`); `None` when there is no match or the pattern is invalid.
pub uninterp spec fn regex_captures_of(pattern: Seq<char>, text: Seq<char>) -> Option<Seq<Option<Seq<char>>>>;

/// The text of each optional group.
pub open spec fn group_views(v: Seq<Option<String>>) -> Seq<Option<Seq<char>>> {
    Seq::new(
        v.len(),
        |i: int|
            match v[i] {
                Some(s) => Some(s@),
                None => None,
            },
    )
}

/// `regex::Regex::new(pattern)` and `Regex::captures(text)`: the result is the
/// crate's match, which depends on the pattern and the text alone; nothing
/// more of it is stated.
#[verifier::external_body]
pub(crate) fn regex_captures(pattern: &str, text: &str) -> (r: Option<Vec<Option<String>>>)
    ensures
        r matches Some(v) ==> regex_captures_of(pattern@, text@) == Some(group_views(v@)),
        r is None ==> regex_captures_of(pattern@, text@) is None,
{
    match regex::Regex::new(pattern) {
        Ok(re) => re.captures(text).map(
            |caps| caps.iter().map(|m| m.map(|m| m.as_str().to_string())).collect(),
        ),
        Err(_) => None,
    }
}

/// Group `i` of a match, if the match has that group and it took part.
pub open spec fn group(caps: Option<Seq<Option<Seq<char>>>>, i: int) -> Option<Seq<char>> {
    match caps {
        Some(c) => if 0 <= i < c.len() {
            c[i]
        } else {
            None
        },
        None => None,
    }
}

/// Group `i` of a match, as `Captures::get(i)` gives it.
pub(crate) fn capture_group(caps: &Option<Vec<Option<String>>>, i: usize) -> (r: Option<String>)
    ensures
        r matches Some(s) ==> group(
            match caps {
                Some(v) => Some(group_views(v@)),
                None => None,
            },
            i as int,
        ) == Some(s@),
        r is None ==> group(
            match caps {
                Some(v) => Some(group_views(v@)),
                None => None,
            },
            i as int,
        ) is None,
{
    match caps {
        Some(v) => {
            if i < v.len() {
                match &v[i] {
                    Some(s) => Some(s.clone()),
                    None => None,
                }
            } else {
                None
            }
        },
        None => None,
    }
}

} // verus!
