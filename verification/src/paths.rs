//! File-system paths held as text, with the Unix reading of `/` as the
//! separator: joining a name onto a directory and taking the final name.

use vstd::prelude::*;
use crate::text::{chars_of, push_char, push_str, split_chars, split_on, views};

verus! {

/// `base` with `name` adjoined (`Path::join`): an absolute name replaces the
/// base; otherwise a separator is put between them unless the base is empty
/// or already ends with one.
pub open spec fn joined(base: Seq<char>, name: Seq<char>) -> Seq<char> {
    if name.len() > 0 && name[0] == '/' {
        name
    } else if base.len() == 0 || base.last() == '/' {
        base + name
    } else {
        base + seq!['/'] + name
    }
}

/// Adjoins `name` to the path `base`.
pub fn join_path(base: &str, name: &str) -> (r: String)
    ensures
        r@ == joined(base@, name@),
{
    let b = chars_of(base);
    let n = chars_of(name);
    if n.len() > 0 && n[0] == '/' {
        let mut s = String::new();
        push_str(&mut s, name);
        return s;
    }
    let mut s = String::new();
    push_str(&mut s, base);
    if !(b.len() == 0 || b[b.len() - 1] == '/') {
        push_char(&mut s, '/');
    }
    push_str(&mut s, name);
    s
}

/// The named components of a path: pieces between separators, without empty
/// pieces and `.`.
pub open spec fn named_components(pieces: Seq<Seq<char>>) -> Seq<Seq<char>>
    decreases pieces.len(),
{
    if pieces.len() == 0 {
        Seq::empty()
    } else {
        let rest = named_components(pieces.drop_last());
        let c = pieces.last();
        if c.len() == 0 || c == "."@ {
            rest
        } else {
            rest.push(c)
        }
    }
}

/// The final name of a path (`Path::file_name`): none for a path that is
/// empty, a root, `.` or ends in `..`.
pub open spec fn file_name(p: Seq<char>) -> Option<Seq<char>> {
    let comps = named_components(split_on(p, '/'));
    if comps.len() == 0 || comps.last() == ".."@ {
        None
    } else {
        Some(comps.last())
    }
}

fn is_dot(c: &Vec<char>) -> (r: bool)
    ensures
        r == (c@ == "."@),
{
    let d = chars_of(".");
    crate::text::chars_equal(c.as_slice(), d.as_slice())
}

fn is_dot_dot(c: &Vec<char>) -> (r: bool)
    ensures
        r == (c@ == ".."@),
{
    let d = chars_of("..");
    crate::text::chars_equal(c.as_slice(), d.as_slice())
}

/// The final name of a path.
pub fn path_file_name(p: &str) -> (r: Option<String>)
    ensures
        r matches Some(n) ==> file_name(p@) == Some(n@),
        r is None ==> file_name(p@) is None,
{
    let cs = chars_of(p);
    let pieces = split_chars(cs.as_slice(), '/');
    let mut last: Option<usize> = None;
    let mut i: usize = 0;
    while i < pieces.len()
        invariant
            i <= pieces@.len(),
            views(pieces@) == split_on(p@, '/'),
            last matches Some(k) ==> k < i && named_components(views(pieces@).take(i as int)).len() > 0
                && named_components(views(pieces@).take(i as int)).last() == pieces@[k as int]@,
            last is None ==> named_components(views(pieces@).take(i as int)).len() == 0,
        decreases pieces@.len() - i,
    {
        assert(views(pieces@).take(i + 1).drop_last() =~= views(pieces@).take(i as int));
        assert(views(pieces@).take(i + 1).last() == pieces@[i as int]@);
        if !(pieces[i].len() == 0 || is_dot(&pieces[i])) {
            last = Some(i);
        }
        i = i + 1;
    }
    assert(views(pieces@).take(pieces@.len() as int) =~= views(pieces@));
    match last {
        None => None,
        Some(k) => {
            if is_dot_dot(&pieces[k]) {
                None
            } else {
                Some(crate::text::string_from_chars(pieces[k].as_slice()))
            }
        },
    }
}

} // verus!
