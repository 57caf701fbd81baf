//! The data a DVD scan yields and a rip consumes.

use vstd::prelude::*;
use crate::config::Config;

verus! {

/// A chapter of a title; the duration is in milliseconds.
#[derive(Debug, Clone, Copy)]
pub struct Chapter {
    pub number: usize,
    pub duration: u64,
}

/// The frame size of a title.
#[derive(Debug, Clone, Copy)]
pub struct DvdSize {
    pub width: u32,
    pub height: u32,
}

/// A title on the disc; the duration is in milliseconds.
#[derive(Debug)]
pub struct Title {
    pub number: usize,
    pub duration: u64,
    pub size: DvdSize,
    pub chapters: Vec<Chapter>,
    pub description: Option<String>,
}

/// What a title holds, as plain values.
pub struct TitleView {
    pub number: usize,
    pub duration: u64,
    pub size: DvdSize,
    pub chapters: Seq<Chapter>,
    pub description: Option<Seq<char>>,
}

impl View for Title {
    type V = TitleView;

    open spec fn view(&self) -> TitleView {
        TitleView {
            number: self.number,
            duration: self.duration,
            size: self.size,
            chapters: self.chapters@,
            description: match self.description {
                Some(d) => Some(d@),
                None => None,
            },
        }
    }
}

/// The contents of each title.
pub open spec fn title_views(ts: Seq<Title>) -> Seq<TitleView> {
    Seq::new(ts.len(), |i: int| ts[i]@)
}

impl Title {
    /// A copy of the title.
    pub fn duplicate(&self) -> (r: Title)
        ensures
            r@ == self@,
    {
        let mut chapters: Vec<Chapter> = Vec::new();
        let mut i: usize = 0;
        while i < self.chapters.len()
            invariant
                i <= self.chapters@.len(),
                chapters@ == self.chapters@.take(i as int),
            decreases self.chapters@.len() - i,
        {
            chapters.push(self.chapters[i]);
            assert(self.chapters@.take(i + 1) =~= self.chapters@.take(i as int).push(self.chapters@[i as int]));
            i = i + 1;
        }
        assert(self.chapters@.take(self.chapters@.len() as int) =~= self.chapters@);
        Title {
            number: self.number,
            duration: self.duration,
            size: self.size,
            chapters,
            description: match &self.description {
                Some(d) => Some(d.clone()),
                None => None,
            },
        }
    }
}

/// One title to rip into one file.
#[derive(Debug)]
pub struct RipTask {
    pub title: Title,
    pub output_path: String,
    pub chapter_split: bool,
}

/// A disc (or a folder holding a DVD structure) and the titles found on it.
#[derive(Debug)]
pub struct Dvd {
    pub path: String,
    pub titles: Vec<Title>,
    pub config: Config,
}

} // verus!
