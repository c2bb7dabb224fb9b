//! Chapter markers for the candidates, and the text in which a chapter list
//! is handed to a chapter editor.

use crate::candidate::{Candidate, Interval};
use crate::text::{decimal, push_decimal, push_two_digits, two_digits};
use crate::time::{longer, nanos_of};
use std::time::Duration;
use vstd::prelude::*;
use vstd::string::StringExecFns;

verus! {

/// A named position in a recording.
#[derive(Debug, PartialEq, Eq)]
pub struct Chapter {
    pub id: usize,
    pub start: Duration,
    pub name: String,
}

/// The two lines that describe a chapter: its start, and its name.
///
/// The start is written as hours, minutes and seconds in at least two digits
/// each, and milliseconds as they are. The minutes are those of the whole
/// start, the hours included.
pub open spec fn chapter_lines(id: nat, start: nat, name: Seq<char>) -> Seq<char> {
    let secs = start / 1_000_000_000;
    let millis = start % 1_000_000_000 / 1_000_000;
    "CHAPTER"@ + two_digits(id) + "="@ + two_digits(secs / 60 / 60) + ":"@ + two_digits(secs / 60)
        + ":"@ + two_digits(secs % 60) + "."@ + decimal(millis) + "\n"@ + "CHAPTER"@ + two_digits(
        id,
    ) + "NAME="@ + name
}

/// The name of the chapter for the candidate at `index` of a list.
pub open spec fn silence_name(index: nat) -> Seq<char> {
    "Silence "@ + decimal(index + 1)
}

/// The text of a chapter list: the lines of each chapter, each followed by a
/// line break.
pub open spec fn chapter_listing(chapters: Seq<Chapter>) -> Seq<char>
    decreases chapters.len(),
{
    if chapters.len() == 0 {
        Seq::empty()
    } else {
        chapter_listing(chapters.drop_last()) + chapters.last().lines() + "\n"@
    }
}

/// Whether a candidate is taken for a chapter marker: it lies more than one
/// second into the recording and is longer than `threshold`.
pub open spec fn is_marker(candidate: Interval, threshold: nat) -> bool {
    candidate.offset > 1_000_000_000 && candidate.length > threshold
}

impl Chapter {
    /// The two lines that describe this chapter.
    pub open spec fn lines(self) -> Seq<char> {
        chapter_lines(self.id as nat, nanos_of(self.start), self.name@)
    }

    /// A chapter with the number `id`, at `start`, called `name`.
    pub fn new(id: usize, start: Duration, name: String) -> (c: Chapter)
        ensures
            c.id == id,
            c.start == start,
            c.name == name,
    {
        Chapter { id, start, name }
    }

    /// A chapter read from a recording, which may have left it without a
    /// title: it is then called `untitled`.
    pub fn titled(id: usize, start: Duration, title: Option<String>) -> (c: Chapter)
        ensures
            c.id == id,
            c.start == start,
            c.name@ == (match title {
                Some(title) => title@,
                None => "untitled"@,
            }),
    {
        let name = match title {
            Some(title) => title,
            None => String::from_str("untitled"),
        };
        Chapter { id, start, name }
    }

    /// The chapter for the candidate at `index` of a list: it begins where
    /// the candidate does, and is named by its place in the list, counted
    /// from one.
    pub fn from_candidate(index: usize, candidate: &Candidate) -> (c: Chapter)
        ensures
            c.id == index,
            c.start == candidate.offset,
            c.name@ == silence_name(index as nat),
    {
        let mut name = String::from_str("Silence ");
        push_decimal(&mut name, index as u128 + 1);
        Chapter { id: index, start: candidate.offset, name }
    }

    /// The two lines that describe this chapter to a chapter editor.
    pub fn render(&self) -> (text: String)
        ensures
            text@ == self.lines(),
    {
        let nanos: u128 = self.start.as_nanos();
        let secs: u128 = nanos / 1_000_000_000;
        let millis: u128 = nanos % 1_000_000_000 / 1_000_000;
        let mut text = String::from_str("CHAPTER");
        push_two_digits(&mut text, self.id as u128);
        text.append("=");
        push_two_digits(&mut text, secs / 60 / 60);
        text.append(":");
        push_two_digits(&mut text, secs / 60);
        text.append(":");
        push_two_digits(&mut text, secs % 60);
        text.append(".");
        push_decimal(&mut text, millis);
        text.append("\n");
        text.append("CHAPTER");
        push_two_digits(&mut text, self.id as u128);
        text.append("NAME=");
        text.append(self.name.as_str());
        text
    }
}

/// The text of a chapter list, as a chapter editor reads it.
pub fn render_chapters(chapters: &Vec<Chapter>) -> (text: String)
    ensures
        text@ == chapter_listing(chapters@),
{
    let mut text = String::new();
    let mut i: usize = 0;
    while i < chapters.len()
        invariant
            i <= chapters.len(),
            text@ == chapter_listing(chapters@.take(i as int)),
        decreases chapters.len() - i,
    {
        proof {
            assert(chapters@.take(i + 1).drop_last() =~= chapters@.take(i as int));
        }
        text.append(chapters[i].render().as_str());
        text.append("\n");
        i += 1;
    }
    proof {
        assert(chapters@.take(i as int) =~= chapters@);
    }
    text
}

/// Adds the two chapters that mark the intro of a recording behind the
/// chapters that it has: `Start of intro` at `theme_start` and `End of intro`
/// at `theme_end`, numbered on from the last.
pub fn add_intro_chapters(chapters: &mut Vec<Chapter>, theme_start: Duration, theme_end: Duration)
    ensures
        final(chapters)@.len() == old(chapters)@.len() + 2,
        final(chapters)@.take(old(chapters)@.len() as int) == old(chapters)@,
        ({
            let start = final(chapters)@[old(chapters)@.len() as int];
            &&& start.id == old(chapters)@.len()
            &&& start.start == theme_start
            &&& start.name@ == "Start of intro"@
        }),
        ({
            let end = final(chapters)@[old(chapters)@.len() as int + 1];
            &&& end.id == old(chapters)@.len() + 1
            &&& end.start == theme_end
            &&& end.name@ == "End of intro"@
        }),
{
    let start = Chapter::new(chapters.len(), theme_start, String::from_str("Start of intro"));
    chapters.push(start);
    let end = Chapter::new(chapters.len(), theme_end, String::from_str("End of intro"));
    chapters.push(end);
    proof {
        assert(final(chapters)@.take(old(chapters)@.len() as int) =~= old(chapters)@);
    }
}

/// The candidates that are taken for chapter markers, in their order: those
/// that lie more than one second into the recording and are longer than
/// `threshold`.
pub fn select_markers(candidates: &Vec<Candidate>, threshold: Duration) -> (kept: Vec<Candidate>)
    ensures
        kept@ == candidates@.filter(|c: Candidate| is_marker(c@, nanos_of(threshold))),
{
    let ghost wanted = |c: Candidate| is_marker(c@, nanos_of(threshold));
    let first_second = Duration::from_secs(1);
    let mut kept: Vec<Candidate> = Vec::new();
    let mut i: usize = 0;
    proof {
        reveal(Seq::filter);
    }
    while i < candidates.len()
        invariant
            i <= candidates.len(),
            nanos_of(first_second) == 1_000_000_000,
            wanted == |c: Candidate| is_marker(c@, nanos_of(threshold)),
            kept@ == candidates@.take(i as int).filter(wanted),
        decreases candidates.len() - i,
    {
        proof {
            reveal(Seq::filter);
            assert(candidates@.take(i + 1).drop_last() =~= candidates@.take(i as int));
        }
        let candidate = candidates[i];
        if longer(candidate.offset, first_second) && longer(candidate.length, threshold) {
            kept.push(candidate);
        }
        i += 1;
    }
    proof {
        assert(candidates@.take(i as int) =~= candidates@);
    }
    kept
}

/// The chapters for a list of candidates, one for each and in their order.
pub fn chapters_for(candidates: &Vec<Candidate>) -> (chapters: Vec<Chapter>)
    ensures
        chapters@.len() == candidates@.len(),
        forall|i: int|
            0 <= i < candidates@.len() ==> {
                &&& (#[trigger] chapters@[i]).id == i
                &&& chapters@[i].start == candidates@[i].offset
                &&& chapters@[i].name@ == silence_name(i as nat)
            },
{
    let mut chapters: Vec<Chapter> = Vec::new();
    let mut i: usize = 0;
    while i < candidates.len()
        invariant
            i <= candidates.len(),
            chapters@.len() == i,
            forall|j: int|
                0 <= j < i ==> {
                    &&& (#[trigger] chapters@[j]).id == j
                    &&& chapters@[j].start == candidates@[j].offset
                    &&& chapters@[j].name@ == silence_name(j as nat)
                },
        decreases candidates.len() - i,
    {
        chapters.push(Chapter::from_candidate(i, &candidates[i]));
        i += 1;
    }
    chapters
}

} // verus!
