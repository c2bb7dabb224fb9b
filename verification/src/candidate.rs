//! A moment at which the recording is both quiet and dark.

use crate::time::{humane, humane_text, nanos_of};
use std::time::Duration;
use vstd::prelude::*;
use vstd::string::StringExecFns;

verus! {

/// A spot in the recording where a blank picture and a silence overlap.
#[derive(Debug, Clone, Copy, PartialEq, Eq)]
pub struct Candidate {
    pub offset: Duration,
    pub length: Duration,
}

/// A candidate with its times counted in nanoseconds: the model of a
/// [`Candidate`].
pub struct Interval {
    pub offset: nat,
    pub length: nat,
}

impl View for Candidate {
    type V = Interval;

    open spec fn view(&self) -> Interval {
        Interval { offset: nanos_of(self.offset), length: nanos_of(self.length) }
    }
}

/// The views of a list of candidates, in order.
pub open spec fn intervals(candidates: Seq<Candidate>) -> Seq<Interval> {
    candidates.map_values(|c: Candidate| c@)
}

impl Candidate {
    /// A candidate that begins at `offset` and lasts for `length`.
    pub fn new(offset: Duration, length: Duration) -> (c: Candidate)
        ensures
            c.offset == offset,
            c.length == length,
    {
        Candidate { offset, length }
    }

    /// The candidate in words: `{ `, the offset, ` for `, the length and ` }`,
    /// with both durations in the form of [`humane_text`].
    pub fn describe(&self) -> (text: String)
        ensures
            text@ == "{ "@ + humane_text(self@.offset) + " for "@ + humane_text(self@.length)
                + " }"@,
    {
        let mut text = String::from_str("{ ");
        text.append(humane(self.offset).as_str());
        text.append(" for ");
        text.append(humane(self.length).as_str());
        text.append(" }");
        text
    }

    /// When the quiet and dark period began.
    pub fn offset(&self) -> (d: Duration)
        ensures
            d == self.offset,
    {
        self.offset
    }

    /// How long the run lasted that closed the period.
    pub fn length(&self) -> (d: Duration)
        ensures
            d == self.length,
    {
        self.length
    }
}

} // verus!
