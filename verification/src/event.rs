//! The two media of a recording and the pause signal that a detector gives
//! for each frame.

use crate::time::nanos_of;
use std::time::Duration;
use vstd::prelude::*;

verus! {

/// One of the two tracks that are scanned, each with a clock of its own.
#[derive(Debug, Clone, Copy, PartialEq, Eq, Hash, Structural)]
pub enum Medium {
    Audio,
    Video,
}

impl Medium {
    /// The medium that `self` is correlated with.
    pub open spec fn counterpart(self) -> Medium {
        match self {
            Medium::Audio => Medium::Video,
            Medium::Video => Medium::Audio,
        }
    }

    /// The medium that `self` is correlated with.
    pub fn other(self) -> (m: Medium)
        ensures
            m == self.counterpart(),
    {
        match self {
            Medium::Audio => Medium::Video,
            Medium::Video => Medium::Audio,
        }
    }
}

/// What one filtered frame says about the pauses of its medium.
#[derive(Debug, Clone, Copy, PartialEq, Eq)]
pub enum PauseEvent {
    /// The frame is no boundary of a run.
    NoChange,
    /// A run of silence or blankness began at this time.
    Start(Duration),
    /// The current run ended at this time.
    End(Duration),
}

/// A pause signal with its time counted in nanoseconds: the model of a
/// [`PauseEvent`].
pub enum Signal {
    NoChange,
    Start(nat),
    End(nat),
}

impl View for PauseEvent {
    type V = Signal;

    open spec fn view(&self) -> Signal {
        match *self {
            PauseEvent::NoChange => Signal::NoChange,
            PauseEvent::Start(at) => Signal::Start(nanos_of(at)),
            PauseEvent::End(at) => Signal::End(nanos_of(at)),
        }
    }
}

} // verus!
