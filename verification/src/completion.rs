//! Tracks which of the two media have passed the horizon of the scan.

use crate::event::Medium;
use vstd::prelude::*;

verus! {

/// Which media have been read as far as the scan goes. A medium that is done
/// stays done, and `AllDone` is final.
#[derive(Debug, Clone, Copy, PartialEq, Eq, Structural)]
pub enum StreamCompletionState {
    Ongoing,
    AudioDone,
    VideoDone,
    AllDone,
}

impl StreamCompletionState {
    /// Whether `medium` is done in this state.
    pub open spec fn done(self, medium: Medium) -> bool {
        match medium {
            Medium::Audio => self == StreamCompletionState::AudioDone || self
                == StreamCompletionState::AllDone,
            Medium::Video => self == StreamCompletionState::VideoDone || self
                == StreamCompletionState::AllDone,
        }
    }

    /// The state in which exactly the media flagged here are done.
    pub open spec fn of(audio: bool, video: bool) -> StreamCompletionState {
        if audio && video {
            StreamCompletionState::AllDone
        } else if audio {
            StreamCompletionState::AudioDone
        } else if video {
            StreamCompletionState::VideoDone
        } else {
            StreamCompletionState::Ongoing
        }
    }

    /// The state after `medium` has been marked done: `medium` is done, and
    /// the other medium is as it was.
    pub open spec fn marked(self, medium: Medium) -> StreamCompletionState {
        Self::of(
            medium == Medium::Audio || self.done(Medium::Audio),
            medium == Medium::Video || self.done(Medium::Video),
        )
    }

    /// The state in which neither medium is done.
    pub fn new() -> (s: StreamCompletionState)
        ensures
            s == StreamCompletionState::Ongoing,
    {
        StreamCompletionState::Ongoing
    }

    /// Marks the sound track as done.
    pub fn mark_audio_done(&mut self)
        ensures
            *final(self) == old(self).marked(Medium::Audio),
    {
        *self =
        match *self {
            StreamCompletionState::Ongoing => StreamCompletionState::AudioDone,
            StreamCompletionState::VideoDone => StreamCompletionState::AllDone,
            done => done,
        };
    }

    /// Marks the picture as done.
    pub fn mark_video_done(&mut self)
        ensures
            *final(self) == old(self).marked(Medium::Video),
    {
        *self =
        match *self {
            StreamCompletionState::Ongoing => StreamCompletionState::VideoDone,
            StreamCompletionState::AudioDone => StreamCompletionState::AllDone,
            done => done,
        };
    }

    /// Marks `medium` as done.
    pub fn mark_done(&mut self, medium: Medium)
        ensures
            *final(self) == old(self).marked(medium),
    {
        match medium {
            Medium::Audio => self.mark_audio_done(),
            Medium::Video => self.mark_video_done(),
        }
    }

    /// Whether `medium` is done.
    pub fn is_done(&self, medium: Medium) -> (b: bool)
        ensures
            b == self.done(medium),
    {
        match (medium, *self) {
            (_, StreamCompletionState::AllDone) => true,
            (Medium::Audio, StreamCompletionState::AudioDone) => true,
            (Medium::Video, StreamCompletionState::VideoDone) => true,
            _ => false,
        }
    }

    /// Whether both media are done, so that the scan may stop.
    pub fn is_all_done(&self) -> (b: bool)
        ensures
            b == (*self == StreamCompletionState::AllDone),
            b == (self.done(Medium::Audio) && self.done(Medium::Video)),
    {
        match *self {
            StreamCompletionState::AllDone => true,
            _ => false,
        }
    }
}

/// A state is the pair of its two flags and nothing more.
pub proof fn lemma_state_is_its_flags(s: StreamCompletionState)
    ensures
        s == StreamCompletionState::of(s.done(Medium::Audio), s.done(Medium::Video)),
{
}

/// Marking both media done, in either order, leads from `Ongoing` to
/// `AllDone`.
pub proof fn lemma_both_marks_reach_all_done()
    ensures
        StreamCompletionState::Ongoing.marked(Medium::Audio).marked(Medium::Video)
            == StreamCompletionState::AllDone,
        StreamCompletionState::Ongoing.marked(Medium::Video).marked(Medium::Audio)
            == StreamCompletionState::AllDone,
{
}

/// Marking a medium done a second time changes nothing.
pub proof fn lemma_mark_is_idempotent(s: StreamCompletionState, medium: Medium)
    ensures
        s.marked(medium).marked(medium) == s.marked(medium),
{
}

/// Marks never undo one another: what was done stays done, the marked medium
/// is done, and `AllDone` has no way out.
pub proof fn lemma_mark_is_monotonic(s: StreamCompletionState, medium: Medium, other: Medium)
    ensures
        s.marked(medium).done(medium),
        s.done(other) ==> s.marked(medium).done(other),
        s == StreamCompletionState::AllDone ==> s.marked(medium) == StreamCompletionState::AllDone,
        s.marked(medium).marked(other) == s.marked(other).marked(medium),
{
}

} // verus!
