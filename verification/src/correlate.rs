//! Merges the pause signals of the two media into candidates.
//!
//! The two media tick at rates of their own, so their signals arrive in no
//! fixed order. The correlator keeps, for each medium, since when it has been
//! inside a run, and reports a candidate when a run ends that overlapped a run
//! of the other medium and lasted longer than the threshold.

use crate::candidate::{intervals, Candidate, Interval};
use crate::event::{Medium, PauseEvent, Signal};
use crate::time::{later_of, longer, nanos_of};
use crate::violation::Violation;
use std::time::Duration;
use vstd::prelude::*;

verus! {

/// Since when each medium has been inside a run, in nanoseconds, with `None`
/// for a medium that is inside none: the model of a [`CorrelationState`].
pub struct Pauses {
    pub audio: Option<nat>,
    pub video: Option<nat>,
}

impl Pauses {
    /// Neither medium is inside a run.
    pub open spec fn idle() -> Pauses {
        Pauses { audio: None, video: None }
    }

    /// Since when `medium` has been inside a run.
    pub open spec fn since(self, medium: Medium) -> Option<nat> {
        match medium {
            Medium::Audio => self.audio,
            Medium::Video => self.video,
        }
    }

    /// `self` with the run of `medium` replaced.
    pub open spec fn with(self, medium: Medium, since: Option<nat>) -> Pauses {
        match medium {
            Medium::Audio => Pauses { audio: since, video: self.video },
            Medium::Video => Pauses { audio: self.audio, video: since },
        }
    }

    /// Both media are inside a run.
    pub open spec fn overlapping(self) -> bool {
        self.audio is Some && self.video is Some
    }
}

/// What one signal does to the correlation: the pauses after it and the
/// candidate that it closes, if any.
pub struct Outcome {
    pub pauses: Pauses,
    pub emitted: Option<Interval>,
}

/// The later of two times.
pub open spec fn later(a: nat, b: nat) -> nat {
    if a >= b {
        a
    } else {
        b
    }
}

/// The effect of `signal`, given by `medium`, on `pauses`.
///
/// A start opens the run of its medium, which must not be open yet. An end
/// closes the run of its medium, which must be open. Where the other medium is
/// inside a run too, the end must not precede the start of the run that it
/// closes; the closed run is a candidate if it is strictly longer than
/// `threshold`, and the candidate begins at the later of the two starts.
pub open spec fn correlate(pauses: Pauses, medium: Medium, signal: Signal, threshold: nat) -> Result<
    Outcome,
    Violation,
> {
    match signal {
        Signal::NoChange => Ok(Outcome { pauses, emitted: None }),
        Signal::Start(at) => if pauses.since(medium) is Some {
            Err(Violation::StartWhilePaused(medium))
        } else {
            Ok(Outcome { pauses: pauses.with(medium, Some(at)), emitted: None })
        },
        Signal::End(at) => match (pauses.since(medium), pauses.since(medium.counterpart())) {
            (None, _) => Err(Violation::EndWhileNotPaused(medium)),
            (Some(_), None) => Ok(Outcome { pauses: pauses.with(medium, None), emitted: None }),
            (Some(own), Some(others)) => if at < own {
                Err(Violation::EndBeforeStart(medium))
            } else {
                Ok(
                    Outcome {
                        pauses: pauses.with(medium, None),
                        emitted: if at - own > threshold {
                            Some(
                                Interval {
                                    offset: later(own, others),
                                    length: (at - own) as nat,
                                },
                            )
                        } else {
                            None
                        },
                    },
                )
            },
        },
    }
}

/// A pause signal together with the medium that gave it: the model of a
/// [`TaggedEvent`].
pub struct Tagged {
    pub medium: Medium,
    pub signal: Signal,
}

/// A pause event together with the medium that gave it.
#[derive(Debug, Clone, Copy, PartialEq, Eq)]
pub struct TaggedEvent {
    pub medium: Medium,
    pub event: PauseEvent,
}

impl View for TaggedEvent {
    type V = Tagged;

    open spec fn view(&self) -> Tagged {
        Tagged { medium: self.medium, signal: self.event@ }
    }
}

/// The views of a list of tagged events, in order.
pub open spec fn feed_of(events: Seq<TaggedEvent>) -> Seq<Tagged> {
    events.map_values(|e: TaggedEvent| e@)
}

/// Where a run of signals leaves the correlation: the pauses, the candidates
/// in the order in which they were closed, and the violation that stopped the
/// run, if one did.
pub struct Replay {
    pub pauses: Pauses,
    pub emitted: Seq<Interval>,
    pub violation: Option<Violation>,
}

/// The effect of the signals of `feed`, taken in order from `start`. The first
/// signal that breaks the protocol stops the run: it and the signals behind it
/// change nothing.
pub open spec fn replay(start: Pauses, feed: Seq<Tagged>, threshold: nat) -> Replay
    decreases feed.len(),
{
    if feed.len() == 0 {
        Replay { pauses: start, emitted: Seq::empty(), violation: None }
    } else {
        let before = replay(start, feed.drop_last(), threshold);
        if before.violation is Some {
            before
        } else {
            match correlate(before.pauses, feed.last().medium, feed.last().signal, threshold) {
                Ok(outcome) => Replay {
                    pauses: outcome.pauses,
                    emitted: match outcome.emitted {
                        Some(interval) => before.emitted.push(interval),
                        None => before.emitted,
                    },
                    violation: None,
                },
                Err(violation) => Replay {
                    pauses: before.pauses,
                    emitted: before.emitted,
                    violation: Some(violation),
                },
            }
        }
    }
}

/// A run that was stopped by a violation stays as it is, whatever follows.
pub proof fn lemma_replay_stops(start: Pauses, feed: Seq<Tagged>, threshold: nat, n: int)
    requires
        0 <= n <= feed.len(),
        replay(start, feed.take(n), threshold).violation is Some,
    ensures
        replay(start, feed, threshold) == replay(start, feed.take(n), threshold),
    decreases feed.len(),
{
    if n == feed.len() {
        assert(feed.take(n) =~= feed);
    } else {
        assert(feed.drop_last().take(n) =~= feed.take(n));
        lemma_replay_stops(start, feed.drop_last(), threshold, n);
    }
}

/// Which of the media are inside a run, and since when.
#[derive(Debug, Clone, Copy, PartialEq, Eq)]
pub enum CorrelationState {
    /// Neither medium is inside a run.
    Idle,
    /// The sound has been silent since this time; the picture is not blank.
    Audio(Duration),
    /// The picture has been blank since this time; the sound is not silent.
    Video(Duration),
    /// Both media are inside a run, each since its own start.
    Both { audio: Duration, video: Duration },
}

impl View for CorrelationState {
    type V = Pauses;

    open spec fn view(&self) -> Pauses {
        match *self {
            CorrelationState::Idle => Pauses { audio: None, video: None },
            CorrelationState::Audio(audio) => Pauses {
                audio: Some(nanos_of(audio)),
                video: None,
            },
            CorrelationState::Video(video) => Pauses {
                audio: None,
                video: Some(nanos_of(video)),
            },
            CorrelationState::Both { audio, video } => Pauses {
                audio: Some(nanos_of(audio)),
                video: Some(nanos_of(video)),
            },
        }
    }
}

/// The model of the candidate that a call of [`Correlator::observe`] hands
/// back, if it hands one back.
pub open spec fn emitted_interval(r: Result<Option<Candidate>, Violation>) -> Option<Interval> {
    match r {
        Ok(Some(c)) => Some(c@),
        _ => None,
    }
}

/// The correlation state together with the minimum length of a candidate.
#[derive(Debug, Clone, Copy, PartialEq, Eq)]
pub struct Correlator {
    pub state: CorrelationState,
    pub threshold: Duration,
}

impl Correlator {
    /// A correlator in which neither medium is inside a run.
    pub fn new(threshold: Duration) -> (c: Correlator)
        ensures
            c.state == CorrelationState::Idle,
            c.threshold == threshold,
    {
        Correlator { state: CorrelationState::Idle, threshold }
    }

    /// The state that the signals seen so far have led to.
    pub fn state(&self) -> (s: CorrelationState)
        ensures
            s == self.state,
    {
        self.state
    }

    /// Takes one pause signal of `medium` and hands back the candidate that it
    /// closes, if any. The effect is that of [`correlate`]; a signal that
    /// breaks the protocol leaves the state as it was.
    pub fn observe(&mut self, medium: Medium, event: PauseEvent) -> (r: Result<
        Option<Candidate>,
        Violation,
    >)
        ensures
            final(self).threshold == old(self).threshold,
            match correlate(old(self).state@, medium, event@, nanos_of(old(self).threshold)) {
                Ok(outcome) => {
                    &&& r is Ok
                    &&& final(self).state@ == outcome.pauses
                    &&& emitted_interval(r) == outcome.emitted
                },
                Err(violation) => {
                    &&& r == Err::<Option<Candidate>, Violation>(violation)
                    &&& final(self).state == old(self).state
                },
            },
    {
        match event {
            PauseEvent::NoChange => Ok(None),
            PauseEvent::Start(at) => {
                match (medium, self.state) {
                    (Medium::Audio, CorrelationState::Idle) => {
                        self.state = CorrelationState::Audio(at);
                        Ok(None)
                    },
                    (Medium::Video, CorrelationState::Idle) => {
                        self.state = CorrelationState::Video(at);
                        Ok(None)
                    },
                    (Medium::Audio, CorrelationState::Video(video)) => {
                        self.state = CorrelationState::Both { audio: at, video };
                        Ok(None)
                    },
                    (Medium::Video, CorrelationState::Audio(audio)) => {
                        self.state = CorrelationState::Both { audio, video: at };
                        Ok(None)
                    },
                    _ => Err(Violation::StartWhilePaused(medium)),
                }
            },
            PauseEvent::End(at) => {
                match (medium, self.state) {
                    (Medium::Audio, CorrelationState::Audio(_)) => {
                        self.state = CorrelationState::Idle;
                        Ok(None)
                    },
                    (Medium::Video, CorrelationState::Video(_)) => {
                        self.state = CorrelationState::Idle;
                        Ok(None)
                    },
                    (Medium::Audio, CorrelationState::Both { audio, video }) => {
                        match at.checked_sub(audio) {
                            Some(length) => {
                                self.state = CorrelationState::Video(video);
                                Ok(self.close(later_of(video, audio), length))
                            },
                            None => Err(Violation::EndBeforeStart(medium)),
                        }
                    },
                    (Medium::Video, CorrelationState::Both { audio, video }) => {
                        match at.checked_sub(video) {
                            Some(length) => {
                                self.state = CorrelationState::Audio(audio);
                                Ok(self.close(later_of(audio, video), length))
                            },
                            None => Err(Violation::EndBeforeStart(medium)),
                        }
                    },
                    _ => Err(Violation::EndWhileNotPaused(medium)),
                }
            },
        }
    }

    /// Takes the events of `feed` in order and hands back the candidates that
    /// they close, in the order in which they were closed. The effect is that
    /// of [`replay`]: the first event that breaks the protocol ends the call
    /// with its violation, and leaves the state as the events before it left
    /// it.
    pub fn observe_all(&mut self, feed: &Vec<TaggedEvent>) -> (r: Result<
        Vec<Candidate>,
        Violation,
    >)
        ensures
            final(self).threshold == old(self).threshold,
            ({
                let replayed = replay(
                    old(self).state@,
                    feed_of(feed@),
                    nanos_of(old(self).threshold),
                );
                &&& final(self).state@ == replayed.pauses
                &&& match replayed.violation {
                    Some(violation) => r == Err::<Vec<Candidate>, Violation>(violation),
                    None => r matches Ok(found) && intervals(found@) == replayed.emitted,
                }
            }),
    {
        let ghost start = self.state@;
        let ghost threshold = nanos_of(self.threshold);
        let mut found: Vec<Candidate> = Vec::new();
        let mut i: usize = 0;
        proof {
            assert(feed_of(feed@).take(0) =~= Seq::<Tagged>::empty());
            assert(intervals(found@) =~= Seq::<Interval>::empty());
        }
        while i < feed.len()
            invariant
                i <= feed.len(),
                threshold == nanos_of(self.threshold),
                self.threshold == old(self).threshold,
                start == old(self).state@,
                replay(start, feed_of(feed@).take(i as int), threshold) == (Replay {
                    pauses: self.state@,
                    emitted: intervals(found@),
                    violation: None,
                }),
            decreases feed.len() - i,
        {
            proof {
                assert(feed_of(feed@).take(i + 1).drop_last() =~= feed_of(feed@).take(i as int));
                assert(feed_of(feed@).take(i + 1).last() == feed@[i as int]@);
            }
            match self.observe(feed[i].medium, feed[i].event) {
                Ok(Some(candidate)) => {
                    proof {
                        assert(intervals(found@.push(candidate)) =~= intervals(found@).push(
                            candidate@,
                        ));
                    }
                    found.push(candidate);
                },
                Ok(None) => {},
                Err(violation) => {
                    proof {
                        lemma_replay_stops(start, feed_of(feed@), threshold, i + 1);
                    }
                    return Err(violation);
                },
            }
            i += 1;
        }
        proof {
            assert(feed_of(feed@).take(i as int) =~= feed_of(feed@));
        }
        Ok(found)
    }

    /// The candidate for a closed run, where the run is longer than the
    /// threshold.
    fn close(&self, offset: Duration, length: Duration) -> (c: Option<Candidate>)
        ensures
            c is Some <==> nanos_of(length) > nanos_of(self.threshold),
            c matches Some(candidate) ==> candidate.offset == offset && candidate.length == length,
    {
        if longer(length, self.threshold) {
            Some(Candidate::new(offset, length))
        } else {
            None
        }
    }
}

} // verus!
