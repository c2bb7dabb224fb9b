//! The pause detector of one medium.
//!
//! A detector owns one stream of the recording. The engine that decodes and
//! filters the stream hands it, for each packet, the frame that the packet
//! completed and the frames that came out of the filter, each with its run
//! tags. The detector turns the tags into pause events, remembers whether its
//! medium is inside a run, and notes when the stream has passed the horizon.

use crate::event::{Medium, PauseEvent};
use crate::time::nanos_of;
use crate::violation::Violation;
use std::time::Duration;
use vstd::prelude::*;

verus! {

/// The unit in which a stream counts its timestamps, as a fraction of a
/// second.
#[derive(Debug, Clone, Copy, PartialEq, Eq, Structural)]
pub struct TimeBase {
    pub numerator: i32,
    pub denominator: i32,
}

/// What a filtered frame carries about the runs of its medium.
#[derive(Debug, Clone, Copy, PartialEq, Eq)]
pub struct FrameTags {
    /// The frame is tagged as the start of a run.
    pub run_started: bool,
    /// The frame is tagged as the end of a run.
    pub run_ended: bool,
    /// The timestamp of the frame.
    pub at: Option<Duration>,
}

/// What the engine made of one packet: the timestamp of the frame that the
/// packet completed, and the tags of the frames that the filter gave out for
/// it, in order.
#[derive(Debug, PartialEq, Eq)]
pub struct DecodedFrame {
    pub at: Option<Duration>,
    pub filtered: Vec<FrameTags>,
}

/// What a detector does with a packet.
#[derive(Debug, Clone, Copy, PartialEq, Eq, Structural)]
pub enum Disposition {
    /// The packet belongs to another stream.
    NotApplicable,
    /// The packet belongs to this stream, which has passed the horizon.
    Finished,
    /// The packet belongs to this stream and is worked on.
    Applicable,
}

/// The pause event that the tags of one frame stand for, on a medium that is
/// inside a run or not.
///
/// A frame with no tag is no boundary. A frame with both tags closes a run too
/// short to matter and is no boundary either. A lone start tag must find the
/// medium outside a run, a lone end tag inside one, and either needs the
/// timestamp of its frame.
pub open spec fn classify(medium: Medium, inside_pause: bool, tags: FrameTags) -> Result<
    PauseEvent,
    Violation,
> {
    if tags.run_started == tags.run_ended {
        Ok(PauseEvent::NoChange)
    } else if tags.run_started {
        if inside_pause {
            Err(Violation::StartWhilePaused(medium))
        } else {
            match tags.at {
                Some(at) => Ok(PauseEvent::Start(at)),
                None => Err(Violation::MissingTimestamp(medium)),
            }
        }
    } else {
        if !inside_pause {
            Err(Violation::EndWhileNotPaused(medium))
        } else {
            match tags.at {
                Some(at) => Ok(PauseEvent::End(at)),
                None => Err(Violation::MissingTimestamp(medium)),
            }
        }
    }
}

/// Whether a medium is inside a run after `event`.
pub open spec fn inside_after(inside_pause: bool, event: PauseEvent) -> bool {
    match event {
        PauseEvent::NoChange => inside_pause,
        PauseEvent::Start(_) => true,
        PauseEvent::End(_) => false,
    }
}

/// Whether a frame with this timestamp lies at or past the horizon.
pub open spec fn reaches(at: Option<Duration>, until: Duration) -> bool {
    at matches Some(at) && nanos_of(at) >= nanos_of(until)
}

/// Where the filtered frames of a packet leave a detector: whether its
/// medium is inside a run, the pause events so far, and the violation that
/// stopped the frames, if one did.
pub struct Drain {
    pub inside_pause: bool,
    pub events: Seq<PauseEvent>,
    pub violation: Option<Violation>,
}

/// The effect of the frames of `filtered`, taken in order. Each frame gives
/// one event. The first frame that breaks the protocol stops the run: it and
/// the frames behind it give none.
pub open spec fn drain(medium: Medium, inside_pause: bool, filtered: Seq<FrameTags>) -> Drain
    decreases filtered.len(),
{
    if filtered.len() == 0 {
        Drain { inside_pause, events: Seq::empty(), violation: None }
    } else {
        let before = drain(medium, inside_pause, filtered.drop_last());
        if before.violation is Some {
            before
        } else {
            match classify(medium, before.inside_pause, filtered.last()) {
                Ok(event) => Drain {
                    inside_pause: inside_after(before.inside_pause, event),
                    events: before.events.push(event),
                    violation: None,
                },
                Err(violation) => Drain {
                    inside_pause: before.inside_pause,
                    events: before.events,
                    violation: Some(violation),
                },
            }
        }
    }
}

/// Frames behind a violation change nothing.
pub proof fn lemma_drain_stops(medium: Medium, inside_pause: bool, filtered: Seq<FrameTags>, n: int)
    requires
        0 <= n <= filtered.len(),
        drain(medium, inside_pause, filtered.take(n)).violation is Some,
    ensures
        drain(medium, inside_pause, filtered) == drain(medium, inside_pause, filtered.take(n)),
    decreases filtered.len(),
{
    if n == filtered.len() {
        assert(filtered.take(n) =~= filtered);
    } else {
        assert(filtered.drop_last().take(n) =~= filtered.take(n));
        lemma_drain_stops(medium, inside_pause, filtered.drop_last(), n);
    }
}

/// The detector of one medium.
#[derive(Debug, Clone, Copy, PartialEq, Eq)]
pub struct PauseDetector {
    /// The medium that is watched.
    pub medium: Medium,
    /// The index of the stream that carries it.
    pub stream: usize,
    /// The time base of the decoder of that stream.
    pub time_base: TimeBase,
    /// Whether a frame at or past the horizon has been seen.
    pub at_end: bool,
    /// Whether the medium is inside a run.
    pub inside_pause: bool,
}

impl PauseDetector {
    /// What the detector does with a packet of the stream `stream_index`.
    pub open spec fn disposition_of(self, stream_index: usize) -> Disposition {
        if self.stream != stream_index {
            Disposition::NotApplicable
        } else if self.at_end {
            Disposition::Finished
        } else {
            Disposition::Applicable
        }
    }

    /// The detector after a packet of the stream `stream_index` for which the
    /// engine gave `decoded`, and the events that the packet gave.
    ///
    /// A packet of another stream, or one met after the horizon, changes
    /// nothing and gives no event. So does a packet that completes no frame.
    /// Otherwise the timestamp of the frame is held against the horizon
    /// first, and then the filtered frames are drained.
    pub open spec fn after_packet(
        self,
        stream_index: usize,
        decoded: Option<DecodedFrame>,
        until: Duration,
    ) -> (PauseDetector, Drain) {
        match decoded {
            Some(frame) if self.disposition_of(stream_index) == Disposition::Applicable => {
                let drained = drain(self.medium, self.inside_pause, frame.filtered@);
                (
                    PauseDetector {
                        at_end: reaches(frame.at, until),
                        inside_pause: drained.inside_pause,
                        ..self
                    },
                    drained,
                )
            },
            _ => (self, Drain { inside_pause: self.inside_pause, events: Seq::empty(), violation: None }),
        }
    }

    /// A detector for `medium` on the stream `stream`: before the horizon and
    /// outside any run.
    pub fn new(medium: Medium, stream: usize, time_base: TimeBase) -> (d: PauseDetector)
        ensures
            d == (PauseDetector { medium, stream, time_base, at_end: false, inside_pause: false }),
    {
        PauseDetector { medium, stream, time_base, at_end: false, inside_pause: false }
    }

    /// Whether packets of the stream `stream_index` are this detector's.
    pub fn is_applicable_stream(&self, stream_index: usize) -> (b: bool)
        ensures
            b == (self.stream == stream_index),
    {
        self.stream == stream_index
    }

    /// Notes that the stream has passed the horizon.
    pub fn set_at_end(&mut self)
        ensures
            *final(self) == (PauseDetector { at_end: true, ..*old(self) }),
    {
        self.at_end = true;
    }

    /// Whether the stream has passed the horizon.
    pub fn is_at_end(&self) -> (b: bool)
        ensures
            b == self.at_end,
    {
        self.at_end
    }

    /// The time base in which the decoder counts.
    pub fn time_base(&self) -> (t: TimeBase)
        ensures
            t == self.time_base,
    {
        self.time_base
    }

    /// What the detector does with a packet of the stream `stream_index`.
    /// Only an applicable packet is to be decoded.
    pub fn disposition(&self, stream_index: usize) -> (d: Disposition)
        ensures
            d == self.disposition_of(stream_index),
    {
        if !self.is_applicable_stream(stream_index) {
            Disposition::NotApplicable
        } else if self.is_at_end() {
            Disposition::Finished
        } else {
            Disposition::Applicable
        }
    }

    /// Holds the timestamp of a decoded frame against the horizon, and
    /// notes where the frame lies at or past it.
    pub fn note_decoded(&mut self, at: Option<Duration>, until: Duration)
        ensures
            *final(self) == (PauseDetector {
                at_end: old(self).at_end || reaches(at, until),
                ..*old(self)
            }),
    {
        match at {
            Some(at) => {
                if at.as_nanos() >= until.as_nanos() {
                    self.set_at_end();
                }
            },
            None => {},
        }
    }

    /// Turns the tags of one filtered frame into a pause event, as
    /// [`classify`] says, and follows the run that the event opens or closes.
    /// Tags that break the protocol leave the detector as it was.
    pub fn frame_matches(&mut self, tags: &FrameTags) -> (r: Result<PauseEvent, Violation>)
        ensures
            r == classify(old(self).medium, old(self).inside_pause, *tags),
            match r {
                Ok(event) => *final(self) == (PauseDetector {
                    inside_pause: inside_after(old(self).inside_pause, event),
                    ..*old(self)
                }),
                Err(_) => *final(self) == *old(self),
            },
    {
        match (self.inside_pause, tags.run_started, tags.run_ended, tags.at) {
            (_, false, false, _) => Ok(PauseEvent::NoChange),
            (_, true, true, _) => Ok(PauseEvent::NoChange),
            (true, false, true, Some(at)) => {
                self.inside_pause = false;
                Ok(PauseEvent::End(at))
            },
            (false, true, false, Some(at)) => {
                self.inside_pause = true;
                Ok(PauseEvent::Start(at))
            },
            (true, true, false, _) => Err(Violation::StartWhilePaused(self.medium)),
            (false, false, true, _) => Err(Violation::EndWhileNotPaused(self.medium)),
            (_, _, _, None) => Err(Violation::MissingTimestamp(self.medium)),
        }
    }

    /// Works on one packet of the stream `stream_index`, for which the engine
    /// gave `decoded`, and hands back what became of the packet and the pause
    /// events that it gave, in order.
    ///
    /// A packet of another stream is not applicable and one met after the
    /// horizon finds the detector finished: both leave it as it was and give
    /// no event. Tags that break the protocol end the call with the
    /// violation; the detector then stands as the frames before them left it.
    #[verifier::loop_isolation(false)]
    pub fn detected_pauses_from_packet(
        &mut self,
        stream_index: usize,
        decoded: &Option<DecodedFrame>,
        until: Duration,
    ) -> (r: Result<(Disposition, Vec<PauseEvent>), Violation>)
        ensures
            *final(self) == old(self).after_packet(stream_index, *decoded, until).0,
            match old(self).after_packet(stream_index, *decoded, until).1.violation {
                Some(violation) => r == Err::<(Disposition, Vec<PauseEvent>), Violation>(violation),
                None => {
                    &&& r matches Ok(done)
                    &&& done.0 == old(self).disposition_of(stream_index)
                    &&& done.1@ == old(self).after_packet(stream_index, *decoded, until).1.events
                },
            },
            old(self).disposition_of(stream_index) != Disposition::Applicable ==> {
                &&& *final(self) == *old(self)
                &&& r matches Ok(done)
                &&& done.1@.len() == 0
            },
    {
        let disposition = self.disposition(stream_index);
        let mut events: Vec<PauseEvent> = Vec::new();
        match disposition {
            Disposition::Applicable => {},
            _ => {
                return Ok((disposition, events));
            },
        }
        let frame = match decoded {
            Some(frame) => frame,
            None => {
                return Ok((disposition, events));
            },
        };
        let ghost start = *self;
        self.note_decoded(frame.at, until);
        let mut i: usize = 0;
        while i < frame.filtered.len()
            invariant
                i <= frame.filtered.len(),
                drain(start.medium, start.inside_pause, frame.filtered@.take(i as int)) == (Drain {
                    inside_pause: self.inside_pause,
                    events: events@,
                    violation: None,
                }),
                *self == (PauseDetector {
                    at_end: reaches(frame.at, until),
                    inside_pause: self.inside_pause,
                    ..start
                }),
            decreases frame.filtered.len() - i,
        {
            proof {
                assert(frame.filtered@.take(i + 1).drop_last() =~= frame.filtered@.take(i as int));
            }
            match self.frame_matches(&frame.filtered[i]) {
                Ok(event) => {
                    events.push(event);
                },
                Err(violation) => {
                    proof {
                        lemma_drain_stops(
                            start.medium,
                            start.inside_pause,
                            frame.filtered@,
                            i + 1,
                        );
                    }
                    return Err(violation);
                },
            }
            i += 1;
        }
        proof {
            assert(frame.filtered@.take(i as int) =~= frame.filtered@);
        }
        Ok((disposition, events))
    }
}

} // verus!
