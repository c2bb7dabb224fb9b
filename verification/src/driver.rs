//! The scan of one recording.
//!
//! The driver owns the two pause detectors, the correlator and the completion
//! tracker. Packets come in container order, each for one stream. The driver
//! says which detector a packet is for, takes what the engine of that medium
//! made of the packet, hands every pause event to the correlator as soon as
//! the detector has given it, and collects the candidates. The scan may stop
//! when both streams have passed the horizon.

use crate::agreement::{lemma_decoded_keeps_agreement, lemma_packet_keeps_agreement, moved_forward};
use crate::candidate::{intervals, Candidate, Interval};
use crate::completion::StreamCompletionState;
use crate::correlate::{correlate, CorrelationState, Correlator, Pauses};
use crate::detector::{
    classify, inside_after, reaches, DecodedFrame, Disposition, FrameTags, PauseDetector, TimeBase,
};
use crate::event::Medium;
use crate::time::nanos_of;
use crate::violation::Violation;
use std::time::Duration;
use vstd::prelude::*;

verus! {

/// One packet of the recording, with what the engine made of it.
#[derive(Debug, PartialEq, Eq)]
pub struct Packet {
    /// The index of the stream that the packet belongs to.
    pub stream_index: usize,
    /// What decoding and filtering the packet gave, or `None` where the
    /// packet completed no frame.
    pub decoded: Option<DecodedFrame>,
}

/// The state of a scan: the model of a [`Detector`].
pub struct Scan {
    pub audio: PauseDetector,
    pub video: PauseDetector,
    pub pauses: Pauses,
    pub completion: StreamCompletionState,
    pub until: Duration,
    pub threshold: Duration,
    pub candidates: Seq<Interval>,
}

impl Scan {
    /// The state in which a scan begins.
    pub open spec fn fresh(
        audio_stream: usize,
        audio_time_base: TimeBase,
        video_stream: usize,
        video_time_base: TimeBase,
        until: Duration,
        threshold: Duration,
    ) -> Scan {
        Scan {
            audio: PauseDetector {
                medium: Medium::Audio,
                stream: audio_stream,
                time_base: audio_time_base,
                at_end: false,
                inside_pause: false,
            },
            video: PauseDetector {
                medium: Medium::Video,
                stream: video_stream,
                time_base: video_time_base,
                at_end: false,
                inside_pause: false,
            },
            pauses: Pauses::idle(),
            completion: StreamCompletionState::Ongoing,
            until,
            threshold,
            candidates: Seq::empty(),
        }
    }

    /// The detector of `medium`.
    pub open spec fn detector(self, medium: Medium) -> PauseDetector {
        match medium {
            Medium::Audio => self.audio,
            Medium::Video => self.video,
        }
    }

    /// `self` with the detector of `medium` replaced.
    pub open spec fn with_detector(self, medium: Medium, detector: PauseDetector) -> Scan {
        match medium {
            Medium::Audio => Scan { audio: detector, ..self },
            Medium::Video => Scan { video: detector, ..self },
        }
    }

    /// The parts of the state agree with one another: each detector watches
    /// its own medium, the correlator records a medium as paused exactly when
    /// the detector of that medium is inside a run, and the tracker holds a
    /// medium as done exactly when its detector has passed the horizon.
    pub open spec fn consistent(self) -> bool {
        &&& self.audio.medium == Medium::Audio
        &&& self.video.medium == Medium::Video
        &&& self.audio.inside_pause == (self.pauses.audio is Some)
        &&& self.video.inside_pause == (self.pauses.video is Some)
        &&& self.completion == StreamCompletionState::of(self.audio.at_end, self.video.at_end)
    }

    /// Whether the scan may stop.
    pub open spec fn all_done(self) -> bool {
        self.completion == StreamCompletionState::AllDone
    }

    /// The state after one filtered frame of `medium`: the detector turns the
    /// tags into an event, and the correlator takes the event.
    pub open spec fn after_frame(self, medium: Medium, tags: FrameTags) -> Result<Scan, Violation> {
        let detector = self.detector(medium);
        match classify(detector.medium, detector.inside_pause, tags) {
            Err(violation) => Err(violation),
            Ok(event) => match correlate(self.pauses, medium, event@, nanos_of(self.threshold)) {
                Err(violation) => Err(violation),
                Ok(outcome) => Ok(
                    Scan {
                        pauses: outcome.pauses,
                        candidates: match outcome.emitted {
                            Some(interval) => self.candidates.push(interval),
                            None => self.candidates,
                        },
                        ..self.with_detector(
                            medium,
                            PauseDetector {
                                inside_pause: inside_after(detector.inside_pause, event),
                                ..detector
                            },
                        )
                    },
                ),
            },
        }
    }

    /// The state after the filtered frames of one packet, taken in order. The
    /// first violation ends the scan.
    pub open spec fn after_frames(self, medium: Medium, filtered: Seq<FrameTags>) -> Result<
        Scan,
        Violation,
    >
        decreases filtered.len(),
    {
        if filtered.len() == 0 {
            Ok(self)
        } else {
            match self.after_frames(medium, filtered.drop_last()) {
                Ok(scan) => scan.after_frame(medium, filtered.last()),
                Err(violation) => Err(violation),
            }
        }
    }

    /// The state after the timestamp of a decoded frame of `medium` has been
    /// held against the horizon.
    pub open spec fn after_timestamp(self, medium: Medium, at: Option<Duration>) -> Scan {
        if reaches(at, self.until) {
            Scan {
                completion: self.completion.marked(medium),
                ..self.with_detector(
                    medium,
                    PauseDetector { at_end: true, ..self.detector(medium) },
                )
            }
        } else {
            self
        }
    }

    /// The state after the detector of `medium` has been offered a packet of
    /// the stream `stream_index`, for which the engine gave `decoded`.
    ///
    /// A packet of another stream, one met after the horizon and one that
    /// completed no frame change nothing.
    pub open spec fn after_decoded(
        self,
        medium: Medium,
        stream_index: usize,
        decoded: Option<DecodedFrame>,
    ) -> Result<Scan, Violation> {
        match decoded {
            Some(frame) if self.detector(medium).disposition_of(stream_index)
                == Disposition::Applicable => self.after_timestamp(medium, frame.at).after_frames(
                medium,
                frame.filtered@,
            ),
            _ => Ok(self),
        }
    }

    /// The state after a packet has been offered to the audio detector and
    /// then to the video detector.
    pub open spec fn after_packet(self, packet: Packet) -> Result<Scan, Violation> {
        match self.after_decoded(Medium::Audio, packet.stream_index, packet.decoded) {
            Ok(scan) => scan.after_decoded(Medium::Video, packet.stream_index, packet.decoded),
            Err(violation) => Err(violation),
        }
    }

    /// The state in which the scan of `packets` ends: after the first packet
    /// that leaves both media done, or after the last packet.
    pub open spec fn after_all(self, packets: Seq<Packet>) -> Result<Scan, Violation>
        decreases packets.len(),
    {
        if packets.len() == 0 {
            Ok(self)
        } else {
            match self.after_packet(packets.first()) {
                Ok(scan) => if scan.all_done() {
                    Ok(scan)
                } else {
                    scan.after_all(packets.drop_first())
                },
                Err(violation) => Err(violation),
            }
        }
    }
}

/// Frames behind a violation are never looked at.
pub proof fn lemma_frames_stop(scan: Scan, medium: Medium, filtered: Seq<FrameTags>, n: int)
    requires
        0 <= n <= filtered.len(),
        scan.after_frames(medium, filtered.take(n)) is Err,
    ensures
        scan.after_frames(medium, filtered) == scan.after_frames(medium, filtered.take(n)),
    decreases filtered.len(),
{
    if n == filtered.len() {
        assert(filtered.take(n) =~= filtered);
    } else {
        assert(filtered.drop_last().take(n) =~= filtered.take(n));
        lemma_frames_stop(scan, medium, filtered.drop_last(), n);
    }
}

/// The scan of one recording.
#[derive(Debug)]
pub struct Detector {
    audio: PauseDetector,
    video: PauseDetector,
    correlator: Correlator,
    completion: StreamCompletionState,
    until: Duration,
    candidates: Vec<Candidate>,
}

/// The state that the parts of a scan stand for.
pub closed spec fn assembled(
    audio: PauseDetector,
    video: PauseDetector,
    correlator: Correlator,
    completion: StreamCompletionState,
    until: Duration,
    candidates: Seq<Candidate>,
) -> Scan {
    Scan {
        audio,
        video,
        pauses: correlator.state@,
        completion,
        until,
        threshold: correlator.threshold,
        candidates: intervals(candidates),
    }
}

impl View for Detector {
    type V = Scan;

    closed spec fn view(&self) -> Scan {
        assembled(
            self.audio,
            self.video,
            self.correlator,
            self.completion,
            self.until,
            self.candidates@,
        )
    }
}

impl Detector {
    /// The parts of a scan agree at all times.
    #[verifier::type_invariant]
    spec fn agrees(self) -> bool {
        self@.consistent()
    }

    /// A scan of the audio stream `audio_stream` and the video stream
    /// `video_stream`, as far as `until`, for candidates longer than
    /// `threshold`.
    pub fn new(
        audio_stream: usize,
        audio_time_base: TimeBase,
        video_stream: usize,
        video_time_base: TimeBase,
        until: Duration,
        threshold: Duration,
    ) -> (d: Detector)
        ensures
            d@ == Scan::fresh(
                audio_stream,
                audio_time_base,
                video_stream,
                video_time_base,
                until,
                threshold,
            ),
    {
        let candidates: Vec<Candidate> = Vec::new();
        proof {
            assert(intervals(candidates@) =~= Seq::<Interval>::empty());
        }
        Detector {
            audio: PauseDetector::new(Medium::Audio, audio_stream, audio_time_base),
            video: PauseDetector::new(Medium::Video, video_stream, video_time_base),
            correlator: Correlator::new(threshold),
            completion: StreamCompletionState::new(),
            until,
            candidates,
        }
    }

    /// The detector of `medium`, as it stands.
    pub fn detector(&self, medium: Medium) -> (d: PauseDetector)
        ensures
            d == self@.detector(medium),
            d.medium == medium,
            d.inside_pause == (self@.pauses.since(medium) is Some),
            d.at_end == self@.completion.done(medium),
    {
        proof {
            use_type_invariant(self);
        }
        match medium {
            Medium::Audio => self.audio,
            Medium::Video => self.video,
        }
    }

    /// Which media are inside a run, and since when.
    pub fn state(&self) -> (s: CorrelationState)
        ensures
            s@ == self@.pauses,
            self@.consistent(),
    {
        proof {
            use_type_invariant(self);
        }
        self.correlator.state()
    }

    /// Which media have passed the horizon.
    pub fn completion(&self) -> (c: StreamCompletionState)
        ensures
            c == self@.completion,
            c == StreamCompletionState::of(self@.audio.at_end, self@.video.at_end),
    {
        proof {
            use_type_invariant(self);
        }
        self.completion
    }

    /// How far into the recording the scan goes.
    pub fn until(&self) -> (d: Duration)
        ensures
            d == self@.until,
    {
        self.until
    }

    /// The length that a run must exceed to be a candidate.
    pub fn threshold(&self) -> (d: Duration)
        ensures
            d == self@.threshold,
    {
        self.correlator.threshold
    }

    /// The candidates found so far, in the order in which their runs ended.
    pub fn candidates(&self) -> (found: &Vec<Candidate>)
        ensures
            intervals(found@) == self@.candidates,
    {
        &self.candidates
    }

    /// Ends the scan and hands out the candidates, in the order in which
    /// their runs ended.
    pub fn into_candidates(self) -> (found: Vec<Candidate>)
        ensures
            intervals(found@) == self@.candidates,
    {
        self.candidates
    }

    /// Whether both streams have passed the horizon, so that the scan may
    /// stop.
    pub fn is_all_done(&self) -> (b: bool)
        ensures
            b == self@.all_done(),
            b == (self@.audio.at_end && self@.video.at_end),
    {
        proof {
            use_type_invariant(self);
        }
        self.completion.is_all_done()
    }

    /// What the detector of `medium` does with a packet of the stream
    /// `stream_index`. The engine of `medium` is to decode the packet only
    /// where it is applicable.
    pub fn disposition(&self, medium: Medium, stream_index: usize) -> (d: Disposition)
        ensures
            d == self@.detector(medium).disposition_of(stream_index),
    {
        self.detector(medium).disposition(stream_index)
    }

    /// Offers the detector of `medium` a packet of the stream `stream_index`,
    /// for which the engine gave `decoded`. A violation ends the scan.
    ///
    /// A packet of another stream, and one that meets the detector past the
    /// horizon, leave the scan as it was.
    #[verifier::loop_isolation(false)]
    pub fn absorb(
        self,
        medium: Medium,
        stream_index: usize,
        decoded: &Option<DecodedFrame>,
    ) -> (r: Result<Detector, Violation>)
        ensures
            match self@.after_decoded(medium, stream_index, *decoded) {
                Ok(scan) => r matches Ok(next) && next@ == scan,
                Err(violation) => r matches Err(v) && v == violation,
            },
            self@.detector(medium).disposition_of(stream_index) != Disposition::Applicable ==> (
            r matches Ok(next) && next@ == self@),
            r matches Ok(next) ==> next@.consistent() && moved_forward(self@, next@),
    {
        proof {
            use_type_invariant(&self);
            lemma_decoded_keeps_agreement(self@, medium, stream_index, *decoded);
        }
        let ghost start = self@;
        let mut detector = self.detector(medium);
        let frame = match (detector.disposition(stream_index), decoded) {
            (Disposition::Applicable, Some(frame)) => frame,
            _ => {
                return Ok(self);
            },
        };
        let Detector { audio, video, mut correlator, mut completion, until, mut candidates } = self;
        detector.note_decoded(frame.at, until);
        if detector.is_at_end() {
            completion.mark_done(medium);
        }
        let ghost noted = start.after_timestamp(medium, frame.at);
        let mut i: usize = 0;
        while i < frame.filtered.len()
            invariant
                i <= frame.filtered.len(),
                noted.after_frames(medium, frame.filtered@.take(i as int)) == Ok::<Scan, Violation>(
                    assembled(
                        audio,
                        video,
                        correlator,
                        completion,
                        until,
                        candidates@,
                    ).with_detector(medium, detector),
                ),
            decreases frame.filtered.len() - i,
        {
            proof {
                assert(frame.filtered@.take(i + 1).drop_last() =~= frame.filtered@.take(i as int));
            }
            let event = match detector.frame_matches(&frame.filtered[i]) {
                Ok(event) => event,
                Err(violation) => {
                    proof {
                        lemma_frames_stop(noted, medium, frame.filtered@, i + 1);
                    }
                    return Err(violation);
                },
            };
            match correlator.observe(medium, event) {
                Ok(Some(candidate)) => {
                    proof {
                        assert(intervals(candidates@.push(candidate)) =~= intervals(
                            candidates@,
                        ).push(candidate@));
                    }
                    candidates.push(candidate);
                },
                Ok(None) => {},
                Err(violation) => {
                    proof {
                        lemma_frames_stop(noted, medium, frame.filtered@, i + 1);
                    }
                    return Err(violation);
                },
            }
            i += 1;
        }
        proof {
            assert(frame.filtered@.take(i as int) =~= frame.filtered@);
        }
        Ok(
            match medium {
                Medium::Audio => Detector {
                    audio: detector,
                    video,
                    correlator,
                    completion,
                    until,
                    candidates,
                },
                Medium::Video => Detector {
                    audio,
                    video: detector,
                    correlator,
                    completion,
                    until,
                    candidates,
                },
            },
        )
    }

    /// Offers a packet to the audio detector and then to the video detector.
    /// A violation ends the scan.
    pub fn absorb_packet(self, packet: &Packet) -> (r: Result<Detector, Violation>)
        ensures
            match self@.after_packet(*packet) {
                Ok(scan) => r matches Ok(next) && next@ == scan,
                Err(violation) => r matches Err(v) && v == violation,
            },
            r matches Ok(next) ==> next@.consistent() && moved_forward(self@, next@),
    {
        proof {
            use_type_invariant(&self);
            lemma_packet_keeps_agreement(self@, *packet);
        }
        match self.absorb(Medium::Audio, packet.stream_index, &packet.decoded) {
            Ok(scan) => scan.absorb(Medium::Video, packet.stream_index, &packet.decoded),
            Err(violation) => Err(violation),
        }
    }

    /// Scans `packets` in order, up to the first packet that leaves both media
    /// done, and hands out the candidates in the order in which their runs
    /// ended. A violation ends the scan without candidates.
    pub fn detect(self, packets: &Vec<Packet>) -> (r: Result<Vec<Candidate>, Violation>)
        ensures
            match self@.after_all(packets@) {
                Ok(scan) => r matches Ok(found) && intervals(found@) == scan.candidates,
                Err(violation) => r matches Err(v) && v == violation,
            },
    {
        let mut scan = self;
        let mut i: usize = 0;
        proof {
            assert(packets@.skip(0) =~= packets@);
        }
        while i < packets.len()
            invariant
                i <= packets.len(),
                self@.after_all(packets@) == scan@.after_all(packets@.skip(i as int)),
            decreases packets.len() - i,
        {
            proof {
                assert(packets@.skip(i as int).first() == packets@[i as int]);
                assert(packets@.skip(i as int).drop_first() =~= packets@.skip(i + 1));
            }
            scan =
            match scan.absorb_packet(&packets[i]) {
                Ok(next) => next,
                Err(violation) => {
                    return Err(violation);
                },
            };
            if scan.is_all_done() {
                return Ok(scan.into_candidates());
            }
            i += 1;
        }
        Ok(scan.into_candidates())
    }
}

} // verus!
