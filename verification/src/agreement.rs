//! What holds in every state of a scan.
//!
//! A scan is made of parts that each keep a record of their own: the
//! detectors know whether their medium is inside a run, the correlator knows
//! since when, and the tracker knows which streams are done. The laws below
//! show that these records never contradict one another, that the scan only
//! ever moves forward, and that its candidates are those of the correlator
//! fed with the events of the detectors.

use crate::completion::StreamCompletionState;
use crate::correlate::{correlate, replay, Tagged};
use crate::detector::{classify, drain, DecodedFrame, Disposition, FrameTags};
use crate::driver::{Packet, Scan};
use crate::event::{Medium, PauseEvent};
use crate::time::nanos_of;
use crate::violation::Violation;
use std::time::Duration;
use vstd::prelude::*;

verus! {

/// The events of one medium, each tagged with the medium.
pub open spec fn tagged(medium: Medium, events: Seq<PauseEvent>) -> Seq<Tagged> {
    events.map_values(|e: PauseEvent| Tagged { medium, signal: e@ })
}

/// `later` is `earlier` moved forward: the same streams, horizon and
/// threshold, no stream less done, and the candidates of `earlier` still at
/// the head of the list.
pub open spec fn moved_forward(earlier: Scan, later: Scan) -> bool {
    &&& later.audio.medium == earlier.audio.medium
    &&& later.video.medium == earlier.video.medium
    &&& later.audio.stream == earlier.audio.stream
    &&& later.video.stream == earlier.video.stream
    &&& later.audio.time_base == earlier.audio.time_base
    &&& later.video.time_base == earlier.video.time_base
    &&& later.until == earlier.until
    &&& later.threshold == earlier.threshold
    &&& earlier.audio.at_end ==> later.audio.at_end
    &&& earlier.video.at_end ==> later.video.at_end
    &&& earlier.completion.done(Medium::Audio) ==> later.completion.done(Medium::Audio)
    &&& earlier.completion.done(Medium::Video) ==> later.completion.done(Medium::Video)
    &&& earlier.candidates.is_prefix_of(later.candidates)
}

/// A scan begins in a state whose parts agree.
pub proof fn lemma_fresh_is_consistent(
    audio_stream: usize,
    audio_time_base: crate::detector::TimeBase,
    video_stream: usize,
    video_time_base: crate::detector::TimeBase,
    until: Duration,
    threshold: Duration,
)
    ensures
        Scan::fresh(
            audio_stream,
            audio_time_base,
            video_stream,
            video_time_base,
            until,
            threshold,
        ).consistent(),
{
}

/// While the parts of a scan agree, the correlator never finds an event of a
/// detector out of step: the only violation that it can still meet is a run
/// that ends before it began.
pub proof fn lemma_parts_never_drift(scan: Scan, medium: Medium, tags: FrameTags)
    requires
        scan.consistent(),
    ensures
        classify(medium, scan.detector(medium).inside_pause, tags) matches Ok(event) ==> (correlate(
            scan.pauses,
            medium,
            event@,
            nanos_of(scan.threshold),
        ) matches Err(violation) ==> violation == Violation::EndBeforeStart(medium)),
{
}

/// One filtered frame moves a scan forward and leaves its parts in
/// agreement.
pub proof fn lemma_frame_keeps_agreement(scan: Scan, medium: Medium, tags: FrameTags)
    requires
        scan.consistent(),
    ensures
        scan.after_frame(medium, tags) matches Ok(next) ==> next.consistent() && moved_forward(
            scan,
            next,
        ),
{
}

/// The filtered frames of a packet move a scan forward and leave its parts
/// in agreement.
pub proof fn lemma_frames_keep_agreement(scan: Scan, medium: Medium, filtered: Seq<FrameTags>)
    requires
        scan.consistent(),
    ensures
        scan.after_frames(medium, filtered) matches Ok(next) ==> next.consistent() && moved_forward(
            scan,
            next,
        ),
    decreases filtered.len(),
{
    if filtered.len() > 0 {
        lemma_frames_keep_agreement(scan, medium, filtered.drop_last());
        match scan.after_frames(medium, filtered.drop_last()) {
            Ok(before) => {
                lemma_frame_keeps_agreement(before, medium, filtered.last());
            },
            Err(_) => {},
        }
    }
}

/// A packet offered to one detector moves a scan forward and leaves its
/// parts in agreement.
pub proof fn lemma_decoded_keeps_agreement(
    scan: Scan,
    medium: Medium,
    stream_index: usize,
    decoded: Option<DecodedFrame>,
)
    requires
        scan.consistent(),
    ensures
        scan.after_decoded(medium, stream_index, decoded) matches Ok(next) ==> next.consistent()
            && moved_forward(scan, next),
{
    match decoded {
        Some(frame) => {
            if scan.detector(medium).disposition_of(stream_index) == Disposition::Applicable {
                let noted = scan.after_timestamp(medium, frame.at);
                assert(noted.consistent());
                assert(moved_forward(scan, noted));
                lemma_frames_keep_agreement(noted, medium, frame.filtered@);
            }
        },
        None => {},
    }
}

/// A packet moves a scan forward and leaves its parts in agreement.
pub proof fn lemma_packet_keeps_agreement(scan: Scan, packet: Packet)
    requires
        scan.consistent(),
    ensures
        scan.after_packet(packet) matches Ok(next) ==> next.consistent() && moved_forward(
            scan,
            next,
        ),
{
    lemma_decoded_keeps_agreement(scan, Medium::Audio, packet.stream_index, packet.decoded);
    match scan.after_decoded(Medium::Audio, packet.stream_index, packet.decoded) {
        Ok(between) => {
            lemma_decoded_keeps_agreement(
                between,
                Medium::Video,
                packet.stream_index,
                packet.decoded,
            );
        },
        Err(_) => {},
    }
}

/// A whole scan moves forward and ends with its parts in agreement.
pub proof fn lemma_scan_keeps_agreement(scan: Scan, packets: Seq<Packet>)
    requires
        scan.consistent(),
    ensures
        scan.after_all(packets) matches Ok(end) ==> end.consistent() && moved_forward(scan, end),
    decreases packets.len(),
{
    if packets.len() > 0 {
        lemma_packet_keeps_agreement(scan, packets.first());
        match scan.after_packet(packets.first()) {
            Ok(next) => {
                if !next.all_done() {
                    lemma_scan_keeps_agreement(next, packets.drop_first());
                }
            },
            Err(_) => {},
        }
    }
}

/// Once both streams are past the horizon, every further packet changes
/// nothing.
pub proof fn lemma_done_scan_ignores_packets(scan: Scan, packet: Packet)
    requires
        scan.consistent(),
        scan.all_done(),
    ensures
        scan.after_packet(packet) == Ok::<Scan, Violation>(scan),
{
}

/// A packet of a stream that a detector does not own, and one that meets the
/// detector past the horizon, change nothing in the scan.
pub proof fn lemma_packet_not_worked_on(
    scan: Scan,
    medium: Medium,
    stream_index: usize,
    decoded: Option<DecodedFrame>,
)
    requires
        scan.detector(medium).stream != stream_index || scan.detector(medium).at_end,
    ensures
        scan.after_decoded(medium, stream_index, decoded) == Ok::<Scan, Violation>(scan),
{
}

/// The filtered frames of a packet that break no rule do to a scan what
/// their events, drained first and then replayed, do to the correlator: the
/// detector ends where the drain does, the pauses where the replay does, and
/// the candidates of the replay follow those that the scan had.
pub proof fn lemma_scan_is_drain_then_replay(scan: Scan, medium: Medium, filtered: Seq<FrameTags>)
    requires
        scan.after_frames(medium, filtered) is Ok,
    ensures
        ({
            let detector = scan.detector(medium);
            let drained = drain(detector.medium, detector.inside_pause, filtered);
            let replayed = replay(
                scan.pauses,
                tagged(medium, drained.events),
                nanos_of(scan.threshold),
            );
            let next = scan.after_frames(medium, filtered).unwrap();
            &&& drained.violation is None
            &&& replayed.violation is None
            &&& drained.events.len() == filtered.len()
            &&& next.detector(medium).inside_pause == drained.inside_pause
            &&& next.pauses == replayed.pauses
            &&& next.candidates == scan.candidates + replayed.emitted
            &&& next.detector(medium.counterpart()) == scan.detector(medium.counterpart())
        }),
    decreases filtered.len(),
{
    let detector = scan.detector(medium);
    if filtered.len() == 0 {
        let drained = drain(detector.medium, detector.inside_pause, filtered);
        assert(tagged(medium, drained.events) =~= Seq::<Tagged>::empty());
        assert(scan.candidates + Seq::<crate::candidate::Interval>::empty() =~= scan.candidates);
    } else {
        lemma_scan_is_drain_then_replay(scan, medium, filtered.drop_last());
        let before = scan.after_frames(medium, filtered.drop_last()).unwrap();
        let drained_before = drain(detector.medium, detector.inside_pause, filtered.drop_last());
        let drained = drain(detector.medium, detector.inside_pause, filtered);
        let event = classify(detector.medium, drained_before.inside_pause, filtered.last()).unwrap();
        assert(before.detector(medium).medium == detector.medium) by {
            lemma_frames_keep_medium(scan, medium, filtered.drop_last());
        }
        assert(drained.events == drained_before.events.push(event));
        assert(tagged(medium, drained.events).drop_last() =~= tagged(
            medium,
            drained_before.events,
        ));
        assert(tagged(medium, drained.events).last() == Tagged { medium, signal: event@ });
        let replayed_before = replay(
            scan.pauses,
            tagged(medium, drained_before.events),
            nanos_of(scan.threshold),
        );
        let next = scan.after_frames(medium, filtered).unwrap();
        assert(before.threshold == scan.threshold) by {
            lemma_frames_keep_medium(scan, medium, filtered.drop_last());
        }
        let replayed = replay(scan.pauses, tagged(medium, drained.events), nanos_of(scan.threshold));
        assert(next.candidates =~= scan.candidates + replayed.emitted);
    }
}

/// The filtered frames of a packet leave the media of the detectors and the
/// threshold as they were.
pub proof fn lemma_frames_keep_medium(scan: Scan, medium: Medium, filtered: Seq<FrameTags>)
    ensures
        scan.after_frames(medium, filtered) matches Ok(next) ==> {
            &&& next.detector(medium).medium == scan.detector(medium).medium
            &&& next.threshold == scan.threshold
        },
    decreases filtered.len(),
{
    if filtered.len() > 0 {
        lemma_frames_keep_medium(scan, medium, filtered.drop_last());
    }
}

/// While both streams are short of the horizon, the tracker says so; it
/// reports that all is done exactly when both detectors are past it.
pub proof fn lemma_all_done_means_both_past_horizon(scan: Scan)
    requires
        scan.consistent(),
    ensures
        scan.all_done() <==> scan.audio.at_end && scan.video.at_end,
        scan.completion == StreamCompletionState::Ongoing <==> !scan.audio.at_end
            && !scan.video.at_end,
{
}

} // verus!
