use intro_chapter_adder::candidate::Candidate;
use intro_chapter_adder::completion::StreamCompletionState;
use intro_chapter_adder::correlate::{CorrelationState, Correlator, TaggedEvent};
use intro_chapter_adder::detector::{DecodedFrame, Disposition, FrameTags, TimeBase};
use intro_chapter_adder::driver::{Detector, Packet};
use intro_chapter_adder::event::{Medium, PauseEvent};
use intro_chapter_adder::violation::Violation;
use std::time::Duration;

const AUDIO: usize = 1;
const VIDEO: usize = 0;

fn secs(s: u64) -> Duration {
    Duration::from_secs(s)
}

fn scan(until: u64, threshold_ms: u64) -> Detector {
    Detector::new(
        AUDIO,
        TimeBase { numerator: 1, denominator: 48_000 },
        VIDEO,
        TimeBase { numerator: 1, denominator: 25 },
        secs(until),
        Duration::from_millis(threshold_ms),
    )
}

fn plain(at: u64) -> FrameTags {
    FrameTags { run_started: false, run_ended: false, at: Some(secs(at)) }
}

fn started(at: u64) -> FrameTags {
    FrameTags { run_started: true, run_ended: false, at: Some(secs(at)) }
}

fn ended(at: u64) -> FrameTags {
    FrameTags { run_started: false, run_ended: true, at: Some(secs(at)) }
}

fn packet(stream_index: usize, at: u64, filtered: Vec<FrameTags>) -> Packet {
    Packet { stream_index, decoded: Some(DecodedFrame { at: Some(secs(at)), filtered }) }
}

#[test]
fn a_new_scan_has_found_nothing() {
    let d = scan(600, 200);
    assert_eq!(d.state(), CorrelationState::Idle);
    assert_eq!(d.completion(), StreamCompletionState::Ongoing);
    assert!(!d.is_all_done());
    assert!(d.candidates().is_empty());
    assert_eq!(d.until(), secs(600));
    assert_eq!(d.threshold(), Duration::from_millis(200));
    assert_eq!(d.detector(Medium::Audio).stream, AUDIO);
    assert_eq!(d.detector(Medium::Audio).medium, Medium::Audio);
    assert_eq!(d.detector(Medium::Video).stream, VIDEO);
    assert_eq!(d.detector(Medium::Video).medium, Medium::Video);
    assert_eq!(d.detector(Medium::Video).time_base, TimeBase { numerator: 1, denominator: 25 });
}

#[test]
fn a_packet_goes_to_the_detector_of_its_stream() {
    let d = scan(600, 200);
    assert_eq!(d.disposition(Medium::Audio, AUDIO), Disposition::Applicable);
    assert_eq!(d.disposition(Medium::Video, AUDIO), Disposition::NotApplicable);
    assert_eq!(d.disposition(Medium::Video, VIDEO), Disposition::Applicable);
    assert_eq!(d.disposition(Medium::Audio, VIDEO), Disposition::NotApplicable);
    assert_eq!(d.disposition(Medium::Audio, 7), Disposition::NotApplicable);
}

#[test]
fn a_scan_ignores_a_packet_of_another_stream() {
    let d = scan(600, 200);
    let d = d.absorb(Medium::Audio, VIDEO, &packet(VIDEO, 700, vec![started(1)]).decoded).unwrap();
    assert_eq!(d.state(), CorrelationState::Idle);
    assert_eq!(d.completion(), StreamCompletionState::Ongoing);
    assert!(!d.detector(Medium::Audio).inside_pause);
    assert!(!d.detector(Medium::Audio).at_end);
}

#[test]
fn staggered_pauses_are_found_by_a_scan() {
    let packets = vec![
        packet(AUDIO, 4, vec![plain(4)]),
        packet(VIDEO, 4, vec![plain(4)]),
        packet(AUDIO, 5, vec![started(5)]),
        packet(VIDEO, 6, vec![started(6)]),
        packet(AUDIO, 8, vec![ended(8)]),
        packet(VIDEO, 9, vec![ended(9)]),
    ];
    let found = scan(600, 1000).detect(&packets);
    assert_eq!(found, Ok(vec![Candidate::new(secs(6), secs(3))]));
}

#[test]
fn a_lone_silence_is_not_found_by_a_scan() {
    let packets = vec![
        Packet {
            stream_index: AUDIO,
            decoded: Some(DecodedFrame {
                at: Some(secs(5)),
                filtered: vec![started(5)],
            }),
        },
        packet(VIDEO, 5, vec![plain(5)]),
        Packet {
            stream_index: AUDIO,
            decoded: Some(DecodedFrame {
                at: Some(Duration::from_millis(5300)),
                filtered: vec![FrameTags {
                    run_started: false,
                    run_ended: true,
                    at: Some(Duration::from_millis(5300)),
                }],
            }),
        },
    ];
    assert_eq!(scan(600, 200).detect(&packets), Ok(vec![]));
}

#[test]
fn candidates_come_in_the_order_in_which_their_runs_ended() {
    let packets = vec![
        packet(VIDEO, 1, vec![started(1)]),
        packet(AUDIO, 2, vec![started(2), ended(4), started(6)]),
        packet(AUDIO, 9, vec![ended(9)]),
        packet(AUDIO, 30, vec![started(30)]),
        packet(VIDEO, 40, vec![ended(40)]),
        packet(AUDIO, 50, vec![ended(50)]),
    ];
    let found = scan(600, 1000).detect(&packets);
    assert_eq!(
        found,
        Ok(vec![
            Candidate::new(secs(2), secs(2)),
            Candidate::new(secs(6), secs(3)),
            Candidate::new(secs(30), secs(39)),
        ])
    );
}

#[test]
fn the_state_between_two_candidates_is_that_of_the_lasting_medium() {
    let d = scan(600, 1000);
    let d = d.absorb_packet(&packet(VIDEO, 1, vec![started(1)])).unwrap();
    assert_eq!(d.state(), CorrelationState::Video(secs(1)));
    let d = d.absorb_packet(&packet(AUDIO, 2, vec![started(2)])).unwrap();
    assert_eq!(d.state(), CorrelationState::Both { audio: secs(2), video: secs(1) });
    let d = d.absorb_packet(&packet(AUDIO, 4, vec![ended(4)])).unwrap();
    assert_eq!(d.state(), CorrelationState::Video(secs(1)));
    assert_eq!(d.candidates(), &vec![Candidate::new(secs(2), secs(2))]);
    assert!(d.detector(Medium::Video).inside_pause);
    assert!(!d.detector(Medium::Audio).inside_pause);
    let d = d.absorb_packet(&packet(AUDIO, 6, vec![started(6), ended(9)])).unwrap();
    assert_eq!(d.state(), CorrelationState::Video(secs(1)));
    assert_eq!(
        d.into_candidates(),
        vec![Candidate::new(secs(2), secs(2)), Candidate::new(secs(6), secs(3))]
    );
}

#[test]
fn the_scan_stops_when_both_streams_are_past_the_horizon() {
    let packets = vec![
        packet(VIDEO, 1, vec![started(1)]),
        packet(AUDIO, 2, vec![started(2)]),
        packet(AUDIO, 10, vec![plain(10)]),
        packet(AUDIO, 11, vec![ended(11)]),
        packet(VIDEO, 10, vec![plain(10)]),
        packet(VIDEO, 11, vec![ended(11)]),
        packet(AUDIO, 12, vec![ended(12)]),
    ];
    assert_eq!(scan(10, 200).detect(&packets), Ok(vec![]));
    assert_eq!(
        scan(11, 200).detect(&packets),
        Ok(vec![Candidate::new(secs(2), secs(9))])
    );
}

#[test]
fn the_tracker_follows_the_detectors() {
    let d = scan(10, 200);
    let d = d.absorb_packet(&packet(AUDIO, 10, vec![])).unwrap();
    assert_eq!(d.completion(), StreamCompletionState::AudioDone);
    assert!(d.detector(Medium::Audio).at_end);
    assert!(!d.is_all_done());
    assert_eq!(d.disposition(Medium::Audio, AUDIO), Disposition::Finished);
    let d = d.absorb_packet(&packet(AUDIO, 11, vec![started(11)])).unwrap();
    assert_eq!(d.state(), CorrelationState::Idle);
    let d = d.absorb_packet(&packet(VIDEO, 12, vec![started(12)])).unwrap();
    assert_eq!(d.completion(), StreamCompletionState::AllDone);
    assert!(d.is_all_done());
    assert_eq!(d.state(), CorrelationState::Video(secs(12)));
    let d = d.absorb_packet(&packet(VIDEO, 13, vec![ended(13)])).unwrap();
    assert_eq!(d.state(), CorrelationState::Video(secs(12)));
}

#[test]
fn a_packet_without_a_frame_changes_nothing_in_a_scan() {
    let d = scan(10, 200);
    let d = d.absorb_packet(&Packet { stream_index: AUDIO, decoded: None }).unwrap();
    assert_eq!(d.completion(), StreamCompletionState::Ongoing);
    assert_eq!(d.state(), CorrelationState::Idle);
}

#[test]
fn a_frame_without_a_timestamp_does_not_end_a_stream() {
    let d = scan(10, 200);
    let p = Packet {
        stream_index: VIDEO,
        decoded: Some(DecodedFrame { at: None, filtered: vec![started(11)] }),
    };
    let d = d.absorb_packet(&p).unwrap();
    assert_eq!(d.completion(), StreamCompletionState::Ongoing);
    assert_eq!(d.state(), CorrelationState::Video(secs(11)));
}

#[test]
fn a_violation_ends_a_scan() {
    let packets = vec![
        packet(VIDEO, 1, vec![started(1)]),
        packet(AUDIO, 2, vec![started(2), ended(4)]),
        packet(VIDEO, 5, vec![started(5)]),
        packet(AUDIO, 6, vec![started(6), ended(9)]),
    ];
    assert_eq!(
        scan(600, 200).detect(&packets),
        Err(Violation::StartWhilePaused(Medium::Video))
    );
    let packets = vec![packet(AUDIO, 2, vec![ended(4)])];
    assert_eq!(
        scan(600, 200).detect(&packets),
        Err(Violation::EndWhileNotPaused(Medium::Audio))
    );
    let bare = FrameTags { run_started: true, run_ended: false, at: None };
    let packets = vec![packet(VIDEO, 2, vec![bare])];
    assert_eq!(
        scan(600, 200).detect(&packets),
        Err(Violation::MissingTimestamp(Medium::Video))
    );
    let packets = vec![
        packet(VIDEO, 5, vec![started(5)]),
        packet(AUDIO, 6, vec![started(6)]),
        packet(VIDEO, 7, vec![ended(4)]),
    ];
    assert_eq!(
        scan(600, 200).detect(&packets),
        Err(Violation::EndBeforeStart(Medium::Video))
    );
}

#[test]
fn a_scan_of_nothing_finds_nothing() {
    assert_eq!(scan(600, 200).detect(&vec![]), Ok(vec![]));
}

#[test]
fn a_feed_is_taken_in_order() {
    let feed = vec![
        TaggedEvent { medium: Medium::Audio, event: PauseEvent::Start(secs(5)) },
        TaggedEvent { medium: Medium::Video, event: PauseEvent::NoChange },
        TaggedEvent { medium: Medium::Video, event: PauseEvent::Start(secs(6)) },
        TaggedEvent { medium: Medium::Audio, event: PauseEvent::End(secs(8)) },
        TaggedEvent { medium: Medium::Audio, event: PauseEvent::Start(secs(9)) },
        TaggedEvent { medium: Medium::Video, event: PauseEvent::End(secs(20)) },
    ];
    let mut c = Correlator::new(secs(1));
    assert_eq!(
        c.observe_all(&feed),
        Ok(vec![Candidate::new(secs(6), secs(3)), Candidate::new(secs(9), secs(14))])
    );
    assert_eq!(c.state(), CorrelationState::Audio(secs(9)));
}

#[test]
fn a_feed_stops_at_its_first_violation() {
    let feed = vec![
        TaggedEvent { medium: Medium::Audio, event: PauseEvent::Start(secs(5)) },
        TaggedEvent { medium: Medium::Video, event: PauseEvent::End(secs(6)) },
        TaggedEvent { medium: Medium::Audio, event: PauseEvent::End(secs(8)) },
    ];
    let mut c = Correlator::new(secs(1));
    assert_eq!(c.observe_all(&feed), Err(Violation::EndWhileNotPaused(Medium::Video)));
    assert_eq!(c.state(), CorrelationState::Audio(secs(5)));
}
