use intro_chapter_adder::detector::{
    DecodedFrame, Disposition, FrameTags, PauseDetector, TimeBase,
};
use intro_chapter_adder::event::{Medium, PauseEvent};
use intro_chapter_adder::violation::Violation;
use std::time::Duration;

fn secs(s: u64) -> Duration {
    Duration::from_secs(s)
}

fn base() -> TimeBase {
    TimeBase { numerator: 1, denominator: 1000 }
}

fn plain(at: u64) -> FrameTags {
    FrameTags { run_started: false, run_ended: false, at: Some(secs(at)) }
}

fn started(at: u64) -> FrameTags {
    FrameTags { run_started: true, run_ended: false, at: Some(secs(at)) }
}

fn ended(at: u64) -> FrameTags {
    FrameTags { run_started: false, run_ended: true, at: Some(secs(at)) }
}

fn blip(at: u64) -> FrameTags {
    FrameTags { run_started: true, run_ended: true, at: Some(secs(at)) }
}

fn decoded(at: u64, filtered: Vec<FrameTags>) -> Option<DecodedFrame> {
    Some(DecodedFrame { at: Some(secs(at)), filtered })
}

#[test]
fn a_new_detector_is_before_the_horizon_and_outside_a_run() {
    let d = PauseDetector::new(Medium::Audio, 3, base());
    assert_eq!(d.medium, Medium::Audio);
    assert_eq!(d.stream, 3);
    assert_eq!(d.time_base(), base());
    assert!(!d.is_at_end());
    assert!(!d.inside_pause);
    assert!(d.is_applicable_stream(3));
    assert!(!d.is_applicable_stream(2));
}

#[test]
fn the_disposition_tells_foreign_from_finished() {
    let mut d = PauseDetector::new(Medium::Video, 0, base());
    assert_eq!(d.disposition(0), Disposition::Applicable);
    assert_eq!(d.disposition(1), Disposition::NotApplicable);
    d.set_at_end();
    assert!(d.is_at_end());
    assert_eq!(d.disposition(0), Disposition::Finished);
    assert_eq!(d.disposition(1), Disposition::NotApplicable);
}

#[test]
fn a_frame_without_tags_is_no_event() {
    let mut d = PauseDetector::new(Medium::Audio, 0, base());
    assert_eq!(d.frame_matches(&plain(1)), Ok(PauseEvent::NoChange));
    assert!(!d.inside_pause);
    d.inside_pause = true;
    assert_eq!(d.frame_matches(&plain(2)), Ok(PauseEvent::NoChange));
    assert!(d.inside_pause);
    let bare = FrameTags { run_started: false, run_ended: false, at: None };
    assert_eq!(d.frame_matches(&bare), Ok(PauseEvent::NoChange));
}

#[test]
fn a_frame_with_both_tags_is_no_event() {
    let mut d = PauseDetector::new(Medium::Audio, 0, base());
    assert_eq!(d.frame_matches(&blip(1)), Ok(PauseEvent::NoChange));
    assert!(!d.inside_pause);
    d.inside_pause = true;
    assert_eq!(d.frame_matches(&blip(2)), Ok(PauseEvent::NoChange));
    assert!(d.inside_pause);
    let bare = FrameTags { run_started: true, run_ended: true, at: None };
    assert_eq!(d.frame_matches(&bare), Ok(PauseEvent::NoChange));
}

#[test]
fn a_start_tag_opens_a_run_and_an_end_tag_closes_it() {
    let mut d = PauseDetector::new(Medium::Video, 0, base());
    assert_eq!(d.frame_matches(&started(4)), Ok(PauseEvent::Start(secs(4))));
    assert!(d.inside_pause);
    assert_eq!(d.frame_matches(&ended(7)), Ok(PauseEvent::End(secs(7))));
    assert!(!d.inside_pause);
}

#[test]
fn a_start_tag_inside_a_run_is_a_violation() {
    let mut d = PauseDetector::new(Medium::Audio, 0, base());
    d.frame_matches(&started(4)).unwrap();
    let before = d;
    assert_eq!(d.frame_matches(&started(5)), Err(Violation::StartWhilePaused(Medium::Audio)));
    assert_eq!(d, before);
}

#[test]
fn an_end_tag_outside_a_run_is_a_violation() {
    let mut d = PauseDetector::new(Medium::Video, 0, base());
    let before = d;
    assert_eq!(d.frame_matches(&ended(5)), Err(Violation::EndWhileNotPaused(Medium::Video)));
    assert_eq!(d, before);
}

#[test]
fn a_boundary_without_a_timestamp_is_a_violation() {
    let mut d = PauseDetector::new(Medium::Audio, 0, base());
    let start = FrameTags { run_started: true, run_ended: false, at: None };
    assert_eq!(d.frame_matches(&start), Err(Violation::MissingTimestamp(Medium::Audio)));
    assert!(!d.inside_pause);
    d.inside_pause = true;
    let end = FrameTags { run_started: false, run_ended: true, at: None };
    assert_eq!(d.frame_matches(&end), Err(Violation::MissingTimestamp(Medium::Audio)));
    assert!(d.inside_pause);
}

#[test]
fn a_tag_out_of_step_counts_before_a_missing_timestamp() {
    let mut d = PauseDetector::new(Medium::Video, 0, base());
    let end = FrameTags { run_started: false, run_ended: true, at: None };
    assert_eq!(d.frame_matches(&end), Err(Violation::EndWhileNotPaused(Medium::Video)));
    d.inside_pause = true;
    let start = FrameTags { run_started: true, run_ended: false, at: None };
    assert_eq!(d.frame_matches(&start), Err(Violation::StartWhilePaused(Medium::Video)));
}

#[test]
fn a_timestamp_at_the_horizon_ends_the_stream() {
    let mut d = PauseDetector::new(Medium::Audio, 0, base());
    d.note_decoded(Some(Duration::from_millis(9_999)), secs(10));
    assert!(!d.is_at_end());
    d.note_decoded(None, secs(10));
    assert!(!d.is_at_end());
    d.note_decoded(Some(secs(10)), secs(10));
    assert!(d.is_at_end());
    d.note_decoded(Some(secs(1)), secs(10));
    assert!(d.is_at_end());
}

#[test]
fn a_packet_of_another_stream_changes_nothing() {
    let mut d = PauseDetector::new(Medium::Audio, 0, base());
    d.inside_pause = true;
    let before = d;
    let r = d.detected_pauses_from_packet(1, &decoded(700, vec![ended(700)]), secs(600));
    assert_eq!(r, Ok((Disposition::NotApplicable, vec![])));
    assert_eq!(d, before);
    assert!(d.inside_pause);
    assert!(!d.is_at_end());
}

#[test]
fn a_packet_past_the_horizon_finds_the_detector_finished() {
    let mut d = PauseDetector::new(Medium::Video, 0, base());
    d.set_at_end();
    let before = d;
    let packet = decoded(700, vec![started(700)]);
    for _ in 0..2 {
        let r = d.detected_pauses_from_packet(0, &packet, secs(600));
        assert_eq!(r, Ok((Disposition::Finished, vec![])));
        assert_eq!(d, before);
    }
}

#[test]
fn a_packet_without_a_frame_gives_no_event() {
    let mut d = PauseDetector::new(Medium::Audio, 0, base());
    let before = d;
    let r = d.detected_pauses_from_packet(0, &None, secs(600));
    assert_eq!(r, Ok((Disposition::Applicable, vec![])));
    assert_eq!(d, before);
}

#[test]
fn one_packet_may_give_many_events() {
    let mut d = PauseDetector::new(Medium::Audio, 0, base());
    let packet = decoded(3, vec![plain(1), started(2), blip(3), ended(4), started(5)]);
    let r = d.detected_pauses_from_packet(0, &packet, secs(600));
    assert_eq!(
        r,
        Ok((
            Disposition::Applicable,
            vec![
                PauseEvent::NoChange,
                PauseEvent::Start(secs(2)),
                PauseEvent::NoChange,
                PauseEvent::End(secs(4)),
                PauseEvent::Start(secs(5)),
            ]
        ))
    );
    assert!(d.inside_pause);
    assert!(!d.is_at_end());
}

#[test]
fn a_filter_that_holds_its_frames_back_gives_no_event() {
    let mut d = PauseDetector::new(Medium::Video, 0, base());
    let r = d.detected_pauses_from_packet(0, &decoded(3, vec![]), secs(600));
    assert_eq!(r, Ok((Disposition::Applicable, vec![])));
}

#[test]
fn the_packet_that_crosses_the_horizon_is_still_worked_on() {
    let mut d = PauseDetector::new(Medium::Video, 0, base());
    let r = d.detected_pauses_from_packet(0, &decoded(600, vec![started(600)]), secs(600));
    assert_eq!(r, Ok((Disposition::Applicable, vec![PauseEvent::Start(secs(600))])));
    assert!(d.is_at_end());
    assert!(d.inside_pause);
}

#[test]
fn a_violation_stops_the_frames_of_a_packet() {
    let mut d = PauseDetector::new(Medium::Audio, 0, base());
    let packet = decoded(700, vec![started(1), started(2), ended(3)]);
    let r = d.detected_pauses_from_packet(0, &packet, secs(600));
    assert_eq!(r, Err(Violation::StartWhilePaused(Medium::Audio)));
    assert!(d.inside_pause);
    assert!(d.is_at_end());
}
