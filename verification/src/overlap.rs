//! What the correlator reports, said in terms of the signals alone.
//!
//! The correlator keeps a state; the laws below show that this state is
//! nothing but a summary of the runs that the signals opened and closed, and
//! that a candidate is reported exactly where two runs overlap and the closed
//! one is long enough.

use crate::candidate::Interval;
use crate::correlate::{correlate, later, replay, Outcome, Pauses, Tagged};
use crate::event::{Medium, Signal};
use vstd::prelude::*;

verus! {

/// Since when `medium` is inside a run after the signals of `feed`, going by
/// its own signals alone: the time of its last run boundary, where that
/// boundary is a start.
pub open spec fn paused_since(feed: Seq<Tagged>, medium: Medium) -> Option<nat>
    decreases feed.len(),
{
    if feed.len() == 0 {
        None
    } else if feed.last().medium == medium {
        match feed.last().signal {
            Signal::Start(at) => Some(at),
            Signal::End(_) => None,
            Signal::NoChange => paused_since(feed.drop_last(), medium),
        }
    } else {
        paused_since(feed.drop_last(), medium)
    }
}

/// The candidate that `next` closes after the signals of `feed`, with `None`
/// where it closes none or breaks the protocol.
pub open spec fn closed_by(feed: Seq<Tagged>, next: Tagged, threshold: nat) -> Option<Interval> {
    match correlate(
        replay(Pauses::idle(), feed, threshold).pauses,
        next.medium,
        next.signal,
        threshold,
    ) {
        Ok(outcome) => outcome.emitted,
        Err(_) => None,
    }
}

/// After signals that kept to the protocol, the correlator records a medium
/// as paused exactly when the last run boundary of that medium is a start,
/// and since the time of that start.
pub proof fn lemma_state_tracks_runs(feed: Seq<Tagged>, threshold: nat)
    requires
        replay(Pauses::idle(), feed, threshold).violation is None,
    ensures
        replay(Pauses::idle(), feed, threshold).pauses == (Pauses {
            audio: paused_since(feed, Medium::Audio),
            video: paused_since(feed, Medium::Video),
        }),
    decreases feed.len(),
{
    if feed.len() > 0 {
        lemma_state_tracks_runs(feed.drop_last(), threshold);
    }
}

/// A candidate is reported if and only if both media are inside a run when a
/// run ends, and the run that ends is strictly longer than the threshold. The
/// candidate begins at the later of the two starts and has the length of the
/// run that ended.
pub proof fn lemma_candidate_iff_overlap(feed: Seq<Tagged>, next: Tagged, threshold: nat)
    requires
        replay(Pauses::idle(), feed, threshold).violation is None,
    ensures
        closed_by(feed, next, threshold) is Some <==> {
            &&& paused_since(feed, Medium::Audio) is Some
            &&& paused_since(feed, Medium::Video) is Some
            &&& next.signal matches Signal::End(at)
            &&& at - paused_since(feed, next.medium).unwrap() > threshold
        },
        closed_by(feed, next, threshold) matches Some(interval) ==> {
            &&& next.signal matches Signal::End(at)
            &&& interval.offset == later(
                paused_since(feed, Medium::Audio).unwrap(),
                paused_since(feed, Medium::Video).unwrap(),
            )
            &&& interval.length == at - paused_since(feed, next.medium).unwrap()
        },
{
    lemma_state_tracks_runs(feed, threshold);
}

/// Whether the signal at `index` of `feed` ends a run while both media are
/// inside one, and the run that ends is strictly longer than `threshold`.
pub open spec fn overlap_closes_at(feed: Seq<Tagged>, index: int, threshold: nat) -> bool {
    &&& 0 <= index < feed.len()
    &&& paused_since(feed.take(index), Medium::Audio) is Some
    &&& paused_since(feed.take(index), Medium::Video) is Some
    &&& feed[index].signal matches Signal::End(at)
    &&& at - paused_since(feed.take(index), feed[index].medium).unwrap() > threshold
}

/// Signals that keep to the protocol give a candidate if and only if, at some
/// point among them, a run longer than the threshold ends while both media
/// are inside a run.
pub proof fn lemma_some_candidate_iff_some_overlap(feed: Seq<Tagged>, threshold: nat)
    requires
        replay(Pauses::idle(), feed, threshold).violation is None,
    ensures
        replay(Pauses::idle(), feed, threshold).emitted.len() > 0 <==> exists|index: int|
            overlap_closes_at(feed, index, threshold),
    decreases feed.len(),
{
    if feed.len() > 0 {
        let head = feed.drop_last();
        let last = feed.len() - 1;
        assert(feed.take(last) =~= head);
        lemma_some_candidate_iff_some_overlap(head, threshold);
        lemma_candidate_iff_overlap(head, feed.last(), threshold);
        assert forall|index: int| 0 <= index < last implies overlap_closes_at(
            head,
            index,
            threshold,
        ) == overlap_closes_at(feed, index, threshold) by {
            assert(head.take(index) =~= feed.take(index));
        }
        if replay(Pauses::idle(), feed, threshold).emitted.len() > 0 {
            if replay(Pauses::idle(), head, threshold).emitted.len() > 0 {
                let index = choose|index: int| overlap_closes_at(head, index, threshold);
                assert(overlap_closes_at(feed, index, threshold));
            } else {
                assert(overlap_closes_at(feed, last, threshold));
            }
        }
        if exists|index: int| overlap_closes_at(feed, index, threshold) {
            let index = choose|index: int| overlap_closes_at(feed, index, threshold);
            if index < last {
                assert(overlap_closes_at(head, index, threshold));
            }
        }
    }
}

/// Every candidate of a run of signals is strictly longer than the
/// threshold.
pub proof fn lemma_candidates_exceed_threshold(start: Pauses, feed: Seq<Tagged>, threshold: nat)
    ensures
        forall|k: int|
            0 <= k < replay(start, feed, threshold).emitted.len() ==> (#[trigger] replay(
                start,
                feed,
                threshold,
            ).emitted[k]).length > threshold,
    decreases feed.len(),
{
    if feed.len() > 0 {
        lemma_candidates_exceed_threshold(start, feed.drop_last(), threshold);
    }
}

/// The threshold is strict: a run that overlaps one of the other medium and
/// lasts exactly as long as the threshold is no candidate, and one that
/// lasts a millisecond longer is.
pub proof fn lemma_threshold_is_strict(pauses: Pauses, medium: Medium, threshold: nat)
    requires
        pauses.overlapping(),
    ensures
        correlate(
            pauses,
            medium,
            Signal::End(pauses.since(medium).unwrap() + threshold),
            threshold,
        ) == Ok::<Outcome, crate::violation::Violation>(
            Outcome { pauses: pauses.with(medium, None), emitted: None },
        ),
        correlate(
            pauses,
            medium,
            Signal::End(pauses.since(medium).unwrap() + threshold + 1_000_000),
            threshold,
        ) == Ok::<Outcome, crate::violation::Violation>(
            Outcome {
                pauses: pauses.with(medium, None),
                emitted: Some(
                    Interval {
                        offset: later(
                            pauses.since(medium).unwrap(),
                            pauses.since(medium.counterpart()).unwrap(),
                        ),
                        length: threshold + 1_000_000,
                    },
                ),
            },
        ),
{
}

/// The candidate never begins before either of the two runs has begun.
pub proof fn lemma_offset_is_later_start(
    pauses: Pauses,
    medium: Medium,
    signal: Signal,
    threshold: nat,
)
    ensures
        correlate(pauses, medium, signal, threshold) matches Ok(outcome) ==> (
        outcome.emitted matches Some(interval) ==> {
            &&& pauses.audio matches Some(audio)
            &&& pauses.video matches Some(video)
            &&& interval.offset >= audio
            &&& interval.offset >= video
            &&& interval.offset == audio || interval.offset == video
        }),
{
}

} // verus!
