//! What the library knows about `std::time::Duration`.
//!
//! A duration is opaque to the verifier. Contracts speak of it through
//! [`nanos_of`], the whole duration counted in nanoseconds.

use std::time::Duration;
use vstd::prelude::*;

verus! {

/// The total number of nanoseconds that a duration holds: the value that
/// `Duration::as_nanos` returns for it.
pub uninterp spec fn nanos_of(d: Duration) -> nat;

/// `Duration::as_nanos`: the total number of nanoseconds of the duration.
/// Nothing is proved of it; it gives [`nanos_of`] its meaning.
pub assume_specification[ Duration::as_nanos ](d: &Duration) -> (n: u128)
    ensures
        n == nanos_of(*d),
;

/// `Duration::checked_sub`: the difference of the two durations, or `None`
/// where the right-hand side is the longer one. Nothing is proved of it.
pub assume_specification[ Duration::checked_sub ](d: Duration, rhs: Duration) -> (r: Option<
    Duration,
>)
    ensures
        r is Some <==> nanos_of(d) >= nanos_of(rhs),
        r matches Some(diff) ==> nanos_of(diff) == nanos_of(d) - nanos_of(rhs),
;

/// `Duration::from_secs`: the duration of that many whole seconds. Nothing is
/// proved of it.
pub assume_specification[ Duration::from_secs ](secs: u64) -> (d: Duration)
    ensures
        nanos_of(d) == secs * 1_000_000_000,
;

/// The text that `humantime::format_duration` gives for a duration of that
/// many nanoseconds, such as `2h 37m` or `32ms`.
pub uninterp spec fn humane_text(nanos: nat) -> Seq<char>;

/// `humantime::format_duration`, written out as a string: the duration in
/// words that a reader takes in at a glance. Nothing is proved of it; the
/// text depends on the length of the duration alone.
#[verifier::external_body]
pub(crate) fn humane(d: Duration) -> (text: String)
    ensures
        text@ == humane_text(nanos_of(d)),
{
    humantime::format_duration(d).to_string()
}

/// Whether `a` is strictly longer than `b`.
pub fn longer(a: Duration, b: Duration) -> (r: bool)
    ensures
        r == (nanos_of(a) > nanos_of(b)),
{
    a.as_nanos() > b.as_nanos()
}

/// The later of two durations.
pub fn later_of(a: Duration, b: Duration) -> (r: Duration)
    ensures
        r == (if nanos_of(a) >= nanos_of(b) {
            a
        } else {
            b
        }),
{
    if a.as_nanos() >= b.as_nanos() {
        a
    } else {
        b
    }
}

} // verus!
