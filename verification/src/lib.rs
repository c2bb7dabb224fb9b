//! Finds the moments in a recording where the sound track is silent while the
//! picture is blank, by correlating the pause signals of the two media.
//!
//! The engine that decodes and filters the recording is not part of the
//! library. It hands over, packet by packet, the timestamps and run tags of
//! its frames; the library turns them into pause events ([`detector`]), merges
//! the events of the two media into candidates ([`correlate`]), tracks how far
//! each stream has been read ([`completion`]) and drives the scan as a whole
//! ([`driver`]). What the scan reports is stated in terms of the signals alone
//! in [`overlap`], and what holds in each of its states in [`agreement`].
//! [`chapter`] turns candidates into chapter markers, and [`engine`] says how
//! the filter graphs are set up.

pub mod agreement;
pub mod candidate;
pub mod chapter;
pub mod completion;
pub mod correlate;
pub mod detector;
pub mod driver;
pub mod engine;
pub mod event;
pub mod overlap;
pub mod text;
pub mod time;
pub mod violation;
