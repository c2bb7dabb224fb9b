//! The ways in which the signals of the decode and filter engine can break the
//! rules that the scan relies on.

use crate::event::Medium;
use vstd::prelude::*;

verus! {

/// A broken rule of the pause protocol. Each one is fatal for the scan of the
/// file in which it occurs, and for that scan only.
#[derive(Debug, Clone, Copy, PartialEq, Eq, Structural)]
pub enum Violation {
    /// A run began on a medium that was already inside a run.
    StartWhilePaused(Medium),
    /// A run ended on a medium that was inside no run.
    EndWhileNotPaused(Medium),
    /// A frame marks a run boundary and carries no timestamp.
    MissingTimestamp(Medium),
    /// A run that overlapped one of the other medium ended before it began.
    EndBeforeStart(Medium),
}

impl Violation {
    /// The medium whose signal broke the rule.
    pub open spec fn culprit(self) -> Medium {
        match self {
            Violation::StartWhilePaused(m) => m,
            Violation::EndWhileNotPaused(m) => m,
            Violation::MissingTimestamp(m) => m,
            Violation::EndBeforeStart(m) => m,
        }
    }

    /// The medium whose signal broke the rule.
    pub fn medium(&self) -> (m: Medium)
        ensures
            m == self.culprit(),
    {
        match self {
            Violation::StartWhilePaused(m) => *m,
            Violation::EndWhileNotPaused(m) => *m,
            Violation::MissingTimestamp(m) => *m,
            Violation::EndBeforeStart(m) => *m,
        }
    }
}

} // verus!
