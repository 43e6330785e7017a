//! The progress reporter's aggregate indicator: running counts of in-flight,
//! succeeded and failed tasks, fed by the executor's state transitions.
//! Purely observational — it never gates execution.

use vstd::prelude::*;
use crate::state::TaskState;

verus! {

/// The compact aggregate indicator shown when verbose output is off.
#[derive(Clone, Copy, Debug, PartialEq, Eq, Structural)]
pub struct ProgressStats {
    pub in_flight: usize,
    pub succeeded: usize,
    pub failed: usize,
}

impl ProgressStats {
    pub fn new() -> (r: Self)
        ensures
            r == (ProgressStats { in_flight: 0, succeeded: 0, failed: 0 }),
    {
        ProgressStats { in_flight: 0, succeeded: 0, failed: 0 }
    }

    /// Folds one transition into the counts: entering a remote phase raises
    /// the in-flight count, leaving one lowers it, and a terminal state
    /// raises its own tally.
    pub fn record_transition(&mut self, from: &TaskState, to: &TaskState)
        requires
            to.spec_is_active() && !from.spec_is_active() ==> old(self).in_flight < usize::MAX,
            from.spec_is_active() && !to.spec_is_active() ==> old(self).in_flight > 0,
            *to == TaskState::Succeeded ==> old(self).succeeded < usize::MAX,
            *to is Failed ==> old(self).failed < usize::MAX,
        ensures
            final(self).in_flight == old(self).in_flight + (if to.spec_is_active()
                && !from.spec_is_active() {
                1int
            } else {
                0int
            }) - (if from.spec_is_active() && !to.spec_is_active() {
                1int
            } else {
                0int
            }),
            final(self).succeeded == old(self).succeeded + (if *to == TaskState::Succeeded {
                1int
            } else {
                0int
            }),
            final(self).failed == old(self).failed + (if *to is Failed {
                1int
            } else {
                0int
            }),
    {
        let from_active = from.is_active();
        let to_active = to.is_active();
        if to_active && !from_active {
            self.in_flight += 1;
        }
        if from_active && !to_active {
            self.in_flight -= 1;
        }
        match to {
            TaskState::Succeeded => {
                self.succeeded += 1;
            },
            TaskState::Failed(_) => {
                self.failed += 1;
            },
            _ => {},
        }
    }
}

/// The human-readable label of a state, for one-line-per-transition verbose
/// output.
pub fn state_label(s: &TaskState) -> (r: &'static str)
    ensures
        *s == TaskState::Queued ==> r@ == "queued"@,
        *s == TaskState::Transferring ==> r@ == "transferring"@,
        *s == TaskState::Activating ==> r@ == "activating"@,
        *s == TaskState::Succeeded ==> r@ == "succeeded"@,
        *s is Failed ==> r@ == "failed"@,
{
    match s {
        TaskState::Queued => "queued",
        TaskState::Transferring => "transferring",
        TaskState::Activating => "activating",
        TaskState::Succeeded => "succeeded",
        TaskState::Failed(_) => "failed",
    }
}

} // verus!
