//! The per-task pipeline state machine.
//!
//! ```text
//! Queued --admission--> Transferring
//! Transferring --success, goal == Push--> Succeeded
//! Transferring --success, goal != Push--> Activating
//! Transferring --failure--> Failed(TransferError)
//! Activating --success--> Succeeded
//! Activating --failure--> Failed(ActivationError)
//! ```
//!
//! `Succeeded` and `Failed` are terminal. The activation phase exists only
//! for goals other than `Push`: the pipeline is shortened by the goal, not
//! by a retry path.

use vstd::prelude::*;
use crate::goal::DeploymentGoal;

verus! {

/// Why a task failed: each of the two remote phases can fail on its own.
#[derive(Clone, Copy, Debug, PartialEq, Eq, Structural)]
pub enum FailureCause {
    TransferError,
    ActivationError,
}

/// The furthest phase a task entered before reaching its terminal state.
#[derive(Clone, Copy, Debug, PartialEq, Eq, Structural)]
pub enum Phase {
    Transfer,
    Activation,
}

/// Where a task stands in its pipeline.
#[derive(Clone, Copy, Debug, PartialEq, Eq, Structural)]
pub enum TaskState {
    Queued,
    Transferring,
    Activating,
    Succeeded,
    Failed(FailureCause),
}

/// Completion of one remote phase, reported back by whoever performed the
/// blocking remote call; the payload says whether the phase succeeded.
#[derive(Clone, Copy, Debug, PartialEq, Eq, Structural)]
pub enum PipelineEvent {
    TransferFinished(bool),
    ActivationFinished(bool),
}

impl TaskState {
    /// A task in either remote phase occupies a worker slot.
    pub open spec fn spec_is_active(self) -> bool {
        self == TaskState::Transferring || self == TaskState::Activating
    }

    pub fn is_active(&self) -> (r: bool)
        ensures
            r == self.spec_is_active(),
    {
        match self {
            TaskState::Transferring => true,
            TaskState::Activating => true,
            _ => false,
        }
    }

    /// Terminal states are never left.
    pub open spec fn spec_is_terminal(self) -> bool {
        self == TaskState::Succeeded || self is Failed
    }

    pub fn is_terminal(&self) -> (r: bool)
        ensures
            r == self.spec_is_terminal(),
    {
        match self {
            TaskState::Succeeded => true,
            TaskState::Failed(_) => true,
            _ => false,
        }
    }
}

/// An event is deliverable only to the task phase it reports on.
pub open spec fn event_matches(s: TaskState, e: PipelineEvent) -> bool {
    match e {
        PipelineEvent::TransferFinished(_) => s == TaskState::Transferring,
        PipelineEvent::ActivationFinished(_) => s == TaskState::Activating,
    }
}

/// The single transition relation of the pipeline, as a function: the state
/// a task moves to when the given phase completion arrives.
pub open spec fn spec_step(goal: DeploymentGoal, s: TaskState, e: PipelineEvent) -> TaskState {
    match e {
        PipelineEvent::TransferFinished(ok) => {
            if ok {
                if goal.spec_requires_activation() {
                    TaskState::Activating
                } else {
                    TaskState::Succeeded
                }
            } else {
                TaskState::Failed(FailureCause::TransferError)
            }
        },
        PipelineEvent::ActivationFinished(ok) => {
            if ok {
                TaskState::Succeeded
            } else {
                TaskState::Failed(FailureCause::ActivationError)
            }
        },
    }
}

/// Advances one task's state by one phase completion.
pub fn step(goal: &DeploymentGoal, s: &TaskState, e: &PipelineEvent) -> (r: TaskState)
    requires
        event_matches(*s, *e),
    ensures
        r == spec_step(*goal, *s, *e),
{
    match e {
        PipelineEvent::TransferFinished(ok) => {
            if *ok {
                if goal.requires_activation() {
                    TaskState::Activating
                } else {
                    TaskState::Succeeded
                }
            } else {
                TaskState::Failed(FailureCause::TransferError)
            }
        },
        PipelineEvent::ActivationFinished(ok) => {
            if *ok {
                TaskState::Succeeded
            } else {
                TaskState::Failed(FailureCause::ActivationError)
            }
        },
    }
}

/// A task whose goal is `Push` never enters the activation phase: no step
/// from a non-activating state reaches `Activating` under that goal, so by
/// induction from `Queued` the phase is unreachable.
pub proof fn lemma_push_never_activates(s: TaskState, e: PipelineEvent)
    ensures
        spec_step(DeploymentGoal::Push, s, e) != TaskState::Activating,
{
}

/// The state a pipeline reaches after a whole sequence of phase completions.
pub open spec fn run_events(
    goal: DeploymentGoal,
    s: TaskState,
    events: Seq<PipelineEvent>,
) -> TaskState
    decreases events.len(),
{
    if events.len() == 0 {
        s
    } else {
        run_events(goal, spec_step(goal, s, events.first()), events.drop_first())
    }
}

/// Under a copy-only goal the activation phase is unreachable outright: no
/// event sequence carries a `Push` task into `Activating`, from any state
/// short of it — in particular from `Queued`. Applied to every prefix of a
/// run's events, the task is at no instant in the activation phase.
pub proof fn lemma_push_trace_never_activates(s: TaskState, events: Seq<PipelineEvent>)
    requires
        s != TaskState::Activating,
    ensures
        run_events(DeploymentGoal::Push, s, events) != TaskState::Activating,
    decreases events.len(),
{
    if events.len() > 0 {
        lemma_push_never_activates(s, events.first());
        lemma_push_trace_never_activates(
            spec_step(DeploymentGoal::Push, s, events.first()),
            events.drop_first(),
        );
    }
}

/// For every goal that carries an activation phase, a step out of the
/// transfer phase enters `Activating` exactly when the transfer succeeded.
pub proof fn lemma_activation_iff_transfer_succeeded(goal: DeploymentGoal, ok: bool)
    requires
        goal.spec_requires_activation(),
    ensures
        spec_step(goal, TaskState::Transferring, PipelineEvent::TransferFinished(ok))
            == TaskState::Activating <==> ok,
{
}

/// A dispatched task never returns to the queue, and the only step that
/// stays in a remote phase is the transfer handing over to activation: every
/// pipeline is finite and ends in exactly one terminal outcome.
pub proof fn lemma_step_from_active(goal: DeploymentGoal, s: TaskState, e: PipelineEvent)
    requires
        event_matches(s, e),
    ensures
        spec_step(goal, s, e).spec_is_active() ==> (
            s == TaskState::Transferring && spec_step(goal, s, e) == TaskState::Activating
        ),
        spec_step(goal, s, e) != TaskState::Queued,
{
}

} // verus!
