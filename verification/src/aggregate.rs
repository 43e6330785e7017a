//! The outcome aggregator: terminal states become a fleet-wide summary, and
//! the summary becomes a process exit status.

use vstd::prelude::*;
use crate::executor::Executor;
use crate::goal::DeploymentGoal;
use crate::state::{FailureCause, Phase, TaskState};
use crate::tally::{
    count_failed, count_succeeded, lemma_failed_take_succ, lemma_succeeded_take_succ,
    lemma_take_full, lemma_terminal_counts_bounded,
};
use crate::task::DeploymentTask;

verus! {

/// How a task ended.
#[derive(Clone, Copy, Debug, PartialEq, Eq, Structural)]
pub enum TaskResult {
    Success,
    Failure(FailureCause),
}

/// The terminal record of one task: its name, the furthest phase it entered,
/// and how it ended.
#[derive(Debug)]
pub struct TaskOutcome {
    pub name: String,
    pub phase_reached: Phase,
    pub result: TaskResult,
}

/// Fleet-wide aggregate: counts, plus one record per failed task.
#[derive(Debug)]
pub struct FleetSummary {
    pub attempted: usize,
    pub succeeded: usize,
    pub failed: usize,
    pub skipped: usize,
    pub failures: Vec<TaskOutcome>,
}

/// The phase in which a failure of this cause occurs.
pub open spec fn spec_phase_of_cause(c: FailureCause) -> Phase {
    match c {
        FailureCause::TransferError => Phase::Transfer,
        FailureCause::ActivationError => Phase::Activation,
    }
}

pub fn phase_of_cause(c: &FailureCause) -> (r: Phase)
    ensures
        r == spec_phase_of_cause(*c),
{
    match c {
        FailureCause::TransferError => Phase::Transfer,
        FailureCause::ActivationError => Phase::Activation,
    }
}

/// The failure records a state vector yields: one per failed task, in task
/// order, naming the task and the phase its cause belongs to.
pub open spec fn spec_failures(tasks: Seq<DeploymentTask>, states: Seq<TaskState>) -> Seq<
    TaskOutcome,
>
    decreases states.len(),
{
    if states.len() == 0 || tasks.len() != states.len() {
        Seq::empty()
    } else {
        let rest = spec_failures(tasks.drop_last(), states.drop_last());
        match states.last() {
            TaskState::Failed(c) => rest.push(
                TaskOutcome {
                    name: tasks.last().name,
                    phase_reached: spec_phase_of_cause(c),
                    result: TaskResult::Failure(c),
                },
            ),
            _ => rest,
        }
    }
}

proof fn lemma_failures_take_succ(tasks: Seq<DeploymentTask>, states: Seq<TaskState>, i: int)
    requires
        tasks.len() == states.len(),
        0 <= i < states.len(),
    ensures
        states[i] is Failed ==> spec_failures(tasks.take(i + 1), states.take(i + 1))
            == spec_failures(tasks.take(i), states.take(i)).push(
            TaskOutcome {
                name: tasks[i].name,
                phase_reached: spec_phase_of_cause(states[i]->Failed_0),
                result: TaskResult::Failure(states[i]->Failed_0),
            },
        ),
        !(states[i] is Failed) ==> spec_failures(tasks.take(i + 1), states.take(i + 1))
            == spec_failures(tasks.take(i), states.take(i)),
{
    assert(tasks.take(i + 1).drop_last() =~= tasks.take(i));
    assert(states.take(i + 1).drop_last() =~= states.take(i));
    assert(states.take(i + 1).last() == states[i]);
    assert(tasks.take(i + 1).last() == tasks[i]);
}

/// The phase a succeeded task reached: for a copy-only goal the transfer was
/// all there was; every other goal succeeded in activation.
pub open spec fn spec_phase_of_success(goal: DeploymentGoal) -> Phase {
    if goal.spec_requires_activation() {
        Phase::Activation
    } else {
        Phase::Transfer
    }
}

/// The terminal record of one task, if it has reached a terminal state.
pub open spec fn spec_outcome(task: DeploymentTask, state: TaskState) -> Option<TaskOutcome> {
    match state {
        TaskState::Succeeded => Some(
            TaskOutcome {
                name: task.name,
                phase_reached: spec_phase_of_success(task.goal),
                result: TaskResult::Success,
            },
        ),
        TaskState::Failed(c) => Some(
            TaskOutcome {
                name: task.name,
                phase_reached: spec_phase_of_cause(c),
                result: TaskResult::Failure(c),
            },
        ),
        _ => None,
    }
}

/// Every terminal record a state vector yields, in task order.
pub open spec fn spec_outcomes(tasks: Seq<DeploymentTask>, states: Seq<TaskState>) -> Seq<
    TaskOutcome,
>
    decreases states.len(),
{
    if states.len() == 0 || tasks.len() != states.len() {
        Seq::empty()
    } else {
        let rest = spec_outcomes(tasks.drop_last(), states.drop_last());
        match spec_outcome(tasks.last(), states.last()) {
            Some(o) => rest.push(o),
            None => rest,
        }
    }
}

proof fn lemma_outcomes_take_succ(tasks: Seq<DeploymentTask>, states: Seq<TaskState>, i: int)
    requires
        tasks.len() == states.len(),
        0 <= i < states.len(),
    ensures
        spec_outcome(tasks[i], states[i]) is Some ==> spec_outcomes(
            tasks.take(i + 1),
            states.take(i + 1),
        ) == spec_outcomes(tasks.take(i), states.take(i)).push(
            spec_outcome(tasks[i], states[i]).unwrap(),
        ),
        spec_outcome(tasks[i], states[i]) is None ==> spec_outcomes(
            tasks.take(i + 1),
            states.take(i + 1),
        ) == spec_outcomes(tasks.take(i), states.take(i)),
{
    assert(tasks.take(i + 1).drop_last() =~= tasks.take(i));
    assert(states.take(i + 1).drop_last() =~= states.take(i));
    assert(states.take(i + 1).last() == states[i]);
    assert(tasks.take(i + 1).last() == tasks[i]);
}

/// One terminal record per task that has reached a terminal state, in task
/// order: the per-host view behind the summary's counts.
pub fn outcomes(ex: &Executor) -> (r: Vec<TaskOutcome>)
    requires
        ex.wf(),
    ensures
        r@ == spec_outcomes(ex.tasks@, ex.states@),
{
    let n = ex.states.len();
    let mut collected: Vec<TaskOutcome> = Vec::new();
    let mut i: usize = 0;
    while i < n
        invariant
            ex.wf(),
            n == ex.states@.len(),
            i <= n,
            collected@ == spec_outcomes(ex.tasks@.take(i as int), ex.states@.take(i as int)),
        decreases n - i,
    {
        proof {
            lemma_outcomes_take_succ(ex.tasks@, ex.states@, i as int);
        }
        let st = ex.states[i];
        match st {
            TaskState::Succeeded => {
                let phase = if ex.tasks[i].goal.requires_activation() {
                    Phase::Activation
                } else {
                    Phase::Transfer
                };
                collected.push(
                    TaskOutcome {
                        name: ex.tasks[i].name.clone(),
                        phase_reached: phase,
                        result: TaskResult::Success,
                    },
                );
            },
            TaskState::Failed(c) => {
                collected.push(
                    TaskOutcome {
                        name: ex.tasks[i].name.clone(),
                        phase_reached: phase_of_cause(&c),
                        result: TaskResult::Failure(c),
                    },
                );
            },
            _ => {},
        }
        i += 1;
    }
    proof {
        lemma_take_full(ex.states@);
        lemma_take_full(ex.tasks@);
    }
    collected
}

/// Collects every terminal state into the fleet summary. The skip count is
/// handed in by whoever holds the skip set; the executor never sees it.
pub fn summarize(ex: &Executor, skipped: usize) -> (r: FleetSummary)
    requires
        ex.wf(),
    ensures
        r.succeeded as int == count_succeeded(ex.states@),
        r.failed as int == count_failed(ex.states@),
        r.attempted == r.succeeded + r.failed,
        r.skipped == skipped,
        r.failures@ == spec_failures(ex.tasks@, ex.states@),
{
    let n = ex.states.len();
    let mut succeeded: usize = 0;
    let mut failed: usize = 0;
    let mut failures: Vec<TaskOutcome> = Vec::new();
    let mut i: usize = 0;
    while i < n
        invariant
            ex.wf(),
            n == ex.states@.len(),
            i <= n,
            succeeded as int == count_succeeded(ex.states@.take(i as int)),
            failed as int == count_failed(ex.states@.take(i as int)),
            failures@ == spec_failures(ex.tasks@.take(i as int), ex.states@.take(i as int)),
        decreases n - i,
    {
        proof {
            lemma_terminal_counts_bounded(ex.states@.take(i as int));
            lemma_succeeded_take_succ(ex.states@, i as int);
            lemma_failed_take_succ(ex.states@, i as int);
            lemma_failures_take_succ(ex.tasks@, ex.states@, i as int);
        }
        let st = ex.states[i];
        match st {
            TaskState::Succeeded => {
                succeeded += 1;
            },
            TaskState::Failed(c) => {
                failed += 1;
                failures.push(
                    TaskOutcome {
                        name: ex.tasks[i].name.clone(),
                        phase_reached: phase_of_cause(&c),
                        result: TaskResult::Failure(c),
                    },
                );
            },
            _ => {},
        }
        i += 1;
    }
    proof {
        lemma_take_full(ex.states@);
        lemma_take_full(ex.tasks@);
        lemma_terminal_counts_bounded(ex.states@);
    }
    let attempted = succeeded + failed;
    FleetSummary { attempted, succeeded, failed, skipped, failures }
}

/// The process exit status as a pure function of the run's outcome, computed
/// once at the outermost layer.
///
/// An empty initial selection is fatal on its own, with a status of its own,
/// before anything is scheduled. Otherwise the status is zero exactly when
/// something was attempted and every attempted task succeeded. Skipped hosts
/// are reported but, as a stated policy, do not by themselves fail the run.
pub open spec fn spec_exit_status(selection_empty: bool, attempted: int, failed: int) -> int {
    if selection_empty {
        2
    } else if attempted > 0 && failed == 0 {
        0
    } else {
        1
    }
}

pub fn exit_status(selection_empty: bool, summary: &FleetSummary) -> (r: i32)
    ensures
        r as int == spec_exit_status(
            selection_empty,
            summary.attempted as int,
            summary.failed as int,
        ),
        r == 0 <==> (!selection_empty && summary.attempted > 0 && summary.failed == 0),
{
    if selection_empty {
        2
    } else if summary.attempted > 0 && summary.failed == 0 {
        0
    } else {
        1
    }
}

} // verus!
