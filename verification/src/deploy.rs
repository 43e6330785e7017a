//! Driving a whole task set to completion against a remote host capability
//! whose responses are known in advance (a deterministic scripted stub).
//!
//! The real run is event-driven: an outer loop performs the blocking remote
//! calls and feeds completions back into the `Executor`. With a scripted
//! capability the same loop can run to the end inside the library, which
//! pins down the terminal state of every task, the calls made on the
//! capability, and the resulting summary as functions of the inputs alone.

use vstd::prelude::*;
use crate::aggregate::{spec_failures, summarize, FleetSummary};
use crate::error::ConstructionError;
use crate::executor::Executor;
use crate::goal::DeploymentGoal;
use crate::state::{FailureCause, PipelineEvent, TaskState};
use crate::tally::{count_failed, count_succeeded, lemma_active_zero};
use crate::task::{names_unique, DeploymentTask};

verus! {

/// What the scripted capability will answer for one task: whether the
/// transfer succeeds, and whether the activation succeeds if it is invoked.
#[derive(Clone, Copy, Debug, PartialEq, Eq, Structural)]
pub struct ScriptedOutcome {
    pub transfer_ok: bool,
    pub activation_ok: bool,
}

/// Which capability operations a task's pipeline invoked.
#[derive(Clone, Copy, Debug, PartialEq, Eq, Structural)]
pub struct CapabilityCalls {
    pub transfer_invoked: bool,
    pub activation_invoked: bool,
}

/// The terminal state a task reaches against a scripted capability: a
/// failed transfer is terminal; a copy-only goal succeeds on transfer alone;
/// otherwise the activation answer decides.
pub open spec fn spec_final_state(goal: DeploymentGoal, b: ScriptedOutcome) -> TaskState {
    if !b.transfer_ok {
        TaskState::Failed(FailureCause::TransferError)
    } else if !goal.spec_requires_activation() {
        TaskState::Succeeded
    } else if b.activation_ok {
        TaskState::Succeeded
    } else {
        TaskState::Failed(FailureCause::ActivationError)
    }
}

/// Each task's terminal state depends on its own goal and its own script
/// entry alone.
pub open spec fn spec_final_states(
    tasks: Seq<DeploymentTask>,
    script: Seq<ScriptedOutcome>,
) -> Seq<TaskState> {
    Seq::new(tasks.len(), |i: int| spec_final_state(tasks[i].goal, script[i]))
}

/// What a summary of a scripted run must contain.
pub open spec fn summary_matches(
    s: FleetSummary,
    tasks: Seq<DeploymentTask>,
    script: Seq<ScriptedOutcome>,
    skipped: usize,
) -> bool {
    let fs = spec_final_states(tasks, script);
    &&& s.succeeded as int == count_succeeded(fs)
    &&& s.failed as int == count_failed(fs)
    &&& s.attempted == s.succeeded + s.failed
    &&& s.skipped == skipped
    &&& s.failures@ == spec_failures(tasks, fs)
}

/// Runs every task to its terminal state against the scripted capability,
/// under the given concurrency ceiling, and aggregates the summary. Fails
/// only on duplicate task names. The per-task call records show that the
/// transfer is always invoked, and the activation is invoked exactly when
/// the goal carries an activation phase and the transfer succeeded — in
/// particular, never for a copy-only goal.
pub fn run_scripted(
    tasks: Vec<DeploymentTask>,
    limit: Option<usize>,
    script: &Vec<ScriptedOutcome>,
    skipped: usize,
) -> (r: Result<(FleetSummary, Vec<CapabilityCalls>), ConstructionError>)
    requires
        script@.len() == tasks@.len(),
        limit is Some ==> limit.unwrap() >= 1,
    ensures
        r is Ok <==> names_unique(tasks@),
        match r {
            Ok(out) => {
                &&& summary_matches(out.0, tasks@, script@, skipped)
                &&& out.1@.len() == tasks@.len()
                &&& (forall|i: int|
                    0 <= i < tasks@.len() ==> (#[trigger] out.1@[i]).transfer_invoked)
                &&& (forall|i: int|
                    0 <= i < tasks@.len() ==> ((#[trigger] out.1@[i]).activation_invoked <==> (
                    tasks@[i].goal.spec_requires_activation() && script@[i].transfer_ok)))
            },
            Err(e) => e == ConstructionError::DuplicateTaskName,
        },
{
    let ghost tseq = tasks@;
    let mut ex = match Executor::new(tasks, limit) {
        Ok(ex) => ex,
        Err(e) => {
            return Err(e);
        },
    };
    let n = ex.task_count();
    let mut calls: Vec<CapabilityCalls> = Vec::new();
    let mut k: usize = 0;
    while k < n
        invariant
            ex.wf(),
            ex.tasks@ == tseq,
            ex.limit == limit,
            !ex.cancelled,
            n == tseq.len(),
            ex.states@.len() == n,
            script@.len() == n,
            limit is Some ==> limit.unwrap() >= 1,
            k <= n,
            calls@.len() == k,
            forall|j: int|
                0 <= j < k ==> #[trigger] ex.states@[j] == spec_final_state(
                    tseq[j].goal,
                    script@[j],
                ),
            forall|j: int| k <= j < n ==> ex.states@[j] == TaskState::Queued,
            forall|j: int|
                0 <= j < k ==> #[trigger] calls@[j] == (CapabilityCalls {
                    transfer_invoked: true,
                    activation_invoked: tseq[j].goal.spec_requires_activation()
                        && script@[j].transfer_ok,
                }),
        decreases n - k,
    {
        proof {
            assert forall|j: int| 0 <= j < n implies !(#[trigger] ex.states@[j]).spec_is_active() by {
                if j < k {
                    assert(ex.states@[j] == spec_final_state(tseq[j].goal, script@[j]));
                }
            }
            lemma_active_zero(ex.states@);
        }
        let admitted = ex.try_admit();
        let i = match admitted {
            Some(i) => i,
            None => {
                proof {
                    assert(ex.states@[k as int] == TaskState::Queued);
                    assert(false);
                }
                return Err(ConstructionError::DuplicateTaskName);
            },
        };
        proof {
            if i < k {
                assert(ex.states@[i as int] == spec_final_state(tseq[i as int].goal, script@[i as int]));
            }
            assert(i as int == k as int);
        }
        let transfer_ok = script[k].transfer_ok;
        let st1 = ex.handle_event(i, PipelineEvent::TransferFinished(transfer_ok));
        let mut activation_invoked = false;
        if st1.is_active() {
            let activation_ok = script[k].activation_ok;
            let _ = ex.handle_event(i, PipelineEvent::ActivationFinished(activation_ok));
            activation_invoked = true;
        }
        calls.push(
            CapabilityCalls { transfer_invoked: true, activation_invoked },
        );
        k += 1;
    }
    proof {
        assert(ex.states@ =~= spec_final_states(tseq, script@));
    }
    let s = summarize(&ex, skipped);
    Ok((s, calls))
}

/// Failure isolation: a task's terminal state is a function of its own goal
/// and its own capability answers. If the answers for some other task change
/// (say its transfer fails), the first task's terminal state stays the same.
pub proof fn lemma_failure_isolation(
    tasks: Seq<DeploymentTask>,
    script_a: Seq<ScriptedOutcome>,
    script_b: Seq<ScriptedOutcome>,
    j: int,
)
    requires
        script_a.len() == tasks.len(),
        script_b.len() == tasks.len(),
        0 <= j < tasks.len(),
        script_a[j] == script_b[j],
    ensures
        spec_final_states(tasks, script_a)[j] == spec_final_states(tasks, script_b)[j],
{
}

/// Idempotence: two runs of the executor over the same tasks against the
/// same deterministic scripted capability carry the same summary — the same
/// counts and the same failure records.
pub proof fn lemma_run_idempotent(
    first: FleetSummary,
    second: FleetSummary,
    tasks: Seq<DeploymentTask>,
    script: Seq<ScriptedOutcome>,
    skipped: usize,
)
    requires
        summary_matches(first, tasks, script, skipped),
        summary_matches(second, tasks, script, skipped),
    ensures
        first.attempted == second.attempted,
        first.succeeded == second.succeeded,
        first.failed == second.failed,
        first.skipped == second.skipped,
        first.failures@ == second.failures@,
{
}

} // verus!
