use fleet_apply::aggregate::{exit_status, outcomes, summarize, TaskResult};
use fleet_apply::deploy::{run_scripted, CapabilityCalls, ScriptedOutcome};
use fleet_apply::error::ConstructionError;
use fleet_apply::executor::{parallel_limit, Executor};
use fleet_apply::goal::DeploymentGoal;
use fleet_apply::progress::{state_label, ProgressStats};
use fleet_apply::state::{FailureCause, Phase, PipelineEvent, TaskState};
use fleet_apply::task::{ConnectionDescriptor, DeploymentTask};

fn task(name: &str, goal: DeploymentGoal) -> DeploymentTask {
    DeploymentTask::new(
        String::from(name),
        ConnectionDescriptor::new(format!("{}.example", name)),
        format!("/store/{}-system", name),
        goal,
    )
}

fn ok_script(n: usize) -> Vec<ScriptedOutcome> {
    vec![ScriptedOutcome { transfer_ok: true, activation_ok: true }; n]
}

#[test]
fn duplicate_task_names_are_rejected() {
    let tasks = vec![
        task("a", DeploymentGoal::Switch),
        task("b", DeploymentGoal::Switch),
        task("a", DeploymentGoal::Switch),
    ];
    match Executor::new(tasks, None) {
        Err(e) => assert_eq!(e, ConstructionError::DuplicateTaskName),
        Ok(_) => panic!("duplicate names must be a construction error"),
    }
}

#[test]
fn parallel_limit_zero_means_unbounded() {
    assert_eq!(parallel_limit(0), None);
    assert_eq!(parallel_limit(1), Some(1));
    assert_eq!(parallel_limit(10), Some(10));
}

#[test]
fn bounded_pool_never_exceeds_the_ceiling() {
    let tasks = vec![
        task("a", DeploymentGoal::Switch),
        task("b", DeploymentGoal::Switch),
        task("c", DeploymentGoal::Switch),
    ];
    let mut ex = Executor::new(tasks, Some(2)).unwrap();
    let first = ex.try_admit().expect("slot free");
    assert_eq!(ex.active_tasks(), 1);
    let second = ex.try_admit().expect("slot free");
    assert_eq!(ex.active_tasks(), 2);
    // the pool is full: the third task must wait
    assert_eq!(ex.try_admit(), None);
    assert_eq!(ex.active_tasks(), 2);
    // a terminal state frees the slot and the waiter is admitted
    ex.handle_event(first, PipelineEvent::TransferFinished(false));
    assert_eq!(ex.active_tasks(), 1);
    let third = ex.try_admit().expect("slot freed");
    assert_eq!(ex.active_tasks(), 2);
    assert_eq!(ex.try_admit(), None);
    assert_ne!(second, third);
}

#[test]
fn ceiling_holds_under_mixed_latency() {
    let tasks = vec![
        task("a", DeploymentGoal::Switch),
        task("b", DeploymentGoal::Switch),
        task("c", DeploymentGoal::Switch),
        task("d", DeploymentGoal::Switch),
    ];
    let mut ex = Executor::new(tasks, Some(2)).unwrap();
    let a = ex.try_admit().unwrap();
    let b = ex.try_admit().unwrap();
    assert_eq!(ex.active_tasks(), 2);
    assert_eq!(ex.try_admit(), None);
    // "a" is slow in transfer; "b" transfers fast and starts activating
    ex.handle_event(b, PipelineEvent::TransferFinished(true));
    assert_eq!(ex.active_tasks(), 2);
    assert_eq!(ex.try_admit(), None);
    ex.handle_event(b, PipelineEvent::ActivationFinished(true));
    assert_eq!(ex.active_tasks(), 1);
    let c = ex.try_admit().unwrap();
    assert_eq!(ex.active_tasks(), 2);
    assert_eq!(ex.try_admit(), None);
    // "a" finally finishes its transfer; "c" fails fast
    ex.handle_event(a, PipelineEvent::TransferFinished(true));
    assert_eq!(ex.active_tasks(), 2);
    ex.handle_event(c, PipelineEvent::TransferFinished(false));
    assert_eq!(ex.active_tasks(), 1);
    let d = ex.try_admit().unwrap();
    assert_eq!(ex.active_tasks(), 2);
    ex.handle_event(a, PipelineEvent::ActivationFinished(false));
    ex.handle_event(d, PipelineEvent::TransferFinished(true));
    ex.handle_event(d, PipelineEvent::ActivationFinished(true));
    assert_eq!(ex.active_tasks(), 0);
    assert!(ex.is_done());
    let summary = summarize(&ex, 0);
    assert_eq!(summary.attempted, 4);
    assert_eq!(summary.succeeded, 2);
    assert_eq!(summary.failed, 2);
}

#[test]
fn single_slot_serializes_admission() {
    let tasks = vec![
        task("a", DeploymentGoal::Switch),
        task("b", DeploymentGoal::Switch),
        task("c", DeploymentGoal::Switch),
    ];
    let mut ex = Executor::new(tasks, Some(1)).unwrap();
    let mut finished = 0;
    while finished < 3 {
        let i = ex.try_admit().expect("one slot is always free here");
        // at every sampled instant exactly one task is in a non-terminal,
        // slot-occupying state
        assert_eq!(ex.active_tasks(), 1);
        assert_eq!(ex.try_admit(), None);
        let st = ex.handle_event(i, PipelineEvent::TransferFinished(true));
        assert_eq!(st, TaskState::Activating);
        assert_eq!(ex.active_tasks(), 1);
        assert_eq!(ex.try_admit(), None);
        ex.handle_event(i, PipelineEvent::ActivationFinished(true));
        assert_eq!(ex.active_tasks(), 0);
        finished += 1;
    }
    assert!(ex.is_done());
}

#[test]
fn unbounded_pool_admits_every_task_at_once() {
    let tasks = vec![
        task("a", DeploymentGoal::Switch),
        task("b", DeploymentGoal::Switch),
        task("c", DeploymentGoal::Switch),
        task("d", DeploymentGoal::Switch),
    ];
    let mut ex = Executor::new(tasks, None).unwrap();
    for expected in 0..4 {
        let i = ex.try_admit().expect("unbounded admission never refuses");
        assert_eq!(i, expected);
    }
    assert_eq!(ex.active_tasks(), 4);
    // nothing is queued any more
    assert_eq!(ex.try_admit(), None);
}

#[test]
fn cancellation_stops_admission_but_not_running_tasks() {
    let tasks = vec![task("a", DeploymentGoal::Switch), task("b", DeploymentGoal::Switch)];
    let mut ex = Executor::new(tasks, None).unwrap();
    let i = ex.try_admit().unwrap();
    ex.cancel();
    // no new admission after cancellation
    assert_eq!(ex.try_admit(), None);
    // the admitted task still runs to its terminal state
    ex.handle_event(i, PipelineEvent::TransferFinished(true));
    let st = ex.handle_event(i, PipelineEvent::ActivationFinished(true));
    assert_eq!(st, TaskState::Succeeded);
    assert_eq!(ex.state_of(1), TaskState::Queued);
    let partial = summarize(&ex, 0);
    assert_eq!(partial.attempted, 1);
    assert_eq!(partial.succeeded, 1);
}

#[test]
fn push_goal_never_invokes_activation() {
    let tasks = vec![task("a", DeploymentGoal::Push), task("b", DeploymentGoal::Push)];
    let (summary, calls) = run_scripted(tasks, Some(10), &ok_script(2), 0).unwrap();
    for c in &calls {
        assert!(c.transfer_invoked);
        assert!(!c.activation_invoked);
    }
    assert_eq!(summary.succeeded, 2);
    assert_eq!(summary.failed, 0);
}

#[test]
fn activation_is_invoked_iff_transfer_succeeded() {
    let tasks = vec![
        task("a", DeploymentGoal::Switch),
        task("b", DeploymentGoal::Switch),
        task("c", DeploymentGoal::Boot),
    ];
    let script = vec![
        ScriptedOutcome { transfer_ok: true, activation_ok: true },
        ScriptedOutcome { transfer_ok: false, activation_ok: true },
        ScriptedOutcome { transfer_ok: true, activation_ok: false },
    ];
    let (summary, calls) = run_scripted(tasks, None, &script, 0).unwrap();
    assert_eq!(
        calls,
        vec![
            CapabilityCalls { transfer_invoked: true, activation_invoked: true },
            CapabilityCalls { transfer_invoked: true, activation_invoked: false },
            CapabilityCalls { transfer_invoked: true, activation_invoked: true },
        ],
    );
    assert_eq!(summary.attempted, 3);
    assert_eq!(summary.succeeded, 1);
    assert_eq!(summary.failed, 2);
    assert_eq!(summary.failures.len(), 2);
    assert_eq!(summary.failures[0].name, "b");
    assert_eq!(summary.failures[0].phase_reached, Phase::Transfer);
    assert_eq!(summary.failures[0].result, TaskResult::Failure(FailureCause::TransferError));
    assert_eq!(summary.failures[1].name, "c");
    assert_eq!(summary.failures[1].phase_reached, Phase::Activation);
    assert_eq!(summary.failures[1].result, TaskResult::Failure(FailureCause::ActivationError));
}

#[test]
fn one_failure_does_not_touch_the_others() {
    let tasks_a = vec![task("a", DeploymentGoal::Switch), task("b", DeploymentGoal::Switch)];
    let tasks_b = vec![task("a", DeploymentGoal::Switch), task("b", DeploymentGoal::Switch)];
    let all_ok = ok_script(2);
    let a_fails = vec![
        ScriptedOutcome { transfer_ok: false, activation_ok: true },
        ScriptedOutcome { transfer_ok: true, activation_ok: true },
    ];
    let (s1, c1) = run_scripted(tasks_a, Some(1), &all_ok, 0).unwrap();
    let (s2, c2) = run_scripted(tasks_b, Some(1), &a_fails, 0).unwrap();
    // task "b" succeeds identically in both runs
    assert_eq!(c1[1], c2[1]);
    assert_eq!(s1.succeeded, 2);
    assert_eq!(s2.succeeded, 1);
    assert_eq!(s2.failed, 1);
    assert_eq!(s2.failures.len(), 1);
    assert_eq!(s2.failures[0].name, "a");
}

#[test]
fn identical_runs_yield_identical_summaries() {
    let script = vec![
        ScriptedOutcome { transfer_ok: true, activation_ok: false },
        ScriptedOutcome { transfer_ok: false, activation_ok: true },
        ScriptedOutcome { transfer_ok: true, activation_ok: true },
    ];
    let mk = || {
        vec![
            task("a", DeploymentGoal::Switch),
            task("b", DeploymentGoal::Test),
            task("c", DeploymentGoal::DryActivate),
        ]
    };
    let (s1, c1) = run_scripted(mk(), Some(2), &script, 1).unwrap();
    let (s2, c2) = run_scripted(mk(), Some(2), &script, 1).unwrap();
    assert_eq!(s1.attempted, s2.attempted);
    assert_eq!(s1.succeeded, s2.succeeded);
    assert_eq!(s1.failed, s2.failed);
    assert_eq!(s1.skipped, s2.skipped);
    assert_eq!(s1.failures.len(), s2.failures.len());
    for (f1, f2) in s1.failures.iter().zip(s2.failures.iter()) {
        assert_eq!(f1.name, f2.name);
        assert_eq!(f1.phase_reached, f2.phase_reached);
        assert_eq!(f1.result, f2.result);
    }
    assert_eq!(c1, c2);
}

#[test]
fn resolved_host_succeeds_while_unresolved_host_is_skipped() {
    // selection {"a","b"}: "a" resolves and succeeds, "b" never became a task
    let tasks = vec![task("a", DeploymentGoal::Switch)];
    let skipped = 1;
    let (summary, _) = run_scripted(tasks, Some(10), &ok_script(1), skipped).unwrap();
    assert_eq!(summary.attempted, 1);
    assert_eq!(summary.succeeded, 1);
    assert_eq!(summary.failed, 0);
    assert_eq!(summary.skipped, 1);
    assert_eq!(exit_status(false, &summary), 0);
}

#[test]
fn push_run_succeeds_without_activation() {
    let tasks = vec![task("a", DeploymentGoal::Push)];
    let (summary, calls) = run_scripted(tasks, Some(10), &ok_script(1), 0).unwrap();
    assert_eq!(summary.succeeded, 1);
    assert!(calls[0].transfer_invoked);
    assert!(!calls[0].activation_invoked);
}

#[test]
fn empty_selection_aborts_before_scheduling() {
    // nothing matched the selector: the run ends with its own status, with
    // no executor built and no task scheduled
    let selection_empty = true;
    let (summary, calls) =
        run_scripted(Vec::new(), Some(10), &Vec::new(), 0).unwrap();
    assert_eq!(summary.attempted, 0);
    assert!(calls.is_empty());
    assert_eq!(exit_status(selection_empty, &summary), 2);
}

#[test]
fn exit_status_distinguishes_the_outcomes() {
    let tasks = vec![task("a", DeploymentGoal::Switch), task("b", DeploymentGoal::Switch)];
    let script = vec![
        ScriptedOutcome { transfer_ok: true, activation_ok: true },
        ScriptedOutcome { transfer_ok: true, activation_ok: false },
    ];
    let (mixed, _) = run_scripted(tasks, None, &script, 0).unwrap();
    assert_eq!(exit_status(false, &mixed), 1);
    let all_ok_tasks = vec![task("a", DeploymentGoal::Switch)];
    let (clean, _) = run_scripted(all_ok_tasks, None, &ok_script(1), 2).unwrap();
    // skipped hosts alone do not fail the run
    assert_eq!(exit_status(false, &clean), 0);
    let (nothing, _) = run_scripted(Vec::new(), None, &Vec::new(), 3).unwrap();
    // nothing attempted is not a success
    assert_eq!(exit_status(false, &nothing), 1);
}

#[test]
fn outcomes_record_every_terminal_task() {
    let tasks = vec![
        task("a", DeploymentGoal::Push),
        task("b", DeploymentGoal::Switch),
        task("c", DeploymentGoal::Switch),
    ];
    let mut ex = Executor::new(tasks, None).unwrap();
    let a = ex.try_admit().unwrap();
    let b = ex.try_admit().unwrap();
    ex.handle_event(a, PipelineEvent::TransferFinished(true));
    ex.handle_event(b, PipelineEvent::TransferFinished(true));
    ex.handle_event(b, PipelineEvent::ActivationFinished(false));
    // "c" was never admitted and has no terminal record
    let outs = outcomes(&ex);
    assert_eq!(outs.len(), 2);
    assert_eq!(outs[0].name, "a");
    assert_eq!(outs[0].phase_reached, Phase::Transfer);
    assert_eq!(outs[0].result, TaskResult::Success);
    assert_eq!(outs[1].name, "b");
    assert_eq!(outs[1].phase_reached, Phase::Activation);
    assert_eq!(outs[1].result, TaskResult::Failure(FailureCause::ActivationError));
}

#[test]
fn progress_counts_follow_transitions() {
    let mut p = ProgressStats::new();
    p.record_transition(&TaskState::Queued, &TaskState::Transferring);
    p.record_transition(&TaskState::Queued, &TaskState::Transferring);
    assert_eq!(p.in_flight, 2);
    p.record_transition(&TaskState::Transferring, &TaskState::Activating);
    assert_eq!(p.in_flight, 2);
    p.record_transition(&TaskState::Activating, &TaskState::Succeeded);
    assert_eq!(p.in_flight, 1);
    assert_eq!(p.succeeded, 1);
    p.record_transition(
        &TaskState::Transferring,
        &TaskState::Failed(FailureCause::TransferError),
    );
    assert_eq!(p.in_flight, 0);
    assert_eq!(p.failed, 1);
}

#[test]
fn state_labels_render() {
    assert_eq!(state_label(&TaskState::Queued), "queued");
    assert_eq!(state_label(&TaskState::Transferring), "transferring");
    assert_eq!(state_label(&TaskState::Activating), "activating");
    assert_eq!(state_label(&TaskState::Succeeded), "succeeded");
    assert_eq!(state_label(&TaskState::Failed(FailureCause::ActivationError)), "failed");
}
