//! The deployment executor: admission control under a concurrency ceiling,
//! and per-task pipeline advancement driven by phase-completion events.
//!
//! The executor owns every task's state. Whoever performs the blocking
//! remote calls (the remote host capability) reports each phase's completion
//! back as a `PipelineEvent`; the executor only decides. An event for one
//! task changes no other task's state: per-host failures are isolated by
//! construction.

use vstd::prelude::*;
use crate::error::ConstructionError;
use crate::state::{event_matches, spec_step, step, PipelineEvent, TaskState};
use crate::tally::{
    count_active, lemma_active_at, lemma_active_bounds, lemma_active_update, lemma_active_zero,
};
use crate::task::{names_unique, DeploymentTask};

verus! {

/// A run in progress: the immutable task set, one pipeline state per task,
/// the concurrency ceiling (`None` is unbounded), and the number of occupied
/// worker slots.
pub struct Executor {
    pub tasks: Vec<DeploymentTask>,
    pub states: Vec<TaskState>,
    pub limit: Option<usize>,
    pub in_flight: usize,
    pub cancelled: bool,
}

impl Executor {
    /// Well-formedness: one state per task, unique task names, an accurate
    /// slot counter, and — the central concurrency guarantee — never more
    /// occupied slots than the configured positive ceiling.
    pub open spec fn wf(self) -> bool {
        &&& self.states@.len() == self.tasks@.len()
        &&& names_unique(self.tasks@)
        &&& self.in_flight as int == count_active(self.states@)
        &&& (self.limit is Some ==> self.limit.unwrap() >= 1)
        &&& (self.limit is Some ==> count_active(self.states@) <= self.limit.unwrap() as int)
    }

    /// Builds an executor with every task queued. Duplicate task names are a
    /// construction error, surfaced immediately; they are the only reason
    /// this fails.
    pub fn new(tasks: Vec<DeploymentTask>, limit: Option<usize>) -> (r: Result<
        Executor,
        ConstructionError,
    >)
        requires
            limit is Some ==> limit.unwrap() >= 1,
        ensures
            match r {
                Ok(ex) => {
                    &&& ex.wf()
                    &&& ex.tasks@ == tasks@
                    &&& ex.limit == limit
                    &&& !ex.cancelled
                    &&& ex.states@.len() == tasks@.len()
                    &&& (forall|i: int|
                        0 <= i < tasks@.len() ==> ex.states@[i] == TaskState::Queued)
                    &&& names_unique(tasks@)
                },
                Err(e) => e == ConstructionError::DuplicateTaskName && !names_unique(tasks@),
            },
    {
        let n = tasks.len();
        let mut i: usize = 0;
        while i < n
            invariant
                n == tasks@.len(),
                i <= n,
                forall|a: int, b: int|
                    0 <= a < b < n && a < i ==> tasks@[a].name@ != tasks@[b].name@,
            decreases n - i,
        {
            let mut j: usize = i + 1;
            while j < n
                invariant
                    n == tasks@.len(),
                    i < n,
                    i + 1 <= j <= n,
                    forall|b: int| i < b < j ==> tasks@[i as int].name@ != tasks@[b].name@,
                decreases n - j,
            {
                if tasks[i].name == tasks[j].name {
                    return Err(ConstructionError::DuplicateTaskName);
                }
                j += 1;
            }
            i += 1;
        }
        let mut states: Vec<TaskState> = Vec::new();
        let mut k: usize = 0;
        while k < n
            invariant
                k <= n,
                states@.len() == k,
                forall|i: int| 0 <= i < k ==> states@[i] == TaskState::Queued,
            decreases n - k,
        {
            states.push(TaskState::Queued);
            k += 1;
        }
        proof {
            lemma_active_zero(states@);
        }
        Ok(Executor { tasks, states, limit, in_flight: 0, cancelled: false })
    }

    /// Admits the first queued task into the transfer phase, if admission is
    /// allowed: the run is not cancelled, a queued task exists, and a worker
    /// slot is free. With no ceiling configured a queued task is always
    /// admitted — nothing artificially serializes an unbounded run.
    pub fn try_admit(&mut self) -> (r: Option<usize>)
        requires
            old(self).wf(),
        ensures
            final(self).wf(),
            final(self).tasks@ == old(self).tasks@,
            final(self).limit == old(self).limit,
            final(self).cancelled == old(self).cancelled,
            match r {
                Some(i) => {
                    &&& i < old(self).states@.len()
                    &&& old(self).states@[i as int] == TaskState::Queued
                    &&& (forall|j: int| 0 <= j < i ==> old(self).states@[j] != TaskState::Queued)
                    &&& final(self).states@ == old(self).states@.update(
                        i as int,
                        TaskState::Transferring,
                    )
                    &&& !old(self).cancelled
                    &&& (old(self).limit is Some ==> count_active(old(self).states@) < old(
                        self,
                    ).limit.unwrap() as int)
                },
                None => {
                    &&& *final(self) == *old(self)
                    &&& (old(self).cancelled || (forall|j: int|
                        0 <= j < old(self).states@.len() ==> old(self).states@[j]
                            != TaskState::Queued) || (old(self).limit is Some && count_active(
                        old(self).states@,
                    ) >= old(self).limit.unwrap() as int))
                },
            },
            // an unbounded run admits every queued task: nothing serializes it
            (!old(self).cancelled && old(self).limit is None && (exists|j: int|
                0 <= j < old(self).states@.len() && old(self).states@[j] == TaskState::Queued))
                ==> r is Some,
    {
        if self.cancelled {
            return None;
        }
        match self.limit {
            Some(cap) => {
                if self.in_flight >= cap {
                    return None;
                }
            },
            None => {},
        }
        let n = self.states.len();
        let mut i: usize = 0;
        while i < n
            invariant
                *self == *old(self),
                old(self).wf(),
                !old(self).cancelled,
                old(self).limit is Some ==> old(self).in_flight < old(self).limit.unwrap(),
                n == self.states@.len(),
                i <= n,
                forall|j: int| 0 <= j < i ==> self.states@[j] != TaskState::Queued,
            decreases n - i,
        {
            let st = self.states[i];
            match st {
                TaskState::Queued => {
                    proof {
                        lemma_active_update(self.states@, i as int, TaskState::Transferring);
                        lemma_active_bounds(self.states@.update(i as int, TaskState::Transferring));
                    }
                    self.states.set(i, TaskState::Transferring);
                    self.in_flight += 1;
                    return Some(i);
                },
                _ => {},
            }
            i += 1;
        }
        None
    }

    /// Advances one task's pipeline by one phase completion and releases the
    /// task's worker slot if it reached a terminal state. No other task's
    /// state changes: a delivered failure is terminal for its own task only.
    pub fn handle_event(&mut self, i: usize, e: PipelineEvent) -> (next: TaskState)
        requires
            old(self).wf(),
            i < old(self).states@.len(),
            event_matches(old(self).states@[i as int], e),
        ensures
            final(self).wf(),
            final(self).tasks@ == old(self).tasks@,
            final(self).limit == old(self).limit,
            final(self).cancelled == old(self).cancelled,
            next == spec_step(old(self).tasks@[i as int].goal, old(self).states@[i as int], e),
            final(self).states@ == old(self).states@.update(i as int, next),
            forall|j: int|
                0 <= j < old(self).states@.len() && j != i ==> final(self).states@[j] == old(
                    self,
                ).states@[j],
            count_active(final(self).states@) <= count_active(old(self).states@),
    {
        let goal = self.tasks[i].goal;
        let cur = self.states[i];
        let next = step(&goal, &cur, &e);
        proof {
            lemma_active_at(self.states@, i as int);
            lemma_active_update(self.states@, i as int, next);
        }
        self.states.set(i, next);
        if !next.is_active() {
            self.in_flight -= 1;
        }
        next
    }

    /// Stops all further admission; tasks already in a remote phase are left
    /// to finish, since aborting a remote activation can leave a host
    /// inconsistent.
    pub fn cancel(&mut self)
        ensures
            *final(self) == (Executor { cancelled: true, ..*old(self) }),
    {
        self.cancelled = true;
    }

    /// Whether every task has reached a terminal state.
    pub fn is_done(&self) -> (r: bool)
        ensures
            r == (forall|j: int|
                0 <= j < self.states@.len() ==> (#[trigger] self.states@[j]).spec_is_terminal()),
    {
        let n = self.states.len();
        let mut i: usize = 0;
        while i < n
            invariant
                n == self.states@.len(),
                i <= n,
                forall|j: int| 0 <= j < i ==> (#[trigger] self.states@[j]).spec_is_terminal(),
            decreases n - i,
        {
            let st = self.states[i];
            if !st.is_terminal() {
                return false;
            }
            i += 1;
        }
        true
    }

    pub fn task_count(&self) -> (n: usize)
        ensures
            n == self.tasks@.len(),
    {
        self.tasks.len()
    }

    pub fn state_of(&self, i: usize) -> (s: TaskState)
        requires
            i < self.states@.len(),
        ensures
            s == self.states@[i as int],
    {
        self.states[i]
    }

    /// How many tasks currently occupy a worker slot.
    pub fn active_tasks(&self) -> (n: usize)
        requires
            self.wf(),
        ensures
            n as int == count_active(self.states@),
    {
        self.in_flight
    }
}

/// The command-line parallelism value: zero disables the ceiling, any other
/// value is the ceiling itself.
pub fn parallel_limit(raw: usize) -> (r: Option<usize>)
    ensures
        raw == 0 ==> r is None,
        raw > 0 ==> r == Some(raw),
{
    if raw == 0 {
        None
    } else {
        Some(raw)
    }
}

/// Under a positive concurrency ceiling `k`, at no instant do more than `k`
/// tasks occupy the transfer or activation phase: well-formedness carries
/// the bound through every admission and every event.
pub proof fn lemma_bounded_concurrency(ex: Executor, k: usize)
    requires
        ex.wf(),
        ex.limit == Some(k),
    ensures
        count_active(ex.states@) <= k as int,
{
}

} // verus!
