//! Counting task states in a run: how many tasks occupy a worker slot, have
//! succeeded, or have failed. These counts underpin the concurrency ceiling
//! and the fleet summary.

use vstd::prelude::*;
use crate::state::TaskState;

verus! {

/// How many tasks are in a remote phase (transferring or activating), i.e.
/// how many worker slots are occupied.
pub open spec fn count_active(s: Seq<TaskState>) -> int
    decreases s.len(),
{
    if s.len() == 0 {
        0
    } else {
        count_active(s.drop_last()) + if s.last().spec_is_active() {
            1int
        } else {
            0int
        }
    }
}

pub open spec fn count_succeeded(s: Seq<TaskState>) -> int
    decreases s.len(),
{
    if s.len() == 0 {
        0
    } else {
        count_succeeded(s.drop_last()) + if s.last() == TaskState::Succeeded {
            1int
        } else {
            0int
        }
    }
}

pub open spec fn count_failed(s: Seq<TaskState>) -> int
    decreases s.len(),
{
    if s.len() == 0 {
        0
    } else {
        count_failed(s.drop_last()) + if s.last() is Failed {
            1int
        } else {
            0int
        }
    }
}

pub proof fn lemma_active_bounds(s: Seq<TaskState>)
    ensures
        0 <= count_active(s) <= s.len(),
    decreases s.len(),
{
    if s.len() > 0 {
        lemma_active_bounds(s.drop_last());
    }
}

/// Replacing one state changes the occupancy count by exactly the difference
/// the replaced element makes.
pub proof fn lemma_active_update(s: Seq<TaskState>, i: int, v: TaskState)
    requires
        0 <= i < s.len(),
    ensures
        count_active(s.update(i, v)) == count_active(s) - (if s[i].spec_is_active() {
            1int
        } else {
            0int
        }) + (if v.spec_is_active() {
            1int
        } else {
            0int
        }),
    decreases s.len(),
{
    if i == s.len() - 1 {
        assert(s.update(i, v).drop_last() =~= s.drop_last());
    } else {
        lemma_active_update(s.drop_last(), i, v);
        assert(s.update(i, v).drop_last() =~= s.drop_last().update(i, v));
        assert(s.update(i, v).last() == s.last());
    }
}

/// A run in which no task is in a remote phase occupies no worker slot.
pub proof fn lemma_active_zero(s: Seq<TaskState>)
    requires
        forall|j: int| 0 <= j < s.len() ==> !s[j].spec_is_active(),
    ensures
        count_active(s) == 0,
    decreases s.len(),
{
    if s.len() > 0 {
        lemma_active_zero(s.drop_last());
    }
}

/// A task in a remote phase occupies at least one slot.
pub proof fn lemma_active_at(s: Seq<TaskState>, i: int)
    requires
        0 <= i < s.len(),
        s[i].spec_is_active(),
    ensures
        count_active(s) >= 1,
    decreases s.len(),
{
    lemma_active_bounds(s.drop_last());
    if i < s.len() - 1 {
        lemma_active_at(s.drop_last(), i);
    }
}

pub proof fn lemma_succeeded_take_succ(s: Seq<TaskState>, i: int)
    requires
        0 <= i < s.len(),
    ensures
        count_succeeded(s.take(i + 1)) == count_succeeded(s.take(i)) + (
        if s[i] == TaskState::Succeeded {
            1int
        } else {
            0int
        }),
{
    assert(s.take(i + 1).drop_last() =~= s.take(i));
    assert(s.take(i + 1).last() == s[i]);
}

pub proof fn lemma_failed_take_succ(s: Seq<TaskState>, i: int)
    requires
        0 <= i < s.len(),
    ensures
        count_failed(s.take(i + 1)) == count_failed(s.take(i)) + (if s[i] is Failed {
            1int
        } else {
            0int
        }),
{
    assert(s.take(i + 1).drop_last() =~= s.take(i));
    assert(s.take(i + 1).last() == s[i]);
}

/// Success and failure are mutually exclusive terminal states, so together
/// they never outnumber the tasks.
pub proof fn lemma_terminal_counts_bounded(s: Seq<TaskState>)
    ensures
        0 <= count_succeeded(s),
        0 <= count_failed(s),
        count_succeeded(s) + count_failed(s) <= s.len(),
    decreases s.len(),
{
    if s.len() > 0 {
        lemma_terminal_counts_bounded(s.drop_last());
    }
}

pub proof fn lemma_take_full<T>(s: Seq<T>)
    ensures
        s.take(s.len() as int) == s,
{
    assert(s.take(s.len() as int) =~= s);
}

} // verus!
