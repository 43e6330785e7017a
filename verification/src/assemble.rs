//! The task assembler: a pure join-and-partition step. Every selected name
//! whose connection resolved becomes a `DeploymentTask`; every other name
//! becomes a `SkipEntry`. Nothing here touches the network or a build.

use vstd::prelude::*;
use crate::goal::DeploymentGoal;
use crate::options::TransferOptions;
use crate::task::{ConnectionDescriptor, DeploymentTask};

verus! {

/// One selected name, as the external inventory and build collaborators
/// hand it over: an already-built artifact reference, and the connection
/// descriptor if the host resolved to one.
#[derive(Debug)]
pub struct SelectedNode {
    pub name: String,
    pub artifact: String,
    pub connection: Option<ConnectionDescriptor>,
}

/// Why a selected name was never scheduled.
#[derive(Clone, Copy, Debug, PartialEq, Eq, Structural)]
pub enum SkipReason {
    ConnectionUnresolved,
}

impl SkipReason {
    pub fn message(&self) -> (r: &'static str)
        ensures
            r@ == "host unreachable or unresolved"@,
    {
        "host unreachable or unresolved"
    }
}

/// A selected name that never became a task.
#[derive(Debug)]
pub struct SkipEntry {
    pub name: String,
    pub reason: SkipReason,
}

/// The tasks the partition produces: one per selected node with a resolved
/// connection, in selection order, all with the same goal and options.
pub open spec fn spec_tasks(
    sel: Seq<SelectedNode>,
    goal: DeploymentGoal,
    options: TransferOptions,
) -> Seq<DeploymentTask>
    decreases sel.len(),
{
    if sel.len() == 0 {
        Seq::empty()
    } else {
        let rest = spec_tasks(sel.drop_last(), goal, options);
        match sel.last().connection {
            Some(c) => rest.push(
                DeploymentTask {
                    name: sel.last().name,
                    connection: c,
                    artifact: sel.last().artifact,
                    goal,
                    options,
                },
            ),
            None => rest,
        }
    }
}

/// The skip entries the partition produces: one per selected node without a
/// resolved connection, in selection order.
pub open spec fn spec_skips(sel: Seq<SelectedNode>) -> Seq<SkipEntry>
    decreases sel.len(),
{
    if sel.len() == 0 {
        Seq::empty()
    } else {
        let rest = spec_skips(sel.drop_last());
        match sel.last().connection {
            Some(c) => rest,
            None => rest.push(
                SkipEntry { name: sel.last().name, reason: SkipReason::ConnectionUnresolved },
            ),
        }
    }
}

/// Together the two sides cover the selection exactly once.
pub proof fn lemma_partition_covers(
    sel: Seq<SelectedNode>,
    goal: DeploymentGoal,
    options: TransferOptions,
)
    ensures
        spec_tasks(sel, goal, options).len() + spec_skips(sel).len() == sel.len(),
    decreases sel.len(),
{
    if sel.len() > 0 {
        lemma_partition_covers(sel.drop_last(), goal, options);
    }
}

/// The name belongs to a selected node whose connection resolved.
pub open spec fn resolved_name_in(sel: Seq<SelectedNode>, name: Seq<char>) -> bool {
    exists|k: int|
        0 <= k < sel.len() && sel[k].connection is Some && #[trigger] sel[k].name@ == name
}

/// The name belongs to a selected node whose connection did not resolve.
pub open spec fn unresolved_name_in(sel: Seq<SelectedNode>, name: Seq<char>) -> bool {
    exists|k: int|
        0 <= k < sel.len() && sel[k].connection is None && #[trigger] sel[k].name@ == name
}

/// Every produced task carries the name of a selected node whose connection
/// resolved.
pub proof fn lemma_task_names_from_selection(
    sel: Seq<SelectedNode>,
    goal: DeploymentGoal,
    options: TransferOptions,
)
    ensures
        forall|i: int|
            0 <= i < spec_tasks(sel, goal, options).len() ==> resolved_name_in(
                sel,
                #[trigger] spec_tasks(sel, goal, options)[i].name@,
            ),
    decreases sel.len(),
{
    if sel.len() > 0 {
        lemma_task_names_from_selection(sel.drop_last(), goal, options);
        let prior = sel.drop_last();
        let rest = spec_tasks(prior, goal, options);
        let cur = spec_tasks(sel, goal, options);
        assert forall|i: int| 0 <= i < cur.len() implies resolved_name_in(
            sel,
            #[trigger] cur[i].name@,
        ) by {
            if i < rest.len() {
                assert(cur[i] == rest[i]);
                assert(resolved_name_in(prior, rest[i].name@));
                let k = choose|k: int|
                    0 <= k < prior.len() && prior[k].connection is Some && #[trigger] prior[k].name@
                        == rest[i].name@;
                assert(sel[k] == prior[k]);
                assert(sel[k].name@ == cur[i].name@);
            } else {
                let k = sel.len() - 1;
                assert(sel[k].connection is Some);
                assert(sel[k].name@ == cur[i].name@);
            }
        }
    }
}

/// Every skip entry carries the name of a selected node whose connection did
/// not resolve.
pub proof fn lemma_skip_names_from_selection(sel: Seq<SelectedNode>)
    ensures
        forall|j: int|
            0 <= j < spec_skips(sel).len() ==> unresolved_name_in(
                sel,
                #[trigger] spec_skips(sel)[j].name@,
            ),
    decreases sel.len(),
{
    if sel.len() > 0 {
        lemma_skip_names_from_selection(sel.drop_last());
        let prior = sel.drop_last();
        let rest = spec_skips(prior);
        let cur = spec_skips(sel);
        assert forall|j: int| 0 <= j < cur.len() implies unresolved_name_in(
            sel,
            #[trigger] cur[j].name@,
        ) by {
            if j < rest.len() {
                assert(cur[j] == rest[j]);
                assert(unresolved_name_in(prior, rest[j].name@));
                let k = choose|k: int|
                    0 <= k < prior.len() && prior[k].connection is None && #[trigger] prior[k].name@
                        == rest[j].name@;
                assert(sel[k] == prior[k]);
                assert(sel[k].name@ == cur[j].name@);
            } else {
                let k = sel.len() - 1;
                assert(sel[k].connection is None);
                assert(sel[k].name@ == cur[j].name@);
            }
        }
    }
}

/// The name is carried by some produced task.
pub open spec fn task_name_present(tasks: Seq<DeploymentTask>, name: Seq<char>) -> bool {
    exists|i: int| 0 <= i < tasks.len() && #[trigger] tasks[i].name@ == name
}

/// The name is carried by some skip entry.
pub open spec fn skip_name_present(skips: Seq<SkipEntry>, name: Seq<char>) -> bool {
    exists|j: int| 0 <= j < skips.len() && #[trigger] skips[j].name@ == name
}

/// No selected name is lost: every name with a resolved connection shows up
/// in the task list, every other one in the skip set. Together with
/// `lemma_partition_covers` and `lemma_partition_disjoint`, the two sides
/// cover the selection exactly.
pub proof fn lemma_partition_complete(
    sel: Seq<SelectedNode>,
    goal: DeploymentGoal,
    options: TransferOptions,
)
    ensures
        forall|k: int|
            0 <= k < sel.len() && sel[k].connection is Some ==> task_name_present(
                spec_tasks(sel, goal, options),
                #[trigger] sel[k].name@,
            ),
        forall|k: int|
            0 <= k < sel.len() && sel[k].connection is None ==> skip_name_present(
                spec_skips(sel),
                #[trigger] sel[k].name@,
            ),
    decreases sel.len(),
{
    if sel.len() > 0 {
        lemma_partition_complete(sel.drop_last(), goal, options);
        let prior = sel.drop_last();
        let rest_tasks = spec_tasks(prior, goal, options);
        let rest_skips = spec_skips(prior);
        let cur_tasks = spec_tasks(sel, goal, options);
        let cur_skips = spec_skips(sel);
        assert forall|k: int|
            0 <= k < sel.len() && sel[k].connection is Some implies task_name_present(
            cur_tasks,
            #[trigger] sel[k].name@,
        ) by {
            if k < prior.len() {
                assert(sel[k] == prior[k]);
                assert(task_name_present(rest_tasks, prior[k].name@));
                let i = choose|i: int|
                    0 <= i < rest_tasks.len() && #[trigger] rest_tasks[i].name@ == prior[k].name@;
                assert(cur_tasks[i] == rest_tasks[i]);
            } else {
                assert(cur_tasks[cur_tasks.len() - 1].name@ == sel[k].name@);
            }
        }
        assert forall|k: int|
            0 <= k < sel.len() && sel[k].connection is None implies skip_name_present(
            cur_skips,
            #[trigger] sel[k].name@,
        ) by {
            if k < prior.len() {
                assert(sel[k] == prior[k]);
                assert(skip_name_present(rest_skips, prior[k].name@));
                let j = choose|j: int|
                    0 <= j < rest_skips.len() && #[trigger] rest_skips[j].name@ == prior[k].name@;
                assert(cur_skips[j] == rest_skips[j]);
            } else {
                assert(cur_skips[cur_skips.len() - 1].name@ == sel[k].name@);
            }
        }
    }
}

/// Selection names must be unique for the partition to be disjoint by name.
pub open spec fn selection_names_unique(sel: Seq<SelectedNode>) -> bool {
    forall|i: int, j: int| 0 <= i < j < sel.len() ==> sel[i].name@ != sel[j].name@
}

/// The task list and the skip set partition the selection: their sizes sum
/// to the selection's size, and (for a selection without repeated names) no
/// name appears on both sides.
pub proof fn lemma_partition_disjoint(
    sel: Seq<SelectedNode>,
    goal: DeploymentGoal,
    options: TransferOptions,
)
    requires
        selection_names_unique(sel),
    ensures
        spec_tasks(sel, goal, options).len() + spec_skips(sel).len() == sel.len(),
        forall|i: int, j: int|
            0 <= i < spec_tasks(sel, goal, options).len() && 0 <= j < spec_skips(sel).len()
                ==> #[trigger] spec_tasks(sel, goal, options)[i].name@ != #[trigger] spec_skips(
                sel,
            )[j].name@,
{
    lemma_partition_covers(sel, goal, options);
    lemma_task_names_from_selection(sel, goal, options);
    lemma_skip_names_from_selection(sel);
    assert forall|i: int, j: int|
        0 <= i < spec_tasks(sel, goal, options).len() && 0 <= j < spec_skips(sel).len()
            implies #[trigger] spec_tasks(sel, goal, options)[i].name@ != #[trigger] spec_skips(
        sel,
    )[j].name@ by {
        if spec_tasks(sel, goal, options)[i].name@ == spec_skips(sel)[j].name@ {
            let name = spec_tasks(sel, goal, options)[i].name@;
            assert(resolved_name_in(sel, name));
            assert(unresolved_name_in(sel, name));
            let k1 = choose|k: int|
                0 <= k < sel.len() && sel[k].connection is Some && #[trigger] sel[k].name@ == name;
            let k2 = choose|k: int|
                0 <= k < sel.len() && sel[k].connection is None && #[trigger] sel[k].name@ == name;
            assert(sel[k1].name@ == sel[k2].name@);
            assert(k1 != k2);
        }
    }
}

/// Partitions the selection into the tasks to schedule and the names to
/// skip. Purely a join: no network or build activity happens here.
pub fn assemble_tasks(
    selection: &Vec<SelectedNode>,
    goal: &DeploymentGoal,
    options: &TransferOptions,
) -> (r: (Vec<DeploymentTask>, Vec<SkipEntry>))
    ensures
        r.0@ == spec_tasks(selection@, *goal, *options),
        r.1@ == spec_skips(selection@),
        r.0@.len() + r.1@.len() == selection@.len(),
{
    let mut tasks: Vec<DeploymentTask> = Vec::new();
    let mut skips: Vec<SkipEntry> = Vec::new();
    let n = selection.len();
    let mut i: usize = 0;
    while i < n
        invariant
            n == selection@.len(),
            0 <= i <= n,
            tasks@ == spec_tasks(selection@.take(i as int), *goal, *options),
            skips@ == spec_skips(selection@.take(i as int)),
        decreases n - i,
    {
        proof {
            assert(selection@.take(i + 1).drop_last() =~= selection@.take(i as int));
            assert(selection@.take(i + 1).last() == selection@[i as int]);
        }
        let node = &selection[i];
        match &node.connection {
            Some(c) => {
                let t = DeploymentTask {
                    name: node.name.clone(),
                    connection: c.clone(),
                    artifact: node.artifact.clone(),
                    goal: *goal,
                    options: *options,
                };
                tasks.push(t);
            },
            None => {
                skips.push(
                    SkipEntry { name: node.name.clone(), reason: SkipReason::ConnectionUnresolved },
                );
            },
        }
        i += 1;
    }
    proof {
        assert(selection@.take(n as int) =~= selection@);
        lemma_partition_covers(selection@, *goal, *options);
    }
    (tasks, skips)
}

} // verus!
