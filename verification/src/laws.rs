//! Laws that relate the operations of this crate, stated over the model
//! that their contracts use.

use vstd::prelude::*;
use crate::model::{
    all_below_max, each_claimed_once, fresh, incremented, run_schedule, ArrayState,
};

verus! {

/// Raising every element is not idempotent: a second run on the result of a
/// first leaves every element two above where it started.
pub proof fn lemma_two_runs_add_two(v: Seq<i32>)
    requires
        all_below_max(v),
        all_below_max(incremented(v)),
    ensures
        incremented(incremented(v)).len() == v.len(),
        forall|i: int| 0 <= i < v.len() ==> #[trigger] incremented(incremented(v))[i] == v[i] + 2,
{
    assert forall|i: int| 0 <= i < v.len() implies #[trigger] incremented(incremented(v))[i]
        == v[i] + 2 by {
        assert(incremented(v)[i] == v[i] + 1);
    }
}

/// The length of the shared sequence is fixed: no schedule changes it.
pub proof fn lemma_length_is_fixed(s: ArrayState, order: Seq<int>)
    ensures
        run_schedule(s, order).cells.len() == s.cells.len(),
    decreases order.len(),
{
    if order.len() > 0 {
        lemma_length_is_fixed(s, order.drop_last());
    }
}

/// A poisoned lock stays poisoned: once a task has failed, no later task
/// changes an element, and the task that failed first stays on record.
pub proof fn lemma_poison_is_permanent(s: ArrayState, order: Seq<int>)
    requires
        s.failed is Some,
    ensures
        run_schedule(s, order) == s,
    decreases order.len(),
{
    if order.len() > 0 {
        lemma_poison_is_permanent(s, order.drop_last());
    }
}

/// Whatever the order in which tasks with distinct indices take the lock,
/// no task fails, the elements that were claimed are raised by exactly one,
/// and the others are left as they were.
pub proof fn lemma_claimed_raised_once(v: Seq<i32>, order: Seq<int>)
    requires
        all_below_max(v),
        forall|k: int| 0 <= k < order.len() ==> 0 <= #[trigger] order[k] < v.len(),
        forall|k: int, l: int| 0 <= k < l < order.len() ==> order[k] != order[l],
    ensures
        run_schedule(fresh(v), order).failed is None,
        run_schedule(fresh(v), order).cells.len() == v.len(),
        forall|j: int|
            0 <= j < v.len() ==> #[trigger] run_schedule(fresh(v), order).cells[j] == v[j] + (
            if order.contains(j) {
                1int
            } else {
                0int
            }),
    decreases order.len(),
{
    if order.len() > 0 {
        let before = order.drop_last();
        let task = order.last();
        lemma_claimed_raised_once(v, before);
        let rest = run_schedule(fresh(v), before);
        assert(!before.contains(task)) by {
            if before.contains(task) {
                let k = choose|k: int| 0 <= k < before.len() && before[k] == task;
                assert(order[k] == order[order.len() - 1]);
            }
        }
        assert(rest.cells[task] == v[task]);
        assert(order[order.len() - 1] == task);
        assert forall|j: int| 0 <= j < v.len() && j != task implies (order.contains(j)
            <==> before.contains(j)) by {
            if order.contains(j) {
                let k = choose|k: int| 0 <= k < order.len() && order[k] == j;
                assert(before[k] == j);
            }
            if before.contains(j) {
                let k = choose|k: int| 0 <= k < before.len() && before[k] == j;
                assert(order[k] == j);
            }
        }
    }
}

/// Mutual exclusion is enough: where each index is claimed by exactly one
/// task, every order in which the tasks take the lock ends in the same state,
/// with no task failed and every element raised by exactly one.
pub proof fn lemma_every_schedule_increments_once(v: Seq<i32>, order: Seq<int>)
    requires
        all_below_max(v),
        each_claimed_once(order, v.len()),
    ensures
        run_schedule(fresh(v), order) == fresh(incremented(v)),
{
    lemma_claimed_raised_once(v, order);
    assert(run_schedule(fresh(v), order).cells =~= incremented(v));
}

} // verus!
