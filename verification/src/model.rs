//! The mathematical model that the contracts of this crate are stated over.

use vstd::prelude::*;

verus! {

/// Every element can still be raised by one without leaving `i32`.
pub open spec fn all_below_max(v: Seq<i32>) -> bool {
    forall|i: int| 0 <= i < v.len() ==> #[trigger] v[i] < i32::MAX
}

/// The sequence with one added to every element, positions kept.
pub open spec fn incremented(v: Seq<i32>) -> Seq<i32> {
    Seq::new(v.len(), |i: int| (v[i] + 1) as i32)
}

/// The square of `x`, as a mathematical integer.
pub open spec fn squared(x: i32) -> int {
    x * x
}

/// The square of every element fits in `i32`.
pub open spec fn all_squares_fit(v: Seq<i32>) -> bool {
    forall|i: int| 0 <= i < v.len() ==> squared(#[trigger] v[i]) <= i32::MAX
}

/// What the lock protects: the shared elements, and the index of the task
/// whose failure left the lock unusable, if any did.
pub struct ArrayState {
    pub cells: Seq<i32>,
    pub failed: Option<int>,
}

/// The state in which a run starts: nothing has failed yet.
pub open spec fn fresh(cells: Seq<i32>) -> ArrayState {
    ArrayState { cells, failed: None }
}

/// The task bound to `index` can complete its increment on `cells`.
pub open spec fn can_increment(cells: Seq<i32>, index: int) -> bool {
    0 <= index < cells.len() && cells[index] < i32::MAX
}

/// One critical section: the task bound to `index` holds the lock.
///
/// On a poisoned lock nothing changes. Otherwise the task adds one to its
/// element, or, where it cannot, poisons the lock and leaves every element
/// as it found it.
pub open spec fn step(s: ArrayState, index: int) -> ArrayState {
    if s.failed is Some {
        s
    } else if can_increment(s.cells, index) {
        ArrayState { cells: s.cells.update(index, (s.cells[index] + 1) as i32), failed: None }
    } else {
        ArrayState { cells: s.cells, failed: Some(index) }
    }
}

/// The state after the tasks held the lock one after another, in the order
/// in which `order` lists their indices.
pub open spec fn run_schedule(s: ArrayState, order: Seq<int>) -> ArrayState
    decreases order.len(),
{
    if order.len() == 0 {
        s
    } else {
        step(run_schedule(s, order.drop_last()), order.last())
    }
}

/// Each index below `n` is claimed by exactly one task of `order`.
pub open spec fn each_claimed_once(order: Seq<int>, n: nat) -> bool {
    &&& forall|k: int| 0 <= k < order.len() ==> 0 <= #[trigger] order[k] < n
    &&& forall|k: int, l: int| 0 <= k < l < order.len() ==> order[k] != order[l]
    &&& forall|j: int| 0 <= j < n ==> order.contains(j)
}

} // verus!
