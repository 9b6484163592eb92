//! A fixed-length integer sequence behind one exclusive lock. Each worker
//! task is bound to one index and, while it holds the lock, adds one to the
//! element at that index.

use vstd::prelude::*;
use crate::model::{all_below_max, can_increment, fresh, incremented, run_schedule, step, ArrayState};

verus! {

/// Why an increment, or a whole run, did not deliver.
#[derive(Debug, Clone, Copy, PartialEq, Eq, Structural)]
pub enum RunError {
    /// The task bound to `index` could not complete its own increment.
    TaskFailure { index: usize },
    /// The task bound to `index` found the lock unusable after an earlier
    /// task's failure.
    LockPoisoned { index: usize },
}

/// What the task bound to `index` reports when it meets the state `s`.
pub open spec fn outcome(s: ArrayState, index: usize) -> Result<(), RunError> {
    if s.failed is Some {
        Err(RunError::LockPoisoned { index })
    } else if can_increment(s.cells, index as int) {
        Ok(())
    } else {
        Err(RunError::TaskFailure { index })
    }
}

/// The indices of a schedule as mathematical integers.
pub open spec fn schedule(order: Seq<usize>) -> Seq<int> {
    order.map_values(|index: usize| index as int)
}

/// The value that the lock protects.
pub struct SharedCounterArray {
    cells: Vec<i32>,
    failed: Option<usize>,
}

impl View for SharedCounterArray {
    type V = ArrayState;

    closed spec fn view(&self) -> ArrayState {
        ArrayState {
            cells: self.cells@,
            failed: match self.failed {
                Some(i) => Some(i as int),
                None => None,
            },
        }
    }
}

impl SharedCounterArray {
    /// Takes the initial sequence; no task has run yet.
    pub fn new(initial: Vec<i32>) -> (s: Self)
        ensures
            s@ == fresh(initial@),
    {
        SharedCounterArray { cells: initial, failed: None }
    }

    /// The number of elements, fixed when the array is made.
    pub fn len(&self) -> (n: usize)
        ensures
            n == self@.cells.len(),
    {
        self.cells.len()
    }

    /// Whether an earlier failure has left the lock unusable.
    pub fn is_poisoned(&self) -> (b: bool)
        ensures
            b == (self@.failed is Some),
    {
        self.failed.is_some()
    }

    /// The elements as they stand, increments of finished tasks included.
    pub fn cells(&self) -> (v: &Vec<i32>)
        ensures
            v@ == self@.cells,
    {
        &self.cells
    }

    /// The critical section of the task bound to `index`.
    pub fn increment(&mut self, index: usize) -> (res: Result<(), RunError>)
        ensures
            final(self)@ == step(old(self)@, index as int),
            final(self)@.cells.len() == old(self)@.cells.len(),
            res == outcome(old(self)@, index),
    {
        if self.failed.is_some() {
            return Err(RunError::LockPoisoned { index });
        }
        if index < self.cells.len() && self.cells[index] < i32::MAX {
            let raised: i32 = self.cells[index] + 1;
            self.cells.set(index, raised);
            Ok(())
        } else {
            self.failed = Some(index);
            Err(RunError::TaskFailure { index })
        }
    }

    /// What the caller reads once every task has been joined: the sequence,
    /// or the task whose failure made it untrustworthy.
    pub fn finish(self) -> (res: Result<Vec<i32>, RunError>)
        ensures
            self@.failed is None ==> res is Ok && res->Ok_0@ == self@.cells,
            self@.failed is Some ==> res is Err && res->Err_0 == (RunError::TaskFailure {
                index: self@.failed->Some_0 as usize,
            }),
    {
        match self.failed {
            Some(index) => Err(RunError::TaskFailure { index }),
            None => Ok(self.cells),
        }
    }
}

/// Runs one task for each index of `vector`, the tasks taking the lock by
/// rising index, and reports the sequence once all of them are done.
///
/// Every element comes back raised by exactly one, at its own position. Where
/// an element cannot be raised, the run fails and names the first such index.
pub fn arc2_increment(vector: Vec<i32>) -> (res: Result<Vec<i32>, RunError>)
    ensures
        vector.len() == 0 ==> res is Ok && res->Ok_0.len() == 0,
        all_below_max(vector@) ==> res is Ok && res->Ok_0@ == incremented(vector@),
        all_below_max(vector@) ==> res->Ok_0.len() == vector.len() && forall|i: int|
            0 <= i < vector.len() ==> res->Ok_0[i] == vector[i] + 1,
        !all_below_max(vector@) ==> res is Err && res->Err_0 is TaskFailure && {
            let index = res->Err_0->TaskFailure_index;
            &&& index < vector.len()
            &&& vector[index as int] == i32::MAX
            &&& forall|j: int| 0 <= j < index ==> vector[j] < i32::MAX
        },
{
    let ghost start = vector@;
    let len: usize = vector.len();
    let mut shared = SharedCounterArray::new(vector);
    let mut i: usize = 0;
    while i < len
        invariant
            i <= len,
            len == start.len(),
            shared@.cells.len() == len,
            shared@.failed is None ==> forall|j: int|
                0 <= j < len ==> #[trigger] shared@.cells[j] == start[j] + (if j < i {
                    1int
                } else {
                    0int
                }),
            shared@.failed is None ==> forall|j: int| 0 <= j < i ==> start[j] < i32::MAX,
            shared@.failed is Some ==> {
                let culprit = shared@.failed->Some_0;
                &&& 0 <= culprit < i
                &&& start[culprit] == i32::MAX
                &&& forall|j: int| 0 <= j < culprit ==> start[j] < i32::MAX
            },
        decreases len - i,
    {
        let _ = shared.increment(i);
        i += 1;
    }
    proof {
        if shared@.failed is None {
            assert(all_below_max(start));
            assert(shared@.cells =~= incremented(start));
        }
    }
    shared.finish()
}

/// Runs one task for each entry of `order`, the tasks taking the lock in the
/// order of the entries, and reports as `finish` does once all are done.
pub fn run_scheduled(initial: Vec<i32>, order: &Vec<usize>) -> (res: Result<Vec<i32>, RunError>)
    ensures
        ({
            let end = run_schedule(fresh(initial@), schedule(order@));
            &&& end.failed is None ==> res is Ok && res->Ok_0@ == end.cells
            &&& end.failed is Some ==> res is Err && res->Err_0 == (RunError::TaskFailure {
                index: end.failed->Some_0 as usize,
            })
        }),
{
    let ghost sched = schedule(order@);
    let mut shared = SharedCounterArray::new(initial);
    let mut k: usize = 0;
    while k < order.len()
        invariant
            k <= order.len(),
            sched == schedule(order@),
            shared@ == run_schedule(fresh(initial@), sched.take(k as int)),
        decreases order.len() - k,
    {
        proof {
            let next = sched.take(k + 1);
            assert(next.drop_last() =~= sched.take(k as int));
            assert(next.last() == order[k as int] as int);
        }
        let _ = shared.increment(order[k]);
        k += 1;
    }
    proof {
        assert(sched.take(k as int) =~= sched);
    }
    shared.finish()
}

} // verus!
