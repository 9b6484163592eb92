//! Element-wise transforms of an integer sequence.

use vstd::prelude::*;
use rayon::iter::{IntoParallelRefMutIterator, ParallelIterator};
use crate::model::{all_below_max, all_squares_fit, incremented, squared};

verus! {

/// Whether every element of `vec` can be raised by one within `i32`.
pub fn can_raise_all(vec: &Vec<i32>) -> (b: bool)
    ensures
        b == all_below_max(vec@),
{
    let mut i: usize = 0;
    while i < vec.len()
        invariant
            i <= vec.len(),
            forall|j: int| 0 <= j < i ==> vec[j] < i32::MAX,
        decreases vec.len() - i,
    {
        if vec[i] == i32::MAX {
            return false;
        }
        i += 1;
    }
    true
}

/// Whether the square of every element of `vec` fits in `i32`.
pub fn can_square_all(vec: &Vec<i32>) -> (b: bool)
    ensures
        b == all_squares_fit(vec@),
{
    let mut i: usize = 0;
    while i < vec.len()
        invariant
            i <= vec.len(),
            forall|j: int| 0 <= j < i ==> squared(#[trigger] vec[j]) <= i32::MAX,
        decreases vec.len() - i,
    {
        let x: i32 = vec[i];
        assert(0 <= x * x) by (nonlinear_arith);
        if x.checked_mul(x).is_none() {
            assert(squared(vec[i as int]) > i32::MAX);
            return false;
        }
        i += 1;
    }
    true
}

/// A new sequence that holds every element of `vec` raised by one, in the
/// same order.
pub fn iter1(vec: Vec<i32>) -> (out: Vec<i32>)
    requires
        all_below_max(vec@),
    ensures
        out@ == incremented(vec@),
        out.len() == vec.len(),
        forall|i: int| 0 <= i < vec.len() ==> out[i] == vec[i] + 1,
{
    let mut out: Vec<i32> = Vec::new();
    let mut i: usize = 0;
    while i < vec.len()
        invariant
            i <= vec.len(),
            all_below_max(vec@),
            out.len() == i,
            forall|j: int| 0 <= j < i ==> out[j] == vec[j] + 1,
        decreases vec.len() - i,
    {
        out.push(vec[i] + 1);
        i += 1;
    }
    assert(out@ =~= incremented(vec@));
    out
}

/// Replaces the integer behind `x` by its square.
pub fn square_in_place(x: &mut i32)
    requires
        squared(*old(x)) <= i32::MAX,
    ensures
        *final(x) == squared(*old(x)),
{
    let value: i32 = *x;
    assert(0 <= value * value) by (nonlinear_arith);
    *x = value * value;
}

/// Hands the elements of `vec` to rayon: `par_iter_mut` makes a parallel
/// iterator over mutable references to them, and `for_each` runs the
/// operation on each item that the iterator produces, on rayon's worker
/// threads, and returns when all are done. The operation is
/// `square_in_place`; the `requires` below keeps its precondition for every
/// element, so that no worker overflows.
///
/// Not proved here, and taken from rayon: that the iterator produces each
/// element of the vector exactly once and nothing else, so that afterwards
/// every position holds the square of what it held before, and the length
/// is unchanged.
#[verifier::external_body]
fn par_square_each(vec: &mut Vec<i32>)
    requires
        all_squares_fit(old(vec)@),
    ensures
        final(vec)@.len() == old(vec)@.len(),
        forall|i: int| 0 <= i < old(vec)@.len() ==> final(vec)@[i] == squared(old(vec)@[i]),
{
    vec.par_iter_mut().for_each(|x| square_in_place(x));
}

/// Squares every element in place, the elements shared out among parallel
/// workers, and hands the sequence back once all of them are done. Each
/// element is touched exactly once and keeps its position.
pub fn iter2_par(vec: Vec<i32>) -> (out: Vec<i32>)
    requires
        all_squares_fit(vec@),
    ensures
        out.len() == vec.len(),
        forall|i: int| 0 <= i < vec.len() ==> out[i] == squared(vec[i]),
{
    let mut vec = vec;
    par_square_each(&mut vec);
    vec
}

} // verus!
