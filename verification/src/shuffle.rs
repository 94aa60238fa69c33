//! Random reordering of a list of track indices.

use rand::seq::SliceRandom;
use vstd::prelude::*;

verus! {

/// Calls `SliceRandom::shuffle` of the `rand` crate on the whole list, with
/// the thread's generator from `rand::rng`. The call only swaps elements of
/// the list in place, so whatever order comes out holds the same indices,
/// each as often as before. Which order comes out is left open.
#[verifier::external_body]
pub(crate) fn shuffle_in_place(order: &mut Vec<usize>)
    ensures
        final(order)@.to_multiset() == old(order)@.to_multiset(),
{
    order.shuffle(&mut rand::rng());
}

} // verus!
