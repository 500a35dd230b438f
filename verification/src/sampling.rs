use rand::seq::SliceRandom;
use vstd::prelude::*;

verus! {

/// The thread-local random number generator of the `rand` crate.
#[verifier::external_type_specification]
#[verifier::external_body]
pub struct ExThreadRng(rand::rngs::ThreadRng);

/// Calls `SliceRandom::choose` of `rand` on `items`: it returns one element
/// of the slice, chosen at random, or `None` when the slice is empty.
/// Which element comes back depends on the generator and is not stated.
#[verifier::external_body]
pub(crate) fn choose_one<T: Copy>(items: &[T], rng: &mut rand::rngs::ThreadRng) -> (r: Option<T>)
    ensures
        (items@.len() == 0) <==> r is None,
        r matches Some(x) ==> items@.contains(x),
{
    items.choose(rng).copied()
}

} // verus!
