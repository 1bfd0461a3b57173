//! The source of randomness. Nothing here is proved: each contract states
//! what the `rand` crate's source shows of the call in the body.

use rand::rngs::ThreadRng;
use rand::seq::SliceRandom;
use rand::Rng;
use crate::shuffle::texts;
use vstd::prelude::*;

verus! {

/// `rand::rngs::ThreadRng`, the thread-local generator. Opaque to the verifier.
#[verifier::external_type_specification]
#[verifier::external_body]
pub struct ExThreadRng(ThreadRng);

/// `Rng::gen_range` on an inclusive `u64` range. The range `low..=high` is
/// not empty when `low <= high`, so the call does not panic, and the value
/// drawn lies inside the range, both ends included. Which value comes back
/// is left open.
#[verifier::external_body]
pub(crate) fn gen_range_inclusive(rng: &mut ThreadRng, low: u64, high: u64) -> (drawn: u64)
    requires
        low <= high,
    ensures
        low <= drawn <= high,
{
    rng.gen_range(low..=high)
}

/// `SliceRandom::shuffle` on the elements of a vector. The shuffle only
/// swaps elements, so the vector afterwards holds the same texts, each as
/// often as before; their order is left open.
#[verifier::external_body]
pub(crate) fn shuffle_in_place(rng: &mut ThreadRng, items: &mut Vec<String>)
    ensures
        texts(final(items)@).to_multiset() == texts(old(items)@).to_multiset(),
{
    items.shuffle(rng);
}

} // verus!
