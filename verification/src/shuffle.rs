//! The order of the playlist: the candidate paths, shuffled.

use crate::random::shuffle_in_place;
use rand::rngs::ThreadRng;
use vstd::prelude::*;

verus! {

/// The texts of `items`, in the same order.
pub open spec fn texts(items: Seq<String>) -> Seq<Seq<char>> {
    Seq::new(items.len(), |i: int| items[i]@)
}

/// Whether `shuffled` holds the paths of `given`, each as often as `given`
/// does, in whatever order.
pub open spec fn permutation_of(shuffled: Seq<Seq<char>>, given: Seq<Seq<char>>) -> bool {
    shuffled.to_multiset() == given.to_multiset()
}

/// A permutation is as long as what it permutes, and holds the same set of
/// paths.
pub proof fn lemma_permutation_keeps_length_and_set(
    shuffled: Seq<Seq<char>>,
    given: Seq<Seq<char>>,
)
    requires
        permutation_of(shuffled, given),
    ensures
        shuffled.len() == given.len(),
        shuffled.to_set() == given.to_set(),
{
    shuffled.to_multiset_ensures();
    given.to_multiset_ensures();
    assert forall|path: Seq<char>| shuffled.to_set().contains(path) == given.to_set().contains(
        path,
    ) by {
        assert(shuffled.contains(path) <==> shuffled.to_multiset().count(path) > 0);
        assert(given.contains(path) <==> given.to_multiset().count(path) > 0);
    }
    assert(shuffled.to_set() =~= given.to_set());
}

/// Shuffles `paths` in place. Whatever order the generator picks, the
/// outcome is a permutation of what was given: as many paths, and the same
/// ones.
pub fn shuffle(paths: &mut Vec<String>, rng: &mut ThreadRng)
    ensures
        permutation_of(texts(final(paths)@), texts(old(paths)@)),
        final(paths)@.len() == old(paths)@.len(),
        texts(final(paths)@).to_set() == texts(old(paths)@).to_set(),
{
    shuffle_in_place(rng, paths);
    proof {
        lemma_permutation_keeps_length_and_set(texts(paths@), texts(old(paths)@));
    }
}

} // verus!
