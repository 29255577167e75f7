use vstd::prelude::*;

use rand::rngs::StdRng;
use rand::seq::SliceRandom;
use rand::SeedableRng;

verus! {

/// The seeded pseudorandom generator that drives the whole search: one
/// sequential stream feeds both perturbation and acceptance draws.  Declared
/// so that verified code can hold and thread one; its state stays opaque.
#[verifier::external_type_specification]
#[verifier::external_body]
pub struct ExStdRng(StdRng);

/// Relies on rand's `StdRng::seed_from_u64`: builds a generator from a seed.
#[verifier::external_body]
pub fn rng_from_seed(seed: u64) -> StdRng {
    StdRng::seed_from_u64(seed)
}

/// Relies on rand's `SliceRandom::shuffle`, a Fisher-Yates pass of in-place
/// swaps: the slice afterwards holds exactly the same elements, rearranged.
#[verifier::external_body]
pub fn shuffle_positions(v: &mut Vec<usize>, rng: &mut StdRng)
    ensures
        final(v)@.len() == old(v)@.len(),
        final(v)@.to_multiset() == old(v)@.to_multiset(),
{
    v.shuffle(rng);
}

/// Relies on rand's `SliceRandom::shuffle`, as `shuffle_positions` does, at
/// the element type the genome holds.
#[verifier::external_body]
pub fn shuffle_letters(v: &mut Vec<char>, rng: &mut StdRng)
    ensures
        final(v)@.len() == old(v)@.len(),
        final(v)@.to_multiset() == old(v)@.to_multiset(),
{
    v.shuffle(rng);
}

} // verus!
