//! Random choices, drawn from the `rand` generators.
use rand::seq::SliceRandom;
use rand::Rng;
use rand::SeedableRng;
use rand_pcg::Pcg64;
use vstd::prelude::*;

verus! {

/// Relies on `rand::seq::SliceRandom::shuffle` with the thread-local
/// generator: it only swaps elements, so the list keeps its elements and
/// its length.
#[verifier::external_body]
pub(crate) fn shuffle<T>(list: &mut Vec<T>)
    ensures
        final(list)@.len() == old(list)@.len(),
        final(list)@.to_multiset() == old(list)@.to_multiset(),
{
    list.shuffle(&mut rand::thread_rng());
}

/// Relies on `rand::Rng::gen_range` over `0..n` on a `Pcg64` seeded from
/// the thread-local generator: the value lies in the range.
#[verifier::external_body]
pub(crate) fn random_below(n: u32) -> (r: u32)
    requires
        n > 0,
    ensures
        r < n,
{
    match Pcg64::from_rng(rand::thread_rng()) {
        Ok(mut rng) => rng.gen_range(0..n),
        Err(_) => 0,
    }
}

} // verus!
