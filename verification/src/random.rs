//! The random number generator and weighted index sampling of `rand`.

use vstd::prelude::*;
use rand::distr::Distribution;
use rand::distr::weighted::{Error as WeightError, WeightedIndex};
use rand::rngs::SmallRng;
use rand::RngExt;

verus! {

#[verifier::external_type_specification]
#[verifier::external_body]
pub struct ExSmallRng(SmallRng);

/// A weighted index over `u32` weights (`rand`'s `WeightedIndex<u32>`),
/// held opaque: what the logic knows of it is the weights it was built from.
#[verifier::external_body]
pub struct WeightedDrops {
    inner: WeightedIndex<u32>,
}

#[verifier::external_type_specification]
#[verifier::external_body]
pub struct ExWeightError(WeightError);

/// The sum of a sequence of weights.
pub open spec fn weight_sum(ws: Seq<u32>) -> int
    decreases ws.len(),
{
    if ws.len() == 0 {
        0
    } else {
        weight_sum(ws.drop_last()) + ws.last()
    }
}

/// The weights a weighted index was built from, in order.
pub uninterp spec fn weighted_index_weights(w: WeightedDrops) -> Seq<u32>;

/// A small generator seeded from the operating system (`rand::make_rng`).
/// Nothing is stated of the generator's state.
#[verifier::external_body]
pub(crate) fn new_small_rng() -> SmallRng {
    rand::make_rng()
}

/// Builds a weighted index over `weights` (`WeightedIndex::new`). The source
/// returns `Ok` exactly when the weights are not empty and their sum is
/// neither zero nor larger than `u32::MAX`; the index keeps the weights in
/// the order given. Which error comes otherwise is not stated.
#[verifier::external_body]
pub(crate) fn weighted_index_new(weights: Vec<u32>) -> (r: Result<WeightedDrops, WeightError>)
    ensures
        r is Ok <==> (weights@.len() > 0 && 0 < weight_sum(weights@) <= u32::MAX),
        r matches Ok(w) ==> weighted_index_weights(w) == weights@,
{
    match WeightedIndex::new(weights) {
        Ok(inner) => Ok(WeightedDrops { inner }),
        Err(e) => Err(e),
    }
}

/// Draws an index from a weighted index (`Distribution::sample`). Every
/// outcome is the position of a weight that is not zero; which one comes
/// depends on the generator and is not stated. Sampling does not panic.
#[verifier::external_body]
pub(crate) fn weighted_index_sample(w: &WeightedDrops, rng: &mut SmallRng) -> (i: usize)
    ensures
        i < weighted_index_weights(*w).len(),
        weighted_index_weights(*w)[i as int] > 0,
    no_unwind
{
    w.inner.sample(rng)
}

/// Draws a number below `bound` (`RngExt::random_range` over `0..bound`).
/// Which one comes is not stated.
#[verifier::external_body]
pub(crate) fn random_below(rng: &mut SmallRng, bound: usize) -> (i: usize)
    requires
        bound > 0,
    ensures
        i < bound,
{
    rng.random_range(0..bound)
}

/// Draws a fair coin (`RngExt::random::<bool>`). Which side comes is not
/// stated.
#[verifier::external_body]
pub(crate) fn random_bool(rng: &mut SmallRng) -> bool {
    rng.random()
}

} // verus!
