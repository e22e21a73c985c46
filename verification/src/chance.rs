//! The source of random numbers, and the calls into the `rand` crate.
//!
//! Every draw of the library goes through a `RandomSource`. One that was
//! made from a seed gives the same draws each time, which is what a test
//! needs; one that was made without gives draws that nobody can foretell.
//!
//! Of the calls into `rand` nothing is proved: each contract says what `rand`
//! promises of every outcome, and the callers are verified against that
//! alone. Which outcome comes, and how often, is stated nowhere in this
//! library.

use rand::distributions::Distribution;
use rand::distributions::WeightedIndex;
use rand::rngs::StdRng;
use rand::Rng;
use rand::SeedableRng;
use vstd::prelude::*;

verus! {

/// `rand::rngs::StdRng`, the standard generator of `rand`. Verified code
/// only keeps it and hands it on.
#[verifier::external_type_specification]
#[verifier::external_body]
pub struct ExStdRng(rand::rngs::StdRng);

/// A generator of random numbers.
pub struct RandomSource {
    rng: StdRng,
}

/// The sum of the weights.
pub open spec fn total(weights: Seq<u8>) -> nat
    decreases weights.len(),
{
    if weights.len() == 0 {
        0
    } else {
        total(weights.drop_last()) + weights.last() as nat
    }
}

/// `SeedableRng::from_entropy` for `StdRng`: a generator with a seed from
/// the operating system. Nothing is said of it.
#[verifier::external_body]
fn generator_from_entropy() -> StdRng {
    StdRng::from_entropy()
}

/// `SeedableRng::seed_from_u64` for `StdRng`: the generator that the seed
/// stands for. Nothing is said of it.
#[verifier::external_body]
fn generator_from_seed(seed: u64) -> StdRng {
    StdRng::seed_from_u64(seed)
}

/// `Rng::gen_range` on `0..bound`: a number below `bound`. It panics on an
/// empty range, so `bound` must not be zero.
#[verifier::external_body]
fn draw_below(rng: &mut StdRng, bound: usize) -> (i: usize)
    requires
        bound > 0,
    ensures
        i < bound,
{
    rng.gen_range(0..bound)
}

/// `WeightedIndex::new` and one `sample` of what it built: the index of one
/// of the weights, never of a weight that is zero.
///
/// `WeightedIndex::new` refuses an empty list and one that sums to zero, and
/// it adds the weights up in `u8`; so the sum must be positive and fit.
/// `sample` looks for the first running sum above a number that it drew
/// below the total, which a weight of zero cannot be the first to exceed.
#[verifier::external_body]
fn draw_weighted(rng: &mut StdRng, weights: &Vec<u8>) -> (i: usize)
    requires
        0 < total(weights@) <= u8::MAX,
    ensures
        i < weights@.len(),
        weights@[i as int] > 0,
{
    WeightedIndex::new(weights.as_slice()).unwrap().sample(rng)
}

impl RandomSource {
    /// A source that nobody can foretell.
    pub fn new() -> RandomSource {
        RandomSource { rng: generator_from_entropy() }
    }

    /// The source of a seed, for draws that can be repeated.
    pub fn from_seed(seed: u64) -> RandomSource {
        RandomSource { rng: generator_from_seed(seed) }
    }

    /// A number below `bound`, each as likely as any other.
    pub fn index_below(&mut self, bound: usize) -> (i: usize)
        requires
            bound > 0,
        ensures
            i < bound,
    {
        draw_below(&mut self.rng, bound)
    }

    /// The index of one of the weights, each as likely as its weight is
    /// large. The index of a weight of zero never comes.
    pub fn weighted_index(&mut self, weights: &Vec<u8>) -> (i: usize)
        requires
            0 < total(weights@) <= u8::MAX,
        ensures
            i < weights@.len(),
            weights@[i as int] > 0,
    {
        draw_weighted(&mut self.rng, weights)
    }
}

} // verus!
