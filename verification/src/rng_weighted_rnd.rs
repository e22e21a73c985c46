//! How many syllables a name gets: a draw from a small table of counts,
//! each with a weight.

use vstd::prelude::*;

use crate::chance::total;
use crate::chance::RandomSource;

verus! {

/// A table of counts and their weights, side by side: `weights[i]` is the
/// weight of `counts[i]`.
pub struct WeightedRnd {
    pub counts: Vec<u8>,
    pub weights: Vec<u8>,
}

impl WeightedRnd {
    /// The table can be drawn from: each count has its weight, some weight
    /// is positive, and the weights add up to no more than a `u8` holds.
    pub open spec fn wf(&self) -> bool {
        &&& self.counts@.len() == self.weights@.len()
        &&& 0 < total(self.weights@) <= u8::MAX
    }

    /// The table can give `count`: it lists it with a positive weight.
    pub open spec fn offers(&self, count: u8) -> bool {
        exists|i: int|
            0 <= i < self.counts@.len() && i < self.weights@.len() && self.counts@[i] == count
                && self.weights@[i] > 0
    }

    /// The counts that the table can give.
    pub open spec fn offered(&self) -> Set<u8> {
        Set::new(|count: u8| self.offers(count))
    }

    /// Whether the table can be drawn from.
    pub fn is_valid(&self) -> (b: bool)
        ensures
            b == self.wf(),
    {
        if self.counts.len() != self.weights.len() {
            return false;
        }
        let mut sum: u8 = 0;
        let mut i: usize = 0;
        while i < self.weights.len()
            invariant
                i <= self.weights@.len(),
                sum == total(self.weights@.take(i as int)),
            decreases self.weights@.len() - i,
        {
            proof {
                let next = self.weights@.take(i + 1);
                assert(next.drop_last() =~= self.weights@.take(i as int));
                lemma_total_grows(self.weights@, i + 1);
            }
            if self.weights[i] > u8::MAX - sum {
                return false;
            }
            sum = sum + self.weights[i];
            i += 1;
        }
        assert(self.weights@.take(i as int) =~= self.weights@);
        sum > 0
    }

    /// One of the counts, drawn by weight. A count of weight zero never
    /// comes.
    pub fn gen(&self) -> (count: u8)
        requires
            self.wf(),
        ensures
            self.offered().contains(count),
    {
        let mut source = RandomSource::new();
        self.gen_with(&mut source)
    }

    /// One of the counts, drawn by weight from `source`.
    pub fn gen_with(&self, source: &mut RandomSource) -> (count: u8)
        requires
            self.wf(),
        ensures
            self.offered().contains(count),
    {
        let index = source.weighted_index(&self.weights);
        self.counts[index]
    }
}

/// The sum of the first weights is no more than the sum of all.
pub proof fn lemma_total_grows(weights: Seq<u8>, n: int)
    requires
        0 <= n <= weights.len(),
    ensures
        total(weights.take(n)) <= total(weights),
    decreases weights.len() - n,
{
    if n < weights.len() {
        lemma_total_grows(weights, n + 1);
        assert(weights.take(n + 1).drop_last() =~= weights.take(n));
    } else {
        assert(weights.take(n) =~= weights);
    }
}

/// The usual lengths of a name: 2 to 5 syllables, 3 most often.
#[allow(non_snake_case)]
pub fn NORMAL_WEIGHT() -> (table: WeightedRnd)
    ensures
        table.counts@ == seq![2u8, 3u8, 4u8, 5u8],
        table.weights@ == seq![4u8, 10u8, 3u8, 1u8],
        table.wf(),
        table.offered() == set![2u8, 3u8, 4u8, 5u8],
{
    let table = WeightedRnd { counts: vec![2, 3, 4, 5], weights: vec![4, 10, 3, 1] };
    proof {
        lemma_total_of_four(table.weights@);
        assert(table.counts@[0] == 2 && table.counts@[1] == 3 && table.counts@[2] == 4
            && table.counts@[3] == 5);
    }
    table
}

/// The lengths of a short name: 2 syllables, now and then 3.
#[allow(non_snake_case)]
pub fn SHORT_WEIGHT() -> (table: WeightedRnd)
    ensures
        table.counts@ == seq![2u8, 3u8],
        table.weights@ == seq![4u8, 1u8],
        table.wf(),
        table.offered() == set![2u8, 3u8],
{
    let table = WeightedRnd { counts: vec![2, 3], weights: vec![4, 1] };
    proof {
        lemma_total_of_two(table.weights@);
        assert(table.counts@[0] == 2 && table.counts@[1] == 3);
    }
    table
}

proof fn lemma_total_of_two(weights: Seq<u8>)
    requires
        weights.len() == 2,
    ensures
        total(weights) == weights[0] + weights[1],
{
    reveal_with_fuel(total, 3);
}

proof fn lemma_total_of_four(weights: Seq<u8>)
    requires
        weights.len() == 4,
    ensures
        total(weights) == weights[0] + weights[1] + weights[2] + weights[3],
{
    let three = weights.drop_last();
    let two = three.drop_last();
    lemma_total_of_two(two);
    assert(total(weights) == total(three) + weights.last());
}

} // verus!
