//! Weighted sampling of table positions, on top of `rand`.

use vstd::prelude::*;
use vstd::pervasive::unreached;
use rand::distr::weighted::Error as WeightError;
use rand::distr::weighted::WeightedIndex;
use rand::distr::Distribution;
use rand::rngs::ThreadRng;
use crate::error::SimError;
use crate::rarity::rarity_weights;
use crate::rarity::weight_table;
use crate::rarity::Rarity;
use crate::rarity::RARITY_COUNT;

verus! {

/// `rand`'s weighted distribution over positions, with `u64` weights. Its
/// inside is hidden from the verifier: what it holds is spoken of through
/// `dist_weights`.
#[verifier::external_body]
pub struct WeightedDist {
    inner: WeightedIndex<u64>,
}

/// `rand`'s thread-local generator; opaque here.
#[verifier::external_type_specification]
#[verifier::external_body]
pub struct ExThreadRng(ThreadRng);

/// `rand`'s error for rejected weights; opaque here.
#[verifier::external_type_specification]
#[verifier::external_body]
pub struct ExWeightError(WeightError);

/// The weights a distribution was made with, in order.
pub uninterp spec fn dist_weights(d: WeightedDist) -> Seq<u64>;

/// Sum of a sequence of weights, as a number.
pub open spec fn weight_sum(s: Seq<u64>) -> nat
    decreases s.len(),
{
    if s.len() == 0 {
        0
    } else {
        weight_sum(s.drop_last()) + s.last() as nat
    }
}

/// Weights that `rand` takes: at least one, with a sum that is not zero and
/// fits in `u64`.
pub open spec fn summable(s: Seq<u64>) -> bool {
    s.len() > 0 && 0 < weight_sum(s) <= u64::MAX
}

/// Weights that are accepted: at least one, and every one positive.
pub open spec fn valid_weights(s: Seq<u64>) -> bool {
    &&& s.len() > 0
    &&& forall|i: int| 0 <= i < s.len() ==> s[i] > 0
}

/// Calls `WeightedIndex::new` of `rand` on a slice of weights. Trusted: it
/// succeeds exactly when there is at least one weight, the sum of the weights
/// fits in `u64` and is not zero; the distribution then stands for those
/// weights in that order.
#[verifier::external_body]
fn weighted_index_new(weights: &Vec<u64>) -> (r: Result<WeightedDist, WeightError>)
    ensures
        match r {
            Ok(d) => summable(weights@) && dist_weights(d) == weights@,
            Err(_) => !summable(weights@),
        },
{
    match WeightedIndex::new(weights) {
        Ok(inner) => Ok(WeightedDist { inner }),
        Err(e) => Err(e),
    }
}

/// Calls `Distribution::sample` of `rand` on a `WeightedIndex`. Trusted:
/// whatever the generator yields, the position returned lies within the
/// weights and its weight is not zero.
#[verifier::external_body]
fn sample_index(dist: &WeightedDist, rng: &mut ThreadRng) -> (i: usize)
    ensures
        i < dist_weights(*dist).len(),
        dist_weights(*dist)[i as int] > 0,
{
    dist.inner.sample(rng)
}

/// Calls `rand::rng` for a handle on the thread-local generator. Nothing is
/// claimed of it. `rand` panics here if the operating system gives it no
/// random bytes to seed the generator with.
#[verifier::external_body]
fn thread_rng() -> ThreadRng {
    rand::rng()
}

/// A sum of weights is at least each of them.
pub proof fn lemma_weight_sum_bounds(s: Seq<u64>, i: int)
    requires
        0 <= i < s.len(),
    ensures
        s[i] <= weight_sum(s),
    decreases s.len(),
{
    if i < s.len() - 1 {
        lemma_weight_sum_bounds(s.drop_last(), i);
    }
}

/// The fixed table is valid and its weights sum to 1000.
pub proof fn lemma_weight_table_sum()
    ensures
        valid_weights(weight_table()),
        weight_sum(weight_table()) == 1000,
{
    let t = weight_table();
    let t4 = seq![530u64, 300u64, 125u64, 40u64];
    let t3 = seq![530u64, 300u64, 125u64];
    let t2 = seq![530u64, 300u64];
    let t1 = seq![530u64];
    assert(t.drop_last() =~= t4);
    assert(t4.drop_last() =~= t3);
    assert(t3.drop_last() =~= t2);
    assert(t2.drop_last() =~= t1);
    assert(t1.drop_last() =~= Seq::<u64>::empty());
    assert(weight_sum(Seq::<u64>::empty()) == 0);
    assert(weight_sum(t1) == 530);
    assert(weight_sum(t2) == 830);
    assert(weight_sum(t3) == 955);
    assert(weight_sum(t4) == 995);
}

/// A weighted distribution over positions together with the generator it
/// draws from. Built once and used for every draw of a run.
pub struct WeightedSampler {
    dist: WeightedDist,
    rng: ThreadRng,
}

impl WeightedSampler {
    /// The weights the sampler was built with, in order.
    pub closed spec fn weights(&self) -> Seq<u64> {
        dist_weights(self.dist)
    }

    /// Builds a sampler in which position `i` is drawn with probability
    /// `weights[i]` over the sum of the weights. Fails with `InvalidWeights`
    /// exactly when there is no weight, some weight is zero, or the sum does
    /// not fit in `u64`.
    pub fn new(weights: &Vec<u64>) -> (r: Result<WeightedSampler, SimError>)
        ensures
            r.is_ok() <==> valid_weights(weights@) && weight_sum(weights@) <= u64::MAX,
            r matches Ok(s) ==> s.weights() == weights@,
            r matches Err(e) ==> e == SimError::InvalidWeights,
    {
        let n = weights.len();
        if n == 0 {
            return Err(SimError::InvalidWeights);
        }
        let mut i: usize = 0;
        while i < n
            invariant
                n == weights@.len(),
                i <= n,
                forall|j: int| 0 <= j < i ==> weights@[j] > 0,
            decreases n - i,
        {
            if weights[i] == 0 {
                return Err(SimError::InvalidWeights);
            }
            i = i + 1;
        }
        proof {
            lemma_weight_sum_bounds(weights@, 0);
        }
        match weighted_index_new(weights) {
            Ok(dist) => Ok(WeightedSampler { dist, rng: thread_rng() }),
            Err(_) => Err(SimError::InvalidWeights),
        }
    }

    /// Draws one position at random: always within the weights, never one of
    /// weight zero. The weights stay as they are.
    pub fn sample(&mut self) -> (i: usize)
        ensures
            final(self).weights() == old(self).weights(),
            i < old(self).weights().len(),
            old(self).weights()[i as int] > 0,
    {
        sample_index(&self.dist, &mut self.rng)
    }

    /// Draws one category at random from a sampler over five weights, one
    /// for each category in declaration order: the category at the position
    /// that was sampled. Whatever is sampled, the category drawn is one whose
    /// weight is not zero, and the weights stay as they are.
    pub fn draw(&mut self) -> (r: Rarity)
        requires
            old(self).weights().len() == RARITY_COUNT,
        ensures
            final(self).weights() == old(self).weights(),
            old(self).weights()[r.position()] > 0,
    {
        let i = self.sample();
        match Rarity::from_index(i) {
            Some(r) => r,
            None => unreached(),
        }
    }
}

/// Builds the sampler over the five fixed weights. With these weights it
/// always succeeds.
pub fn build_distribution() -> (r: Result<WeightedSampler, SimError>)
    ensures
        r matches Ok(s) && s.weights() == weight_table(),
{
    let weights = rarity_weights();
    proof {
        lemma_weight_table_sum();
    }
    WeightedSampler::new(&weights)
}

} // verus!
