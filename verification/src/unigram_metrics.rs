//! Metrics over weighted unigrams: single keystrokes.

use vstd::prelude::*;

use crate::fixed::sat_add;
use crate::key::LayerKey;

pub mod character_constraints;

verus! {

/// A weighted unigram: one keystroke and its corpus weight (in fixed-point
/// millionths of relative frequency).
#[derive(Clone, Copy, Debug)]
pub struct WeightedUnigram {
    pub key: LayerKey,
    pub weight: u64,
}

/// A metric over single keystrokes.
pub trait UnigramMetric: Sized {
    /// The name of the metric.
    spec fn name_spec(&self) -> Seq<char>;

    /// The cost the metric assigns to one weighted keystroke.
    spec fn individual_cost_spec(&self, key: LayerKey, weight: u64, total_weight: u64) -> Option<
        u64,
    >;

    /// Return the name of the metric.
    fn name(&self) -> (r: String)
        ensures
            r@ == self.name_spec(),
    ;

    /// Compute the cost of one keystroke, or `None` where the metric does
    /// not apply.
    fn individual_cost(&self, key: &LayerKey, weight: u64, total_weight: u64) -> (r: Option<u64>)
        ensures
            r == self.individual_cost_spec(*key, weight, total_weight),
    ;
}

/// The cost an optional per-item result contributes to a total.
pub open spec fn unigram_cost_or_zero(c: Option<u64>) -> u64 {
    match c {
        Option::Some(v) => v,
        Option::None => 0,
    }
}

/// The saturating sum of the costs a metric assigns to a unigram
/// collection.
pub open spec fn sum_unigram_costs<M: UnigramMetric>(
    metric: M,
    items: Seq<WeightedUnigram>,
    total_weight: u64,
) -> u64
    decreases items.len(),
{
    if items.len() == 0 {
        0
    } else {
        sat_add(
            sum_unigram_costs(metric, items.drop_last(), total_weight),
            unigram_cost_or_zero(
                metric.individual_cost_spec(
                    items.last().key,
                    items.last().weight,
                    total_weight,
                ),
            ),
        )
    }
}

/// Sum the costs of a unigram collection under a metric.
pub fn total_unigram_cost<M: UnigramMetric>(
    metric: &M,
    unigrams: &Vec<WeightedUnigram>,
    total_weight: u64,
) -> (r: u64)
    ensures
        r == sum_unigram_costs(*metric, unigrams@, total_weight),
{
    let mut total: u64 = 0;
    let mut i: usize = 0;
    while i < unigrams.len()
        invariant
            0 <= i <= unigrams@.len(),
            total == sum_unigram_costs(*metric, unigrams@.take(i as int), total_weight),
        decreases unigrams@.len() - i,
    {
        proof {
            assert(unigrams@.take(i + 1).drop_last() =~= unigrams@.take(i as int));
            assert(unigrams@.take(i + 1).last() == unigrams@[i as int]);
        }
        let item = &unigrams[i];
        let cost_option = metric.individual_cost(&item.key, item.weight, total_weight);
        match cost_option {
            Option::Some(cost) => {
                total = total.saturating_add(cost);
            },
            Option::None => {},
        }
        i = i + 1;
    }
    proof {
        assert(unigrams@.take(unigrams@.len() as int) =~= unigrams@);
    }
    total
}

} // verus!
