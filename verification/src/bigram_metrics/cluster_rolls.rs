//! Cluster-roll metric: how a same-finger roll inside one key cluster
//! feels.
//!
//! Some same-finger movements are comfortable (centre to south), others
//! are not; a directional cost table prices each movement, scaled by a
//! per-finger multiplier and the frequency amplifier.

use vstd::prelude::*;

use crate::bigram_metrics::BigramMetric;
use crate::config::DirectionCost;
use crate::config::DirectionCostTable;
use crate::config::FingerFactors;
use crate::config::FrequencyAmplifier;
use crate::fixed::fx_mul;
use crate::fixed::fx_mul_spec;
use crate::key::Finger;
use crate::key::LayerKey;

verus! {

/// Configuration of the cluster-roll metric.
#[derive(Clone, Debug)]
pub struct Parameters {
    /// Base cost of a movement without a table entry.
    pub default_cost: u64,
    /// Leave thumb bigrams unpenalized.
    pub ignore_thumb: bool,
    /// Directional base costs.
    pub costs: Vec<DirectionCost>,
    /// Per-finger multipliers.
    pub finger_multipliers: FingerFactors,
    /// Minimum relative bigram frequency for the heavy penalty.
    pub critical_bigram_fraction: Option<u64>,
    /// Multiplier for bigrams above the critical fraction.
    pub critical_bigram_factor: Option<u64>,
}

/// The cluster-roll metric.
#[derive(Clone, Debug)]
pub struct ClusterRolls {
    pub ignore_thumb: bool,
    pub costs: DirectionCostTable,
    pub finger_multipliers: FingerFactors,
    pub amplifier: FrequencyAmplifier,
}

impl ClusterRolls {
    /// Build the metric from its configuration.
    pub fn new(params: &Parameters) -> (r: ClusterRolls)
        ensures
            r.ignore_thumb == params.ignore_thumb,
            r.costs.entries@ == params.costs@,
            r.costs.default_cost == params.default_cost,
            r.finger_multipliers == params.finger_multipliers,
            r.amplifier.critical_fraction == params.critical_bigram_fraction,
            r.amplifier.critical_factor == params.critical_bigram_factor,
    {
        ClusterRolls {
            ignore_thumb: params.ignore_thumb,
            costs: DirectionCostTable {
                entries: params.costs.clone(),
                default_cost: params.default_cost,
            },
            finger_multipliers: params.finger_multipliers,
            amplifier: FrequencyAmplifier {
                critical_fraction: params.critical_bigram_fraction,
                critical_factor: params.critical_bigram_factor,
            },
        }
    }
}

impl BigramMetric for ClusterRolls {
    open spec fn name_spec(&self) -> Seq<char> {
        "Cluster Rolls"@
    }

    /// The cost of one bigram: zero unless both keys are struck by the
    /// same unignored finger (an identical modifier repeat does not
    /// count), and then `weight * base * finger_multiplier *
    /// frequency_multiplier` with the base cost looked up by the pair of
    /// stroke directions.
    open spec fn individual_cost_spec(
        &self,
        k1: LayerKey,
        k2: LayerKey,
        weight: u64,
        total_weight: u64,
    ) -> Option<u64> {
        if (k1 == k2 && k1.is_modifier) || k1.key.hand != k2.key.hand || k1.key.finger
            != k2.key.finger || (self.ignore_thumb && k1.key.finger == Finger::Thumb) {
            Option::Some(0)
        } else {
            let base = self.costs.cost_spec(k1.key.direction, k2.key.direction);
            let with_finger = fx_mul_spec(
                fx_mul_spec(weight, base),
                self.finger_multipliers.factor_spec(k1.key.finger),
            );
            Option::Some(
                fx_mul_spec(with_finger, self.amplifier.multiplier_spec(weight, total_weight)),
            )
        }
    }

    fn name(&self) -> (r: String) {
        String::from_str("Cluster Rolls")
    }

    fn individual_cost(
        &self,
        k1: &LayerKey,
        k2: &LayerKey,
        weight: u64,
        total_weight: u64,
    ) -> (r: Option<u64>) {
        if (*k1 == *k2 && k1.is_modifier) || k1.key.hand != k2.key.hand || k1.key.finger
            != k2.key.finger || (self.ignore_thumb && k1.key.finger == Finger::Thumb) {
            return Option::Some(0);
        }
        let base = self.costs.cost(k1.key.direction, k2.key.direction);
        let finger_multiplier = self.finger_multipliers.factor(k1.key.finger);
        let frequency_multiplier = self.amplifier.multiplier(weight, total_weight);
        let cost = fx_mul(fx_mul(fx_mul(weight, base), finger_multiplier), frequency_multiplier);
        Option::Some(cost)
    }
}

} // verus!
