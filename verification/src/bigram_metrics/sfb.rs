//! SFB (same-finger bigram) metric.
//!
//! A same-finger bigram occurs when consecutive keystrokes are typed with
//! the same finger on different keys. The cost of one SFB is its weight
//! times a directional base cost, a per-finger factor and the frequency
//! amplifier. A configurable list of "good" movements (for instance centre
//! to south) can be excluded from the penalty altogether.

use vstd::prelude::*;

use crate::bigram_metrics::BigramMetric;
use crate::bigram_metrics::is_same_finger_bigram;
use crate::bigram_metrics::same_finger_bigram;
use crate::config::DirectionCost;
use crate::config::DirectionCostTable;
use crate::config::DirectionPair;
use crate::config::FingerFactors;
use crate::config::FrequencyAmplifier;
use crate::config::contains_pair;
use crate::config::contains_pair_spec;
use crate::fixed::fx_mul;
use crate::fixed::fx_mul_spec;
use crate::key::Finger;
use crate::key::LayerKey;

verus! {

/// Configuration of the SFB metric.
#[derive(Clone, Debug)]
pub struct Parameters {
    /// Base cost of a movement without a table entry.
    pub default_cost: u64,
    /// Leave thumb bigrams unpenalized.
    pub ignore_thumb: bool,
    /// Leave bigrams involving a modifier key unpenalized.
    pub exclude_modifiers: Option<bool>,
    /// Directional base costs.
    pub costs: Vec<DirectionCost>,
    /// Per-finger multipliers.
    pub finger_factors: FingerFactors,
    /// Movements excluded from the penalty.
    pub ignore_movements: Vec<DirectionPair>,
    /// Minimum relative bigram frequency for the heavy penalty.
    pub critical_bigram_fraction: Option<u64>,
    /// Multiplier for bigrams above the critical fraction.
    pub critical_bigram_factor: Option<u64>,
}

/// The SFB metric.
#[derive(Clone, Debug)]
pub struct Sfb {
    pub ignore_thumb: bool,
    pub exclude_modifiers: bool,
    pub costs: DirectionCostTable,
    pub finger_factors: FingerFactors,
    pub ignore_movements: Vec<DirectionPair>,
    pub amplifier: FrequencyAmplifier,
}

impl Sfb {
    /// Build the metric from its configuration.
    pub fn new(params: &Parameters) -> (r: Sfb)
        ensures
            r.ignore_thumb == params.ignore_thumb,
            r.exclude_modifiers == (params.exclude_modifiers matches Option::Some(true)),
            r.costs.entries@ == params.costs@,
            r.costs.default_cost == params.default_cost,
            r.finger_factors == params.finger_factors,
            r.ignore_movements@ == params.ignore_movements@,
            r.amplifier.critical_fraction == params.critical_bigram_fraction,
            r.amplifier.critical_factor == params.critical_bigram_factor,
    {
        Sfb {
            ignore_thumb: params.ignore_thumb,
            exclude_modifiers: match params.exclude_modifiers {
                Option::Some(b) => b,
                Option::None => false,
            },
            costs: DirectionCostTable {
                entries: params.costs.clone(),
                default_cost: params.default_cost,
            },
            finger_factors: params.finger_factors,
            ignore_movements: params.ignore_movements.clone(),
            amplifier: FrequencyAmplifier {
                critical_fraction: params.critical_bigram_fraction,
                critical_factor: params.critical_bigram_factor,
            },
        }
    }
}

impl BigramMetric for Sfb {
    open spec fn name_spec(&self) -> Seq<char> {
        "SFB"@
    }

    /// The cost of one bigram: zero unless it is a same-finger bigram of
    /// two different keys that no configured exclusion covers, and then
    /// `weight * base * finger_factor * frequency_multiplier` with the
    /// base cost looked up by the pair of stroke directions.
    open spec fn individual_cost_spec(
        &self,
        k1: LayerKey,
        k2: LayerKey,
        weight: u64,
        total_weight: u64,
    ) -> Option<u64> {
        if self.exclude_modifiers && (k1.is_modifier || k2.is_modifier) {
            Option::Some(0)
        } else if !is_same_finger_bigram(k1, k2) {
            Option::Some(0)
        } else if self.ignore_thumb && k1.key.finger == Finger::Thumb {
            Option::Some(0)
        } else if contains_pair_spec(
            self.ignore_movements@,
            k1.key.direction,
            k2.key.direction,
        ) {
            Option::Some(0)
        } else {
            let base = self.costs.cost_spec(k1.key.direction, k2.key.direction);
            let with_finger = fx_mul_spec(
                fx_mul_spec(weight, base),
                self.finger_factors.factor_spec(k1.key.finger),
            );
            Option::Some(
                fx_mul_spec(with_finger, self.amplifier.multiplier_spec(weight, total_weight)),
            )
        }
    }

    fn name(&self) -> (r: String) {
        String::from_str("SFB")
    }

    fn individual_cost(
        &self,
        k1: &LayerKey,
        k2: &LayerKey,
        weight: u64,
        total_weight: u64,
    ) -> (r: Option<u64>) {
        if self.exclude_modifiers && (k1.is_modifier || k2.is_modifier) {
            return Option::Some(0);
        }
        if !same_finger_bigram(k1, k2) {
            return Option::Some(0);
        }
        if self.ignore_thumb && k1.key.finger == Finger::Thumb {
            return Option::Some(0);
        }
        if contains_pair(&self.ignore_movements, k1.key.direction, k2.key.direction) {
            return Option::Some(0);
        }
        let base = self.costs.cost(k1.key.direction, k2.key.direction);
        let finger_multiplier = self.finger_factors.factor(k1.key.finger);
        let frequency_multiplier = self.amplifier.multiplier(weight, total_weight);
        let cost = fx_mul(fx_mul(fx_mul(weight, base), finger_multiplier), frequency_multiplier);
        Option::Some(cost)
    }
}

} // verus!
