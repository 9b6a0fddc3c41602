//! Key-cost-driven scissoring metric for adjacent finger movements.
//!
//! Where the directional scissor metrics price the motion pattern itself,
//! this formulation prices the mismatch of effort: the penalty of a
//! scissor is a per-movement-type factor times the absolute difference of
//! the two keys' intrinsic costs, rewarding balanced-effort movements over
//! mismatched ones.

use vstd::prelude::*;

use crate::bigram_metrics::BigramMetric;
use crate::bigram_metrics::scissor_base::adjacent_nonthumb_spec;
use crate::bigram_metrics::scissor_base::squeeze_motion_spec;
use crate::config::FrequencyAmplifier;
use crate::fixed::fx_mul;
use crate::fixed::fx_mul_spec;
use crate::key::Direction;
use crate::key::Finger;
use crate::key::LayerKey;

verus! {

/// Configuration of the key-cost-driven scissor metric.
#[derive(Clone, Copy, Debug)]
pub struct Parameters {
    /// Factor for full vertical scissors (north-south opposition).
    pub full_scissor_vertical_factor: u64,
    /// Factor for the squeeze motion (fingers moving toward each other).
    pub full_scissor_squeeze_factor: u64,
    /// Factor for the splay motion (fingers moving apart).
    pub full_scissor_splay_factor: u64,
    /// Factor for half scissors (lateral against vertical).
    pub half_scissor_factor: u64,
    /// Factor for lateral stretches (lateral against centre).
    pub lateral_stretch_factor: u64,
    /// Minimum relative bigram frequency for the heavy penalty.
    pub critical_bigram_fraction: Option<u64>,
    /// Multiplier for bigrams above the critical fraction.
    pub critical_bigram_factor: Option<u64>,
}

/// The key-cost-driven scissor metric.
#[derive(Clone, Copy, Debug)]
pub struct Scissors {
    pub full_scissor_vertical_factor: u64,
    pub full_scissor_squeeze_factor: u64,
    pub full_scissor_splay_factor: u64,
    pub half_scissor_factor: u64,
    pub lateral_stretch_factor: u64,
    pub amplifier: FrequencyAmplifier,
}

/// The absolute difference of two intrinsic key costs.
pub open spec fn cost_difference(a: u64, b: u64) -> u64 {
    if a >= b {
        (a - b) as u64
    } else {
        (b - a) as u64
    }
}

impl Scissors {
    /// Build the metric from its configuration.
    pub fn new(params: &Parameters) -> (r: Scissors)
        ensures
            r.full_scissor_vertical_factor == params.full_scissor_vertical_factor,
            r.full_scissor_squeeze_factor == params.full_scissor_squeeze_factor,
            r.full_scissor_splay_factor == params.full_scissor_splay_factor,
            r.half_scissor_factor == params.half_scissor_factor,
            r.lateral_stretch_factor == params.lateral_stretch_factor,
            r.amplifier.critical_fraction == params.critical_bigram_fraction,
            r.amplifier.critical_factor == params.critical_bigram_factor,
    {
        Scissors {
            full_scissor_vertical_factor: params.full_scissor_vertical_factor,
            full_scissor_squeeze_factor: params.full_scissor_squeeze_factor,
            full_scissor_splay_factor: params.full_scissor_splay_factor,
            half_scissor_factor: params.half_scissor_factor,
            lateral_stretch_factor: params.lateral_stretch_factor,
            amplifier: FrequencyAmplifier {
                critical_fraction: params.critical_bigram_fraction,
                critical_factor: params.critical_bigram_factor,
            },
        }
    }

    /// The movement-type factor a scissor bigram falls under, or `None`
    /// where the bigram is no scissor.
    pub open spec fn movement_factor_spec(&self, k1: LayerKey, k2: LayerKey) -> Option<u64> {
        if (k1 == k2 && k1.is_modifier) || !adjacent_nonthumb_spec(k1, k2) {
            Option::None
        } else {
            match (k1.key.direction, k2.key.direction) {
                (Direction::In, Direction::In) => Option::None,
                (Direction::Out, Direction::Out) => Option::None,
                (Direction::South, Direction::North) => Option::Some(
                    self.full_scissor_vertical_factor,
                ),
                (Direction::North, Direction::South) => Option::Some(
                    self.full_scissor_vertical_factor,
                ),
                (Direction::In, Direction::Out) => if squeeze_motion_spec(k1, k2) {
                    Option::Some(self.full_scissor_squeeze_factor)
                } else {
                    Option::Some(self.full_scissor_splay_factor)
                },
                (Direction::Out, Direction::In) => if squeeze_motion_spec(k1, k2) {
                    Option::Some(self.full_scissor_squeeze_factor)
                } else {
                    Option::Some(self.full_scissor_splay_factor)
                },
                (Direction::In, Direction::North) => Option::Some(self.half_scissor_factor),
                (Direction::Out, Direction::North) => Option::Some(self.half_scissor_factor),
                (Direction::North, Direction::In) => Option::Some(self.half_scissor_factor),
                (Direction::North, Direction::Out) => Option::Some(self.half_scissor_factor),
                (Direction::In, Direction::South) => Option::Some(self.half_scissor_factor),
                (Direction::Out, Direction::South) => Option::Some(self.half_scissor_factor),
                (Direction::South, Direction::In) => Option::Some(self.half_scissor_factor),
                (Direction::South, Direction::Out) => Option::Some(self.half_scissor_factor),
                (Direction::In, Direction::Center) => Option::Some(self.lateral_stretch_factor),
                (Direction::Out, Direction::Center) => Option::Some(self.lateral_stretch_factor),
                (Direction::Center, Direction::In) => Option::Some(self.lateral_stretch_factor),
                (Direction::Center, Direction::Out) => Option::Some(self.lateral_stretch_factor),
                _ => Option::None,
            }
        }
    }

    /// The base cost of a scissor bigram: the movement-type factor times
    /// the absolute difference of the two keys' intrinsic costs.
    pub open spec fn bigram_cost_spec(&self, k1: LayerKey, k2: LayerKey) -> Option<u64> {
        match self.movement_factor_spec(k1, k2) {
            Option::Some(factor) => Option::Some(
                fx_mul_spec(factor, cost_difference(k1.key.cost, k2.key.cost)),
            ),
            Option::None => Option::None,
        }
    }

    /// Compute the base cost of one bigram, or `None` where it is no
    /// scissor.
    pub fn bigram_cost(&self, k1: &LayerKey, k2: &LayerKey) -> (r: Option<u64>)
        ensures
            r == self.bigram_cost_spec(*k1, *k2),
    {
        if (*k1 == *k2 && k1.is_modifier) || k1.key.hand != k2.key.hand || k1.key.finger.distance(
            &k2.key.finger,
        ) != 1 || k1.key.finger == Finger::Thumb || k2.key.finger == Finger::Thumb {
            return Option::None;
        }
        let cost_from = k1.key.cost;
        let cost_to = k2.key.cost;
        let cost_diff = if cost_from >= cost_to {
            cost_from - cost_to
        } else {
            cost_to - cost_from
        };
        let factor: Option<u64> = match (k1.key.direction, k2.key.direction) {
            (Direction::In, Direction::In) | (Direction::Out, Direction::Out) => Option::None,
            (Direction::South, Direction::North) | (Direction::North, Direction::South) => {
                Option::Some(self.full_scissor_vertical_factor)
            },
            (Direction::In, Direction::Out) | (Direction::Out, Direction::In) => {
                let inward_motion = k1.key.finger.numeric_index() > k2.key.finger.numeric_index();
                let is_squeeze = inward_motion ^ (k1.key.direction == Direction::Out);
                if is_squeeze {
                    Option::Some(self.full_scissor_squeeze_factor)
                } else {
                    Option::Some(self.full_scissor_splay_factor)
                }
            },
            (Direction::In, Direction::North)
            | (Direction::Out, Direction::North)
            | (Direction::North, Direction::In)
            | (Direction::North, Direction::Out)
            | (Direction::In, Direction::South)
            | (Direction::Out, Direction::South)
            | (Direction::South, Direction::In)
            | (Direction::South, Direction::Out) => Option::Some(self.half_scissor_factor),
            (Direction::In, Direction::Center)
            | (Direction::Out, Direction::Center)
            | (Direction::Center, Direction::In)
            | (Direction::Center, Direction::Out) => Option::Some(self.lateral_stretch_factor),
            _ => Option::None,
        };
        match factor {
            Option::Some(f) => Option::Some(fx_mul(f, cost_diff)),
            Option::None => Option::None,
        }
    }
}

impl BigramMetric for Scissors {
    open spec fn name_spec(&self) -> Seq<char> {
        "Scissors"@
    }

    /// The cost of one bigram: zero where it is no scissor, and otherwise
    /// `weight * base * frequency_multiplier` with the base cost driven by
    /// the difference of the keys' intrinsic costs.
    open spec fn individual_cost_spec(
        &self,
        k1: LayerKey,
        k2: LayerKey,
        weight: u64,
        total_weight: u64,
    ) -> Option<u64> {
        match self.bigram_cost_spec(k1, k2) {
            Option::Some(base) => Option::Some(
                fx_mul_spec(
                    fx_mul_spec(weight, base),
                    self.amplifier.multiplier_spec(weight, total_weight),
                ),
            ),
            Option::None => Option::Some(0),
        }
    }

    fn name(&self) -> (r: String) {
        String::from_str("Scissors")
    }

    fn individual_cost(
        &self,
        k1: &LayerKey,
        k2: &LayerKey,
        weight: u64,
        total_weight: u64,
    ) -> (r: Option<u64>) {
        match self.bigram_cost(k1, k2) {
            Option::Some(base) => {
                let frequency_multiplier = self.amplifier.multiplier(weight, total_weight);
                Option::Some(fx_mul(fx_mul(weight, base), frequency_multiplier))
            },
            Option::None => Option::Some(0),
        }
    }
}

} // verus!
