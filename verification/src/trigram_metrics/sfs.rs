//! SFS (same-finger skipgram) metric.
//!
//! A skipgram is a pair of keystrokes separated by one other keystroke:
//! the first and third key of a trigram. Where both are struck by one
//! finger on different keys, the movement costs its weight times a
//! per-finger factor.

use vstd::prelude::*;

use crate::config::FingerFactors;
use crate::fixed::fx_mul;
use crate::fixed::fx_mul_spec;
use crate::key::Finger;
use crate::key::LayerKey;
use crate::trigram_metrics::TrigramMetric;
use crate::trigram_metrics::is_same_finger_skipgram;
use crate::trigram_metrics::same_finger_skipgram;

verus! {

/// Configuration of the SFS metric.
#[derive(Clone, Copy, Debug)]
pub struct Parameters {
    /// Leave thumb skipgrams unpenalized.
    pub ignore_thumb: bool,
    /// Leave skipgrams involving a modifier key unpenalized.
    pub ignore_modifiers: bool,
    /// Per-finger multipliers.
    pub finger_factors: FingerFactors,
}

/// The SFS metric.
#[derive(Clone, Copy, Debug)]
pub struct Sfs {
    pub ignore_thumb: bool,
    pub ignore_modifiers: bool,
    pub finger_factors: FingerFactors,
}

impl Sfs {
    /// Build the metric from its configuration.
    pub fn new(params: &Parameters) -> (r: Sfs)
        ensures
            r.ignore_thumb == params.ignore_thumb,
            r.ignore_modifiers == params.ignore_modifiers,
            r.finger_factors == params.finger_factors,
    {
        Sfs {
            ignore_thumb: params.ignore_thumb,
            ignore_modifiers: params.ignore_modifiers,
            finger_factors: params.finger_factors,
        }
    }
}

impl TrigramMetric for Sfs {
    open spec fn name_spec(&self) -> Seq<char> {
        "SFS"@
    }

    /// The cost of one trigram: zero unless its first and third key form
    /// a same-finger skipgram of an unignored finger, and then
    /// `weight * finger_factor`.
    open spec fn individual_cost_spec(
        &self,
        k1: LayerKey,
        k2: LayerKey,
        k3: LayerKey,
        weight: u64,
        total_weight: u64,
    ) -> Option<u64> {
        if self.ignore_modifiers && (k1.is_modifier || k3.is_modifier) {
            Option::Some(0)
        } else if !is_same_finger_skipgram(k1, k3) {
            Option::Some(0)
        } else if self.ignore_thumb && k1.key.finger == Finger::Thumb {
            Option::Some(0)
        } else {
            Option::Some(fx_mul_spec(weight, self.finger_factors.factor_spec(k1.key.finger)))
        }
    }

    fn name(&self) -> (r: String) {
        String::from_str("SFS")
    }

    fn individual_cost(
        &self,
        k1: &LayerKey,
        k2: &LayerKey,
        k3: &LayerKey,
        weight: u64,
        total_weight: u64,
    ) -> (r: Option<u64>) {
        if self.ignore_modifiers && (k1.is_modifier || k3.is_modifier) {
            return Option::Some(0);
        }
        if !same_finger_skipgram(k1, k3) {
            return Option::Some(0);
        }
        if self.ignore_thumb && k1.key.finger == Finger::Thumb {
            return Option::Some(0);
        }
        let finger_multiplier = self.finger_factors.factor(k1.key.finger);
        Option::Some(fx_mul(weight, finger_multiplier))
    }
}

} // verus!
