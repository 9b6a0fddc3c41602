//! Directional full-scissor metric (FSB) for adjacent finger movements.
//!
//! A full scissor is an adjacent-finger bigram whose strokes fully oppose
//! each other: vertically (north against south) or laterally (a squeeze or
//! a splay). Each movement type carries its own configured base cost
//! representing the inherent biomechanical discomfort of the motion.

use vstd::prelude::*;


use crate::bigram_metrics::BigramMetric;
use crate::bigram_metrics::ReportOptions;
use crate::bigram_metrics::WeightedBigram;
use crate::bigram_metrics::scissor_base::ScissorCategory;
use crate::bigram_metrics::scissor_base::ScissorCompute;
use crate::bigram_metrics::scissor_base::ScissorMetric;
use crate::bigram_metrics::scissor_base::is_adjacent_fingers;
use crate::bigram_metrics::scissor_base::is_adjacent_fingers_spec;
use crate::bigram_metrics::scissor_base::squeeze_motion_spec;
use crate::bigram_metrics::has_positive_pair;
use crate::bigram_metrics::scissor_base::category_cost_pairs;
use crate::bigram_metrics::scissor_base::category_messages;
use crate::bigram_metrics::scissor_base::scissor_selections_ok;
use crate::bigram_metrics::scissor_base::sum_categorized_costs;
use crate::format_utils::joined_chars;
use crate::bigram_metrics::sum_bigram_costs;
use crate::bigram_metrics::effective_total_weight;
use crate::config::FingerFactors;
use crate::config::merge_finger_factors;
use crate::config::merged_factors_spec;
use crate::key::Direction;
use crate::key::LayerKey;

verus! {

/// The full-scissor movement categories.
#[derive(Clone, Copy, Debug, PartialEq, Eq, Structural)]
pub enum FsbCategory {
    Vertical,
    Squeeze,
    Splay,
}

impl ScissorCategory for FsbCategory {
    open spec fn order_spec() -> Seq<FsbCategory> {
        seq![FsbCategory::Vertical, FsbCategory::Squeeze, FsbCategory::Splay]
    }

    open spec fn name_spec(&self) -> Seq<char> {
        match *self {
            FsbCategory::Vertical => "Vertical"@,
            FsbCategory::Squeeze => "Squeeze"@,
            FsbCategory::Splay => "Splay"@,
        }
    }

    fn display_order() -> (r: Vec<FsbCategory>) {
        let mut v: Vec<FsbCategory> = Vec::new();
        v.push(FsbCategory::Vertical);
        v.push(FsbCategory::Squeeze);
        v.push(FsbCategory::Splay);
        proof {
            assert(v@ =~= Self::order_spec());
        }
        v
    }

    fn display_name(&self) -> (r: String) {
        match self {
            FsbCategory::Vertical => String::from_str("Vertical"),
            FsbCategory::Squeeze => String::from_str("Squeeze"),
            FsbCategory::Splay => String::from_str("Splay"),
        }
    }

    fn eq_cat(&self, other: &FsbCategory) -> (r: bool) {
        *self == *other
    }
}

/// Configuration of one full-scissor movement type.
#[derive(Clone, Copy, Debug)]
pub struct CategoryParams {
    /// Base cost representing the inherent biomechanical discomfort.
    pub cost: u64,
    /// Optional per-finger multipliers.
    pub finger_factors: Option<FingerFactors>,
}

/// Configuration of the FSB metric.
#[derive(Clone, Copy, Debug)]
pub struct Parameters {
    /// Configuration for vertical scissors (north-south opposition).
    pub vertical: CategoryParams,
    /// Configuration for squeeze scissors (fingers moving toward each other).
    pub squeeze: CategoryParams,
    /// Configuration for splay scissors (fingers moving apart).
    pub splay: CategoryParams,
    /// Minimum relative bigram frequency for the heavy penalty.
    pub critical_bigram_fraction: Option<u64>,
    /// Multiplier for bigrams above the critical fraction.
    pub critical_bigram_factor: Option<u64>,
}

/// The full-scissor cost strategy: one base cost per movement type.
#[derive(Clone, Copy, Debug, PartialEq, Eq, Structural)]
pub struct FsbCompute {
    pub vertical_cost: u64,
    pub squeeze_cost: u64,
    pub splay_cost: u64,
}

impl ScissorCompute<FsbCategory> for FsbCompute {
    /// The base cost and category of a full scissor: vertical for a
    /// north-south opposition, squeeze or splay for a lateral one, and
    /// nothing for any other movement of an adjacent-finger pair.
    open spec fn compute_spec(&self, k1: LayerKey, k2: LayerKey) -> Option<(u64, FsbCategory)> {
        if !is_adjacent_fingers_spec(k1, k2) {
            Option::None
        } else {
            match (k1.key.direction, k2.key.direction) {
                (Direction::South, Direction::North) => Option::Some(
                    (self.vertical_cost, FsbCategory::Vertical),
                ),
                (Direction::North, Direction::South) => Option::Some(
                    (self.vertical_cost, FsbCategory::Vertical),
                ),
                (Direction::In, Direction::Out) => if squeeze_motion_spec(k1, k2) {
                    Option::Some((self.squeeze_cost, FsbCategory::Squeeze))
                } else {
                    Option::Some((self.splay_cost, FsbCategory::Splay))
                },
                (Direction::Out, Direction::In) => if squeeze_motion_spec(k1, k2) {
                    Option::Some((self.squeeze_cost, FsbCategory::Squeeze))
                } else {
                    Option::Some((self.splay_cost, FsbCategory::Splay))
                },
                _ => Option::None,
            }
        }
    }

    fn compute_cost(&self, k1: &LayerKey, k2: &LayerKey) -> (r: Option<(u64, FsbCategory)>) {
        if !is_adjacent_fingers(k1, k2) {
            return Option::None;
        }
        let dir_from = k1.key.direction;
        let dir_to = k2.key.direction;
        match (dir_from, dir_to) {
            (Direction::South, Direction::North) | (Direction::North, Direction::South) => {
                Option::Some((self.vertical_cost, FsbCategory::Vertical))
            },
            (Direction::In, Direction::Out) | (Direction::Out, Direction::In) => {
                let inward_motion = k1.key.finger.numeric_index() > k2.key.finger.numeric_index();
                let is_squeeze = inward_motion ^ (dir_from == Direction::Out);
                if is_squeeze {
                    Option::Some((self.squeeze_cost, FsbCategory::Squeeze))
                } else {
                    Option::Some((self.splay_cost, FsbCategory::Splay))
                }
            },
            _ => Option::None,
        }
    }
}

/// The FSB metric: full scissors priced by movement type.
pub struct Fsb {
    pub inner: ScissorMetric<FsbCategory, FsbCompute>,
}

impl Fsb {
    /// Build the metric from its configuration, merging the per-category
    /// finger-factor tables into one.
    pub fn new(params: &Parameters) -> (r: Fsb)
        ensures
            r.inner.name@ == "FSB"@,
            r.inner.compute == (FsbCompute {
                vertical_cost: params.vertical.cost,
                squeeze_cost: params.squeeze.cost,
                splay_cost: params.splay.cost,
            }),
            r.inner.amplifier.critical_fraction == params.critical_bigram_fraction,
            r.inner.amplifier.critical_factor == params.critical_bigram_factor,
            r.inner.finger_factors == merged_factors_spec(
                seq![
                    params.vertical.finger_factors,
                    params.squeeze.finger_factors,
                    params.splay.finger_factors,
                ],
            ),
    {
        let compute = FsbCompute {
            vertical_cost: params.vertical.cost,
            squeeze_cost: params.squeeze.cost,
            splay_cost: params.splay.cost,
        };
        let mut category_factors: Vec<Option<FingerFactors>> = Vec::new();
        category_factors.push(params.vertical.finger_factors);
        category_factors.push(params.squeeze.finger_factors);
        category_factors.push(params.splay.finger_factors);
        proof {
            assert(category_factors@ =~= seq![
                params.vertical.finger_factors,
                params.squeeze.finger_factors,
                params.splay.finger_factors,
            ]);
        }
        let merged_finger_factors = merge_finger_factors(&category_factors);
        Fsb {
            inner: ScissorMetric::new(
                "FSB",
                params.critical_bigram_fraction,
                params.critical_bigram_factor,
                merged_finger_factors,
                compute,
            ),
        }
    }

    /// The total cost of a bigram collection, with a per-category report
    /// of the worst offenders (see [`ScissorMetric::total_cost`]): one
    /// worst-offender selection per category in display order, and a
    /// report exactly when some category retains a positive-cost item.
    pub fn total_cost(
        &self,
        bigrams: &Vec<WeightedBigram>,
        total_weight: Option<u64>,
        opts: &ReportOptions,
    ) -> (r: (u64, Option<String>))
        ensures
            !opts.show_worst ==> r.0 == sum_bigram_costs(
                self.inner,
                bigrams@,
                effective_total_weight(total_weight, bigrams@),
            ) && r.1 is None,
            opts.show_worst ==> r.0 == sum_categorized_costs(
                self.inner,
                bigrams@,
                effective_total_weight(total_weight, bigrams@),
            ),
            opts.show_worst ==> (r.1 is Some <==> (opts.n_worst > 0 && exists|c: int|
                0 <= c < FsbCategory::order_spec().len() && has_positive_pair(
                    #[trigger] category_cost_pairs(
                        self.inner,
                        bigrams@,
                        effective_total_weight(total_weight, bigrams@),
                        bigrams@.len() as int,
                        FsbCategory::order_spec()[c],
                    ),
                ))),
            opts.show_worst ==> (exists|selections: Seq<Seq<(usize, u64)>>|
                {
                    &&& #[trigger] scissor_selections_ok(
                        self.inner,
                        bigrams@,
                        effective_total_weight(total_weight, bigrams@),
                        opts.n_worst as nat,
                        selections,
                    )
                    &&& (r.1 is Some <==> category_messages(
                        self.inner,
                        bigrams@,
                        effective_total_weight(total_weight, bigrams@),
                        r.0,
                        selections,
                    ).len() > 0)
                    &&& (r.1 matches Option::Some(m) ==> m@ == joined_chars(
                        category_messages(
                            self.inner,
                            bigrams@,
                            effective_total_weight(total_weight, bigrams@),
                            r.0,
                            selections,
                        ),
                        "; "@,
                    ))
                }),
    {
        self.inner.total_cost(bigrams, total_weight, opts)
    }
}

impl BigramMetric for Fsb {
    open spec fn name_spec(&self) -> Seq<char> {
        self.inner.name_spec()
    }

    open spec fn individual_cost_spec(
        &self,
        k1: LayerKey,
        k2: LayerKey,
        weight: u64,
        total_weight: u64,
    ) -> Option<u64> {
        self.inner.individual_cost_spec(k1, k2, weight, total_weight)
    }

    fn name(&self) -> (r: String) {
        self.inner.name()
    }

    fn individual_cost(
        &self,
        k1: &LayerKey,
        k2: &LayerKey,
        weight: u64,
        total_weight: u64,
    ) -> (r: Option<u64>) {
        self.inner.individual_cost(k1, k2, weight, total_weight)
    }
}

} // verus!
