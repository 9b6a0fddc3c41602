//! Directional half-scissor metric (HSB) for adjacent finger movements.
//!
//! A half scissor is an adjacent-finger bigram whose strokes partially
//! oppose each other: one finger moves laterally while the other moves
//! vertically (diagonal), or laterally against a centre stroke (lateral).
//! Each movement type carries its own configured base cost.

use vstd::prelude::*;


use crate::bigram_metrics::BigramMetric;
use crate::bigram_metrics::ReportOptions;
use crate::bigram_metrics::WeightedBigram;
use crate::bigram_metrics::scissor_base::ScissorCategory;
use crate::bigram_metrics::scissor_base::ScissorCompute;
use crate::bigram_metrics::scissor_base::ScissorMetric;
use crate::bigram_metrics::scissor_base::is_adjacent_fingers;
use crate::bigram_metrics::scissor_base::is_adjacent_fingers_spec;
use crate::bigram_metrics::has_positive_pair;
use crate::bigram_metrics::scissor_base::category_cost_pairs;
use crate::bigram_metrics::scissor_base::category_messages;
use crate::bigram_metrics::scissor_base::scissor_selections_ok;
use crate::bigram_metrics::scissor_base::sum_categorized_costs;
use crate::format_utils::joined_chars;
use crate::bigram_metrics::sum_bigram_costs;
use crate::bigram_metrics::effective_total_weight;
use crate::config::FingerFactors;
use crate::config::merge_finger_factors;
use crate::config::merged_factors_spec;
use crate::key::Direction;
use crate::key::LayerKey;

verus! {

/// The half-scissor movement categories.
#[derive(Clone, Copy, Debug, PartialEq, Eq, Structural)]
pub enum HsbCategory {
    Diagonal,
    Lateral,
}

impl ScissorCategory for HsbCategory {
    open spec fn order_spec() -> Seq<HsbCategory> {
        seq![HsbCategory::Diagonal, HsbCategory::Lateral]
    }

    open spec fn name_spec(&self) -> Seq<char> {
        match *self {
            HsbCategory::Diagonal => "Diagonal"@,
            HsbCategory::Lateral => "Lateral"@,
        }
    }

    fn display_order() -> (r: Vec<HsbCategory>) {
        let mut v: Vec<HsbCategory> = Vec::new();
        v.push(HsbCategory::Diagonal);
        v.push(HsbCategory::Lateral);
        proof {
            assert(v@ =~= Self::order_spec());
        }
        v
    }

    fn display_name(&self) -> (r: String) {
        match self {
            HsbCategory::Diagonal => String::from_str("Diagonal"),
            HsbCategory::Lateral => String::from_str("Lateral"),
        }
    }

    fn eq_cat(&self, other: &HsbCategory) -> (r: bool) {
        *self == *other
    }
}

/// Configuration of one half-scissor movement type.
#[derive(Clone, Copy, Debug)]
pub struct CategoryParams {
    /// Base cost representing the inherent biomechanical discomfort.
    pub cost: u64,
    /// Optional per-finger multipliers.
    pub finger_factors: Option<FingerFactors>,
}

/// Configuration of the HSB metric.
#[derive(Clone, Copy, Debug)]
pub struct Parameters {
    /// Configuration for diagonal movements (lateral against vertical).
    pub diagonal: CategoryParams,
    /// Configuration for lateral movements (lateral against centre).
    pub lateral: CategoryParams,
    /// Minimum relative bigram frequency for the heavy penalty.
    pub critical_bigram_fraction: Option<u64>,
    /// Multiplier for bigrams above the critical fraction.
    pub critical_bigram_factor: Option<u64>,
}

/// The half-scissor cost strategy: one base cost per movement type.
#[derive(Clone, Copy, Debug, PartialEq, Eq, Structural)]
pub struct HsbCompute {
    pub diagonal_cost: u64,
    pub lateral_cost: u64,
}

impl ScissorCompute<HsbCategory> for HsbCompute {
    /// The base cost and category of a half scissor: diagonal where one
    /// finger moves laterally and the other vertically, lateral where one
    /// moves laterally against a centre stroke, and nothing for any other
    /// movement of an adjacent-finger pair.
    open spec fn compute_spec(&self, k1: LayerKey, k2: LayerKey) -> Option<(u64, HsbCategory)> {
        if !is_adjacent_fingers_spec(k1, k2) {
            Option::None
        } else {
            match (k1.key.direction, k2.key.direction) {
                (Direction::In, Direction::North) => Option::Some(
                    (self.diagonal_cost, HsbCategory::Diagonal),
                ),
                (Direction::Out, Direction::North) => Option::Some(
                    (self.diagonal_cost, HsbCategory::Diagonal),
                ),
                (Direction::North, Direction::In) => Option::Some(
                    (self.diagonal_cost, HsbCategory::Diagonal),
                ),
                (Direction::North, Direction::Out) => Option::Some(
                    (self.diagonal_cost, HsbCategory::Diagonal),
                ),
                (Direction::In, Direction::South) => Option::Some(
                    (self.diagonal_cost, HsbCategory::Diagonal),
                ),
                (Direction::Out, Direction::South) => Option::Some(
                    (self.diagonal_cost, HsbCategory::Diagonal),
                ),
                (Direction::South, Direction::In) => Option::Some(
                    (self.diagonal_cost, HsbCategory::Diagonal),
                ),
                (Direction::South, Direction::Out) => Option::Some(
                    (self.diagonal_cost, HsbCategory::Diagonal),
                ),
                (Direction::In, Direction::Center) => Option::Some(
                    (self.lateral_cost, HsbCategory::Lateral),
                ),
                (Direction::Out, Direction::Center) => Option::Some(
                    (self.lateral_cost, HsbCategory::Lateral),
                ),
                (Direction::Center, Direction::In) => Option::Some(
                    (self.lateral_cost, HsbCategory::Lateral),
                ),
                (Direction::Center, Direction::Out) => Option::Some(
                    (self.lateral_cost, HsbCategory::Lateral),
                ),
                _ => Option::None,
            }
        }
    }

    fn compute_cost(&self, k1: &LayerKey, k2: &LayerKey) -> (r: Option<(u64, HsbCategory)>) {
        if !is_adjacent_fingers(k1, k2) {
            return Option::None;
        }
        match (k1.key.direction, k2.key.direction) {
            (Direction::In, Direction::North)
            | (Direction::Out, Direction::North)
            | (Direction::North, Direction::In)
            | (Direction::North, Direction::Out)
            | (Direction::In, Direction::South)
            | (Direction::Out, Direction::South)
            | (Direction::South, Direction::In)
            | (Direction::South, Direction::Out) => Option::Some(
                (self.diagonal_cost, HsbCategory::Diagonal),
            ),
            (Direction::In, Direction::Center)
            | (Direction::Out, Direction::Center)
            | (Direction::Center, Direction::In)
            | (Direction::Center, Direction::Out) => Option::Some(
                (self.lateral_cost, HsbCategory::Lateral),
            ),
            _ => Option::None,
        }
    }
}

/// The HSB metric: half scissors priced by movement type.
pub struct Hsb {
    pub inner: ScissorMetric<HsbCategory, HsbCompute>,
}

impl Hsb {
    /// Build the metric from its configuration, merging the per-category
    /// finger-factor tables into one.
    pub fn new(params: &Parameters) -> (r: Hsb)
        ensures
            r.inner.name@ == "HSB"@,
            r.inner.compute == (HsbCompute {
                diagonal_cost: params.diagonal.cost,
                lateral_cost: params.lateral.cost,
            }),
            r.inner.amplifier.critical_fraction == params.critical_bigram_fraction,
            r.inner.amplifier.critical_factor == params.critical_bigram_factor,
            r.inner.finger_factors == merged_factors_spec(
                seq![params.diagonal.finger_factors, params.lateral.finger_factors],
            ),
    {
        let compute = HsbCompute {
            diagonal_cost: params.diagonal.cost,
            lateral_cost: params.lateral.cost,
        };
        let mut category_factors: Vec<Option<FingerFactors>> = Vec::new();
        category_factors.push(params.diagonal.finger_factors);
        category_factors.push(params.lateral.finger_factors);
        proof {
            assert(category_factors@ =~= seq![
                params.diagonal.finger_factors,
                params.lateral.finger_factors,
            ]);
        }
        let merged_finger_factors = merge_finger_factors(&category_factors);
        Hsb {
            inner: ScissorMetric::new(
                "HSB",
                params.critical_bigram_fraction,
                params.critical_bigram_factor,
                merged_finger_factors,
                compute,
            ),
        }
    }

    /// The total cost of a bigram collection, with a per-category report
    /// of the worst offenders (see [`ScissorMetric::total_cost`]): one
    /// worst-offender selection per category in display order, and a
    /// report exactly when some category retains a positive-cost item.
    pub fn total_cost(
        &self,
        bigrams: &Vec<WeightedBigram>,
        total_weight: Option<u64>,
        opts: &ReportOptions,
    ) -> (r: (u64, Option<String>))
        ensures
            !opts.show_worst ==> r.0 == sum_bigram_costs(
                self.inner,
                bigrams@,
                effective_total_weight(total_weight, bigrams@),
            ) && r.1 is None,
            opts.show_worst ==> r.0 == sum_categorized_costs(
                self.inner,
                bigrams@,
                effective_total_weight(total_weight, bigrams@),
            ),
            opts.show_worst ==> (r.1 is Some <==> (opts.n_worst > 0 && exists|c: int|
                0 <= c < HsbCategory::order_spec().len() && has_positive_pair(
                    #[trigger] category_cost_pairs(
                        self.inner,
                        bigrams@,
                        effective_total_weight(total_weight, bigrams@),
                        bigrams@.len() as int,
                        HsbCategory::order_spec()[c],
                    ),
                ))),
            opts.show_worst ==> (exists|selections: Seq<Seq<(usize, u64)>>|
                {
                    &&& #[trigger] scissor_selections_ok(
                        self.inner,
                        bigrams@,
                        effective_total_weight(total_weight, bigrams@),
                        opts.n_worst as nat,
                        selections,
                    )
                    &&& (r.1 is Some <==> category_messages(
                        self.inner,
                        bigrams@,
                        effective_total_weight(total_weight, bigrams@),
                        r.0,
                        selections,
                    ).len() > 0)
                    &&& (r.1 matches Option::Some(m) ==> m@ == joined_chars(
                        category_messages(
                            self.inner,
                            bigrams@,
                            effective_total_weight(total_weight, bigrams@),
                            r.0,
                            selections,
                        ),
                        "; "@,
                    ))
                }),
    {
        self.inner.total_cost(bigrams, total_weight, opts)
    }
}

impl BigramMetric for Hsb {
    open spec fn name_spec(&self) -> Seq<char> {
        self.inner.name_spec()
    }

    open spec fn individual_cost_spec(
        &self,
        k1: LayerKey,
        k2: LayerKey,
        weight: u64,
        total_weight: u64,
    ) -> Option<u64> {
        self.inner.individual_cost_spec(k1, k2, weight, total_weight)
    }

    fn name(&self) -> (r: String) {
        self.inner.name()
    }

    fn individual_cost(
        &self,
        k1: &LayerKey,
        k2: &LayerKey,
        weight: u64,
        total_weight: u64,
    ) -> (r: Option<u64>) {
        self.inner.individual_cost(k1, k2, weight, total_weight)
    }
}

} // verus!
