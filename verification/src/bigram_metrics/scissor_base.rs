//! Classification of adjacent-finger bigrams into scissor movement types,
//! and the shared machinery of the scissor metrics.
//!
//! A scissor is a bigram of two adjacent, non-thumb fingers of one hand whose
//! stroke directions oppose each other. Same lateral directions (`In`,`In`)
//! or (`Out`,`Out`) are comfortable rolls, never scissors.

use vstd::prelude::*;
use vstd::multiset::Multiset;

use crate::bigram_metrics::BigramMetric;
use crate::bigram_metrics::ReportOptions;
use crate::bigram_metrics::WeightedBigram;
use crate::bigram_metrics::bigram_worst_chars;
use crate::bigram_metrics::has_positive_entry;
use crate::bigram_metrics::has_positive_pair;
use crate::bigram_metrics::is_worst_selection;
use crate::bigram_metrics::sum_bigram_costs;
use crate::bigram_metrics::sum_bigram_costs_only;
use crate::bigram_metrics::total_bigram_weight;
use crate::config::FingerFactors;
use crate::config::FrequencyAmplifier;
use crate::fixed::UNIT;
use crate::fixed::fx_mul;
use crate::fixed::fx_mul_spec;
use crate::fixed::sat_add;
use crate::fixed::to_percentage;
use crate::format_utils::format_percentages;
use crate::format_utils::joined_chars;
use crate::format_utils::push_symbol;
use crate::key::Direction;
use crate::key::Finger;
use crate::key::LayerKey;
use crate::key::finger_distance;
use crate::key::finger_index;
use crate::tracker::TopKTracker;

verus! {

broadcast use vstd::multiset::group_multiset_axioms;

/// Classification of scissor movement types.
#[derive(Clone, Copy, Debug, PartialEq, Eq, Structural)]
pub enum ScissorType {
    /// Full scissor: North-South opposition.
    Vertical,
    /// Full scissor: fingers moving toward each other.
    Squeeze,
    /// Full scissor: fingers moving apart.
    Splay,
    /// Half scissor: one finger lateral, the other vertical.
    Diagonal,
    /// Lateral displacement against a centre stroke.
    Lateral,
}

/// Whether the two keys are struck by adjacent, non-thumb fingers of one
/// hand: the geometric precondition of any scissor classification.
pub open spec fn adjacent_nonthumb_spec(k1: LayerKey, k2: LayerKey) -> bool {
    &&& k1.key.hand == k2.key.hand
    &&& finger_distance(k1.key.finger, k2.key.finger) == 1
    &&& k1.key.finger != Finger::Thumb
    &&& k2.key.finger != Finger::Thumb
}

/// Whether the two keys count as an adjacent-finger pair for the scissor
/// metrics: adjacent non-thumb fingers, and not the identical modifier key
/// struck twice.
pub open spec fn is_adjacent_fingers_spec(k1: LayerKey, k2: LayerKey) -> bool {
    &&& !(k1 == k2 && k1.is_modifier)
    &&& adjacent_nonthumb_spec(k1, k2)
}

/// Whether an (`In`,`Out`)-opposed bigram closes the fingers toward each
/// other (a squeeze) rather than spreading them apart (a splay): the motion
/// runs inward across the hand exactly when it does not start outward.
pub open spec fn squeeze_motion_spec(k1: LayerKey, k2: LayerKey) -> bool {
    (finger_index(k1.key.finger) > finger_index(k2.key.finger)) != (k1.key.direction
        == Direction::Out)
}

/// The scissor type of a bigram, or `None` where the bigram is no scissor:
/// different hands or non-adjacent or thumb fingers, a lateral roll, or a
/// direction pair without opposition.
pub open spec fn classify_scissor_spec(k1: LayerKey, k2: LayerKey) -> Option<ScissorType> {
    if !adjacent_nonthumb_spec(k1, k2) {
        Option::None
    } else {
        match (k1.key.direction, k2.key.direction) {
            (Direction::In, Direction::In) => Option::None,
            (Direction::Out, Direction::Out) => Option::None,
            (Direction::South, Direction::North) => Option::Some(ScissorType::Vertical),
            (Direction::North, Direction::South) => Option::Some(ScissorType::Vertical),
            (Direction::In, Direction::Out) => if squeeze_motion_spec(k1, k2) {
                Option::Some(ScissorType::Squeeze)
            } else {
                Option::Some(ScissorType::Splay)
            },
            (Direction::Out, Direction::In) => if squeeze_motion_spec(k1, k2) {
                Option::Some(ScissorType::Squeeze)
            } else {
                Option::Some(ScissorType::Splay)
            },
            (Direction::In, Direction::North) => Option::Some(ScissorType::Diagonal),
            (Direction::Out, Direction::North) => Option::Some(ScissorType::Diagonal),
            (Direction::North, Direction::In) => Option::Some(ScissorType::Diagonal),
            (Direction::North, Direction::Out) => Option::Some(ScissorType::Diagonal),
            (Direction::In, Direction::South) => Option::Some(ScissorType::Diagonal),
            (Direction::Out, Direction::South) => Option::Some(ScissorType::Diagonal),
            (Direction::South, Direction::In) => Option::Some(ScissorType::Diagonal),
            (Direction::South, Direction::Out) => Option::Some(ScissorType::Diagonal),
            (Direction::In, Direction::Center) => Option::Some(ScissorType::Lateral),
            (Direction::Out, Direction::Center) => Option::Some(ScissorType::Lateral),
            (Direction::Center, Direction::In) => Option::Some(ScissorType::Lateral),
            (Direction::Center, Direction::Out) => Option::Some(ScissorType::Lateral),
            _ => Option::None,
        }
    }
}

/// Check if two keys represent adjacent non-thumb fingers on the same hand
/// and are not the identical modifier key struck twice.
pub fn is_adjacent_fingers(k1: &LayerKey, k2: &LayerKey) -> (r: bool)
    ensures
        r == is_adjacent_fingers_spec(*k1, *k2),
{
    !((*k1 == *k2 && k1.is_modifier) || k1.key.hand != k2.key.hand || k1.key.finger.distance(
        &k2.key.finger,
    ) != 1 || k1.key.finger == Finger::Thumb || k2.key.finger == Finger::Thumb)
}

/// Classify a bigram as a scissor movement type.
///
/// Returns `Some` exactly for the scissor movements of adjacent non-thumb
/// fingers of one hand, and `None` for everything else (rolling motions,
/// different hands, thumbs, non-adjacent fingers).
pub fn classify_scissor(k1: &LayerKey, k2: &LayerKey) -> (r: Option<ScissorType>)
    ensures
        r == classify_scissor_spec(*k1, *k2),
{
    if k1.key.hand != k2.key.hand || k1.key.finger.distance(&k2.key.finger) != 1 || k1.key.finger
        == Finger::Thumb || k2.key.finger == Finger::Thumb {
        return Option::None;
    }
    let dir_from = k1.key.direction;
    let dir_to = k2.key.direction;
    match (dir_from, dir_to) {
        (Direction::In, Direction::In) => Option::None,
        (Direction::Out, Direction::Out) => Option::None,
        (Direction::South, Direction::North) => Option::Some(ScissorType::Vertical),
        (Direction::North, Direction::South) => Option::Some(ScissorType::Vertical),
        (Direction::In, Direction::Out) | (Direction::Out, Direction::In) => {
            let inward_motion = k1.key.finger.numeric_index() > k2.key.finger.numeric_index();
            let is_squeeze = inward_motion ^ (dir_from == Direction::Out);
            if is_squeeze {
                Option::Some(ScissorType::Squeeze)
            } else {
                Option::Some(ScissorType::Splay)
            }
        },
        (Direction::In, Direction::North)
        | (Direction::Out, Direction::North)
        | (Direction::North, Direction::In)
        | (Direction::North, Direction::Out)
        | (Direction::In, Direction::South)
        | (Direction::Out, Direction::South)
        | (Direction::South, Direction::In)
        | (Direction::South, Direction::Out) => Option::Some(ScissorType::Diagonal),
        (Direction::In, Direction::Center)
        | (Direction::Out, Direction::Center)
        | (Direction::Center, Direction::In)
        | (Direction::Center, Direction::Out) => Option::Some(ScissorType::Lateral),
        _ => Option::None,
    }
}

/// A bigram whose two strokes run in the same lateral direction,
/// (`In`,`In`) or (`Out`,`Out`), is a comfortable roll and is never
/// classified as any scissor category.
pub proof fn lemma_lateral_roll_is_no_scissor(k1: LayerKey, k2: LayerKey)
    requires
        (k1.key.direction == Direction::In && k2.key.direction == Direction::In) || (
        k1.key.direction == Direction::Out && k2.key.direction == Direction::Out),
    ensures
        classify_scissor_spec(k1, k2) is None,
{
}

/// Squeeze and splay are complementary and exhaustive: every adjacent-finger
/// bigram with opposed lateral directions (`In`,`Out`) or (`Out`,`In`) is
/// classified as exactly one of the two, squeeze exactly when the fingers
/// close toward each other.
pub proof fn lemma_squeeze_splay_partition(k1: LayerKey, k2: LayerKey)
    requires
        adjacent_nonthumb_spec(k1, k2),
        (k1.key.direction == Direction::In && k2.key.direction == Direction::Out) || (
        k1.key.direction == Direction::Out && k2.key.direction == Direction::In),
    ensures
        classify_scissor_spec(k1, k2) == Option::Some(ScissorType::Squeeze)
            <==> squeeze_motion_spec(k1, k2),
        classify_scissor_spec(k1, k2) == Option::Some(ScissorType::Splay)
            <==> !squeeze_motion_spec(k1, k2),
{
}

/// A movement category of a scissor metric, with a fixed display order.
pub trait ScissorCategory: Sized + Copy {
    /// All categories, in display order.
    spec fn order_spec() -> Seq<Self>;

    /// The display name of the category.
    spec fn name_spec(&self) -> Seq<char>;

    /// Get all categories in display order.
    fn display_order() -> (r: Vec<Self>)
        ensures
            r@ == Self::order_spec(),
    ;

    /// Get the display name for this category.
    fn display_name(&self) -> (r: String)
        ensures
            r@ == self.name_spec(),
    ;

    /// Whether two categories are the same.
    fn eq_cat(&self, other: &Self) -> (r: bool)
        ensures
            r == (*self == *other),
    ;
}

/// A strategy computing the base cost and category of a scissor bigram.
pub trait ScissorCompute<C: ScissorCategory>: Sized {
    /// The base cost and category of the bigram, or `None` where the
    /// strategy does not consider it a scissor.
    spec fn compute_spec(&self, k1: LayerKey, k2: LayerKey) -> Option<(u64, C)>;

    /// Compute the base cost and category of one bigram.
    fn compute_cost(&self, k1: &LayerKey, k2: &LayerKey) -> (r: Option<(u64, C)>)
        ensures
            r == self.compute_spec(*k1, *k2),
    ;
}

/// The shared shape of the scissor metrics: a cost strategy, optional
/// per-finger factors and the frequency amplifier.
pub struct ScissorMetric<C: ScissorCategory, T: ScissorCompute<C>> {
    pub name: String,
    pub amplifier: FrequencyAmplifier,
    pub finger_factors: Option<FingerFactors>,
    pub compute: T,
    pub category: core::marker::PhantomData<C>,
}

impl<C: ScissorCategory, T: ScissorCompute<C>> ScissorMetric<C, T> {
    /// Build a scissor metric from its parts.
    pub fn new(
        name: &str,
        critical_bigram_fraction: Option<u64>,
        critical_bigram_factor: Option<u64>,
        finger_factors: Option<FingerFactors>,
        compute: T,
    ) -> (r: ScissorMetric<C, T>)
        ensures
            r.name@ == name@,
            r.amplifier.critical_fraction == critical_bigram_fraction,
            r.amplifier.critical_factor == critical_bigram_factor,
            r.finger_factors == finger_factors,
            r.compute == compute,
    {
        ScissorMetric {
            name: String::from_str(name),
            amplifier: FrequencyAmplifier {
                critical_fraction: critical_bigram_fraction,
                critical_factor: critical_bigram_factor,
            },
            finger_factors,
            compute,
            category: core::marker::PhantomData,
        }
    }

    /// The factor of the weaker finger of the pair, or `1.0` where no
    /// finger table is configured.
    pub open spec fn finger_multiplier_spec(&self, k1: LayerKey, k2: LayerKey) -> u64 {
        match self.finger_factors {
            Option::Some(f) => f.pair_factor_spec(k1.key.finger, k2.key.finger),
            Option::None => UNIT,
        }
    }

    /// Calculate the finger multiplier of one bigram.
    fn finger_multiplier(&self, k1: &LayerKey, k2: &LayerKey) -> (r: u64)
        ensures
            r == self.finger_multiplier_spec(*k1, *k2),
    {
        match &self.finger_factors {
            Option::Some(f) => f.pair_factor(k1.key.finger, k2.key.finger),
            Option::None => UNIT,
        }
    }

    /// The cost and category tracked for one bigram in the categorized
    /// report: `weight * base * frequency_multiplier` (the finger factor
    /// enters only the plain per-item cost).
    pub open spec fn categorized_cost_spec(
        &self,
        k1: LayerKey,
        k2: LayerKey,
        weight: u64,
        total_weight: u64,
    ) -> Option<(u64, C)> {
        match self.compute.compute_spec(k1, k2) {
            Option::Some((base, cat)) => Option::Some(
                (
                    fx_mul_spec(
                        fx_mul_spec(weight, base),
                        self.amplifier.multiplier_spec(weight, total_weight),
                    ),
                    cat,
                ),
            ),
            Option::None => Option::None,
        }
    }

    /// Compute the tracked cost and category of one bigram.
    fn categorized_cost(
        &self,
        k1: &LayerKey,
        k2: &LayerKey,
        weight: u64,
        total_weight: u64,
    ) -> (r: Option<(u64, C)>)
        ensures
            r == self.categorized_cost_spec(*k1, *k2, weight, total_weight),
    {
        match self.compute.compute_cost(k1, k2) {
            Option::Some((base, cat)) => {
                let freq = self.amplifier.multiplier(weight, total_weight);
                Option::Some((fx_mul(fx_mul(weight, base), freq), cat))
            },
            Option::None => Option::None,
        }
    }
}

/// The saturating sum of the tracked costs of a bigram collection under a
/// scissor metric.
pub open spec fn sum_categorized_costs<C: ScissorCategory, T: ScissorCompute<C>>(
    metric: ScissorMetric<C, T>,
    items: Seq<WeightedBigram>,
    total_weight: u64,
) -> u64
    decreases items.len(),
{
    if items.len() == 0 {
        0
    } else {
        let last_cost = match metric.categorized_cost_spec(
            items.last().first,
            items.last().second,
            items.last().weight,
            total_weight,
        ) {
            Option::Some((c, _)) => c,
            Option::None => 0,
        };
        sat_add(sum_categorized_costs(metric, items.drop_last(), total_weight), last_cost)
    }
}

/// The pairs `(position, cost)` of the bigrams of one category, over the
/// first `n` items of the collection.
pub open spec fn category_cost_pairs<C: ScissorCategory, T: ScissorCompute<C>>(
    metric: ScissorMetric<C, T>,
    items: Seq<WeightedBigram>,
    total_weight: u64,
    n: int,
    cat: C,
) -> Multiset<(usize, u64)>
    decreases n,
{
    if n <= 0 {
        Multiset::empty()
    } else {
        let prev = category_cost_pairs(metric, items, total_weight, n - 1, cat);
        match metric.categorized_cost_spec(
            items[n - 1].first,
            items[n - 1].second,
            items[n - 1].weight,
            total_weight,
        ) {
            Option::Some((c, item_cat)) => if item_cat == cat {
                prev.insert(((n - 1) as usize, c))
            } else {
                prev
            },
            Option::None => prev,
        }
    }
}

/// The category messages of a scissor report: for each category of the
/// display order whose worst-offender selection holds a positive-cost
/// entry, its display name, a colon and the rendered selection, in
/// display order. `selections` holds one selection per category.
pub open spec fn category_messages<C: ScissorCategory, T: ScissorCompute<C>>(
    metric: ScissorMetric<C, T>,
    items: Seq<WeightedBigram>,
    total_weight: u64,
    total_cost: u64,
    selections: Seq<Seq<(usize, u64)>>,
) -> Seq<Seq<char>>
    decreases selections.len(),
{
    if selections.len() == 0 {
        Seq::empty()
    } else {
        let prefix = category_messages(
            metric,
            items,
            total_weight,
            total_cost,
            selections.drop_last(),
        );
        let sel = selections.last();
        if has_positive_entry(sel) {
            prefix + seq![
                C::order_spec()[selections.len() - 1].name_spec() + seq![':', ' ']
                    + bigram_worst_chars(items, sel, total_weight, total_cost),
            ]
        } else {
            prefix
        }
    }
}

/// Whether `selections` holds one worst-offender selection per category
/// of the display order, each drawn from that category's pairs and
/// bounded by `k`.
pub open spec fn scissor_selections_ok<C: ScissorCategory, T: ScissorCompute<C>>(
    metric: ScissorMetric<C, T>,
    items: Seq<WeightedBigram>,
    total_weight: u64,
    k: nat,
    selections: Seq<Seq<(usize, u64)>>,
) -> bool {
    &&& selections.len() == C::order_spec().len()
    &&& (forall|c: int|
        0 <= c < selections.len() ==> is_worst_selection(
            category_cost_pairs(metric, items, total_weight, items.len() as int, C::order_spec()[c]),
            #[trigger] selections[c],
            k,
        ))
}

impl<C: ScissorCategory, T: ScissorCompute<C>> ScissorMetric<C, T> {
    /// Collect the worst offenders of one category: a tracker of capacity
    /// `n_worst` fed the pair `(position, cost)` of every bigram of that
    /// category, so it retains exactly the `n_worst` highest-cost ones.
    fn collect_category(
        &self,
        bigrams: &Vec<WeightedBigram>,
        total_weight: u64,
        n_worst: usize,
        cat: &C,
    ) -> (r: TopKTracker)
        ensures
            r.inv(),
            r.seen() == category_cost_pairs(*self, bigrams@, total_weight, bigrams@.len() as int, *cat),
            r.cap() == n_worst,
    {
        let mut tracker = TopKTracker::new(n_worst);
        let mut i: usize = 0;
        while i < bigrams.len()
            invariant
                0 <= i <= bigrams@.len(),
                tracker.inv(),
                tracker.seen() == category_cost_pairs(*self, bigrams@, total_weight, i as int, *cat),
                tracker.cap() == n_worst,
                forall|e: (usize, u64)| tracker.seen().contains(e) ==> e.0 < i,
            decreases bigrams@.len() - i,
        {
            let item = &bigrams[i];
            let cost_option = self.categorized_cost(&item.first, &item.second, item.weight, total_weight);
            let ghost seen_before = tracker.seen();
            match cost_option {
                Option::Some((cost, item_cat)) => {
                    if item_cat.eq_cat(cat) {
                        tracker.push(i, cost);
                        proof {
                            assert forall|e: (usize, u64)| tracker.seen().contains(e) implies e.0
                                < i + 1 by {
                                assert(tracker.seen().count(e) == seen_before.count(e) + (if e == (
                                i,
                                cost,
                                ) {
                                    1int
                                } else {
                                    0int
                                }));
                                if e != (i, cost) {
                                    assert(seen_before.contains(e));
                                }
                            }
                        }
                    }
                },
                Option::None => {},
            }
            i = i + 1;
        }
        tracker
    }

    /// Sum the tracked costs of a whole bigram collection.
    fn sum_categorized(&self, bigrams: &Vec<WeightedBigram>, total_weight: u64) -> (r: u64)
        ensures
            r == sum_categorized_costs(*self, bigrams@, total_weight),
    {
        let mut total: u64 = 0;
        let mut i: usize = 0;
        while i < bigrams.len()
            invariant
                0 <= i <= bigrams@.len(),
                total == sum_categorized_costs(*self, bigrams@.take(i as int), total_weight),
            decreases bigrams@.len() - i,
        {
            proof {
                assert(bigrams@.take(i + 1).drop_last() =~= bigrams@.take(i as int));
                assert(bigrams@.take(i + 1).last() == bigrams@[i as int]);
            }
            let item = &bigrams[i];
            let cost_option = self.categorized_cost(&item.first, &item.second, item.weight, total_weight);
            match cost_option {
                Option::Some((cost, _)) => {
                    total = total.saturating_add(cost);
                },
                Option::None => {},
            }
            i = i + 1;
        }
        proof {
            assert(bigrams@.take(bigrams@.len() as int) =~= bigrams@);
        }
        total
    }

    /// Render the worst offenders of one category, sorted by descending
    /// cost, leaving out entries of zero cost: the category's display
    /// name, then the entries as in [`bigram_worst_chars`].
    fn render_category(
        &self,
        bigrams: &Vec<WeightedBigram>,
        entries: &Vec<(usize, u64)>,
        total_weight: u64,
        total_cost: u64,
        cat: &C,
    ) -> (r: Option<String>)
        requires
            forall|j: int| 0 <= j < entries@.len() ==> (#[trigger] entries@[j]).0 < bigrams@.len(),
        ensures
            r is Some <==> has_positive_entry(entries@),
            r matches Option::Some(m) ==> m@ == cat.name_spec() + seq![':', ' ']
                + bigram_worst_chars(bigrams@, entries@, total_weight, total_cost),
    {
        let mut msg = String::new();
        let mut any: bool = false;
        let mut i: usize = 0;
        proof {
            assert(entries@.take(0int) =~= Seq::<(usize, u64)>::empty());
        }
        while i < entries.len()
            invariant
                0 <= i <= entries@.len(),
                forall|j: int| 0 <= j < entries@.len() ==> (#[trigger] entries@[j]).0
                    < bigrams@.len(),
                any == has_positive_entry(entries@.take(i as int)),
                msg@ == bigram_worst_chars(
                    bigrams@,
                    entries@.take(i as int),
                    total_weight,
                    total_cost,
                ),
            decreases entries@.len() - i,
        {
            proof {
                assert(entries@.take(i + 1).drop_last() =~= entries@.take(i as int));
                assert(entries@.take(i + 1).last() == entries@[i as int]);
                reveal_strlit(", ");
                reveal_strlit(" ");
            }
            let (position, cost) = entries[i];
            if cost > 0 {
                if any {
                    msg.append(", ");
                }
                let item = &bigrams[position];
                push_symbol(&mut msg, item.first.symbol);
                push_symbol(&mut msg, item.second.symbol);
                msg.append(" ");
                let cost_pct = to_percentage(cost, total_cost);
                let freq_pct = to_percentage(item.weight, total_weight);
                let percentages = format_percentages(cost_pct, freq_pct);
                msg.append(percentages.as_str());
                any = true;
                proof {
                    assert(", "@ =~= seq![',', ' ']);
                    assert(" "@ =~= seq![' ']);
                    if !has_positive_entry(entries@.take(i as int)) {
                        crate::bigram_metrics::lemma_bigram_worst_chars_empty(
                            bigrams@,
                            entries@.take(i as int),
                            total_weight,
                            total_cost,
                        );
                    }
                    assert(entries@.take(i + 1)[i as int].1 > 0);
                    assert(msg@ =~= bigram_worst_chars(
                        bigrams@,
                        entries@.take(i + 1),
                        total_weight,
                        total_cost,
                    ));
                }
            } else {
                proof {
                    assert forall|j: int|
                        0 <= j < i + 1 && (#[trigger] entries@.take(i + 1)[j]).1 > 0 implies
                        has_positive_entry(entries@.take(i as int)) by {
                        if j < i {
                            assert(entries@.take(i as int)[j].1 > 0);
                        }
                    }
                }
            }
            i = i + 1;
        }
        proof {
            assert(entries@.take(entries@.len() as int) =~= entries@);
        }
        if any {
            let mut full = cat.display_name();
            full.append(": ");
            full.append(msg.as_str());
            proof {
                reveal_strlit(": ");
                assert(": "@ =~= seq![':', ' ']);
                assert(full@ =~= cat.name_spec() + seq![':', ' '] + bigram_worst_chars(
                    bigrams@,
                    entries@,
                    total_weight,
                    total_cost,
                ));
            }
            Option::Some(full)
        } else {
            Option::None
        }
    }

    /// The total cost of a bigram collection under the metric, with a
    /// per-category report of the worst offenders.
    ///
    /// With reporting off, the total is the saturating sum of the per-item
    /// costs (finger factors included) and no message is produced. With
    /// reporting on, the total is the saturating sum of the tracked costs,
    /// and the message lists, category by category in display order, a
    /// worst-offender selection of that category's items — the
    /// `min(n_worst, N)` highest-cost ones in descending cost order, each
    /// with its cost and corpus share; a category without positive-cost
    /// items is left out, and where none remains the report is `None`.
    pub fn total_cost(
        &self,
        bigrams: &Vec<WeightedBigram>,
        total_weight: Option<u64>,
        opts: &ReportOptions,
    ) -> (r: (u64, Option<String>))
        ensures
            !opts.show_worst ==> r.0 == sum_bigram_costs(
                *self,
                bigrams@,
                crate::bigram_metrics::effective_total_weight(total_weight, bigrams@),
            ) && r.1 is None,
            opts.show_worst ==> r.0 == sum_categorized_costs(
                *self,
                bigrams@,
                crate::bigram_metrics::effective_total_weight(total_weight, bigrams@),
            ),
            opts.show_worst ==> (r.1 is Some <==> (opts.n_worst > 0 && exists|c: int|
                0 <= c < C::order_spec().len() && has_positive_pair(
                    #[trigger] category_cost_pairs(
                        *self,
                        bigrams@,
                        crate::bigram_metrics::effective_total_weight(total_weight, bigrams@),
                        bigrams@.len() as int,
                        C::order_spec()[c],
                    ),
                ))),
            opts.show_worst ==> (exists|selections: Seq<Seq<(usize, u64)>>|
                {
                    &&& #[trigger] scissor_selections_ok(
                        *self,
                        bigrams@,
                        crate::bigram_metrics::effective_total_weight(total_weight, bigrams@),
                        opts.n_worst as nat,
                        selections,
                    )
                    &&& (r.1 is Some <==> category_messages(
                        *self,
                        bigrams@,
                        crate::bigram_metrics::effective_total_weight(total_weight, bigrams@),
                        r.0,
                        selections,
                    ).len() > 0)
                    &&& (r.1 matches Option::Some(m) ==> m@ == joined_chars(
                        category_messages(
                            *self,
                            bigrams@,
                            crate::bigram_metrics::effective_total_weight(total_weight, bigrams@),
                            r.0,
                            selections,
                        ),
                        "; "@,
                    ))
                }),
    {
        let tw = match total_weight {
            Option::Some(t) => t,
            Option::None => total_bigram_weight(bigrams),
        };
        if !opts.show_worst {
            let total = sum_bigram_costs_only(self, bigrams, tw);
            return (total, Option::None);
        }
        let total = self.sum_categorized(bigrams, tw);
        let order = C::display_order();
        let mut messages: Vec<String> = Vec::new();
        let ghost mut selections: Seq<Seq<(usize, u64)>> = Seq::empty();
        let mut c: usize = 0;
        while c < order.len()
            invariant
                0 <= c <= order@.len(),
                order@ == C::order_spec(),
                selections.len() == c,
                forall|j: int|
                    0 <= j < c ==> is_worst_selection(
                        category_cost_pairs(
                            *self,
                            bigrams@,
                            tw,
                            bigrams@.len() as int,
                            order@[j],
                        ),
                        #[trigger] selections[j],
                        opts.n_worst as nat,
                    ),
                forall|j: int|
                    0 <= j < c ==> (has_positive_entry(#[trigger] selections[j]) <==> (
                    opts.n_worst > 0 && has_positive_pair(
                        category_cost_pairs(
                            *self,
                            bigrams@,
                            tw,
                            bigrams@.len() as int,
                            order@[j],
                        ),
                    ))),
                messages@.map_values(|s: String| s@) == category_messages(
                    *self,
                    bigrams@,
                    tw,
                    total,
                    selections,
                ),
                messages@.len() > 0 <==> exists|j: int|
                    0 <= j < c && has_positive_entry(#[trigger] selections[j]),
            decreases order@.len() - c,
        {
            let cat = &order[c];
            let tracker = self.collect_category(bigrams, tw, opts.n_worst, cat);
            let n = bigrams.len();
            proof {
                lemma_category_cost_pairs_positions(*self, bigrams@, tw, n as int, *cat);
            }
            let entries = tracker.into_sorted_desc();
            let ghost pairs = category_cost_pairs(*self, bigrams@, tw, n as int, *cat);
            proof {
                broadcast use vstd::seq_lib::group_to_multiset_ensures;

                assert forall|j: int| 0 <= j < entries@.len() implies (#[trigger] entries@[j]).0
                    < bigrams@.len() by {
                    assert(entries@.contains(entries@[j]));
                    assert(entries@.to_multiset().count(entries@[j]) > 0);
                    assert(tracker.kept().count(entries@[j]) <= tracker.seen().count(
                        entries@[j],
                    ));
                    assert(tracker.seen().contains(entries@[j]));
                }
                // The handed-out entries are a worst-offender selection of
                // this category's pairs.
                assert(entries@.to_multiset().subset_of(pairs)) by {
                    assert(forall|v: (usize, u64)|
                        tracker.kept().count(v) <= #[trigger] tracker.seen().count(v));
                }
                assert(is_worst_selection(pairs, entries@, opts.n_worst as nat));
                // The category contributes a message exactly when one of
                // its positive-cost pairs could be retained.
                if has_positive_entry(entries@) {
                    let j = choose|j: int|
                        0 <= j < entries@.len() && (#[trigger] entries@[j]).1 > 0;
                    assert(entries@.contains(entries@[j]));
                    assert(entries@.to_multiset().count(entries@[j]) > 0);
                    assert(tracker.kept().count(entries@[j]) <= tracker.seen().count(
                        entries@[j],
                    ));
                    assert(pairs.contains(entries@[j]));
                    assert(has_positive_pair(pairs));
                    assert(tracker.kept().len() > 0);
                    assert(opts.n_worst > 0);
                }
                if opts.n_worst > 0 && has_positive_pair(pairs) {
                    tracker.lemma_retains_positive();
                    let e = choose|e: (usize, u64)| tracker.kept().contains(e) && e.1 > 0;
                    assert(entries@.to_multiset().count(e) > 0);
                    assert(entries@.contains(e));
                    let j = choose|j: int| 0 <= j < entries@.len() && entries@[j] == e;
                    assert(entries@[j].1 > 0);
                    assert(has_positive_entry(entries@));
                }
            }
            let ghost messages_before = messages@;
            match self.render_category(bigrams, &entries, tw, total, cat) {
                Option::Some(m) => {
                    messages.push(m);
                    proof {
                        assert(messages@.map_values(|s: String| s@)
                            =~= messages_before.map_values(|s: String| s@).push(m@));
                    }
                },
                Option::None => {},
            }
            proof {
                let selections_before = selections;
                selections = selections.push(entries@);
                assert(selections.drop_last() =~= selections_before);
                assert(selections.last() == entries@);
                assert(messages@.map_values(|s: String| s@) =~= category_messages(
                    *self,
                    bigrams@,
                    tw,
                    total,
                    selections,
                ));
            }
            c = c + 1;
        }
        let msg = join_messages(&messages);
        proof {
            assert(order@.len() == C::order_spec().len());
            assert(tw == crate::bigram_metrics::effective_total_weight(total_weight, bigrams@));
            assert(selections.len() == C::order_spec().len());
            assert forall|j: int|
                0 <= j < selections.len() implies is_worst_selection(
                category_cost_pairs(
                    *self,
                    bigrams@,
                    crate::bigram_metrics::effective_total_weight(total_weight, bigrams@),
                    bigrams@.len() as int,
                    C::order_spec()[j],
                ),
                #[trigger] selections[j],
                opts.n_worst as nat,
            ) by {
                assert(order@[j] == C::order_spec()[j]);
            }
            // The report exists exactly when some category in display
            // order has a retainable positive-cost pair.
            if msg is Some {
                let j = choose|j: int| 0 <= j < selections.len() && has_positive_entry(
                    #[trigger] selections[j],
                );
                assert(has_positive_pair(
                    category_cost_pairs(
                        *self,
                        bigrams@,
                        crate::bigram_metrics::effective_total_weight(total_weight, bigrams@),
                        bigrams@.len() as int,
                        C::order_spec()[j],
                    ),
                ));
            }
            if opts.n_worst > 0 && (exists|j: int|
                0 <= j < C::order_spec().len() && has_positive_pair(
                    #[trigger] category_cost_pairs(
                        *self,
                        bigrams@,
                        crate::bigram_metrics::effective_total_weight(total_weight, bigrams@),
                        bigrams@.len() as int,
                        C::order_spec()[j],
                    ),
                )) {
                let j = choose|j: int|
                    0 <= j < C::order_spec().len() && has_positive_pair(
                        #[trigger] category_cost_pairs(
                            *self,
                            bigrams@,
                            crate::bigram_metrics::effective_total_weight(total_weight, bigrams@),
                            bigrams@.len() as int,
                            C::order_spec()[j],
                        ),
                    );
                assert(order@[j] == C::order_spec()[j]);
                assert(has_positive_entry(selections[j]));
                assert(messages@.len() > 0);
            }
            assert(messages@.map_values(|s: String| s@).len() == messages@.len());
            assert(messages@.map_values(|s: String| s@) == category_messages(
                *self,
                bigrams@,
                crate::bigram_metrics::effective_total_weight(total_weight, bigrams@),
                total,
                selections,
            ));
            assert(scissor_selections_ok(
                *self,
                bigrams@,
                crate::bigram_metrics::effective_total_weight(total_weight, bigrams@),
                opts.n_worst as nat,
                selections,
            ));
        }
        (total, msg)
    }
}


/// Every pair a category tracker is fed points at a position inside the
/// collection.
proof fn lemma_category_cost_pairs_positions<C: ScissorCategory, T: ScissorCompute<C>>(
    metric: ScissorMetric<C, T>,
    items: Seq<WeightedBigram>,
    total_weight: u64,
    n: int,
    cat: C,
)
    requires
        n <= items.len(),
        n <= usize::MAX,
    ensures
        forall|e: (usize, u64)|
            category_cost_pairs(metric, items, total_weight, n, cat).contains(e) ==> e.0 < n,
    decreases n,
{
    if n > 0 {
        lemma_category_cost_pairs_positions(metric, items, total_weight, n - 1, cat);
        let prev = category_cost_pairs(metric, items, total_weight, n - 1, cat);
        let cur = category_cost_pairs(metric, items, total_weight, n, cat);
        match metric.categorized_cost_spec(
            items[n - 1].first,
            items[n - 1].second,
            items[n - 1].weight,
            total_weight,
        ) {
            Option::Some((c, item_cat)) => {
                if item_cat == cat {
                    let p: (usize, u64) = (((n - 1) as usize), c);
                    assert forall|e: (usize, u64)| cur.contains(e) implies e.0 < n by {
                        assert(cur.count(e) == prev.count(e) + (if e == p {
                            1int
                        } else {
                            0int
                        }));
                        if e != p {
                            assert(prev.contains(e));
                        }
                    }
                }
            },
            Option::None => {},
        }
    }
}

/// Join category messages with semicolons; an empty list yields no
/// message.
fn join_messages(messages: &Vec<String>) -> (r: Option<String>)
    ensures
        r is Some <==> messages@.len() > 0,
        r matches Option::Some(m) ==> m@ == joined_chars(
            messages@.map_values(|s: String| s@),
            "; "@,
        ),
{
    if messages.len() == 0 {
        return Option::None;
    }
    Option::Some(crate::format_utils::join_strings(messages, "; "))
}

impl<C: ScissorCategory, T: ScissorCompute<C>> BigramMetric for ScissorMetric<C, T> {
    open spec fn name_spec(&self) -> Seq<char> {
        self.name@
    }

    /// The per-item cost: zero where the strategy sees no scissor, and
    /// `weight * base * finger_multiplier * frequency_multiplier` where it
    /// does.
    open spec fn individual_cost_spec(
        &self,
        k1: LayerKey,
        k2: LayerKey,
        weight: u64,
        total_weight: u64,
    ) -> Option<u64> {
        match self.compute.compute_spec(k1, k2) {
            Option::Some((base, _)) => Option::Some(
                fx_mul_spec(
                    fx_mul_spec(fx_mul_spec(weight, base), self.finger_multiplier_spec(k1, k2)),
                    self.amplifier.multiplier_spec(weight, total_weight),
                ),
            ),
            Option::None => Option::Some(0),
        }
    }

    fn name(&self) -> (r: String) {
        self.name.clone()
    }

    fn individual_cost(
        &self,
        k1: &LayerKey,
        k2: &LayerKey,
        weight: u64,
        total_weight: u64,
    ) -> (r: Option<u64>) {
        match self.compute.compute_cost(k1, k2) {
            Option::Some((base, _)) => {
                let frequency_multiplier = self.amplifier.multiplier(weight, total_weight);
                let finger_multiplier = self.finger_multiplier(k1, k2);
                Option::Some(
                    fx_mul(fx_mul(fx_mul(weight, base), finger_multiplier), frequency_multiplier),
                )
            },
            Option::None => Option::Some(0),
        }
    }
}

} // verus!
