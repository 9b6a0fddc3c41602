//! Metrics over weighted bigrams.
//!
//! A bigram metric assigns each weighted pair of keystrokes an optional
//! fixed-point cost; the generic aggregation in this module folds a whole
//! collection of bigrams into a total cost and, on request, a report of the
//! worst offenders.

use vstd::prelude::*;
use vstd::multiset::Multiset;

use crate::fixed::pct_spec;
use crate::fixed::sat_add;
use crate::fixed::to_percentage;
use crate::format_utils::format_percentages;
use crate::format_utils::push_symbol;
use crate::key::LayerKey;
use crate::tracker::TopKTracker;

pub mod bigram_stats;
pub mod cluster_rolls;
pub mod fsb;
pub mod hsb;
pub mod scissor_base;
pub mod scissors;
pub mod sfb;

verus! {

broadcast use vstd::multiset::group_multiset_axioms;

/// A weighted bigram: two consecutive keystrokes and their corpus weight
/// (in fixed-point millionths of relative frequency).
#[derive(Clone, Copy, Debug)]
pub struct WeightedBigram {
    pub first: LayerKey,
    pub second: LayerKey,
    pub weight: u64,
}

/// Whether the two keystrokes form a same-finger bigram: one finger strikes
/// two different keys in a row. A repeat of the identical key is no bigram
/// of two movements and does not count.
pub open spec fn is_same_finger_bigram(k1: LayerKey, k2: LayerKey) -> bool {
    &&& k1.key.hand == k2.key.hand
    &&& k1.key.finger == k2.key.finger
    &&& k1 != k2
}

/// Check whether two keystrokes form a same-finger bigram.
pub fn same_finger_bigram(k1: &LayerKey, k2: &LayerKey) -> (r: bool)
    ensures
        r == is_same_finger_bigram(*k1, *k2),
{
    k1.key.hand == k2.key.hand && k1.key.finger == k2.key.finger && !(*k1 == *k2)
}

/// How the aggregation reports: whether to collect the worst offenders at
/// all, and how many to retain.
#[derive(Clone, Copy, Debug)]
pub struct ReportOptions {
    pub show_worst: bool,
    pub n_worst: usize,
}

impl Default for ReportOptions {
    /// The default reporting: collect the three worst offenders.
    fn default() -> (r: ReportOptions)
        ensures
            r.show_worst == true,
            r.n_worst == 3,
    {
        ReportOptions { show_worst: true, n_worst: 3 }
    }
}

/// The cost an optional per-item result contributes to a total.
pub open spec fn cost_or_zero(c: Option<u64>) -> u64 {
    match c {
        Option::Some(v) => v,
        Option::None => 0,
    }
}

/// The saturating sum of the weights of a bigram collection.
pub open spec fn sum_bigram_weights(items: Seq<WeightedBigram>) -> u64
    decreases items.len(),
{
    if items.len() == 0 {
        0
    } else {
        sat_add(sum_bigram_weights(items.drop_last()), items.last().weight)
    }
}

/// A metric over single bigrams.
///
/// `individual_cost` is a pure function of the bigram, its weight and the
/// collection's total weight: `None` means the metric does not apply to the
/// bigram at all, `Some(0)` that it applies at no cost.
pub trait BigramMetric: Sized {
    /// The name of the metric.
    spec fn name_spec(&self) -> Seq<char>;

    /// The cost the metric assigns to one weighted bigram.
    spec fn individual_cost_spec(
        &self,
        k1: LayerKey,
        k2: LayerKey,
        weight: u64,
        total_weight: u64,
    ) -> Option<u64>;

    /// Return the name of the metric.
    fn name(&self) -> (r: String)
        ensures
            r@ == self.name_spec(),
    ;

    /// Compute the cost of one bigram, or `None` where the metric does not
    /// apply.
    fn individual_cost(
        &self,
        k1: &LayerKey,
        k2: &LayerKey,
        weight: u64,
        total_weight: u64,
    ) -> (r: Option<u64>)
        ensures
            r == self.individual_cost_spec(*k1, *k2, weight, total_weight),
    ;
}

/// The saturating sum of the costs a metric assigns to a bigram collection.
pub open spec fn sum_bigram_costs<M: BigramMetric>(
    metric: M,
    items: Seq<WeightedBigram>,
    total_weight: u64,
) -> u64
    decreases items.len(),
{
    if items.len() == 0 {
        0
    } else {
        sat_add(
            sum_bigram_costs(metric, items.drop_last(), total_weight),
            cost_or_zero(
                metric.individual_cost_spec(
                    items.last().first,
                    items.last().second,
                    items.last().weight,
                    total_weight,
                ),
            ),
        )
    }
}

/// The pairs `(position, cost)` of every bigram the metric applies to,
/// over the first `n` items of the collection.
pub open spec fn bigram_cost_pairs<M: BigramMetric>(
    metric: M,
    items: Seq<WeightedBigram>,
    total_weight: u64,
    n: int,
) -> Multiset<(usize, u64)>
    decreases n,
{
    if n <= 0 {
        Multiset::empty()
    } else {
        let prev = bigram_cost_pairs(metric, items, total_weight, n - 1);
        match metric.individual_cost_spec(
            items[n - 1].first,
            items[n - 1].second,
            items[n - 1].weight,
            total_weight,
        ) {
            Option::Some(c) => prev.insert(((n - 1) as usize, c)),
            Option::None => prev,
        }
    }
}

/// The total weight the aggregation works with: the supplied one, or the
/// saturating sum of the item weights where none was supplied.
pub open spec fn effective_total_weight(total_weight: Option<u64>, items: Seq<WeightedBigram>) -> u64 {
    match total_weight {
        Option::Some(t) => t,
        Option::None => sum_bigram_weights(items),
    }
}

/// Sum the weights of a bigram collection, saturating at `u64::MAX`.
pub fn total_bigram_weight(bigrams: &Vec<WeightedBigram>) -> (r: u64)
    ensures
        r == sum_bigram_weights(bigrams@),
{
    let mut acc: u64 = 0;
    let mut i: usize = 0;
    while i < bigrams.len()
        invariant
            0 <= i <= bigrams@.len(),
            acc == sum_bigram_weights(bigrams@.take(i as int)),
        decreases bigrams@.len() - i,
    {
        proof {
            assert(bigrams@.take(i + 1).drop_last() =~= bigrams@.take(i as int));
            assert(bigrams@.take(i + 1).last() == bigrams@[i as int]);
        }
        acc = acc.saturating_add(bigrams[i].weight);
        i = i + 1;
    }
    proof {
        assert(bigrams@.take(bigrams@.len() as int) =~= bigrams@);
    }
    acc
}

/// Collect the total cost of a bigram collection under a metric, together
/// with the worst offenders: a tracker of capacity `n_worst` that has been
/// fed the pair `(position, cost)` of every bigram the metric applies to,
/// and so retains exactly the `n_worst` highest-cost ones.
pub fn collect_bigram_costs<M: BigramMetric>(
    metric: &M,
    bigrams: &Vec<WeightedBigram>,
    total_weight: u64,
    n_worst: usize,
) -> (r: (u64, TopKTracker))
    ensures
        r.0 == sum_bigram_costs(*metric, bigrams@, total_weight),
        r.1.inv(),
        r.1.seen() == bigram_cost_pairs(*metric, bigrams@, total_weight, bigrams@.len() as int),
        r.1.cap() == n_worst,
{
    let mut total: u64 = 0;
    let mut tracker = TopKTracker::new(n_worst);
    let mut i: usize = 0;
    while i < bigrams.len()
        invariant
            0 <= i <= bigrams@.len(),
            total == sum_bigram_costs(*metric, bigrams@.take(i as int), total_weight),
            tracker.inv(),
            tracker.seen() == bigram_cost_pairs(*metric, bigrams@, total_weight, i as int),
            tracker.cap() == n_worst,
            forall|e: (usize, u64)| tracker.seen().contains(e) ==> e.0 < i,
        decreases bigrams@.len() - i,
    {
        proof {
            assert(bigrams@.take(i + 1).drop_last() =~= bigrams@.take(i as int));
            assert(bigrams@.take(i + 1).last() == bigrams@[i as int]);
        }
        let item = &bigrams[i];
        let cost_option = metric.individual_cost(&item.first, &item.second, item.weight, total_weight);
        let ghost seen_before = tracker.seen();
        match cost_option {
            Option::Some(cost) => {
                total = total.saturating_add(cost);
                tracker.push(i, cost);
                proof {
                    assert forall|e: (usize, u64)| tracker.seen().contains(e) implies e.0 < i
                        + 1 by {
                        assert(tracker.seen().count(e) == seen_before.count(e) + (if e == (
                        i,
                        cost,
                        ) {
                            1int
                        } else {
                            0int
                        }));
                        if e == (i, cost) {
                            assert(e.0 == i);
                        } else {
                            assert(seen_before.count(e) > 0);
                            assert(seen_before.contains(e));
                            assert(e.0 < i);
                        }
                    }
                }
            },
            Option::None => {},
        }
        i = i + 1;
    }
    proof {
        assert(bigrams@.take(bigrams@.len() as int) =~= bigrams@);
    }
    (total, tracker)
}

/// Sum the costs of a bigram collection under a metric without any
/// tracking: the cheap path when no report is wanted.
pub fn sum_bigram_costs_only<M: BigramMetric>(
    metric: &M,
    bigrams: &Vec<WeightedBigram>,
    total_weight: u64,
) -> (r: u64)
    ensures
        r == sum_bigram_costs(*metric, bigrams@, total_weight),
{
    let mut total: u64 = 0;
    let mut i: usize = 0;
    while i < bigrams.len()
        invariant
            0 <= i <= bigrams@.len(),
            total == sum_bigram_costs(*metric, bigrams@.take(i as int), total_weight),
        decreases bigrams@.len() - i,
    {
        proof {
            assert(bigrams@.take(i + 1).drop_last() =~= bigrams@.take(i as int));
            assert(bigrams@.take(i + 1).last() == bigrams@[i as int]);
        }
        let item = &bigrams[i];
        let cost_option = metric.individual_cost(&item.first, &item.second, item.weight, total_weight);
        match cost_option {
            Option::Some(cost) => {
                total = total.saturating_add(cost);
            },
            Option::None => {},
        }
        i = i + 1;
    }
    proof {
        assert(bigrams@.take(bigrams@.len() as int) =~= bigrams@);
    }
    total
}

/// Whether any listed entry carries a positive cost.
pub open spec fn has_positive_entry(entries: Seq<(usize, u64)>) -> bool {
    exists|j: int| 0 <= j < entries.len() && (#[trigger] entries[j]).1 > 0
}

/// Whether any pair of the collection carries a positive cost.
pub open spec fn has_positive_pair(pairs: Multiset<(usize, u64)>) -> bool {
    exists|e: (usize, u64)| pairs.contains(e) && e.1 > 0
}

/// Whether `entries` is a worst-offender selection of `pairs`, bounded by
/// `k`: all entries drawn from the pairs, as many as the bound allows, no
/// unselected pair outcosting a selected one, and listed by descending
/// cost. This is what the aggregation's report contains — which of
/// equal-cost pairs are selected, and their order among equals, is all
/// that stays open.
pub open spec fn is_worst_selection(
    pairs: Multiset<(usize, u64)>,
    entries: Seq<(usize, u64)>,
    k: nat,
) -> bool {
    &&& entries.to_multiset().subset_of(pairs)
    &&& entries.len() == if pairs.len() <= k {
        pairs.len()
    } else {
        k
    }
    &&& forall|d: (usize, u64), e: (usize, u64)|
        pairs.sub(entries.to_multiset()).contains(d) && entries.to_multiset().contains(e) ==> d.1
            <= e.1
    &&& forall|i: int, j: int| 0 <= i < j < entries.len() ==> entries[i].1 >= entries[j].1
}

/// The rendering of one worst bigram: its two symbols with spaces made
/// visible, a space, and its share of the total cost and of the corpus.
pub open spec fn bigram_entry_chars(
    b: WeightedBigram,
    cost: u64,
    total_weight: u64,
    total_cost: u64,
) -> Seq<char> {
    seq![
        crate::format_utils::visible_symbol(b.first.symbol),
        crate::format_utils::visible_symbol(b.second.symbol),
        ' ',
    ] + crate::format_utils::percentages_chars(
        pct_spec(cost, total_cost),
        pct_spec(b.weight, total_weight),
    )
}

/// The rendering of a worst-offender list: the positive-cost entries in
/// order, separated by commas.
pub open spec fn bigram_worst_chars(
    bigrams: Seq<WeightedBigram>,
    entries: Seq<(usize, u64)>,
    total_weight: u64,
    total_cost: u64,
) -> Seq<char>
    decreases entries.len(),
{
    if entries.len() == 0 {
        Seq::empty()
    } else {
        let prefix = bigram_worst_chars(bigrams, entries.drop_last(), total_weight, total_cost);
        let e = entries.last();
        if e.1 > 0 {
            let fragment = bigram_entry_chars(bigrams[e.0 as int], e.1, total_weight, total_cost);
            if has_positive_entry(entries.drop_last()) {
                prefix + seq![',', ' '] + fragment
            } else {
                fragment
            }
        } else {
            prefix
        }
    }
}

/// A list without positive entries renders as nothing.
pub(crate) proof fn lemma_bigram_worst_chars_empty(
    bigrams: Seq<WeightedBigram>,
    entries: Seq<(usize, u64)>,
    total_weight: u64,
    total_cost: u64,
)
    requires
        !has_positive_entry(entries),
    ensures
        bigram_worst_chars(bigrams, entries, total_weight, total_cost) == Seq::<char>::empty(),
    decreases entries.len(),
{
    if entries.len() > 0 {
        assert(!(entries.last().1 > 0)) by {
            if entries.last().1 > 0 {
                assert(entries[entries.len() - 1].1 > 0);
            }
        }
        assert forall|j: int|
            0 <= j < entries.drop_last().len() implies !((#[trigger] entries.drop_last()[j]).1
            > 0) by {
            assert(entries.drop_last()[j] == entries[j]);
        }
        lemma_bigram_worst_chars_empty(bigrams, entries.drop_last(), total_weight, total_cost);
    }
}

/// Render the worst-offender entries of a bigram collection: each entry's
/// two symbols (spaces made visible) and its share of the total cost and
/// of the corpus, separated by commas. Entries of zero cost are left out;
/// where nothing remains, no message is produced.
pub fn render_bigram_worst(
    bigrams: &Vec<WeightedBigram>,
    entries: &Vec<(usize, u64)>,
    total_weight: u64,
    total_cost: u64,
) -> (r: Option<String>)
    requires
        forall|j: int| 0 <= j < entries@.len() ==> (#[trigger] entries@[j]).0 < bigrams@.len(),
    ensures
        r is Some <==> has_positive_entry(entries@),
        r matches Option::Some(m) ==> m@ == "Worst: "@ + bigram_worst_chars(
            bigrams@,
            entries@,
            total_weight,
            total_cost,
        ),
{
    let mut msg = String::new();
    let mut any: bool = false;
    let mut i: usize = 0;
    proof {
        assert(entries@.take(0int) =~= Seq::<(usize, u64)>::empty());
    }
    while i < entries.len()
        invariant
            0 <= i <= entries@.len(),
            forall|j: int| 0 <= j < entries@.len() ==> (#[trigger] entries@[j]).0 < bigrams@.len(),
            any == has_positive_entry(entries@.take(i as int)),
            msg@ == bigram_worst_chars(bigrams@, entries@.take(i as int), total_weight, total_cost),
        decreases entries@.len() - i,
    {
        proof {
            assert(entries@.take(i + 1).drop_last() =~= entries@.take(i as int));
            assert(entries@.take(i + 1).last() == entries@[i as int]);
            reveal_strlit(", ");
            reveal_strlit(" ");
        }
        let (position, cost) = entries[i];
        if cost > 0 {
            if any {
                msg.append(", ");
            }
            let item = &bigrams[position];
            push_symbol(&mut msg, item.first.symbol);
            push_symbol(&mut msg, item.second.symbol);
            msg.append(" ");
            let cost_pct = to_percentage(cost, total_cost);
            let freq_pct = to_percentage(item.weight, total_weight);
            let percentages = format_percentages(cost_pct, freq_pct);
            msg.append(percentages.as_str());
            any = true;
            proof {
                assert(", "@ =~= seq![',', ' ']);
                assert(" "@ =~= seq![' ']);
                if !has_positive_entry(entries@.take(i as int)) {
                    lemma_bigram_worst_chars_empty(
                        bigrams@,
                        entries@.take(i as int),
                        total_weight,
                        total_cost,
                    );
                }
                assert(entries@.take(i + 1)[i as int].1 > 0);
                assert(msg@ =~= bigram_worst_chars(
                    bigrams@,
                    entries@.take(i + 1),
                    total_weight,
                    total_cost,
                ));
            }
        } else {
            proof {
                assert forall|j: int|
                    0 <= j < i + 1 && (#[trigger] entries@.take(i + 1)[j]).1 > 0 implies
                    has_positive_entry(entries@.take(i as int)) by {
                    if j < i {
                        assert(entries@.take(i as int)[j].1 > 0);
                    }
                }
            }
        }
        i = i + 1;
    }
    proof {
        assert(entries@.take(entries@.len() as int) =~= entries@);
    }
    if any {
        let mut full = String::new();
        full.append("Worst: ");
        full.append(msg.as_str());
        proof {
            assert(full@ =~= "Worst: "@ + bigram_worst_chars(
                bigrams@,
                entries@,
                total_weight,
                total_cost,
            ));
        }
        Option::Some(full)
    } else {
        Option::None
    }
}

/// The total cost a metric assigns to a collection of weighted bigrams:
/// the saturating sum of the individual costs of every bigram, whether or
/// not a worst-offender report is collected alongside it.
///
/// Where no total weight is supplied it is the saturating sum of the item
/// weights. The report is `None` whenever reporting is off. With it on,
/// the report exists exactly when some applicable item of positive cost
/// can be retained, and it renders a worst-offender selection of the
/// applicable items: the `min(n_worst, N)` highest-cost ones, in
/// descending cost order, each with its cost and corpus share — only the
/// choice among equal-cost items is left open.
pub fn total_cost_with<M: BigramMetric>(
    metric: &M,
    bigrams: &Vec<WeightedBigram>,
    total_weight: Option<u64>,
    opts: &ReportOptions,
) -> (r: (u64, Option<String>))
    ensures
        r.0 == sum_bigram_costs(*metric, bigrams@, effective_total_weight(total_weight, bigrams@)),
        !opts.show_worst ==> r.1 is None,
        opts.show_worst && opts.n_worst > 0 && r.0 > 0 ==> r.1 is Some,
        opts.show_worst ==> (r.1 is Some <==> (opts.n_worst > 0 && has_positive_pair(
            bigram_cost_pairs(
                *metric,
                bigrams@,
                effective_total_weight(total_weight, bigrams@),
                bigrams@.len() as int,
            ),
        ))),
        opts.show_worst ==> (exists|entries: Seq<(usize, u64)>|
            {
                &&& #[trigger] is_worst_selection(
                    bigram_cost_pairs(
                        *metric,
                        bigrams@,
                        effective_total_weight(total_weight, bigrams@),
                        bigrams@.len() as int,
                    ),
                    entries,
                    opts.n_worst as nat,
                )
                &&& (r.1 is Some <==> has_positive_entry(entries))
                &&& (r.1 matches Option::Some(m) ==> m@ == "Worst: "@ + bigram_worst_chars(
                    bigrams@,
                    entries,
                    effective_total_weight(total_weight, bigrams@),
                    r.0,
                ))
            }),
{
    let tw = match total_weight {
        Option::Some(t) => t,
        Option::None => total_bigram_weight(bigrams),
    };
    if !opts.show_worst {
        let total = sum_bigram_costs_only(metric, bigrams, tw);
        return (total, Option::None);
    }
    let (total, tracker) = collect_bigram_costs(metric, bigrams, tw, opts.n_worst);
    let n = bigrams.len();
    proof {
        lemma_bigram_cost_pairs_positions(*metric, bigrams@, tw, n as int);
    }
    let entries = tracker.into_sorted_desc();
    proof {
        broadcast use vstd::seq_lib::group_to_multiset_ensures, vstd::multiset::group_multiset_axioms;

        assert forall|j: int| 0 <= j < entries@.len() implies (#[trigger] entries@[j]).0
            < bigrams@.len() by {
            assert(entries@.contains(entries@[j]));
            assert(entries@.to_multiset().count(entries@[j]) > 0);
            assert(tracker.kept().count(entries@[j]) <= tracker.seen().count(entries@[j]));
            assert(tracker.seen().contains(entries@[j]));
        }
    }
    proof {
        if opts.n_worst > 0 && total > 0 {
            broadcast use vstd::seq_lib::group_to_multiset_ensures;

            assert(bigrams@.take(n as int) =~= bigrams@);
            lemma_bigram_positive_cost_has_pair(*metric, bigrams@, tw, n as int);
            tracker.lemma_retains_positive();
            let e = choose|e: (usize, u64)| tracker.kept().contains(e) && e.1 > 0;
            assert(entries@.to_multiset().count(e) > 0);
            assert(entries@.contains(e));
            let j = choose|j: int| 0 <= j < entries@.len() && entries@[j] == e;
            assert(entries@[j].1 > 0);
        }
    }
    let msg = render_bigram_worst(bigrams, &entries, tw, total);
    proof {
        broadcast use vstd::seq_lib::group_to_multiset_ensures;

        let pairs = bigram_cost_pairs(*metric, bigrams@, tw, bigrams@.len() as int);
        // The handed-out entries are a worst-offender selection of the
        // applicable pairs: the tracker's retention invariant, read
        // through its sorted output.
        assert(entries@.to_multiset().subset_of(pairs)) by {
            assert(forall|v: (usize, u64)|
                tracker.kept().count(v) <= #[trigger] tracker.seen().count(v));
        }
        assert(is_worst_selection(pairs, entries@, opts.n_worst as nat));
        // The report exists exactly when a positive-cost pair could be
        // retained.
        if has_positive_entry(entries@) {
            let j = choose|j: int| 0 <= j < entries@.len() && (#[trigger] entries@[j]).1 > 0;
            assert(entries@.contains(entries@[j]));
            assert(entries@.to_multiset().count(entries@[j]) > 0);
            assert(tracker.kept().count(entries@[j]) <= tracker.seen().count(entries@[j]));
            assert(pairs.contains(entries@[j]));
            assert(has_positive_pair(pairs));
            assert(tracker.kept().len() > 0);
            assert(opts.n_worst > 0);
        }
        if opts.n_worst > 0 && has_positive_pair(pairs) {
            tracker.lemma_retains_positive();
            let e = choose|e: (usize, u64)| tracker.kept().contains(e) && e.1 > 0;
            assert(entries@.to_multiset().count(e) > 0);
            assert(entries@.contains(e));
            let j = choose|j: int| 0 <= j < entries@.len() && entries@[j] == e;
            assert(entries@[j].1 > 0);
            assert(has_positive_entry(entries@));
        }
        assert(tw == effective_total_weight(total_weight, bigrams@));
        assert(is_worst_selection(
            bigram_cost_pairs(
                *metric,
                bigrams@,
                effective_total_weight(total_weight, bigrams@),
                bigrams@.len() as int,
            ),
            entries@,
            opts.n_worst as nat,
        ));
    }
    (total, msg)
}

/// A positive cost sum comes from some applicable bigram of positive
/// cost, which the aggregation has fed to the tracker.
proof fn lemma_bigram_positive_cost_has_pair<M: BigramMetric>(
    metric: M,
    items: Seq<WeightedBigram>,
    total_weight: u64,
    n: int,
)
    requires
        0 <= n <= items.len(),
        n <= usize::MAX,
        sum_bigram_costs(metric, items.take(n), total_weight) > 0,
    ensures
        exists|e: (usize, u64)|
            bigram_cost_pairs(metric, items, total_weight, n).contains(e) && e.1 > 0,
    decreases n,
{
    assert(items.take(n).len() == n);
    assert(n > 0);
    assert(items.take(n).drop_last() =~= items.take(n - 1));
    assert(items.take(n).last() == items[n - 1]);
    let prev_sum = sum_bigram_costs(metric, items.take(n - 1), total_weight);
    let last_cost = cost_or_zero(
        metric.individual_cost_spec(
            items[n - 1].first,
            items[n - 1].second,
            items[n - 1].weight,
            total_weight,
        ),
    );
    let prev = bigram_cost_pairs(metric, items, total_weight, n - 1);
    let cur = bigram_cost_pairs(metric, items, total_weight, n);
    if last_cost > 0 {
        let c = match metric.individual_cost_spec(
            items[n - 1].first,
            items[n - 1].second,
            items[n - 1].weight,
            total_weight,
        ) {
            Option::Some(c) => c,
            Option::None => 0,
        };
        let p: (usize, u64) = (((n - 1) as usize), c);
        assert(cur.count(p) == prev.count(p) + 1);
        assert(cur.contains(p) && p.1 > 0);
    } else {
        assert(prev_sum > 0);
        lemma_bigram_positive_cost_has_pair(metric, items, total_weight, n - 1);
        let e = choose|e: (usize, u64)| prev.contains(e) && e.1 > 0;
        assert(cur.count(e) >= prev.count(e)) by {
            match metric.individual_cost_spec(
                items[n - 1].first,
                items[n - 1].second,
                items[n - 1].weight,
                total_weight,
            ) {
                Option::Some(c) => {
                    assert(cur.count(e) == prev.insert((((n - 1) as usize), c)).count(e));
                },
                Option::None => {},
            }
        }
        assert(cur.contains(e) && e.1 > 0);
    }
}

/// Every pair the aggregation feeds to the tracker points at a position
/// inside the collection.
proof fn lemma_bigram_cost_pairs_positions<M: BigramMetric>(
    metric: M,
    items: Seq<WeightedBigram>,
    total_weight: u64,
    n: int,
)
    requires
        n <= items.len(),
        n <= usize::MAX,
    ensures
        forall|e: (usize, u64)|
            bigram_cost_pairs(metric, items, total_weight, n).contains(e) ==> e.0 < n,
    decreases n,
{
    if n > 0 {
        lemma_bigram_cost_pairs_positions(metric, items, total_weight, n - 1);
        let prev = bigram_cost_pairs(metric, items, total_weight, n - 1);
        match metric.individual_cost_spec(
            items[n - 1].first,
            items[n - 1].second,
            items[n - 1].weight,
            total_weight,
        ) {
            Option::Some(c) => {
                let cur = bigram_cost_pairs(metric, items, total_weight, n);
                let p: (usize, u64) = (((n - 1) as usize), c);
                assert forall|e: (usize, u64)| cur.contains(e) implies e.0 < n by {
                    assert(cur.count(e) == prev.count(e) + (if e == p {
                        1int
                    } else {
                        0int
                    }));
                    if e == p {
                        assert(e.0 == n - 1);
                    } else {
                        assert(prev.count(e) > 0);
                        assert(prev.contains(e));
                        assert(e.0 < n - 1);
                    }
                }
            },
            Option::None => {},
        }
    }
}

} // verus!
