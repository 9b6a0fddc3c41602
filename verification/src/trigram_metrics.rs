//! Metrics over weighted trigrams.
//!
//! A trigram metric assigns each weighted triple of keystrokes an optional
//! fixed-point cost; the generic aggregation in this module folds a whole
//! collection of trigrams into a total cost and, on request, a report of
//! the worst offenders.

use vstd::prelude::*;
use vstd::multiset::Multiset;

use crate::bigram_metrics::has_positive_entry;
use crate::bigram_metrics::has_positive_pair;
use crate::bigram_metrics::is_worst_selection;
use crate::fixed::pct_spec;
use crate::fixed::sat_add;
use crate::fixed::to_percentage;
use crate::format_utils::format_percentages;
use crate::format_utils::push_symbol;
use crate::key::LayerKey;
use crate::tracker::TopKTracker;

pub mod redirect_base;
pub mod redirects;
pub mod sfs;
pub mod trigram_stats;
pub mod weak_redirect;

verus! {

broadcast use vstd::multiset::group_multiset_axioms;

/// A weighted trigram: three consecutive keystrokes and their corpus weight
/// (in fixed-point millionths of relative frequency).
#[derive(Clone, Copy, Debug)]
pub struct WeightedTrigram {
    pub first: LayerKey,
    pub second: LayerKey,
    pub third: LayerKey,
    pub weight: u64,
}

/// Whether the first and third keystrokes form a same-finger skipgram: one
/// finger strikes two different keys with one keystroke in between.
pub open spec fn is_same_finger_skipgram(k1: LayerKey, k3: LayerKey) -> bool {
    &&& k1.key.hand == k3.key.hand
    &&& k1.key.finger == k3.key.finger
    &&& k1 != k3
}

/// Check whether two keystrokes form a same-finger skipgram.
pub fn same_finger_skipgram(k1: &LayerKey, k3: &LayerKey) -> (r: bool)
    ensures
        r == is_same_finger_skipgram(*k1, *k3),
{
    k1.key.hand == k3.key.hand && k1.key.finger == k3.key.finger && !(*k1 == *k3)
}

/// A metric over single trigrams.
///
/// `individual_cost` is a pure function of the trigram, its weight and the
/// collection's total weight: `None` means the metric does not apply to
/// the trigram at all, `Some(0)` that it applies at no cost.
pub trait TrigramMetric: Sized {
    /// The name of the metric.
    spec fn name_spec(&self) -> Seq<char>;

    /// The cost the metric assigns to one weighted trigram.
    spec fn individual_cost_spec(
        &self,
        k1: LayerKey,
        k2: LayerKey,
        k3: LayerKey,
        weight: u64,
        total_weight: u64,
    ) -> Option<u64>;

    /// Return the name of the metric.
    fn name(&self) -> (r: String)
        ensures
            r@ == self.name_spec(),
    ;

    /// Compute the cost of one trigram, or `None` where the metric does
    /// not apply.
    fn individual_cost(
        &self,
        k1: &LayerKey,
        k2: &LayerKey,
        k3: &LayerKey,
        weight: u64,
        total_weight: u64,
    ) -> (r: Option<u64>)
        ensures
            r == self.individual_cost_spec(*k1, *k2, *k3, weight, total_weight),
    ;
}

/// The cost an optional per-item result contributes to a total.
pub open spec fn trigram_cost_or_zero(c: Option<u64>) -> u64 {
    match c {
        Option::Some(v) => v,
        Option::None => 0,
    }
}

/// The saturating sum of the weights of a trigram collection.
pub open spec fn sum_trigram_weights(items: Seq<WeightedTrigram>) -> u64
    decreases items.len(),
{
    if items.len() == 0 {
        0
    } else {
        sat_add(sum_trigram_weights(items.drop_last()), items.last().weight)
    }
}

/// The saturating sum of the costs a metric assigns to a trigram
/// collection.
pub open spec fn sum_trigram_costs<M: TrigramMetric>(
    metric: M,
    items: Seq<WeightedTrigram>,
    total_weight: u64,
) -> u64
    decreases items.len(),
{
    if items.len() == 0 {
        0
    } else {
        sat_add(
            sum_trigram_costs(metric, items.drop_last(), total_weight),
            trigram_cost_or_zero(
                metric.individual_cost_spec(
                    items.last().first,
                    items.last().second,
                    items.last().third,
                    items.last().weight,
                    total_weight,
                ),
            ),
        )
    }
}

/// The pairs `(position, cost)` of every trigram the metric applies to,
/// over the first `n` items of the collection.
pub open spec fn trigram_cost_pairs<M: TrigramMetric>(
    metric: M,
    items: Seq<WeightedTrigram>,
    total_weight: u64,
    n: int,
) -> Multiset<(usize, u64)>
    decreases n,
{
    if n <= 0 {
        Multiset::empty()
    } else {
        let prev = trigram_cost_pairs(metric, items, total_weight, n - 1);
        match metric.individual_cost_spec(
            items[n - 1].first,
            items[n - 1].second,
            items[n - 1].third,
            items[n - 1].weight,
            total_weight,
        ) {
            Option::Some(c) => prev.insert(((n - 1) as usize, c)),
            Option::None => prev,
        }
    }
}

/// The total weight the aggregation works with: the supplied one, or the
/// saturating sum of the item weights where none was supplied.
pub open spec fn effective_trigram_total_weight(
    total_weight: Option<u64>,
    items: Seq<WeightedTrigram>,
) -> u64 {
    match total_weight {
        Option::Some(t) => t,
        Option::None => sum_trigram_weights(items),
    }
}

/// Sum the weights of a trigram collection, saturating at `u64::MAX`.
pub fn total_trigram_weight(trigrams: &Vec<WeightedTrigram>) -> (r: u64)
    ensures
        r == sum_trigram_weights(trigrams@),
{
    let mut acc: u64 = 0;
    let mut i: usize = 0;
    while i < trigrams.len()
        invariant
            0 <= i <= trigrams@.len(),
            acc == sum_trigram_weights(trigrams@.take(i as int)),
        decreases trigrams@.len() - i,
    {
        proof {
            assert(trigrams@.take(i + 1).drop_last() =~= trigrams@.take(i as int));
            assert(trigrams@.take(i + 1).last() == trigrams@[i as int]);
        }
        acc = acc.saturating_add(trigrams[i].weight);
        i = i + 1;
    }
    proof {
        assert(trigrams@.take(trigrams@.len() as int) =~= trigrams@);
    }
    acc
}

/// Collect the total cost of a trigram collection under a metric,
/// together with the worst offenders: a tracker of capacity `n_worst`
/// that has been fed the pair `(position, cost)` of every trigram the
/// metric applies to, and so retains exactly the `n_worst` highest-cost
/// ones.
pub fn collect_trigram_costs<M: TrigramMetric>(
    metric: &M,
    trigrams: &Vec<WeightedTrigram>,
    total_weight: u64,
    n_worst: usize,
) -> (r: (u64, TopKTracker))
    ensures
        r.0 == sum_trigram_costs(*metric, trigrams@, total_weight),
        r.1.inv(),
        r.1.seen() == trigram_cost_pairs(*metric, trigrams@, total_weight, trigrams@.len() as int),
        r.1.cap() == n_worst,
{
    let mut total: u64 = 0;
    let mut tracker = TopKTracker::new(n_worst);
    let mut i: usize = 0;
    while i < trigrams.len()
        invariant
            0 <= i <= trigrams@.len(),
            total == sum_trigram_costs(*metric, trigrams@.take(i as int), total_weight),
            tracker.inv(),
            tracker.seen() == trigram_cost_pairs(*metric, trigrams@, total_weight, i as int),
            tracker.cap() == n_worst,
            forall|e: (usize, u64)| tracker.seen().contains(e) ==> e.0 < i,
        decreases trigrams@.len() - i,
    {
        proof {
            assert(trigrams@.take(i + 1).drop_last() =~= trigrams@.take(i as int));
            assert(trigrams@.take(i + 1).last() == trigrams@[i as int]);
        }
        let item = &trigrams[i];
        let cost_option = metric.individual_cost(
            &item.first,
            &item.second,
            &item.third,
            item.weight,
            total_weight,
        );
        let ghost seen_before = tracker.seen();
        match cost_option {
            Option::Some(cost) => {
                total = total.saturating_add(cost);
                tracker.push(i, cost);
                proof {
                    assert forall|e: (usize, u64)| tracker.seen().contains(e) implies e.0 < i
                        + 1 by {
                        assert(tracker.seen().count(e) == seen_before.count(e) + (if e == (
                        i,
                        cost,
                        ) {
                            1int
                        } else {
                            0int
                        }));
                        if e != (i, cost) {
                            assert(seen_before.contains(e));
                        }
                    }
                }
            },
            Option::None => {},
        }
        i = i + 1;
    }
    proof {
        assert(trigrams@.take(trigrams@.len() as int) =~= trigrams@);
    }
    (total, tracker)
}

/// Sum the costs of a trigram collection under a metric without any
/// tracking: the cheap path when no report is wanted.
pub fn sum_trigram_costs_only<M: TrigramMetric>(
    metric: &M,
    trigrams: &Vec<WeightedTrigram>,
    total_weight: u64,
) -> (r: u64)
    ensures
        r == sum_trigram_costs(*metric, trigrams@, total_weight),
{
    let mut total: u64 = 0;
    let mut i: usize = 0;
    while i < trigrams.len()
        invariant
            0 <= i <= trigrams@.len(),
            total == sum_trigram_costs(*metric, trigrams@.take(i as int), total_weight),
        decreases trigrams@.len() - i,
    {
        proof {
            assert(trigrams@.take(i + 1).drop_last() =~= trigrams@.take(i as int));
            assert(trigrams@.take(i + 1).last() == trigrams@[i as int]);
        }
        let item = &trigrams[i];
        let cost_option = metric.individual_cost(
            &item.first,
            &item.second,
            &item.third,
            item.weight,
            total_weight,
        );
        match cost_option {
            Option::Some(cost) => {
                total = total.saturating_add(cost);
            },
            Option::None => {},
        }
        i = i + 1;
    }
    proof {
        assert(trigrams@.take(trigrams@.len() as int) =~= trigrams@);
    }
    total
}

/// The rendering of one worst trigram: its three symbols with spaces made
/// visible, a space, and its share of the total cost and of the corpus.
pub open spec fn trigram_entry_chars(
    t: WeightedTrigram,
    cost: u64,
    total_weight: u64,
    total_cost: u64,
) -> Seq<char> {
    seq![
        crate::format_utils::visible_symbol(t.first.symbol),
        crate::format_utils::visible_symbol(t.second.symbol),
        crate::format_utils::visible_symbol(t.third.symbol),
        ' ',
    ] + crate::format_utils::percentages_chars(
        pct_spec(cost, total_cost),
        pct_spec(t.weight, total_weight),
    )
}

/// The rendering of a worst-offender list: the positive-cost entries in
/// order, separated by commas.
pub open spec fn trigram_worst_chars(
    trigrams: Seq<WeightedTrigram>,
    entries: Seq<(usize, u64)>,
    total_weight: u64,
    total_cost: u64,
) -> Seq<char>
    decreases entries.len(),
{
    if entries.len() == 0 {
        Seq::empty()
    } else {
        let prefix = trigram_worst_chars(trigrams, entries.drop_last(), total_weight, total_cost);
        let e = entries.last();
        if e.1 > 0 {
            let fragment = trigram_entry_chars(trigrams[e.0 as int], e.1, total_weight, total_cost);
            if has_positive_entry(entries.drop_last()) {
                prefix + seq![',', ' '] + fragment
            } else {
                fragment
            }
        } else {
            prefix
        }
    }
}

/// A list without positive entries renders as nothing.
proof fn lemma_trigram_worst_chars_empty(
    trigrams: Seq<WeightedTrigram>,
    entries: Seq<(usize, u64)>,
    total_weight: u64,
    total_cost: u64,
)
    requires
        !has_positive_entry(entries),
    ensures
        trigram_worst_chars(trigrams, entries, total_weight, total_cost) == Seq::<char>::empty(),
    decreases entries.len(),
{
    if entries.len() > 0 {
        assert(!(entries.last().1 > 0)) by {
            if entries.last().1 > 0 {
                assert(entries[entries.len() - 1].1 > 0);
            }
        }
        assert forall|j: int|
            0 <= j < entries.drop_last().len() implies !((#[trigger] entries.drop_last()[j]).1
            > 0) by {
            assert(entries.drop_last()[j] == entries[j]);
        }
        lemma_trigram_worst_chars_empty(trigrams, entries.drop_last(), total_weight, total_cost);
    }
}

/// Render the worst-offender entries of a trigram collection: each
/// entry's three symbols (spaces made visible) and its share of the total
/// cost and of the corpus, separated by commas. Entries of zero cost are
/// left out; where nothing remains, no message is produced.
pub fn render_trigram_worst(
    trigrams: &Vec<WeightedTrigram>,
    entries: &Vec<(usize, u64)>,
    total_weight: u64,
    total_cost: u64,
) -> (r: Option<String>)
    requires
        forall|j: int| 0 <= j < entries@.len() ==> (#[trigger] entries@[j]).0 < trigrams@.len(),
    ensures
        r is Some <==> has_positive_entry(entries@),
        r matches Option::Some(m) ==> m@ == trigram_worst_chars(
            trigrams@,
            entries@,
            total_weight,
            total_cost,
        ),
{
    let mut msg = String::new();
    let mut any: bool = false;
    let mut i: usize = 0;
    proof {
        assert(entries@.take(0int) =~= Seq::<(usize, u64)>::empty());
    }
    while i < entries.len()
        invariant
            0 <= i <= entries@.len(),
            forall|j: int| 0 <= j < entries@.len() ==> (#[trigger] entries@[j]).0 < trigrams@.len(),
            any == has_positive_entry(entries@.take(i as int)),
            msg@ == trigram_worst_chars(
                trigrams@,
                entries@.take(i as int),
                total_weight,
                total_cost,
            ),
        decreases entries@.len() - i,
    {
        proof {
            assert(entries@.take(i + 1).drop_last() =~= entries@.take(i as int));
            assert(entries@.take(i + 1).last() == entries@[i as int]);
            reveal_strlit(", ");
            reveal_strlit(" ");
        }
        let (position, cost) = entries[i];
        if cost > 0 {
            if any {
                msg.append(", ");
            }
            let item = &trigrams[position];
            push_symbol(&mut msg, item.first.symbol);
            push_symbol(&mut msg, item.second.symbol);
            push_symbol(&mut msg, item.third.symbol);
            msg.append(" ");
            let cost_pct = to_percentage(cost, total_cost);
            let freq_pct = to_percentage(item.weight, total_weight);
            let percentages = format_percentages(cost_pct, freq_pct);
            msg.append(percentages.as_str());
            any = true;
            proof {
                assert(", "@ =~= seq![',', ' ']);
                assert(" "@ =~= seq![' ']);
                if !has_positive_entry(entries@.take(i as int)) {
                    lemma_trigram_worst_chars_empty(
                        trigrams@,
                        entries@.take(i as int),
                        total_weight,
                        total_cost,
                    );
                }
                assert(entries@.take(i + 1)[i as int].1 > 0);
                assert(msg@ =~= trigram_worst_chars(
                    trigrams@,
                    entries@.take(i + 1),
                    total_weight,
                    total_cost,
                ));
            }
        } else {
            proof {
                assert forall|j: int|
                    0 <= j < i + 1 && (#[trigger] entries@.take(i + 1)[j]).1 > 0 implies
                    has_positive_entry(entries@.take(i as int)) by {
                    if j < i {
                        assert(entries@.take(i as int)[j].1 > 0);
                    }
                }
            }
        }
        i = i + 1;
    }
    proof {
        assert(entries@.take(entries@.len() as int) =~= entries@);
    }
    if any {
        Option::Some(msg)
    } else {
        Option::None
    }
}

/// The total cost a metric assigns to a collection of weighted trigrams:
/// the saturating sum of the individual costs of every trigram, whether
/// or not a worst-offender report is collected alongside it.
///
/// Where no total weight is supplied it is the saturating sum of the item
/// weights. The report is `None` whenever reporting is off. With it on,
/// the report exists exactly when some applicable item of positive cost
/// can be retained, and it renders a worst-offender selection of the
/// applicable items: the `min(n_worst, N)` highest-cost ones, in
/// descending cost order, each with its cost and corpus share — only the
/// choice among equal-cost items is left open.
pub fn trigram_total_cost_with<M: TrigramMetric>(
    metric: &M,
    trigrams: &Vec<WeightedTrigram>,
    total_weight: Option<u64>,
    opts: &crate::bigram_metrics::ReportOptions,
) -> (r: (u64, Option<String>))
    ensures
        r.0 == sum_trigram_costs(
            *metric,
            trigrams@,
            effective_trigram_total_weight(total_weight, trigrams@),
        ),
        !opts.show_worst ==> r.1 is None,
        opts.show_worst && opts.n_worst > 0 && r.0 > 0 ==> r.1 is Some,
        opts.show_worst ==> (r.1 is Some <==> (opts.n_worst > 0 && has_positive_pair(
            trigram_cost_pairs(
                *metric,
                trigrams@,
                effective_trigram_total_weight(total_weight, trigrams@),
                trigrams@.len() as int,
            ),
        ))),
        opts.show_worst ==> (exists|entries: Seq<(usize, u64)>|
            {
                &&& #[trigger] is_worst_selection(
                    trigram_cost_pairs(
                        *metric,
                        trigrams@,
                        effective_trigram_total_weight(total_weight, trigrams@),
                        trigrams@.len() as int,
                    ),
                    entries,
                    opts.n_worst as nat,
                )
                &&& (r.1 is Some <==> has_positive_entry(entries))
                &&& (r.1 matches Option::Some(m) ==> m@ == trigram_worst_chars(
                    trigrams@,
                    entries,
                    effective_trigram_total_weight(total_weight, trigrams@),
                    r.0,
                ))
            }),
{
    let tw = match total_weight {
        Option::Some(t) => t,
        Option::None => total_trigram_weight(trigrams),
    };
    if !opts.show_worst {
        let total = sum_trigram_costs_only(metric, trigrams, tw);
        return (total, Option::None);
    }
    let (total, tracker) = collect_trigram_costs(metric, trigrams, tw, opts.n_worst);
    let n = trigrams.len();
    proof {
        lemma_trigram_cost_pairs_positions(*metric, trigrams@, tw, n as int);
    }
    let entries = tracker.into_sorted_desc();
    proof {
        broadcast use vstd::seq_lib::group_to_multiset_ensures;

        assert forall|j: int| 0 <= j < entries@.len() implies (#[trigger] entries@[j]).0
            < trigrams@.len() by {
            assert(entries@.contains(entries@[j]));
            assert(entries@.to_multiset().count(entries@[j]) > 0);
            assert(tracker.kept().count(entries@[j]) <= tracker.seen().count(entries@[j]));
            assert(tracker.seen().contains(entries@[j]));
        }
    }
    proof {
        if opts.n_worst > 0 && total > 0 {
            broadcast use vstd::seq_lib::group_to_multiset_ensures;

            assert(trigrams@.take(n as int) =~= trigrams@);
            lemma_trigram_positive_cost_has_pair(*metric, trigrams@, tw, n as int);
            tracker.lemma_retains_positive();
            let e = choose|e: (usize, u64)| tracker.kept().contains(e) && e.1 > 0;
            assert(entries@.to_multiset().count(e) > 0);
            assert(entries@.contains(e));
            let j = choose|j: int| 0 <= j < entries@.len() && entries@[j] == e;
            assert(entries@[j].1 > 0);
        }
    }
    let msg = render_trigram_worst(trigrams, &entries, tw, total);
    proof {
        broadcast use vstd::seq_lib::group_to_multiset_ensures;

        let pairs = trigram_cost_pairs(*metric, trigrams@, tw, trigrams@.len() as int);
        // The handed-out entries are a worst-offender selection of the
        // applicable pairs: the tracker's retention invariant, read
        // through its sorted output.
        assert(entries@.to_multiset().subset_of(pairs)) by {
            assert(forall|v: (usize, u64)|
                tracker.kept().count(v) <= #[trigger] tracker.seen().count(v));
        }
        // The report exists exactly when a positive-cost pair could be
        // retained.
        if has_positive_entry(entries@) {
            let j = choose|j: int| 0 <= j < entries@.len() && (#[trigger] entries@[j]).1 > 0;
            assert(entries@.contains(entries@[j]));
            assert(entries@.to_multiset().count(entries@[j]) > 0);
            assert(tracker.kept().count(entries@[j]) <= tracker.seen().count(entries@[j]));
            assert(pairs.contains(entries@[j]));
            assert(has_positive_pair(pairs));
            assert(tracker.kept().len() > 0);
            assert(opts.n_worst > 0);
        }
        if opts.n_worst > 0 && has_positive_pair(pairs) {
            tracker.lemma_retains_positive();
            let e = choose|e: (usize, u64)| tracker.kept().contains(e) && e.1 > 0;
            assert(entries@.to_multiset().count(e) > 0);
            assert(entries@.contains(e));
            let j = choose|j: int| 0 <= j < entries@.len() && entries@[j] == e;
            assert(entries@[j].1 > 0);
            assert(has_positive_entry(entries@));
        }
        assert(tw == effective_trigram_total_weight(total_weight, trigrams@));
        assert(is_worst_selection(
            trigram_cost_pairs(
                *metric,
                trigrams@,
                effective_trigram_total_weight(total_weight, trigrams@),
                trigrams@.len() as int,
            ),
            entries@,
            opts.n_worst as nat,
        ));
    }
    (total, msg)
}

/// A positive cost sum comes from some applicable trigram of positive
/// cost, which the aggregation has fed to the tracker.
proof fn lemma_trigram_positive_cost_has_pair<M: TrigramMetric>(
    metric: M,
    items: Seq<WeightedTrigram>,
    total_weight: u64,
    n: int,
)
    requires
        0 <= n <= items.len(),
        n <= usize::MAX,
        sum_trigram_costs(metric, items.take(n), total_weight) > 0,
    ensures
        exists|e: (usize, u64)|
            trigram_cost_pairs(metric, items, total_weight, n).contains(e) && e.1 > 0,
    decreases n,
{
    assert(items.take(n).len() == n);
    assert(n > 0);
    assert(items.take(n).drop_last() =~= items.take(n - 1));
    assert(items.take(n).last() == items[n - 1]);
    let prev_sum = sum_trigram_costs(metric, items.take(n - 1), total_weight);
    let last_cost = trigram_cost_or_zero(
        metric.individual_cost_spec(
            items[n - 1].first,
            items[n - 1].second,
            items[n - 1].third,
            items[n - 1].weight,
            total_weight,
        ),
    );
    let prev = trigram_cost_pairs(metric, items, total_weight, n - 1);
    let cur = trigram_cost_pairs(metric, items, total_weight, n);
    if last_cost > 0 {
        let c = match metric.individual_cost_spec(
            items[n - 1].first,
            items[n - 1].second,
            items[n - 1].third,
            items[n - 1].weight,
            total_weight,
        ) {
            Option::Some(c) => c,
            Option::None => 0,
        };
        let p: (usize, u64) = (((n - 1) as usize), c);
        assert(cur.count(p) == prev.count(p) + 1);
        assert(cur.contains(p) && p.1 > 0);
    } else {
        assert(prev_sum > 0);
        lemma_trigram_positive_cost_has_pair(metric, items, total_weight, n - 1);
        let e = choose|e: (usize, u64)| prev.contains(e) && e.1 > 0;
        assert(cur.count(e) >= prev.count(e)) by {
            match metric.individual_cost_spec(
                items[n - 1].first,
                items[n - 1].second,
                items[n - 1].third,
                items[n - 1].weight,
                total_weight,
            ) {
                Option::Some(c) => {
                    assert(cur.count(e) == prev.insert((((n - 1) as usize), c)).count(e));
                },
                Option::None => {},
            }
        }
        assert(cur.contains(e) && e.1 > 0);
    }
}

/// Every pair the aggregation feeds to the tracker points at a position
/// inside the collection.
proof fn lemma_trigram_cost_pairs_positions<M: TrigramMetric>(
    metric: M,
    items: Seq<WeightedTrigram>,
    total_weight: u64,
    n: int,
)
    requires
        n <= items.len(),
        n <= usize::MAX,
    ensures
        forall|e: (usize, u64)|
            trigram_cost_pairs(metric, items, total_weight, n).contains(e) ==> e.0 < n,
    decreases n,
{
    if n > 0 {
        lemma_trigram_cost_pairs_positions(metric, items, total_weight, n - 1);
        let prev = trigram_cost_pairs(metric, items, total_weight, n - 1);
        let cur = trigram_cost_pairs(metric, items, total_weight, n);
        match metric.individual_cost_spec(
            items[n - 1].first,
            items[n - 1].second,
            items[n - 1].third,
            items[n - 1].weight,
            total_weight,
        ) {
            Option::Some(c) => {
                let p: (usize, u64) = (((n - 1) as usize), c);
                assert forall|e: (usize, u64)| cur.contains(e) implies e.0 < n by {
                    assert(cur.count(e) == prev.count(e) + (if e == p {
                        1int
                    } else {
                        0int
                    }));
                    if e != p {
                        assert(prev.contains(e));
                    }
                }
            },
            Option::None => {},
        }
    }
}

} // verus!
