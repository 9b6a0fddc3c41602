//! An ordered collection of metrics invoked uniformly.
//!
//! The metric variants form a closed set behind one capability interface:
//! each has a name and a total cost over a weighted n-gram collection. A
//! [`MetricSet`] runs every metric and sums their totals into the single
//! scalar an optimizer compares.

use vstd::prelude::*;

use crate::bigram_metrics::BigramMetric;
use crate::bigram_metrics::ReportOptions;
use crate::bigram_metrics::WeightedBigram;
use crate::bigram_metrics::bigram_stats::BigramStats;
use crate::bigram_metrics::cluster_rolls::ClusterRolls;
use crate::bigram_metrics::effective_total_weight;
use crate::bigram_metrics::fsb::Fsb;
use crate::bigram_metrics::hsb::Hsb;
use crate::bigram_metrics::scissor_base::sum_categorized_costs;
use crate::bigram_metrics::scissors::Scissors;
use crate::bigram_metrics::sfb::Sfb;
use crate::bigram_metrics::sum_bigram_costs;
use crate::bigram_metrics::total_cost_with;
use crate::fixed::sat_add;
use crate::trigram_metrics::TrigramMetric;
use crate::trigram_metrics::WeightedTrigram;
use crate::trigram_metrics::effective_trigram_total_weight;
use crate::trigram_metrics::redirects::Redirects;
use crate::trigram_metrics::sfs::Sfs;
use crate::trigram_metrics::sum_trigram_costs;
use crate::trigram_metrics::trigram_stats::TrigramStats;
use crate::trigram_metrics::trigram_total_cost_with;
use crate::trigram_metrics::weak_redirect::WeakRedirect;

verus! {

/// The closed set of bigram metrics.
pub enum BigramMetricVariant {
    Sfb(Sfb),
    ClusterRolls(ClusterRolls),
    Fsb(Fsb),
    Hsb(Hsb),
    Scissors(Scissors),
    Stats(BigramStats),
}

/// The closed set of trigram metrics.
pub enum TrigramMetricVariant {
    Redirects(Redirects),
    WeakRedirect(WeakRedirect),
    Sfs(Sfs),
    Stats(TrigramStats),
}

/// The name of a bigram metric variant.
pub open spec fn bigram_variant_name(v: BigramMetricVariant) -> Seq<char> {
    match v {
        BigramMetricVariant::Sfb(m) => m.name_spec(),
        BigramMetricVariant::ClusterRolls(m) => m.name_spec(),
        BigramMetricVariant::Fsb(m) => m.name_spec(),
        BigramMetricVariant::Hsb(m) => m.name_spec(),
        BigramMetricVariant::Scissors(m) => m.name_spec(),
        BigramMetricVariant::Stats(m) => m.name_spec(),
    }
}

/// The total cost a bigram metric variant reports for a collection: the
/// statistics variants always report zero, the scissor variants report
/// their categorized total when the worst offenders are collected, and
/// every other variant the sum of its per-item costs.
pub open spec fn bigram_variant_total(
    v: BigramMetricVariant,
    items: Seq<WeightedBigram>,
    total_weight: u64,
    opts: ReportOptions,
) -> u64 {
    match v {
        BigramMetricVariant::Sfb(m) => sum_bigram_costs(m, items, total_weight),
        BigramMetricVariant::ClusterRolls(m) => sum_bigram_costs(m, items, total_weight),
        BigramMetricVariant::Fsb(m) => if opts.show_worst {
            sum_categorized_costs(m.inner, items, total_weight)
        } else {
            sum_bigram_costs(m.inner, items, total_weight)
        },
        BigramMetricVariant::Hsb(m) => if opts.show_worst {
            sum_categorized_costs(m.inner, items, total_weight)
        } else {
            sum_bigram_costs(m.inner, items, total_weight)
        },
        BigramMetricVariant::Scissors(m) => sum_bigram_costs(m, items, total_weight),
        BigramMetricVariant::Stats(_) => 0,
    }
}

/// The name of a trigram metric variant.
pub open spec fn trigram_variant_name(v: TrigramMetricVariant) -> Seq<char> {
    match v {
        TrigramMetricVariant::Redirects(m) => m.name_spec(),
        TrigramMetricVariant::WeakRedirect(m) => m.name_spec(),
        TrigramMetricVariant::Sfs(m) => m.name_spec(),
        TrigramMetricVariant::Stats(m) => m.name_spec(),
    }
}

/// The total cost a trigram metric variant reports for a collection.
pub open spec fn trigram_variant_total(
    v: TrigramMetricVariant,
    items: Seq<WeightedTrigram>,
    total_weight: u64,
) -> u64 {
    match v {
        TrigramMetricVariant::Redirects(m) => sum_trigram_costs(m.inner, items, total_weight),
        TrigramMetricVariant::WeakRedirect(m) => sum_trigram_costs(m.inner, items, total_weight),
        TrigramMetricVariant::Sfs(m) => sum_trigram_costs(m, items, total_weight),
        TrigramMetricVariant::Stats(_) => 0,
    }
}

impl BigramMetricVariant {
    /// Return the name of the metric.
    pub fn name(&self) -> (r: String)
        ensures
            r@ == bigram_variant_name(*self),
    {
        match self {
            BigramMetricVariant::Sfb(m) => m.name(),
            BigramMetricVariant::ClusterRolls(m) => m.name(),
            BigramMetricVariant::Fsb(m) => m.name(),
            BigramMetricVariant::Hsb(m) => m.name(),
            BigramMetricVariant::Scissors(m) => m.name(),
            BigramMetricVariant::Stats(m) => m.name(),
        }
    }

    /// The total cost and report of a bigram collection under the metric.
    pub fn total_cost(
        &self,
        bigrams: &Vec<WeightedBigram>,
        total_weight: Option<u64>,
        opts: &ReportOptions,
    ) -> (r: (u64, Option<String>))
        ensures
            r.0 == bigram_variant_total(
                *self,
                bigrams@,
                effective_total_weight(total_weight, bigrams@),
                *opts,
            ),
    {
        match self {
            BigramMetricVariant::Sfb(m) => total_cost_with(m, bigrams, total_weight, opts),
            BigramMetricVariant::ClusterRolls(m) => total_cost_with(m, bigrams, total_weight, opts),
            BigramMetricVariant::Fsb(m) => m.total_cost(bigrams, total_weight, opts),
            BigramMetricVariant::Hsb(m) => m.total_cost(bigrams, total_weight, opts),
            BigramMetricVariant::Scissors(m) => total_cost_with(m, bigrams, total_weight, opts),
            BigramMetricVariant::Stats(m) => m.total_cost(bigrams, total_weight),
        }
    }
}

impl TrigramMetricVariant {
    /// Return the name of the metric.
    pub fn name(&self) -> (r: String)
        ensures
            r@ == trigram_variant_name(*self),
    {
        match self {
            TrigramMetricVariant::Redirects(m) => m.name(),
            TrigramMetricVariant::WeakRedirect(m) => m.name(),
            TrigramMetricVariant::Sfs(m) => m.name(),
            TrigramMetricVariant::Stats(m) => m.name(),
        }
    }

    /// The total cost and report of a trigram collection under the
    /// metric.
    pub fn total_cost(
        &self,
        trigrams: &Vec<WeightedTrigram>,
        total_weight: Option<u64>,
        opts: &ReportOptions,
    ) -> (r: (u64, Option<String>))
        ensures
            r.0 == trigram_variant_total(
                *self,
                trigrams@,
                effective_trigram_total_weight(total_weight, trigrams@),
            ),
    {
        match self {
            TrigramMetricVariant::Redirects(m) => m.total_cost(trigrams, total_weight, opts),
            TrigramMetricVariant::WeakRedirect(m) => m.total_cost(trigrams, total_weight, opts),
            TrigramMetricVariant::Sfs(m) => trigram_total_cost_with(m, trigrams, total_weight, opts),
            TrigramMetricVariant::Stats(m) => m.total_cost(trigrams, total_weight),
        }
    }
}

/// One metric's scored result: its name, its total cost, and its
/// diagnostic message, if any.
pub struct MetricResult {
    pub name: String,
    pub cost: u64,
    pub message: Option<String>,
}

/// The saturating sum of the totals of a list of bigram metrics.
pub open spec fn sum_bigram_variant_totals(
    metrics: Seq<BigramMetricVariant>,
    items: Seq<WeightedBigram>,
    total_weight: u64,
    opts: ReportOptions,
) -> u64
    decreases metrics.len(),
{
    if metrics.len() == 0 {
        0
    } else {
        sat_add(
            sum_bigram_variant_totals(metrics.drop_last(), items, total_weight, opts),
            bigram_variant_total(metrics.last(), items, total_weight, opts),
        )
    }
}

/// The saturating sum of the totals of a list of trigram metrics.
pub open spec fn sum_trigram_variant_totals(
    metrics: Seq<TrigramMetricVariant>,
    items: Seq<WeightedTrigram>,
    total_weight: u64,
) -> u64
    decreases metrics.len(),
{
    if metrics.len() == 0 {
        0
    } else {
        sat_add(
            sum_trigram_variant_totals(metrics.drop_last(), items, total_weight),
            trigram_variant_total(metrics.last(), items, total_weight),
        )
    }
}

/// An ordered collection of metrics, scored uniformly.
pub struct MetricSet {
    pub bigram_metrics: Vec<BigramMetricVariant>,
    pub trigram_metrics: Vec<TrigramMetricVariant>,
    pub opts: ReportOptions,
}

impl MetricSet {
    /// Score a layout's n-gram collections under every metric of the set.
    ///
    /// Returns the saturating sum of all metric totals, and one result
    /// per metric, bigram metrics first, each with its name, total and
    /// report.
    pub fn total_cost(
        &self,
        bigrams: &Vec<WeightedBigram>,
        trigrams: &Vec<WeightedTrigram>,
        bigram_total_weight: Option<u64>,
        trigram_total_weight: Option<u64>,
    ) -> (r: (u64, Vec<MetricResult>))
        ensures
            r.0 == sat_add(
                sum_bigram_variant_totals(
                    self.bigram_metrics@,
                    bigrams@,
                    effective_total_weight(bigram_total_weight, bigrams@),
                    self.opts,
                ),
                sum_trigram_variant_totals(
                    self.trigram_metrics@,
                    trigrams@,
                    effective_trigram_total_weight(trigram_total_weight, trigrams@),
                ),
            ),
            r.1@.len() == self.bigram_metrics@.len() + self.trigram_metrics@.len(),
            forall|j: int|
                0 <= j < self.bigram_metrics@.len() ==> (#[trigger] r.1@[j]).cost
                    == bigram_variant_total(
                    self.bigram_metrics@[j],
                    bigrams@,
                    effective_total_weight(bigram_total_weight, bigrams@),
                    self.opts,
                ),
            forall|j: int|
                0 <= j < self.trigram_metrics@.len()
                    ==> (#[trigger] r.1@[self.bigram_metrics@.len() + j]).cost
                    == trigram_variant_total(
                    self.trigram_metrics@[j],
                    trigrams@,
                    effective_trigram_total_weight(trigram_total_weight, trigrams@),
                ),
    {
        let ghost btw = effective_total_weight(bigram_total_weight, bigrams@);
        let ghost ttw = effective_trigram_total_weight(trigram_total_weight, trigrams@);
        let mut results: Vec<MetricResult> = Vec::new();
        let mut bigram_total: u64 = 0;
        let mut i: usize = 0;
        while i < self.bigram_metrics.len()
            invariant
                0 <= i <= self.bigram_metrics@.len(),
                results@.len() == i,
                btw == effective_total_weight(bigram_total_weight, bigrams@),
                bigram_total == sum_bigram_variant_totals(
                    self.bigram_metrics@.take(i as int),
                    bigrams@,
                    btw,
                    self.opts,
                ),
                forall|j: int|
                    0 <= j < i ==> (#[trigger] results@[j]).cost == bigram_variant_total(
                        self.bigram_metrics@[j],
                        bigrams@,
                        btw,
                        self.opts,
                    ),
            decreases self.bigram_metrics@.len() - i,
        {
            proof {
                assert(self.bigram_metrics@.take(i + 1).drop_last() =~= self.bigram_metrics@.take(
                    i as int,
                ));
                assert(self.bigram_metrics@.take(i + 1).last() == self.bigram_metrics@[i as int]);
            }
            let metric = &self.bigram_metrics[i];
            let (cost, message) = metric.total_cost(bigrams, bigram_total_weight, &self.opts);
            bigram_total = bigram_total.saturating_add(cost);
            results.push(MetricResult { name: metric.name(), cost, message });
            i = i + 1;
        }
        proof {
            assert(self.bigram_metrics@.take(self.bigram_metrics@.len() as int)
                =~= self.bigram_metrics@);
        }
        let mut trigram_total: u64 = 0;
        let mut t: usize = 0;
        while t < self.trigram_metrics.len()
            invariant
                0 <= t <= self.trigram_metrics@.len(),
                results@.len() == self.bigram_metrics@.len() + t,
                btw == effective_total_weight(bigram_total_weight, bigrams@),
                ttw == effective_trigram_total_weight(trigram_total_weight, trigrams@),
                trigram_total == sum_trigram_variant_totals(
                    self.trigram_metrics@.take(t as int),
                    trigrams@,
                    ttw,
                ),
                forall|j: int|
                    0 <= j < self.bigram_metrics@.len() ==> (#[trigger] results@[j]).cost
                        == bigram_variant_total(self.bigram_metrics@[j], bigrams@, btw, self.opts),
                forall|j: int|
                    0 <= j < t ==> (#[trigger] results@[self.bigram_metrics@.len() + j]).cost
                        == trigram_variant_total(self.trigram_metrics@[j], trigrams@, ttw),
            decreases self.trigram_metrics@.len() - t,
        {
            proof {
                assert(self.trigram_metrics@.take(t + 1).drop_last() =~= self.trigram_metrics@.take(
                    t as int,
                ));
                assert(self.trigram_metrics@.take(t + 1).last() == self.trigram_metrics@[t as int]);
            }
            let metric = &self.trigram_metrics[t];
            let (cost, message) = metric.total_cost(trigrams, trigram_total_weight, &self.opts);
            trigram_total = trigram_total.saturating_add(cost);
            results.push(MetricResult { name: metric.name(), cost, message });
            t = t + 1;
        }
        proof {
            assert(self.trigram_metrics@.take(self.trigram_metrics@.len() as int)
                =~= self.trigram_metrics@);
        }
        (bigram_total.saturating_add(trigram_total), results)
    }
}

} // verus!
