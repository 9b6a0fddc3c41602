//! Redirect metric that penalizes normal redirects: one-handed trigrams
//! with a direction change in which an index finger or thumb takes part.
//! Weak redirects have their own metric.

use vstd::prelude::*;


use crate::bigram_metrics::ReportOptions;
use crate::key::LayerKey;
use crate::trigram_metrics::TrigramMetric;
use crate::trigram_metrics::WeightedTrigram;
use crate::bigram_metrics::has_positive_entry;
use crate::bigram_metrics::has_positive_pair;
use crate::bigram_metrics::is_worst_selection;
use crate::trigram_metrics::effective_trigram_total_weight;
use crate::trigram_metrics::trigram_cost_pairs;
use crate::trigram_metrics::trigram_worst_chars;
use crate::trigram_metrics::redirect_base::NormalRedirectFilter;
use crate::trigram_metrics::redirect_base::RedirectMetric;
use crate::trigram_metrics::sum_trigram_costs;
use crate::trigram_metrics::trigram_total_cost_with;
use crate::fixed::UNIT;

verus! {

/// Configuration of the redirect metric.
#[derive(Clone, Copy, Debug)]
pub struct Parameters {
    /// Cost of each redirect; `1.0` where absent.
    pub base_cost: Option<u64>,
    /// Ignore redirects involving thumb keys; on where absent.
    pub ignore_thumbs: Option<bool>,
    /// Ignore redirects involving modifier keys; on where absent.
    pub ignore_modifiers: Option<bool>,
}

/// The redirect metric.
pub struct Redirects {
    pub inner: RedirectMetric<NormalRedirectFilter>,
}

impl Redirects {
    /// Build the metric from its configuration, with the documented
    /// defaults for absent fields.
    pub fn new(params: &Parameters) -> (r: Redirects)
        ensures
            r.inner.name@ == "Redirects"@,
            r.inner.base_cost == (match params.base_cost {
                Option::Some(c) => c,
                Option::None => UNIT,
            }),
            r.inner.ignore_thumbs == (match params.ignore_thumbs {
                Option::Some(b) => b,
                Option::None => true,
            }),
            r.inner.ignore_modifiers == (match params.ignore_modifiers {
                Option::Some(b) => b,
                Option::None => true,
            }),
    {
        let base_cost = match params.base_cost {
            Option::Some(c) => c,
            Option::None => UNIT,
        };
        let ignore_thumbs = match params.ignore_thumbs {
            Option::Some(b) => b,
            Option::None => true,
        };
        let ignore_modifiers = match params.ignore_modifiers {
            Option::Some(b) => b,
            Option::None => true,
        };
        Redirects {
            inner: RedirectMetric::new(
                "Redirects",
                NormalRedirectFilter,
                base_cost,
                ignore_thumbs,
                ignore_modifiers,
            ),
        }
    }

    /// The total cost of a trigram collection, with a report of the worst
    /// offenders (see [`trigram_total_cost_with`]): the report exists
    /// exactly when a counted redirect of positive cost can be
    /// retained, and lists a worst-offender selection of the counted
    /// trigrams in descending cost order.
    pub fn total_cost(
        &self,
        trigrams: &Vec<WeightedTrigram>,
        total_weight: Option<u64>,
        opts: &ReportOptions,
    ) -> (r: (u64, Option<String>))
        ensures
            r.0 == sum_trigram_costs(
                self.inner,
                trigrams@,
                effective_trigram_total_weight(total_weight, trigrams@),
            ),
            !opts.show_worst ==> r.1 is None,
            opts.show_worst && opts.n_worst > 0 && r.0 > 0 ==> r.1 is Some,
            opts.show_worst ==> (r.1 is Some <==> (opts.n_worst > 0 && has_positive_pair(
                trigram_cost_pairs(
                    self.inner,
                    trigrams@,
                    effective_trigram_total_weight(total_weight, trigrams@),
                    trigrams@.len() as int,
                ),
            ))),
            opts.show_worst ==> (exists|entries: Seq<(usize, u64)>|
                {
                    &&& #[trigger] is_worst_selection(
                        trigram_cost_pairs(
                            self.inner,
                            trigrams@,
                            effective_trigram_total_weight(total_weight, trigrams@),
                            trigrams@.len() as int,
                        ),
                        entries,
                        opts.n_worst as nat,
                    )
                    &&& (r.1 is Some <==> has_positive_entry(entries))
                    &&& (r.1 matches Option::Some(m) ==> m@ == trigram_worst_chars(
                        trigrams@,
                        entries,
                        effective_trigram_total_weight(total_weight, trigrams@),
                        r.0,
                    ))
                }),
    {
        trigram_total_cost_with(&self.inner, trigrams, total_weight, opts)
    }
}

impl TrigramMetric for Redirects {
    open spec fn name_spec(&self) -> Seq<char> {
        self.inner.name_spec()
    }

    open spec fn individual_cost_spec(
        &self,
        k1: LayerKey,
        k2: LayerKey,
        k3: LayerKey,
        weight: u64,
        total_weight: u64,
    ) -> Option<u64> {
        self.inner.individual_cost_spec(k1, k2, k3, weight, total_weight)
    }

    fn name(&self) -> (r: String) {
        self.inner.name()
    }

    fn individual_cost(
        &self,
        k1: &LayerKey,
        k2: &LayerKey,
        k3: &LayerKey,
        weight: u64,
        total_weight: u64,
    ) -> (r: Option<u64>) {
        self.inner.individual_cost(k1, k2, k3, weight, total_weight)
    }
}

} // verus!
