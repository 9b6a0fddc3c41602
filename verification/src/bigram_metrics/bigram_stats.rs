//! Bigram statistics metric: percentages of the bigram movement
//! categories. Informational only, it always reports a total cost of
//! zero.

use vstd::prelude::*;

use crate::bigram_metrics::WeightedBigram;
use crate::bigram_metrics::effective_total_weight;
use crate::bigram_metrics::total_bigram_weight;
use crate::config::DirectionPair;
use crate::config::contains_pair;
use crate::config::contains_pair_spec;
use crate::fixed::pct_spec;
use crate::fixed::sat_add;
use crate::fixed::to_percentage;
use crate::format_utils::format_percentage;
use crate::format_utils::join_strings;
use crate::format_utils::joined_chars;
use crate::format_utils::trimmed_fixed2_chars;
use crate::key::Finger;
use crate::key::LayerKey;
use crate::bigram_metrics::scissor_base::ScissorType;
use crate::bigram_metrics::scissor_base::classify_scissor;
use crate::bigram_metrics::scissor_base::classify_scissor_spec;

verus! {

/// Configuration of the bigram statistics.
#[derive(Clone, Debug)]
pub struct Parameters {
    /// Leave thumb keys out of the statistics.
    pub ignore_thumbs: bool,
    /// Leave modifier keys out of the statistics.
    pub ignore_modifiers: bool,
    /// Same-finger movements left out of the SFB count.
    pub ignore_movements: Vec<DirectionPair>,
}

/// The bigram statistics metric.
#[derive(Clone, Debug)]
pub struct BigramStats {
    pub ignore_thumbs: bool,
    pub ignore_modifiers: bool,
    pub ignore_movements: Vec<DirectionPair>,
}

/// The saturating sum of the weights of the bigrams satisfying `p`.
pub open spec fn bigram_weight_where(
    items: Seq<WeightedBigram>,
    p: spec_fn(WeightedBigram) -> bool,
) -> u64
    decreases items.len(),
{
    if items.len() == 0 {
        0
    } else if p(items.last()) {
        sat_add(bigram_weight_where(items.drop_last(), p), items.last().weight)
    } else {
        bigram_weight_where(items.drop_last(), p)
    }
}

/// The category weights of a bigram collection, together with the total
/// weight the percentages refer to.
pub struct BigramStatsSummary {
    pub sfb_weight: u64,
    pub vertical_weight: u64,
    pub squeeze_weight: u64,
    pub splay_weight: u64,
    pub diagonal_weight: u64,
    pub lateral_weight: u64,
    pub total_weight: u64,
}

impl BigramStats {
    /// Build the metric from its configuration.
    pub fn new(params: &Parameters) -> (r: BigramStats)
        ensures
            r.ignore_thumbs == params.ignore_thumbs,
            r.ignore_modifiers == params.ignore_modifiers,
            r.ignore_movements@ == params.ignore_movements@,
    {
        BigramStats {
            ignore_thumbs: params.ignore_thumbs,
            ignore_modifiers: params.ignore_modifiers,
            ignore_movements: params.ignore_movements.clone(),
        }
    }

    /// Whether a key is left out of the statistics.
    pub open spec fn should_ignore_key_spec(&self, key: LayerKey) -> bool {
        (self.ignore_thumbs && key.key.finger == Finger::Thumb) || (self.ignore_modifiers
            && key.is_modifier)
    }

    /// Check whether a key is left out of the statistics.
    fn should_ignore_key(&self, key: &LayerKey) -> (r: bool)
        ensures
            r == self.should_ignore_key_spec(*key),
    {
        (self.ignore_thumbs && key.key.finger == Finger::Thumb) || (self.ignore_modifiers
            && key.is_modifier)
    }

    /// Whether the SFB movement of a bigram is left out of the count.
    pub open spec fn should_ignore_movement_spec(&self, k1: LayerKey, k2: LayerKey) -> bool {
        contains_pair_spec(self.ignore_movements@, k1.key.direction, k2.key.direction)
    }

    /// Check whether the SFB movement of a bigram is left out of the
    /// count.
    fn should_ignore_movement(&self, k1: &LayerKey, k2: &LayerKey) -> (r: bool)
        ensures
            r == self.should_ignore_movement_spec(*k1, *k2),
    {
        contains_pair(&self.ignore_movements, k1.key.direction, k2.key.direction)
    }

    /// Whether a bigram enters the statistics at all: not a same-key
    /// repeat, and no key of it ignored.
    pub open spec fn counts_spec(&self, b: WeightedBigram) -> bool {
        &&& b.first != b.second
        &&& !self.should_ignore_key_spec(b.first)
        &&& !self.should_ignore_key_spec(b.second)
    }

    /// The bigrams counted as SFBs: same hand and finger, and the
    /// movement not excluded.
    pub open spec fn sfb_pred(&self) -> spec_fn(WeightedBigram) -> bool {
        let stats = *self;
        |b: WeightedBigram|
            {
                &&& stats.counts_spec(b)
                &&& b.first.key.hand == b.second.key.hand
                &&& b.first.key.finger == b.second.key.finger
                &&& !stats.should_ignore_movement_spec(b.first, b.second)
            }
    }

    /// The bigrams classified as a given scissor type.
    pub open spec fn scissor_pred(&self, t: ScissorType) -> spec_fn(WeightedBigram) -> bool {
        let stats = *self;
        |b: WeightedBigram|
            {
                &&& stats.counts_spec(b)
                &&& classify_scissor_spec(b.first, b.second) == Option::Some(t)
            }
    }

    /// Sum the category weights of a bigram collection: the weight of the
    /// counted SFBs and of each scissor category, and the total weight
    /// that percentages refer to.
    pub fn summarize(&self, bigrams: &Vec<WeightedBigram>, total_weight: Option<u64>) -> (r:
        BigramStatsSummary)
        ensures
            r.sfb_weight == bigram_weight_where(bigrams@, self.sfb_pred()),
            r.vertical_weight == bigram_weight_where(
                bigrams@,
                self.scissor_pred(ScissorType::Vertical),
            ),
            r.squeeze_weight == bigram_weight_where(
                bigrams@,
                self.scissor_pred(ScissorType::Squeeze),
            ),
            r.splay_weight == bigram_weight_where(bigrams@, self.scissor_pred(ScissorType::Splay)),
            r.diagonal_weight == bigram_weight_where(
                bigrams@,
                self.scissor_pred(ScissorType::Diagonal),
            ),
            r.lateral_weight == bigram_weight_where(
                bigrams@,
                self.scissor_pred(ScissorType::Lateral),
            ),
            r.total_weight == effective_total_weight(total_weight, bigrams@),
    {
        let tw = match total_weight {
            Option::Some(t) => t,
            Option::None => total_bigram_weight(bigrams),
        };
        let mut sfb_weight: u64 = 0;
        let mut vertical_weight: u64 = 0;
        let mut squeeze_weight: u64 = 0;
        let mut splay_weight: u64 = 0;
        let mut diagonal_weight: u64 = 0;
        let mut lateral_weight: u64 = 0;
        let mut i: usize = 0;
        while i < bigrams.len()
            invariant
                0 <= i <= bigrams@.len(),
                sfb_weight == bigram_weight_where(bigrams@.take(i as int), self.sfb_pred()),
                vertical_weight == bigram_weight_where(
                    bigrams@.take(i as int),
                    self.scissor_pred(ScissorType::Vertical),
                ),
                squeeze_weight == bigram_weight_where(
                    bigrams@.take(i as int),
                    self.scissor_pred(ScissorType::Squeeze),
                ),
                splay_weight == bigram_weight_where(
                    bigrams@.take(i as int),
                    self.scissor_pred(ScissorType::Splay),
                ),
                diagonal_weight == bigram_weight_where(
                    bigrams@.take(i as int),
                    self.scissor_pred(ScissorType::Diagonal),
                ),
                lateral_weight == bigram_weight_where(
                    bigrams@.take(i as int),
                    self.scissor_pred(ScissorType::Lateral),
                ),
            decreases bigrams@.len() - i,
        {
            proof {
                assert(bigrams@.take(i + 1).drop_last() =~= bigrams@.take(i as int));
                assert(bigrams@.take(i + 1).last() == bigrams@[i as int]);
            }
            let item = &bigrams[i];
            let k1 = &item.first;
            let k2 = &item.second;
            let counted = !(*k1 == *k2) && !self.should_ignore_key(k1) && !self.should_ignore_key(
                k2,
            );
            if counted {
                if k1.key.hand == k2.key.hand && k1.key.finger == k2.key.finger
                    && !self.should_ignore_movement(k1, k2) {
                    sfb_weight = sfb_weight.saturating_add(item.weight);
                }
                match classify_scissor(k1, k2) {
                    Option::Some(ScissorType::Vertical) => {
                        vertical_weight = vertical_weight.saturating_add(item.weight);
                    },
                    Option::Some(ScissorType::Squeeze) => {
                        squeeze_weight = squeeze_weight.saturating_add(item.weight);
                    },
                    Option::Some(ScissorType::Splay) => {
                        splay_weight = splay_weight.saturating_add(item.weight);
                    },
                    Option::Some(ScissorType::Diagonal) => {
                        diagonal_weight = diagonal_weight.saturating_add(item.weight);
                    },
                    Option::Some(ScissorType::Lateral) => {
                        lateral_weight = lateral_weight.saturating_add(item.weight);
                    },
                    Option::None => {},
                }
            }
            i = i + 1;
        }
        proof {
            assert(bigrams@.take(bigrams@.len() as int) =~= bigrams@);
        }
        BigramStatsSummary {
            sfb_weight,
            vertical_weight,
            squeeze_weight,
            splay_weight,
            diagonal_weight,
            lateral_weight,
            total_weight: tw,
        }
    }

    /// The statistics report of a bigram collection: always a total cost
    /// of zero, and the message of [`bigram_stats_message_chars`] over the
    /// category shares of [`BigramStats::summarize`]. Where no bigram
    /// matched any category — every share zero — the empty diagnostic
    /// degrades to `None` rather than being produced.
    pub fn total_cost(&self, bigrams: &Vec<WeightedBigram>, total_weight: Option<u64>) -> (r: (
        u64,
        Option<String>,
    ))
        ensures
            r.0 == 0,
            r.1 is Some <==> ({
                let tw = effective_total_weight(total_weight, bigrams@);
                ||| pct_spec(bigram_weight_where(bigrams@, self.sfb_pred()), tw) > 0
                ||| pct_spec(
                    bigram_weight_where(bigrams@, self.scissor_pred(ScissorType::Vertical)),
                    tw,
                ) > 0
                ||| pct_spec(
                    bigram_weight_where(bigrams@, self.scissor_pred(ScissorType::Squeeze)),
                    tw,
                ) > 0
                ||| pct_spec(
                    bigram_weight_where(bigrams@, self.scissor_pred(ScissorType::Splay)),
                    tw,
                ) > 0
                ||| pct_spec(
                    bigram_weight_where(bigrams@, self.scissor_pred(ScissorType::Diagonal)),
                    tw,
                ) > 0
                ||| pct_spec(
                    bigram_weight_where(bigrams@, self.scissor_pred(ScissorType::Lateral)),
                    tw,
                ) > 0
            }),
            r.1 matches Option::Some(m) ==> ({
                let tw = effective_total_weight(total_weight, bigrams@);
                m@ == bigram_stats_message_chars(
                    pct_spec(bigram_weight_where(bigrams@, self.sfb_pred()), tw),
                    pct_spec(
                        bigram_weight_where(bigrams@, self.scissor_pred(ScissorType::Vertical)),
                        tw,
                    ),
                    pct_spec(
                        bigram_weight_where(bigrams@, self.scissor_pred(ScissorType::Squeeze)),
                        tw,
                    ),
                    pct_spec(
                        bigram_weight_where(bigrams@, self.scissor_pred(ScissorType::Splay)),
                        tw,
                    ),
                    pct_spec(
                        bigram_weight_where(bigrams@, self.scissor_pred(ScissorType::Diagonal)),
                        tw,
                    ),
                    pct_spec(
                        bigram_weight_where(bigrams@, self.scissor_pred(ScissorType::Lateral)),
                        tw,
                    ),
                )
            }),
    {
        let summary = self.summarize(bigrams, total_weight);
        let sfb_pct = to_percentage(summary.sfb_weight, summary.total_weight);
        let vertical_pct = to_percentage(summary.vertical_weight, summary.total_weight);
        let squeeze_pct = to_percentage(summary.squeeze_weight, summary.total_weight);
        let splay_pct = to_percentage(summary.splay_weight, summary.total_weight);
        let diagonal_pct = to_percentage(summary.diagonal_weight, summary.total_weight);
        let lateral_pct = to_percentage(summary.lateral_weight, summary.total_weight);
        let mut groups: Vec<String> = Vec::new();
        if sfb_pct > 0 {
            groups.push(stats_part("SFB: ", sfb_pct));
        }
        let mut full_scissors: Vec<String> = Vec::new();
        if vertical_pct > 0 {
            full_scissors.push(stats_part("Vertical: ", vertical_pct));
        }
        if squeeze_pct > 0 {
            full_scissors.push(stats_part("Squeeze: ", squeeze_pct));
        }
        if splay_pct > 0 {
            full_scissors.push(stats_part("Splay: ", splay_pct));
        }
        if full_scissors.len() > 0 {
            groups.push(join_strings(&full_scissors, ", "));
            proof {
                assert(full_scissors@.map_values(|s: String| s@) =~= full_scissor_parts(
                    vertical_pct,
                    squeeze_pct,
                    splay_pct,
                ));
            }
        }
        let mut half_scissors: Vec<String> = Vec::new();
        if diagonal_pct > 0 {
            half_scissors.push(stats_part("Diagonal: ", diagonal_pct));
        }
        if lateral_pct > 0 {
            half_scissors.push(stats_part("Lateral: ", lateral_pct));
        }
        if half_scissors.len() > 0 {
            groups.push(join_strings(&half_scissors, ", "));
            proof {
                assert(half_scissors@.map_values(|s: String| s@) =~= half_scissor_parts(
                    diagonal_pct,
                    lateral_pct,
                ));
            }
        }
        proof {
            assert(groups@.map_values(|s: String| s@) =~= stats_groups(
                sfb_pct,
                vertical_pct,
                squeeze_pct,
                splay_pct,
                diagonal_pct,
                lateral_pct,
            ));
        }
        if groups.len() == 0 {
            return (0, Option::None);
        }
        let message = join_strings(&groups, "; ");
        (0, Option::Some(message))
    }
}

/// One labelled percentage of a statistics report, rendered with up to
/// two meaningful decimal places.
pub open spec fn stats_part_chars(label: Seq<char>, pct: u64) -> Seq<char> {
    label + trimmed_fixed2_chars(pct) + "%"@
}

/// Render one labelled percentage of a statistics report.
fn stats_part(label: &str, pct: u64) -> (r: String)
    ensures
        r@ == stats_part_chars(label@, pct),
{
    let mut part = String::from_str(label);
    let v = format_percentage(pct);
    part.append(v.as_str());
    part.append("%");
    proof {
        assert(part@ =~= stats_part_chars(label@, pct));
    }
    part
}

/// The full-scissor parts of the report: one per category that occurred.
pub open spec fn full_scissor_parts(vertical_pct: u64, squeeze_pct: u64, splay_pct: u64) -> Seq<
    Seq<char>,
> {
    (if vertical_pct > 0 {
        seq![stats_part_chars("Vertical: "@, vertical_pct)]
    } else {
        Seq::empty()
    }) + (if squeeze_pct > 0 {
        seq![stats_part_chars("Squeeze: "@, squeeze_pct)]
    } else {
        Seq::empty()
    }) + (if splay_pct > 0 {
        seq![stats_part_chars("Splay: "@, splay_pct)]
    } else {
        Seq::empty()
    })
}

/// The half-scissor parts of the report: one per category that occurred.
pub open spec fn half_scissor_parts(diagonal_pct: u64, lateral_pct: u64) -> Seq<Seq<char>> {
    (if diagonal_pct > 0 {
        seq![stats_part_chars("Diagonal: "@, diagonal_pct)]
    } else {
        Seq::empty()
    }) + (if lateral_pct > 0 {
        seq![stats_part_chars("Lateral: "@, lateral_pct)]
    } else {
        Seq::empty()
    })
}

/// The groups of the report: the SFB share, the full scissors and the
/// half scissors, each only where something occurred.
pub open spec fn stats_groups(
    sfb_pct: u64,
    vertical_pct: u64,
    squeeze_pct: u64,
    splay_pct: u64,
    diagonal_pct: u64,
    lateral_pct: u64,
) -> Seq<Seq<char>> {
    (if sfb_pct > 0 {
        seq![stats_part_chars("SFB: "@, sfb_pct)]
    } else {
        Seq::empty()
    }) + ({
        let full = full_scissor_parts(vertical_pct, squeeze_pct, splay_pct);
        if full.len() > 0 {
            seq![joined_chars(full, ", "@)]
        } else {
            Seq::empty()
        }
    }) + ({
        let half = half_scissor_parts(diagonal_pct, lateral_pct);
        if half.len() > 0 {
            seq![joined_chars(half, ", "@)]
        } else {
            Seq::empty()
        }
    })
}

/// The whole bigram statistics message: the groups joined with
/// semicolons.
pub open spec fn bigram_stats_message_chars(
    sfb_pct: u64,
    vertical_pct: u64,
    squeeze_pct: u64,
    splay_pct: u64,
    diagonal_pct: u64,
    lateral_pct: u64,
) -> Seq<char> {
    joined_chars(
        stats_groups(sfb_pct, vertical_pct, squeeze_pct, splay_pct, diagonal_pct, lateral_pct),
        "; "@,
    )
}

impl crate::bigram_metrics::BigramMetric for BigramStats {
    open spec fn name_spec(&self) -> Seq<char> {
        "Bigram Statistics"@
    }

    /// The statistics metric assigns no per-item cost at all.
    open spec fn individual_cost_spec(
        &self,
        k1: LayerKey,
        k2: LayerKey,
        weight: u64,
        total_weight: u64,
    ) -> Option<u64> {
        Option::None
    }

    fn name(&self) -> (r: String) {
        String::from_str("Bigram Statistics")
    }

    fn individual_cost(
        &self,
        k1: &LayerKey,
        k2: &LayerKey,
        weight: u64,
        total_weight: u64,
    ) -> (r: Option<u64>) {
        Option::None
    }
}

} // verus!
