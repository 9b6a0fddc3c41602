//! Classification of trigrams into the movement taxonomy, and the trigram
//! statistics metric built on it.

use vstd::prelude::*;
use vstd::pervasive::VecAdditionalExecFns;

use crate::config::DirectionPair;
use crate::config::contains_pair;
use crate::config::contains_pair_spec;
use crate::fixed::pct_spec;
use crate::fixed::sat_add;
use crate::fixed::to_percentage;
use crate::format_utils::fixed1_chars;
use crate::format_utils::fmt_fixed1;
use crate::format_utils::join_strings;
use crate::format_utils::joined_chars;
use crate::key::Finger;
use crate::key::direction_name_spec;
use crate::key::LayerKey;
use crate::trigram_metrics::WeightedTrigram;
use crate::trigram_metrics::effective_trigram_total_weight;
use crate::trigram_metrics::is_same_finger_skipgram;
use crate::trigram_metrics::same_finger_skipgram;
use crate::trigram_metrics::total_trigram_weight;
use crate::trigram_metrics::redirect_base::inwards_spec;
use crate::trigram_metrics::redirect_base::inwards;
use crate::trigram_metrics::redirect_base::is_redirect_spec;
use crate::trigram_metrics::redirect_base::is_weak_redirect_spec;
use crate::trigram_metrics::redirect_base::classify_redirect;

verus! {

/// The closed taxonomy of trigram movements.
#[derive(Clone, Copy, Debug, PartialEq, Eq, Structural)]
pub enum TrigramCategory {
    /// Two keys of one hand roll inward, the third sits on the other hand.
    BigramRollIn,
    /// Two keys of one hand roll outward, the third sits on the other hand.
    BigramRollOut,
    /// All three keys on one hand, both movements inward.
    RollIn,
    /// All three keys on one hand, both movements outward.
    RollOut,
    /// First and third key on one hand, the second on the other.
    Alternation,
    /// One-handed direction reversal with index finger or thumb.
    Redirect,
    /// One-handed direction reversal without index finger or thumb.
    WeakRedirect,
    /// None of the patterns above.
    Other,
}

/// Whether all three keys sit on one hand and, with pairwise different
/// consecutive fingers, both movements run inward: a three-key inward roll.
pub open spec fn roll_in_spec(k1: LayerKey, k2: LayerKey, k3: LayerKey) -> bool {
    &&& k1.key.hand == k2.key.hand
    &&& k2.key.hand == k3.key.hand
    &&& k1.key.finger != k2.key.finger
    &&& k2.key.finger != k3.key.finger
    &&& inwards_spec(k1, k2)
    &&& inwards_spec(k2, k3)
}

/// Whether all three keys sit on one hand and, with pairwise different
/// consecutive fingers, both movements run outward: a three-key outward roll.
pub open spec fn roll_out_spec(k1: LayerKey, k2: LayerKey, k3: LayerKey) -> bool {
    &&& k1.key.hand == k2.key.hand
    &&& k2.key.hand == k3.key.hand
    &&& k1.key.finger != k2.key.finger
    &&& k2.key.finger != k3.key.finger
    &&& inwards_spec(k2, k1)
    &&& inwards_spec(k3, k2)
}

/// Check if a trigram is a same-hand roll.
///
/// Returns `(is_roll_in, is_roll_out)`.
pub fn classify_same_hand_roll(k1: &LayerKey, k2: &LayerKey, k3: &LayerKey) -> (r: (bool, bool))
    ensures
        r.0 == roll_in_spec(*k1, *k2, *k3),
        r.1 == roll_out_spec(*k1, *k2, *k3),
{
    let h1 = k1.key.hand;
    let h2 = k2.key.hand;
    let h3 = k3.key.hand;
    if !(h1 == h2 && h2 == h3) {
        return (false, false);
    }
    let f1 = k1.key.finger;
    let f2 = k2.key.finger;
    let f3 = k3.key.finger;
    if f1 == f2 || f2 == f3 {
        return (false, false);
    }
    let inwards1 = inwards(k1, k2);
    let inwards2 = inwards(k2, k3);
    let outwards1 = inwards(k2, k1);
    let outwards2 = inwards(k3, k2);
    if inwards1 && inwards2 {
        return (true, false);
    }
    if outwards1 && outwards2 {
        return (false, true);
    }
    (false, false)
}

/// The category of the same-hand sub-bigram of a two-one trigram: `Some`
/// holds the keys of the hand that strikes twice in a row, `None` means the
/// trigram has no such pair (all one hand, or an alternation).
pub open spec fn bigram_pair_spec(k1: LayerKey, k2: LayerKey, k3: LayerKey) -> Option<
    (LayerKey, LayerKey),
> {
    if k1.key.hand == k2.key.hand && k2.key.hand != k3.key.hand {
        Option::Some((k1, k2))
    } else if k1.key.hand != k2.key.hand && k2.key.hand == k3.key.hand {
        Option::Some((k2, k3))
    } else {
        Option::None
    }
}

/// Whether the same-hand sub-bigram of a two-one trigram rolls inward
/// (first component) or outward (second): same-finger pairs roll neither
/// way.
pub open spec fn bigram_roll_spec(k1: LayerKey, k2: LayerKey, k3: LayerKey) -> (bool, bool) {
    match bigram_pair_spec(k1, k2, k3) {
        Option::Some((a, b)) => {
            if a.key.finger == b.key.finger {
                (false, false)
            } else if inwards_spec(a, b) {
                (true, false)
            } else {
                (false, true)
            }
        },
        Option::None => (false, false),
    }
}

/// The movement category of a trigram. Every trigram falls into exactly one
/// category of the taxonomy.
pub open spec fn classify_trigram_spec(k1: LayerKey, k2: LayerKey, k3: LayerKey) -> TrigramCategory {
    if k1.key.hand == k2.key.hand && k2.key.hand == k3.key.hand {
        if roll_in_spec(k1, k2, k3) {
            TrigramCategory::RollIn
        } else if roll_out_spec(k1, k2, k3) {
            TrigramCategory::RollOut
        } else if is_redirect_spec(k1, k2, k3) {
            if is_weak_redirect_spec(k1, k2, k3) {
                TrigramCategory::WeakRedirect
            } else {
                TrigramCategory::Redirect
            }
        } else {
            TrigramCategory::Other
        }
    } else if k1.key.hand == k3.key.hand && k1.key.hand != k2.key.hand {
        TrigramCategory::Alternation
    } else {
        match bigram_roll_spec(k1, k2, k3) {
            (true, _) => TrigramCategory::BigramRollIn,
            (false, true) => TrigramCategory::BigramRollOut,
            (false, false) => TrigramCategory::Other,
        }
    }
}

/// A redirect is never a roll: the direction reversal of a redirect
/// contradicts the monotone movement of a three-key roll in either
/// direction.
pub proof fn lemma_redirect_is_no_roll(k1: LayerKey, k2: LayerKey, k3: LayerKey)
    requires
        is_redirect_spec(k1, k2, k3),
    ensures
        !roll_in_spec(k1, k2, k3),
        !roll_out_spec(k1, k2, k3),
{
}

/// Every same-hand trigram of pairwise distinct consecutive fingers is
/// classified into exactly one of roll-in, roll-out, redirect, weak
/// redirect and other: the five cases exhaust the taxonomy for such
/// trigrams and the classification pins each down.
pub proof fn lemma_same_hand_classification(k1: LayerKey, k2: LayerKey, k3: LayerKey)
    requires
        k1.key.hand == k2.key.hand,
        k2.key.hand == k3.key.hand,
        k1.key.finger != k2.key.finger,
        k2.key.finger != k3.key.finger,
    ensures
        classify_trigram_spec(k1, k2, k3) == TrigramCategory::RollIn || classify_trigram_spec(
            k1,
            k2,
            k3,
        ) == TrigramCategory::RollOut || classify_trigram_spec(k1, k2, k3)
            == TrigramCategory::Redirect || classify_trigram_spec(k1, k2, k3)
            == TrigramCategory::WeakRedirect || classify_trigram_spec(k1, k2, k3)
            == TrigramCategory::Other,
        classify_trigram_spec(k1, k2, k3) == TrigramCategory::RollIn <==> roll_in_spec(k1, k2, k3),
        classify_trigram_spec(k1, k2, k3) == TrigramCategory::RollOut <==> roll_out_spec(
            k1,
            k2,
            k3,
        ),
        classify_trigram_spec(k1, k2, k3) == TrigramCategory::Redirect <==> (is_redirect_spec(
            k1,
            k2,
            k3,
        ) && !is_weak_redirect_spec(k1, k2, k3)),
        classify_trigram_spec(k1, k2, k3) == TrigramCategory::WeakRedirect
            <==> is_weak_redirect_spec(k1, k2, k3),
{
    lemma_redirect_is_no_roll_cases(k1, k2, k3);
}

/// Helper: the roll and redirect conditions of one same-hand trigram never
/// hold together.
proof fn lemma_redirect_is_no_roll_cases(k1: LayerKey, k2: LayerKey, k3: LayerKey)
    ensures
        !(is_redirect_spec(k1, k2, k3) && roll_in_spec(k1, k2, k3)),
        !(is_redirect_spec(k1, k2, k3) && roll_out_spec(k1, k2, k3)),
{
}

/// Classify a trigram into its movement category.
pub fn classify_trigram(k1: &LayerKey, k2: &LayerKey, k3: &LayerKey) -> (r: TrigramCategory)
    ensures
        r == classify_trigram_spec(*k1, *k2, *k3),
{
    let h1 = k1.key.hand;
    let h2 = k2.key.hand;
    let h3 = k3.key.hand;
    if h1 == h2 && h2 == h3 {
        let (is_roll_in, is_roll_out) = classify_same_hand_roll(k1, k2, k3);
        if is_roll_in {
            return TrigramCategory::RollIn;
        }
        if is_roll_out {
            return TrigramCategory::RollOut;
        }
        let (is_redirect, is_weak) = classify_redirect(k1, k2, k3);
        if is_redirect {
            if is_weak {
                return TrigramCategory::WeakRedirect;
            }
            return TrigramCategory::Redirect;
        }
        return TrigramCategory::Other;
    }
    if h1 == h3 && h1 != h2 {
        return TrigramCategory::Alternation;
    }
    let (kb1, kb2) = if h1 == h2 {
        (k1, k2)
    } else {
        (k2, k3)
    };
    if kb1.key.finger == kb2.key.finger {
        return TrigramCategory::Other;
    }
    if inwards(kb1, kb2) {
        TrigramCategory::BigramRollIn
    } else {
        TrigramCategory::BigramRollOut
    }
}

/// The saturating sum of the weights of the trigrams satisfying `p`.
pub open spec fn trigram_weight_where(
    items: Seq<WeightedTrigram>,
    p: spec_fn(WeightedTrigram) -> bool,
) -> u64
    decreases items.len(),
{
    if items.len() == 0 {
        0
    } else if p(items.last()) {
        sat_add(trigram_weight_where(items.drop_last(), p), items.last().weight)
    } else {
        trigram_weight_where(items.drop_last(), p)
    }
}

/// Configuration of the trigram statistics.
#[derive(Clone, Debug)]
pub struct Parameters {
    /// Leave modifier keys out of the statistics.
    pub ignore_modifiers: bool,
    /// Leave thumb keys out of the statistics.
    pub ignore_thumbs: bool,
    /// Same-finger movements tracked separately within bigram rolls.
    pub same_finger_rolls: Vec<DirectionPair>,
}

/// The trigram statistics metric.
#[derive(Clone, Debug)]
pub struct TrigramStats {
    pub ignore_modifiers: bool,
    pub ignore_thumbs: bool,
    pub same_finger_rolls: Vec<DirectionPair>,
}

/// The category weights of a trigram collection, together with the
/// weights the percentages refer to.
pub struct TrigramStatsSummary {
    pub bigram_roll_in_weight: u64,
    pub bigram_roll_out_weight: u64,
    pub roll_in_weight: u64,
    pub roll_out_weight: u64,
    pub alternation_weight: u64,
    pub redirect_weight: u64,
    pub weak_redirect_weight: u64,
    pub other_weight: u64,
    pub sfs_weight: u64,
    /// Per configured same-finger movement, the weight of the trigrams
    /// whose same-hand sub-bigram performs it (parallel to the
    /// configuration list).
    pub same_finger_roll_weights: Vec<u64>,
    /// The weight of the trigrams that enter the category statistics.
    pub valid_weight: u64,
    /// The total weight the skipgram percentage refers to.
    pub total_weight: u64,
}

impl TrigramStats {
    /// Build the metric from its configuration.
    pub fn new(params: &Parameters) -> (r: TrigramStats)
        ensures
            r.ignore_modifiers == params.ignore_modifiers,
            r.ignore_thumbs == params.ignore_thumbs,
            r.same_finger_rolls@ == params.same_finger_rolls@,
    {
        TrigramStats {
            ignore_modifiers: params.ignore_modifiers,
            ignore_thumbs: params.ignore_thumbs,
            same_finger_rolls: params.same_finger_rolls.clone(),
        }
    }

    /// Whether a key is left out of the statistics.
    pub open spec fn should_ignore_key_spec(&self, key: LayerKey) -> bool {
        (self.ignore_thumbs && key.key.finger == Finger::Thumb) || (self.ignore_modifiers
            && key.is_modifier)
    }

    /// Check whether a key is left out of the statistics.
    fn should_ignore_key(&self, key: &LayerKey) -> (r: bool)
        ensures
            r == self.should_ignore_key_spec(*key),
    {
        (self.ignore_thumbs && key.key.finger == Finger::Thumb) || (self.ignore_modifiers
            && key.is_modifier)
    }

    /// The same-finger movement of a bigram where it is configured as a
    /// tracked roll, and `None` otherwise.
    pub open spec fn same_finger_roll_of(&self, k1: LayerKey, k2: LayerKey) -> Option<
        DirectionPair,
    > {
        if contains_pair_spec(self.same_finger_rolls@, k1.key.direction, k2.key.direction) {
            Option::Some(DirectionPair { from: k1.key.direction, to: k2.key.direction })
        } else {
            Option::None
        }
    }

    /// Check whether a same-finger movement matches a configured roll.
    pub fn check_same_finger_roll(&self, k1: &LayerKey, k2: &LayerKey) -> (r: Option<
        DirectionPair,
    >)
        ensures
            r == self.same_finger_roll_of(*k1, *k2),
    {
        if contains_pair(&self.same_finger_rolls, k1.key.direction, k2.key.direction) {
            Option::Some(DirectionPair { from: k1.key.direction, to: k2.key.direction })
        } else {
            Option::None
        }
    }

    /// Extract the same-hand sub-bigram of a two-one trigram.
    pub fn extract_bigram_pair(&self, k1: &LayerKey, k2: &LayerKey, k3: &LayerKey) -> (r: Option<
        (LayerKey, LayerKey),
    >)
        ensures
            r == bigram_pair_spec(*k1, *k2, *k3),
    {
        let h1 = k1.key.hand;
        let h2 = k2.key.hand;
        let h3 = k3.key.hand;
        if h1 == h2 && h2 != h3 {
            Option::Some((*k1, *k2))
        } else if h1 != h2 && h2 == h3 {
            Option::Some((*k2, *k3))
        } else {
            Option::None
        }
    }

    /// Classify the same-hand sub-bigram of a two-one trigram as a roll.
    ///
    /// Returns `(is_inward, is_outward)`; a same-finger pair rolls
    /// neither way.
    pub fn classify_roll(&self, k1: &LayerKey, k2: &LayerKey, k3: &LayerKey) -> (r: (bool, bool))
        ensures
            r == bigram_roll_spec(*k1, *k2, *k3),
    {
        match self.extract_bigram_pair(k1, k2, k3) {
            Option::Some((kr1, kr2)) => {
                if kr1.key.finger == kr2.key.finger {
                    (false, false)
                } else if inwards(&kr1, &kr2) {
                    (true, false)
                } else {
                    (false, true)
                }
            },
            Option::None => (false, false),
        }
    }

    /// Whether a trigram enters the category statistics: no key of it
    /// ignored.
    pub open spec fn counts_spec(&self, t: WeightedTrigram) -> bool {
        &&& !self.should_ignore_key_spec(t.first)
        &&& !self.should_ignore_key_spec(t.second)
        &&& !self.should_ignore_key_spec(t.third)
    }

    /// The trigrams that enter the category statistics.
    pub open spec fn valid_pred(&self) -> spec_fn(WeightedTrigram) -> bool {
        let stats = *self;
        |t: WeightedTrigram| stats.counts_spec(t)
    }

    /// The trigrams classified into a given category.
    pub open spec fn category_pred(&self, cat: TrigramCategory) -> spec_fn(WeightedTrigram) -> bool {
        let stats = *self;
        |t: WeightedTrigram|
            {
                &&& stats.counts_spec(t)
                &&& classify_trigram_spec(t.first, t.second, t.third) == cat
            }
    }

    /// The trigrams counted as same-finger skipgrams: first and third key
    /// unignored, different, and struck by one finger.
    pub open spec fn sfs_pred(&self) -> spec_fn(WeightedTrigram) -> bool {
        let stats = *self;
        |t: WeightedTrigram|
            {
                &&& !stats.should_ignore_key_spec(t.first)
                &&& !stats.should_ignore_key_spec(t.third)
                &&& is_same_finger_skipgram(t.first, t.third)
            }
    }

    /// The trigrams whose same-hand sub-bigram performs a given tracked
    /// same-finger movement.
    pub open spec fn roll_pred(&self, pair: DirectionPair) -> spec_fn(WeightedTrigram) -> bool {
        let stats = *self;
        |t: WeightedTrigram|
            {
                &&& stats.counts_spec(t)
                &&& match bigram_pair_spec(t.first, t.second, t.third) {
                    Option::Some((a, b)) => {
                        &&& a.key.hand == b.key.hand
                        &&& a.key.finger == b.key.finger
                        &&& stats.same_finger_roll_of(a, b) == Option::Some(pair)
                    },
                    Option::None => false,
                }
            }
    }

    /// Sum the category weights of a trigram collection: the weight of
    /// each movement category among the unignored trigrams, of the
    /// same-finger skipgrams, and of each configured same-finger roll
    /// movement.
    pub fn summarize(&self, trigrams: &Vec<WeightedTrigram>, total_weight: Option<u64>) -> (r:
        TrigramStatsSummary)
        ensures
            r.bigram_roll_in_weight == trigram_weight_where(
                trigrams@,
                self.category_pred(TrigramCategory::BigramRollIn),
            ),
            r.bigram_roll_out_weight == trigram_weight_where(
                trigrams@,
                self.category_pred(TrigramCategory::BigramRollOut),
            ),
            r.roll_in_weight == trigram_weight_where(
                trigrams@,
                self.category_pred(TrigramCategory::RollIn),
            ),
            r.roll_out_weight == trigram_weight_where(
                trigrams@,
                self.category_pred(TrigramCategory::RollOut),
            ),
            r.alternation_weight == trigram_weight_where(
                trigrams@,
                self.category_pred(TrigramCategory::Alternation),
            ),
            r.redirect_weight == trigram_weight_where(
                trigrams@,
                self.category_pred(TrigramCategory::Redirect),
            ),
            r.weak_redirect_weight == trigram_weight_where(
                trigrams@,
                self.category_pred(TrigramCategory::WeakRedirect),
            ),
            r.other_weight == trigram_weight_where(
                trigrams@,
                self.category_pred(TrigramCategory::Other),
            ),
            r.sfs_weight == trigram_weight_where(trigrams@, self.sfs_pred()),
            r.valid_weight == trigram_weight_where(trigrams@, self.valid_pred()),
            r.same_finger_roll_weights@.len() == self.same_finger_rolls@.len(),
            forall|j: int|
                0 <= j < self.same_finger_rolls@.len()
                    ==> #[trigger] r.same_finger_roll_weights@[j] == trigram_weight_where(
                    trigrams@,
                    self.roll_pred(self.same_finger_rolls@[j]),
                ),
            r.total_weight == effective_trigram_total_weight(total_weight, trigrams@),
    {
        let tw = match total_weight {
            Option::Some(t) => t,
            Option::None => total_trigram_weight(trigrams),
        };
        let mut bigram_roll_in_weight: u64 = 0;
        let mut bigram_roll_out_weight: u64 = 0;
        let mut roll_in_weight: u64 = 0;
        let mut roll_out_weight: u64 = 0;
        let mut alternation_weight: u64 = 0;
        let mut redirect_weight: u64 = 0;
        let mut weak_redirect_weight: u64 = 0;
        let mut other_weight: u64 = 0;
        let mut sfs_weight: u64 = 0;
        let mut valid_weight: u64 = 0;
        let mut roll_weights: Vec<u64> = Vec::new();
        let mut j: usize = 0;
        while j < self.same_finger_rolls.len()
            invariant
                0 <= j <= self.same_finger_rolls@.len(),
                roll_weights@.len() == j,
                forall|l: int| 0 <= l < j ==> #[trigger] roll_weights@[l] == 0u64,
            decreases self.same_finger_rolls@.len() - j,
        {
            roll_weights.push(0);
            j = j + 1;
        }
        let mut i: usize = 0;
        while i < trigrams.len()
            invariant
                0 <= i <= trigrams@.len(),
                bigram_roll_in_weight == trigram_weight_where(
                    trigrams@.take(i as int),
                    self.category_pred(TrigramCategory::BigramRollIn),
                ),
                bigram_roll_out_weight == trigram_weight_where(
                    trigrams@.take(i as int),
                    self.category_pred(TrigramCategory::BigramRollOut),
                ),
                roll_in_weight == trigram_weight_where(
                    trigrams@.take(i as int),
                    self.category_pred(TrigramCategory::RollIn),
                ),
                roll_out_weight == trigram_weight_where(
                    trigrams@.take(i as int),
                    self.category_pred(TrigramCategory::RollOut),
                ),
                alternation_weight == trigram_weight_where(
                    trigrams@.take(i as int),
                    self.category_pred(TrigramCategory::Alternation),
                ),
                redirect_weight == trigram_weight_where(
                    trigrams@.take(i as int),
                    self.category_pred(TrigramCategory::Redirect),
                ),
                weak_redirect_weight == trigram_weight_where(
                    trigrams@.take(i as int),
                    self.category_pred(TrigramCategory::WeakRedirect),
                ),
                other_weight == trigram_weight_where(
                    trigrams@.take(i as int),
                    self.category_pred(TrigramCategory::Other),
                ),
                sfs_weight == trigram_weight_where(trigrams@.take(i as int), self.sfs_pred()),
                valid_weight == trigram_weight_where(trigrams@.take(i as int), self.valid_pred()),
                roll_weights@.len() == self.same_finger_rolls@.len(),
                forall|l: int|
                    0 <= l < self.same_finger_rolls@.len() ==> #[trigger] roll_weights@[l]
                        == trigram_weight_where(
                        trigrams@.take(i as int),
                        self.roll_pred(self.same_finger_rolls@[l]),
                    ),
            decreases trigrams@.len() - i,
        {
            proof {
                assert(trigrams@.take(i + 1).drop_last() =~= trigrams@.take(i as int));
                assert(trigrams@.take(i + 1).last() == trigrams@[i as int]);
            }
            let item = &trigrams[i];
            let k1 = &item.first;
            let k2 = &item.second;
            let k3 = &item.third;
            if !self.should_ignore_key(k1) && !self.should_ignore_key(k3) && same_finger_skipgram(
                k1,
                k3,
            ) {
                sfs_weight = sfs_weight.saturating_add(item.weight);
            }
            let counted = !self.should_ignore_key(k1) && !self.should_ignore_key(k2)
                && !self.should_ignore_key(k3);
            if counted {
                valid_weight = valid_weight.saturating_add(item.weight);
                match self.extract_bigram_pair(k1, k2, k3) {
                    Option::Some((kb1, kb2)) => {
                        if kb1.key.hand == kb2.key.hand && kb1.key.finger == kb2.key.finger {
                            match self.check_same_finger_roll(&kb1, &kb2) {
                                Option::Some(movement) => {
                                    let mut l: usize = 0;
                                    #[verifier::loop_isolation(false)]
                                    while l < self.same_finger_rolls.len()
                                        invariant
                                            0 <= l <= self.same_finger_rolls@.len(),
                                            roll_weights@.len() == self.same_finger_rolls@.len(),
                                            forall|m: int|
                                                0 <= m < l ==> #[trigger] roll_weights@[m]
                                                    == trigram_weight_where(
                                                    trigrams@.take(i + 1),
                                                    self.roll_pred(self.same_finger_rolls@[m]),
                                                ),
                                            forall|m: int|
                                                l <= m < self.same_finger_rolls@.len()
                                                    ==> #[trigger] roll_weights@[m]
                                                    == trigram_weight_where(
                                                    trigrams@.take(i as int),
                                                    self.roll_pred(self.same_finger_rolls@[m]),
                                                ),
                                        decreases self.same_finger_rolls@.len() - l,
                                    {
                                        let pair = self.same_finger_rolls[l];
                                        if pair.from == movement.from && pair.to == movement.to {
                                            let updated = roll_weights[l].saturating_add(
                                                item.weight,
                                            );
                                            roll_weights.set(l, updated);
                                        }
                                        proof {
                                            if self.same_finger_rolls@[l as int] == movement {
                                                assert((self.roll_pred(movement))(
                                                    trigrams@.take(i + 1).last(),
                                                ));
                                            } else {
                                                assert(!(self.roll_pred(
                                                    self.same_finger_rolls@[l as int],
                                                ))(trigrams@.take(i + 1).last()));
                                            }
                                        }
                                        l = l + 1;
                                    }
                                },
                                Option::None => {
                                    proof {
                                        assert forall|m: int|
                                            0 <= m < self.same_finger_rolls@.len() implies !(
                                        self.roll_pred(self.same_finger_rolls@[m]))(
                                            trigrams@.take(i + 1).last(),
                                        ) by {}
                                    }
                                },
                            }
                        } else {
                            proof {
                                assert forall|m: int|
                                    0 <= m < self.same_finger_rolls@.len() implies !(self.roll_pred(
                                    self.same_finger_rolls@[m],
                                ))(trigrams@.take(i + 1).last()) by {}
                            }
                        }
                    },
                    Option::None => {
                        proof {
                            assert forall|m: int|
                                0 <= m < self.same_finger_rolls@.len() implies !(self.roll_pred(
                                self.same_finger_rolls@[m],
                            ))(trigrams@.take(i + 1).last()) by {}
                        }
                    },
                }
                let category = classify_trigram(k1, k2, k3);
                match category {
                    TrigramCategory::BigramRollIn => {
                        bigram_roll_in_weight = bigram_roll_in_weight.saturating_add(item.weight);
                    },
                    TrigramCategory::BigramRollOut => {
                        bigram_roll_out_weight = bigram_roll_out_weight.saturating_add(
                            item.weight,
                        );
                    },
                    TrigramCategory::RollIn => {
                        roll_in_weight = roll_in_weight.saturating_add(item.weight);
                    },
                    TrigramCategory::RollOut => {
                        roll_out_weight = roll_out_weight.saturating_add(item.weight);
                    },
                    TrigramCategory::Alternation => {
                        alternation_weight = alternation_weight.saturating_add(item.weight);
                    },
                    TrigramCategory::Redirect => {
                        redirect_weight = redirect_weight.saturating_add(item.weight);
                    },
                    TrigramCategory::WeakRedirect => {
                        weak_redirect_weight = weak_redirect_weight.saturating_add(item.weight);
                    },
                    TrigramCategory::Other => {
                        other_weight = other_weight.saturating_add(item.weight);
                    },
                }
            } else {
                proof {
                    assert forall|m: int|
                        0 <= m < self.same_finger_rolls@.len() implies !(self.roll_pred(
                        self.same_finger_rolls@[m],
                    ))(trigrams@.take(i + 1).last()) by {}
                }
            }
            i = i + 1;
        }
        proof {
            assert(trigrams@.take(trigrams@.len() as int) =~= trigrams@);
        }
        TrigramStatsSummary {
            bigram_roll_in_weight,
            bigram_roll_out_weight,
            roll_in_weight,
            roll_out_weight,
            alternation_weight,
            redirect_weight,
            weak_redirect_weight,
            other_weight,
            sfs_weight,
            same_finger_roll_weights: roll_weights,
            valid_weight,
            total_weight: tw,
        }
    }

    /// The statistics report of a trigram collection: always a total cost
    /// of zero, and the message of [`trigram_stats_groups`] over the
    /// category shares of [`TrigramStats::summarize`], with the skipgram
    /// share taken of the whole collection's weight and every other share
    /// of the unignored trigrams' weight.
    #[verifier::rlimit(50)]
    pub fn total_cost(&self, trigrams: &Vec<WeightedTrigram>, total_weight: Option<u64>) -> (r: (
        u64,
        Option<String>,
    ))
        ensures
            r.0 == 0,
            r.1 matches Option::Some(m) && ({
                let tw = effective_trigram_total_weight(total_weight, trigrams@);
                let valid = trigram_weight_where(trigrams@, self.valid_pred());
                let pairs = self.same_finger_rolls@;
                let weights = Seq::new(
                    pairs.len(),
                    |j: int| trigram_weight_where(trigrams@, self.roll_pred(pairs[j])),
                );
                let roll_in_2 = trigram_weight_where(
                    trigrams@,
                    self.category_pred(TrigramCategory::BigramRollIn),
                );
                let roll_out_2 = trigram_weight_where(
                    trigrams@,
                    self.category_pred(TrigramCategory::BigramRollOut),
                );
                let redirect = trigram_weight_where(
                    trigrams@,
                    self.category_pred(TrigramCategory::Redirect),
                );
                let weak = trigram_weight_where(
                    trigrams@,
                    self.category_pred(TrigramCategory::WeakRedirect),
                );
                let total_rolls = sat_add(
                    sat_add(roll_in_2, roll_out_2),
                    dedup_roll_total(pairs, weights),
                );
                m@ == joined_chars(
                    trigram_stats_groups(
                        pct_spec(total_rolls, valid),
                        pct_spec(roll_in_2, valid),
                        pct_spec(roll_out_2, valid),
                        roll_movement_parts(pairs, weights, valid),
                        pct_spec(
                            trigram_weight_where(
                                trigrams@,
                                self.category_pred(TrigramCategory::RollIn),
                            ),
                            valid,
                        ),
                        pct_spec(
                            trigram_weight_where(
                                trigrams@,
                                self.category_pred(TrigramCategory::RollOut),
                            ),
                            valid,
                        ),
                        pct_spec(
                            trigram_weight_where(
                                trigrams@,
                                self.category_pred(TrigramCategory::Alternation),
                            ),
                            valid,
                        ),
                        pct_spec(sat_add(redirect, weak), valid),
                        pct_spec(weak, valid),
                        pct_spec(
                            trigram_weight_where(
                                trigrams@,
                                self.category_pred(TrigramCategory::Other),
                            ),
                            valid,
                        ),
                        pct_spec(trigram_weight_where(trigrams@, self.sfs_pred()), tw),
                    ),
                    "; "@,
                )
            }),
    {
        let summary = self.summarize(trigrams, total_weight);
        let ghost pairs = self.same_finger_rolls@;
        let ghost weights = Seq::new(
            pairs.len(),
            |j: int| trigram_weight_where(trigrams@, self.roll_pred(pairs[j])),
        );
        proof {
            assert(summary.same_finger_roll_weights@ =~= weights);
        }
        let valid = summary.valid_weight;
        let bigram_inward_pct = to_percentage(summary.bigram_roll_in_weight, valid);
        let bigram_outward_pct = to_percentage(summary.bigram_roll_out_weight, valid);
        let roll_in_pct = to_percentage(summary.roll_in_weight, valid);
        let roll_out_pct = to_percentage(summary.roll_out_weight, valid);
        let alternation_pct = to_percentage(summary.alternation_weight, valid);
        let redirect_pct = to_percentage(
            summary.redirect_weight.saturating_add(summary.weak_redirect_weight),
            valid,
        );
        let weak_redirect_pct = to_percentage(summary.weak_redirect_weight, valid);
        let other_pct = to_percentage(summary.other_weight, valid);
        let sfs_pct = to_percentage(summary.sfs_weight, summary.total_weight);
        // The combined weight of the tracked same-finger movements, each
        // distinct movement counted once.
        let mut same_finger_total: u64 = 0;
        let mut l: usize = 0;
        proof {
            assert(pairs.take(0int) =~= Seq::<DirectionPair>::empty());
            assert(weights.take(0int) =~= Seq::<u64>::empty());
        }
        while l < self.same_finger_rolls.len()
            invariant
                0 <= l <= pairs.len(),
                pairs == self.same_finger_rolls@,
                weights.len() == pairs.len(),
                summary.same_finger_roll_weights@ == weights,
                same_finger_total == dedup_roll_total(pairs.take(l as int), weights.take(l as int)),
            decreases pairs.len() - l,
        {
            proof {
                assert(pairs.take(l + 1).drop_last() =~= pairs.take(l as int));
                assert(weights.take(l + 1).drop_last() =~= weights.take(l as int));
            }
            let pair = self.same_finger_rolls[l];
            let seen_before = contains_pair_prefix(&self.same_finger_rolls, l, pair);
            if !seen_before {
                same_finger_total = same_finger_total.saturating_add(
                    summary.same_finger_roll_weights[l],
                );
            }
            l = l + 1;
        }
        proof {
            assert(pairs.take(pairs.len() as int) =~= pairs);
            assert(weights.take(weights.len() as int) =~= weights);
        }
        let total_bigram_rolls = summary.bigram_roll_in_weight.saturating_add(
            summary.bigram_roll_out_weight,
        ).saturating_add(same_finger_total);
        let total_bigram_rolls_pct = to_percentage(total_bigram_rolls, valid);
        let mut groups: Vec<String> = Vec::new();
        // The two-key roll group: the total share, the directional shares
        // that occurred, and each tracked same-finger movement.
        let mut roll_2_parts: Vec<String> = Vec::new();
        roll_2_parts.push(pct1_part("2-Roll Total: ", total_bigram_rolls_pct));
        if bigram_inward_pct > 0 {
            roll_2_parts.push(pct1_part("2-Roll In: ", bigram_inward_pct));
        }
        if bigram_outward_pct > 0 {
            roll_2_parts.push(pct1_part("2-Roll Out: ", bigram_outward_pct));
        }
        let ghost fixed_roll_2: Seq<Seq<char>> = roll_2_parts@.map_values(|s: String| s@);
        proof {
            assert(fixed_roll_2 =~= seq![
                pct1_part_chars("2-Roll Total: "@, total_bigram_rolls_pct),
            ] + (if bigram_inward_pct > 0 {
                seq![pct1_part_chars("2-Roll In: "@, bigram_inward_pct)]
            } else {
                Seq::<Seq<char>>::empty()
            }) + (if bigram_outward_pct > 0 {
                seq![pct1_part_chars("2-Roll Out: "@, bigram_outward_pct)]
            } else {
                Seq::<Seq<char>>::empty()
            }));
            assert(roll_movement_parts(pairs.take(0int), weights.take(0int), valid)
                =~= Seq::<Seq<char>>::empty());
        }
        let mut p: usize = 0;
        while p < self.same_finger_rolls.len()
            invariant
                0 <= p <= pairs.len(),
                pairs == self.same_finger_rolls@,
                weights.len() == pairs.len(),
                summary.same_finger_roll_weights@ == weights,
                summary.valid_weight == valid,
                roll_2_parts@.map_values(|s: String| s@) == fixed_roll_2 + roll_movement_parts(
                    pairs.take(p as int),
                    weights.take(p as int),
                    valid,
                ),
            decreases pairs.len() - p,
        {
            proof {
                assert(pairs.take(p + 1).drop_last() =~= pairs.take(p as int));
                assert(weights.take(p + 1).drop_last() =~= weights.take(p as int));
                assert(pairs.take(p + 1).last() == pairs[p as int]);
                assert(weights.take(p + 1).last() == weights[p as int]);
            }
            let ghost parts_before = roll_2_parts@;
            let pair = self.same_finger_rolls[p];
            let seen_before = contains_pair_prefix(&self.same_finger_rolls, p, pair);
            let pct = to_percentage(summary.same_finger_roll_weights[p], valid);
            if !seen_before && pct > 0 {
                roll_2_parts.push(roll_part(pair, pct));
                proof {
                    assert(roll_2_parts@.map_values(|s: String| s@)
                        =~= parts_before.map_values(|s: String| s@).push(
                        roll_part_chars(pair, pct),
                    ));
                }
            }
            proof {
                assert(roll_2_parts@.map_values(|s: String| s@) =~= fixed_roll_2
                    + roll_movement_parts(pairs.take(p + 1), weights.take(p + 1), valid));
            }
            p = p + 1;
        }
        proof {
            assert(pairs.take(pairs.len() as int) =~= pairs);
            assert(weights.take(weights.len() as int) =~= weights);
        }
        groups.push(join_strings(&roll_2_parts, ", "));
        // The three-key roll group.
        let mut roll_3_parts: Vec<String> = Vec::new();
        if roll_in_pct > 0 {
            roll_3_parts.push(pct1_part("3-Roll In: ", roll_in_pct));
        }
        if roll_out_pct > 0 {
            roll_3_parts.push(pct1_part("3-Roll Out: ", roll_out_pct));
        }
        if roll_3_parts.len() > 0 {
            groups.push(join_strings(&roll_3_parts, ", "));
            proof {
                assert(roll_3_parts@.map_values(|s: String| s@) =~= roll_3_group_parts(
                    roll_in_pct,
                    roll_out_pct,
                ));
            }
        }
        if alternation_pct > 0 {
            groups.push(pct1_part("Alt: ", alternation_pct));
        }
        // The redirect group.
        let mut redirect_parts: Vec<String> = Vec::new();
        if redirect_pct > 0 {
            redirect_parts.push(pct1_part("Redirect: ", redirect_pct));
        }
        if weak_redirect_pct > 0 {
            redirect_parts.push(pct1_part("Weak redirect: ", weak_redirect_pct));
        }
        if redirect_parts.len() > 0 {
            groups.push(join_strings(&redirect_parts, ", "));
            proof {
                assert(redirect_parts@.map_values(|s: String| s@) =~= redirect_group_parts(
                    redirect_pct,
                    weak_redirect_pct,
                ));
            }
        }
        if other_pct > 0 {
            groups.push(pct1_part("Other: ", other_pct));
        }
        if sfs_pct > 0 {
            groups.push(pct1_part("SFS: ", sfs_pct));
        }
        let message = join_strings(&groups, "; ");
        proof {
            assert(groups@.map_values(|s: String| s@) =~= trigram_stats_groups(
                total_bigram_rolls_pct,
                bigram_inward_pct,
                bigram_outward_pct,
                roll_movement_parts(pairs, weights, valid),
                roll_in_pct,
                roll_out_pct,
                alternation_pct,
                redirect_pct,
                weak_redirect_pct,
                other_pct,
                sfs_pct,
            ));
        }
        (0, Option::Some(message))
    }
}

/// Whether the prefix of `pairs` before `bound` holds `pair`.
fn contains_pair_prefix(pairs: &Vec<DirectionPair>, bound: usize, pair: DirectionPair) -> (r: bool)
    requires
        bound <= pairs@.len(),
    ensures
        r == contains_pair_spec(pairs@.take(bound as int), pair.from, pair.to),
{
    let mut q: usize = 0;
    let mut found: bool = false;
    while q < bound
        invariant
            0 <= q <= bound <= pairs@.len(),
            found == contains_pair_spec(pairs@.take(q as int), pair.from, pair.to),
        decreases bound - q,
    {
        let a = pairs[q];
        proof {
            if a.from == pair.from && a.to == pair.to {
                assert(pairs@.take(q + 1)[q as int].from == pair.from);
                assert(pairs@.take(q + 1)[q as int].to == pair.to);
            } else {
                assert forall|j: int|
                    0 <= j < q + 1 && #[trigger] pairs@.take(q + 1)[j].from == pair.from
                        && pairs@.take(q + 1)[j].to == pair.to implies contains_pair_spec(
                    pairs@.take(q as int),
                    pair.from,
                    pair.to,
                ) by {
                    if j < q {
                        assert(pairs@.take(q as int)[j] == pairs@[j]);
                    }
                }
            }
        }
        if a.from == pair.from && a.to == pair.to {
            found = true;
        }
        q = q + 1;
    }
    found
}

/// One labelled percentage of the report, rendered with one fractional
/// digit.
pub open spec fn pct1_part_chars(label: Seq<char>, pct: u64) -> Seq<char> {
    label + fixed1_chars(pct) + "%"@
}

/// Render one labelled percentage of the report.
fn pct1_part(label: &str, pct: u64) -> (r: String)
    ensures
        r@ == pct1_part_chars(label@, pct),
{
    let mut part = String::from_str(label);
    let v = fmt_fixed1(pct);
    part.append(v.as_str());
    part.append("%");
    proof {
        assert(part@ =~= pct1_part_chars(label@, pct));
    }
    part
}

/// The rendering of one tracked same-finger movement and its share.
pub open spec fn roll_part_chars(pair: DirectionPair, pct: u64) -> Seq<char> {
    "2-Roll "@ + direction_name_spec(pair.from) + "\u{2192}"@ + direction_name_spec(pair.to)
        + ": "@ + fixed1_chars(pct) + "%"@
}

/// Render one tracked same-finger movement and its share.
fn roll_part(pair: DirectionPair, pct: u64) -> (r: String)
    ensures
        r@ == roll_part_chars(pair, pct),
{
    let mut part = String::from_str("2-Roll ");
    let from_name = pair.from.display_name();
    part.append(from_name.as_str());
    part.append("\u{2192}");
    let to_name = pair.to.display_name();
    part.append(to_name.as_str());
    part.append(": ");
    let v = fmt_fixed1(pct);
    part.append(v.as_str());
    part.append("%");
    proof {
        assert(part@ =~= roll_part_chars(pair, pct));
    }
    part
}

/// The combined weight of the tracked same-finger movements, counting
/// each distinct movement once: later duplicates of a configured pair are
/// left out.
pub open spec fn dedup_roll_total(pairs: Seq<DirectionPair>, weights: Seq<u64>) -> u64
    decreases pairs.len(),
{
    if pairs.len() == 0 {
        0
    } else if contains_pair_spec(pairs.drop_last(), pairs.last().from, pairs.last().to) {
        dedup_roll_total(pairs.drop_last(), weights.drop_last())
    } else {
        sat_add(dedup_roll_total(pairs.drop_last(), weights.drop_last()), weights.last())
    }
}

/// The report parts of the tracked same-finger movements: one per
/// distinct configured movement that occurred.
pub open spec fn roll_movement_parts(
    pairs: Seq<DirectionPair>,
    weights: Seq<u64>,
    valid: u64,
) -> Seq<Seq<char>>
    decreases pairs.len(),
{
    if pairs.len() == 0 {
        Seq::empty()
    } else {
        let prefix = roll_movement_parts(pairs.drop_last(), weights.drop_last(), valid);
        let pct = pct_spec(weights.last(), valid);
        if !contains_pair_spec(pairs.drop_last(), pairs.last().from, pairs.last().to) && pct > 0 {
            prefix + seq![roll_part_chars(pairs.last(), pct)]
        } else {
            prefix
        }
    }
}

/// The three-key roll parts of the report: one per direction that
/// occurred.
pub open spec fn roll_3_group_parts(roll_in_pct: u64, roll_out_pct: u64) -> Seq<Seq<char>> {
    (if roll_in_pct > 0 {
        seq![pct1_part_chars("3-Roll In: "@, roll_in_pct)]
    } else {
        Seq::empty()
    }) + (if roll_out_pct > 0 {
        seq![pct1_part_chars("3-Roll Out: "@, roll_out_pct)]
    } else {
        Seq::empty()
    })
}

/// The redirect parts of the report: the combined share and the weak
/// share, each only where it occurred.
pub open spec fn redirect_group_parts(redirect_pct: u64, weak_redirect_pct: u64) -> Seq<Seq<char>> {
    (if redirect_pct > 0 {
        seq![pct1_part_chars("Redirect: "@, redirect_pct)]
    } else {
        Seq::empty()
    }) + (if weak_redirect_pct > 0 {
        seq![pct1_part_chars("Weak redirect: "@, weak_redirect_pct)]
    } else {
        Seq::empty()
    })
}

/// The groups of the trigram statistics report, in display order: the
/// two-key rolls, the three-key rolls, the alternations, the redirects,
/// the residual category and the skipgrams, each group only where
/// something occurred.
pub open spec fn trigram_stats_groups(
    total_rolls_pct: u64,
    bigram_in_pct: u64,
    bigram_out_pct: u64,
    movement_parts: Seq<Seq<char>>,
    roll_in_pct: u64,
    roll_out_pct: u64,
    alternation_pct: u64,
    redirect_pct: u64,
    weak_redirect_pct: u64,
    other_pct: u64,
    sfs_pct: u64,
) -> Seq<Seq<char>> {
    let roll_2 = seq![pct1_part_chars("2-Roll Total: "@, total_rolls_pct)] + (if bigram_in_pct
        > 0 {
        seq![pct1_part_chars("2-Roll In: "@, bigram_in_pct)]
    } else {
        Seq::empty()
    }) + (if bigram_out_pct > 0 {
        seq![pct1_part_chars("2-Roll Out: "@, bigram_out_pct)]
    } else {
        Seq::empty()
    }) + movement_parts;
    let roll_3 = roll_3_group_parts(roll_in_pct, roll_out_pct);
    let redirects = redirect_group_parts(redirect_pct, weak_redirect_pct);
    seq![joined_chars(roll_2, ", "@)] + (if roll_3.len() > 0 {
        seq![joined_chars(roll_3, ", "@)]
    } else {
        Seq::empty()
    }) + (if alternation_pct > 0 {
        seq![pct1_part_chars("Alt: "@, alternation_pct)]
    } else {
        Seq::empty()
    }) + (if redirects.len() > 0 {
        seq![joined_chars(redirects, ", "@)]
    } else {
        Seq::empty()
    }) + (if other_pct > 0 {
        seq![pct1_part_chars("Other: "@, other_pct)]
    } else {
        Seq::empty()
    }) + (if sfs_pct > 0 {
        seq![pct1_part_chars("SFS: "@, sfs_pct)]
    } else {
        Seq::empty()
    })
}

impl crate::trigram_metrics::TrigramMetric for TrigramStats {
    open spec fn name_spec(&self) -> Seq<char> {
        "Trigram Statistics"@
    }

    /// The statistics metric assigns no per-item cost at all.
    open spec fn individual_cost_spec(
        &self,
        k1: LayerKey,
        k2: LayerKey,
        k3: LayerKey,
        weight: u64,
        total_weight: u64,
    ) -> Option<u64> {
        Option::None
    }

    fn name(&self) -> (r: String) {
        String::from_str("Trigram Statistics")
    }

    fn individual_cost(
        &self,
        k1: &LayerKey,
        k2: &LayerKey,
        k3: &LayerKey,
        weight: u64,
        total_weight: u64,
    ) -> (r: Option<u64>) {
        Option::None
    }
}

} // verus!
