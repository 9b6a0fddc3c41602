//! Classification of one-handed trigrams with a direction change
//! (redirects), and the shared machinery of the redirect metrics.

use vstd::prelude::*;

use crate::fixed::fx_mul;
use crate::fixed::fx_mul_spec;
use crate::key::Finger;
use crate::key::Hand;
use crate::key::LayerKey;
use crate::trigram_metrics::TrigramMetric;

verus! {

/// Whether the movement from `k1` to `k2` runs inward across its hand:
/// toward higher columns on the left hand, toward lower columns on the
/// right.
pub open spec fn inwards_spec(k1: LayerKey, k2: LayerKey) -> bool {
    if k1.key.hand == Hand::Left {
        k1.key.column < k2.key.column
    } else {
        k1.key.column > k2.key.column
    }
}

/// Whether the movement from `k1` to `k2` runs inward across the hand.
pub fn inwards(k1: &LayerKey, k2: &LayerKey) -> (r: bool)
    ensures
        r == inwards_spec(*k1, *k2),
{
    if k1.key.hand == Hand::Left {
        k1.key.column < k2.key.column
    } else {
        k1.key.column > k2.key.column
    }
}

/// Whether the trigram is a redirect: all three keys on one hand, no
/// same-finger sub-bigram, and the lateral direction reverses between the
/// first and the second movement.
pub open spec fn is_redirect_spec(k1: LayerKey, k2: LayerKey, k3: LayerKey) -> bool {
    &&& k1.key.hand == k2.key.hand
    &&& k2.key.hand == k3.key.hand
    &&& k1.key.finger != k2.key.finger
    &&& k2.key.finger != k3.key.finger
    &&& ((inwards_spec(k1, k2) && inwards_spec(k3, k2)) || (inwards_spec(k2, k1) && inwards_spec(
        k2,
        k3,
    )))
}

/// Whether any of the three keys is struck by an index finger or a thumb.
pub open spec fn has_index_or_thumb_spec(k1: LayerKey, k2: LayerKey, k3: LayerKey) -> bool {
    ||| k1.key.finger == Finger::Index
    ||| k2.key.finger == Finger::Index
    ||| k3.key.finger == Finger::Index
    ||| k1.key.finger == Finger::Thumb
    ||| k2.key.finger == Finger::Thumb
    ||| k3.key.finger == Finger::Thumb
}

/// Whether the trigram is a weak redirect: a redirect executed without any
/// index finger or thumb, which makes it harder still.
pub open spec fn is_weak_redirect_spec(k1: LayerKey, k2: LayerKey, k3: LayerKey) -> bool {
    is_redirect_spec(k1, k2, k3) && !has_index_or_thumb_spec(k1, k2, k3)
}

/// Check if a trigram is a redirect and whether it is weak.
///
/// Returns `(is_redirect, is_weak_redirect)`.
pub fn classify_redirect(k1: &LayerKey, k2: &LayerKey, k3: &LayerKey) -> (r: (bool, bool))
    ensures
        r.0 == is_redirect_spec(*k1, *k2, *k3),
        r.1 == is_weak_redirect_spec(*k1, *k2, *k3),
{
    let h1 = k1.key.hand;
    let h2 = k2.key.hand;
    let h3 = k3.key.hand;
    if !(h1 == h2 && h2 == h3) {
        return (false, false);
    }
    let f1 = k1.key.finger;
    let f2 = k2.key.finger;
    let f3 = k3.key.finger;
    if f1 == f2 || f2 == f3 {
        return (false, false);
    }
    let inwards1 = inwards(k1, k2);
    let inwards2 = inwards(k2, k3);
    let outwards1 = inwards(k2, k1);
    let outwards2 = inwards(k3, k2);
    let is_redirect = (inwards1 && outwards2) || (outwards1 && inwards2);
    if !is_redirect {
        return (false, false);
    }
    let has_index_or_thumb = f1 == Finger::Index || f2 == Finger::Index || f3 == Finger::Index || f1
        == Finger::Thumb || f2 == Finger::Thumb || f3 == Finger::Thumb;
    (true, !has_index_or_thumb)
}

/// A redirect splits into exactly one of two kinds: a normal redirect,
/// where an index finger or thumb takes part, and a weak one, where none
/// does. The two kinds partition the redirects without overlap.
pub proof fn lemma_redirect_kinds_partition(k1: LayerKey, k2: LayerKey, k3: LayerKey)
    requires
        is_redirect_spec(k1, k2, k3),
    ensures
        is_weak_redirect_spec(k1, k2, k3) <==> !has_index_or_thumb_spec(k1, k2, k3),
        !(is_weak_redirect_spec(k1, k2, k3) && (is_redirect_spec(k1, k2, k3)
            && has_index_or_thumb_spec(k1, k2, k3))),
{
}

/// A filter deciding which redirects a metric counts, by their weakness.
pub trait RedirectFilter: Sized {
    /// Whether a redirect of the given weakness is counted.
    spec fn should_count_spec(&self, is_weak: bool) -> bool;

    /// Returns true if this redirect should be counted by this metric.
    fn should_count(&self, is_weak: bool) -> (r: bool)
        ensures
            r == self.should_count_spec(is_weak),
    ;
}

/// Filter for normal redirects: those an index finger or thumb takes part
/// in.
#[derive(Clone, Copy, Debug)]
pub struct NormalRedirectFilter;

impl RedirectFilter for NormalRedirectFilter {
    open spec fn should_count_spec(&self, is_weak: bool) -> bool {
        !is_weak
    }

    fn should_count(&self, is_weak: bool) -> (r: bool) {
        !is_weak
    }
}

/// Filter for weak redirects: those without index finger or thumb.
#[derive(Clone, Copy, Debug)]
pub struct WeakRedirectFilter;

impl RedirectFilter for WeakRedirectFilter {
    open spec fn should_count_spec(&self, is_weak: bool) -> bool {
        is_weak
    }

    fn should_count(&self, is_weak: bool) -> (r: bool) {
        is_weak
    }
}

/// The shared shape of the redirect metrics: a fixed cost per counted
/// redirect, gated by ignore flags and a weakness filter.
pub struct RedirectMetric<F: RedirectFilter> {
    pub name: String,
    pub filter: F,
    pub base_cost: u64,
    pub ignore_thumbs: bool,
    pub ignore_modifiers: bool,
}

impl<F: RedirectFilter> RedirectMetric<F> {
    /// Build a redirect metric from its parts.
    pub fn new(
        name: &str,
        filter: F,
        base_cost: u64,
        ignore_thumbs: bool,
        ignore_modifiers: bool,
    ) -> (r: RedirectMetric<F>)
        ensures
            r.name@ == name@,
            r.filter == filter,
            r.base_cost == base_cost,
            r.ignore_thumbs == ignore_thumbs,
            r.ignore_modifiers == ignore_modifiers,
    {
        RedirectMetric { name: String::from_str(name), filter, base_cost, ignore_thumbs, ignore_modifiers }
    }

    /// Whether a key is left out of the metric: a thumb key under
    /// `ignore_thumbs`, a modifier under `ignore_modifiers`.
    pub open spec fn should_ignore_key_spec(&self, key: LayerKey) -> bool {
        (self.ignore_thumbs && key.key.finger == Finger::Thumb) || (self.ignore_modifiers
            && key.is_modifier)
    }

    /// Check whether a key is left out of the metric.
    fn should_ignore_key(&self, key: &LayerKey) -> (r: bool)
        ensures
            r == self.should_ignore_key_spec(*key),
    {
        (self.ignore_thumbs && key.key.finger == Finger::Thumb) || (self.ignore_modifiers
            && key.is_modifier)
    }
}

impl<F: RedirectFilter> TrigramMetric for RedirectMetric<F> {
    open spec fn name_spec(&self) -> Seq<char> {
        self.name@
    }

    /// The cost of one trigram: `weight * base_cost` exactly when no key
    /// is ignored and the trigram is a redirect of the kind the filter
    /// counts, and zero otherwise.
    open spec fn individual_cost_spec(
        &self,
        k1: LayerKey,
        k2: LayerKey,
        k3: LayerKey,
        weight: u64,
        total_weight: u64,
    ) -> Option<u64> {
        if self.should_ignore_key_spec(k1) || self.should_ignore_key_spec(k2)
            || self.should_ignore_key_spec(k3) {
            Option::Some(0)
        } else if !is_redirect_spec(k1, k2, k3) || !self.filter.should_count_spec(
            is_weak_redirect_spec(k1, k2, k3),
        ) {
            Option::Some(0)
        } else {
            Option::Some(fx_mul_spec(weight, self.base_cost))
        }
    }

    fn name(&self) -> (r: String) {
        self.name.clone()
    }

    fn individual_cost(
        &self,
        k1: &LayerKey,
        k2: &LayerKey,
        k3: &LayerKey,
        weight: u64,
        total_weight: u64,
    ) -> (r: Option<u64>) {
        if self.should_ignore_key(k1) || self.should_ignore_key(k2) || self.should_ignore_key(k3) {
            return Option::Some(0);
        }
        let (is_redirect, is_weak) = classify_redirect(k1, k2, k3);
        if !is_redirect || !self.filter.should_count(is_weak) {
            return Option::Some(0);
        }
        Option::Some(fx_mul(weight, self.base_cost))
    }
}

} // verus!
