//! Configuration values shared by the metrics: direction-pair cost tables,
//! per-finger factor tables and the frequency amplifier.
//!
//! Missing table entries never fail a lookup; they fall back to a documented
//! default (`UNIT`, that is `1.0`, for factors; the table's own default for
//! costs).

use vstd::prelude::*;

use crate::fixed::UNIT;
use crate::key::Direction;
use crate::key::Finger;

verus! {

/// An ordered pair of stroke directions, as configured in movement lists.
#[derive(Clone, Copy, Debug, PartialEq, Eq, Structural)]
pub struct DirectionPair {
    pub from: Direction,
    pub to: Direction,
}

/// Whether `pairs` holds the pair `(from, to)`.
pub open spec fn contains_pair_spec(pairs: Seq<DirectionPair>, from: Direction, to: Direction) -> bool {
    exists|i: int| 0 <= i < pairs.len() && pairs[i].from == from && pairs[i].to == to
}

/// Whether the list of direction pairs holds `(from, to)`.
pub fn contains_pair(pairs: &Vec<DirectionPair>, from: Direction, to: Direction) -> (r: bool)
    ensures
        r == contains_pair_spec(pairs@, from, to),
{
    let mut i: usize = 0;
    while i < pairs.len()
        invariant
            0 <= i <= pairs@.len(),
            forall|j: int| 0 <= j < i ==> !(pairs@[j].from == from && pairs@[j].to == to),
        decreases pairs@.len() - i,
    {
        if pairs[i].from == from && pairs[i].to == to {
            return true;
        }
        i = i + 1;
    }
    false
}

/// One entry of a direction-pair cost table.
#[derive(Clone, Copy, Debug, PartialEq, Eq, Structural)]
pub struct DirectionCost {
    pub from: Direction,
    pub to: Direction,
    pub cost: u64,
}

/// A `direction_from x direction_to -> cost` table with a default for
/// unlisted pairs. The first matching entry decides.
#[derive(Clone, Debug)]
pub struct DirectionCostTable {
    pub entries: Vec<DirectionCost>,
    pub default_cost: u64,
}

/// The cost the table assigns to `(from, to)`: the first matching entry,
/// or the default where none matches.
pub open spec fn table_cost_spec(
    entries: Seq<DirectionCost>,
    default_cost: u64,
    from: Direction,
    to: Direction,
) -> u64
    decreases entries.len(),
{
    if entries.len() == 0 {
        default_cost
    } else if entries[0].from == from && entries[0].to == to {
        entries[0].cost
    } else {
        table_cost_spec(entries.drop_first(), default_cost, from, to)
    }
}

impl DirectionCostTable {
    /// The cost assigned to the movement `(from, to)`.
    pub open spec fn cost_spec(&self, from: Direction, to: Direction) -> u64 {
        table_cost_spec(self.entries@, self.default_cost, from, to)
    }

    /// Look up the cost of the movement `(from, to)`.
    pub fn cost(&self, from: Direction, to: Direction) -> (r: u64)
        ensures
            r == self.cost_spec(from, to),
    {
        let mut i: usize = 0;
        proof {
            assert(self.entries@.skip(0) =~= self.entries@);
        }
        while i < self.entries.len()
            invariant
                0 <= i <= self.entries@.len(),
                table_cost_spec(self.entries@.skip(i as int), self.default_cost, from, to)
                    == table_cost_spec(self.entries@, self.default_cost, from, to),
            decreases self.entries@.len() - i,
        {
            let e = self.entries[i];
            proof {
                assert(self.entries@.skip(i as int).drop_first() =~= self.entries@.skip(i + 1));
            }
            if e.from == from && e.to == to {
                return e.cost;
            }
            i = i + 1;
        }
        self.default_cost
    }
}

/// A per-finger multiplier table; a finger without an entry counts as `1.0`.
#[derive(Clone, Copy, Debug)]
pub struct FingerFactors {
    pub thumb: Option<u64>,
    pub index: Option<u64>,
    pub middle: Option<u64>,
    pub ring: Option<u64>,
    pub pinky: Option<u64>,
}

impl FingerFactors {
    /// A table without any entry: every finger's factor is `1.0`.
    pub open spec fn empty_spec() -> FingerFactors {
        FingerFactors { thumb: None, index: None, middle: None, ring: None, pinky: None }
    }

    /// A table without any entry: every finger's factor is `1.0`.
    pub fn empty() -> (r: FingerFactors)
        ensures
            r == FingerFactors::empty_spec(),
    {
        FingerFactors { thumb: None, index: None, middle: None, ring: None, pinky: None }
    }

    /// The entry for `f`, or `None`.
    pub open spec fn entry_spec(&self, f: Finger) -> Option<u64> {
        match f {
            Finger::Thumb => self.thumb,
            Finger::Index => self.index,
            Finger::Middle => self.middle,
            Finger::Ring => self.ring,
            Finger::Pinky => self.pinky,
        }
    }

    /// The factor for `f`: its entry, or `1.0` where it has none.
    pub open spec fn factor_spec(&self, f: Finger) -> u64 {
        match self.entry_spec(f) {
            Option::Some(v) => v,
            Option::None => UNIT,
        }
    }

    /// The factor for a pair of fingers: the maximum of the two fingers'
    /// factors, since the weaker finger dominates the movement's comfort.
    pub open spec fn pair_factor_spec(&self, f1: Finger, f2: Finger) -> u64 {
        if self.factor_spec(f1) >= self.factor_spec(f2) {
            self.factor_spec(f1)
        } else {
            self.factor_spec(f2)
        }
    }

    /// Look up the factor of one finger.
    pub fn factor(&self, f: Finger) -> (r: u64)
        ensures
            r == self.factor_spec(f),
    {
        let entry = match f {
            Finger::Thumb => self.thumb,
            Finger::Index => self.index,
            Finger::Middle => self.middle,
            Finger::Ring => self.ring,
            Finger::Pinky => self.pinky,
        };
        match entry {
            Option::Some(v) => v,
            Option::None => UNIT,
        }
    }

    /// Look up the factor of a pair of fingers.
    pub fn pair_factor(&self, f1: Finger, f2: Finger) -> (r: u64)
        ensures
            r == self.pair_factor_spec(f1, f2),
    {
        let a = self.factor(f1);
        let b = self.factor(f2);
        if a >= b {
            a
        } else {
            b
        }
    }
}

/// The entry for `f` that a list of factor tables merges to: the entry of
/// the last table in the list that has one.
pub open spec fn merged_entry(list: Seq<Option<FingerFactors>>, f: Finger) -> Option<u64>
    decreases list.len(),
{
    if list.len() == 0 {
        Option::None
    } else {
        match list.last() {
            Option::Some(ff) => match ff.entry_spec(f) {
                Option::Some(v) => Option::Some(v),
                Option::None => merged_entry(list.drop_last(), f),
            },
            Option::None => merged_entry(list.drop_last(), f),
        }
    }
}

/// Whether any table in the list is present at all.
pub open spec fn any_factors(list: Seq<Option<FingerFactors>>) -> bool {
    exists|j: int| 0 <= j < list.len() && list[j] is Some
}

/// What a list of optional factor tables merges to: `None` where no table
/// is present, else the union of all entries, later tables overriding
/// earlier ones finger by finger.
pub open spec fn merged_factors_spec(list: Seq<Option<FingerFactors>>) -> Option<FingerFactors> {
    if any_factors(list) {
        Option::Some(
            FingerFactors {
                thumb: merged_entry(list, Finger::Thumb),
                index: merged_entry(list, Finger::Index),
                middle: merged_entry(list, Finger::Middle),
                ring: merged_entry(list, Finger::Ring),
                pinky: merged_entry(list, Finger::Pinky),
            },
        )
    } else {
        Option::None
    }
}

/// Merge the finger-factor tables of several categories into one: `None`
/// where no category configures any, else the union of their entries with
/// later categories overriding earlier ones.
pub fn merge_finger_factors(factors: &Vec<Option<FingerFactors>>) -> (r: Option<FingerFactors>)
    ensures
        r == merged_factors_spec(factors@),
{
    let mut merged = FingerFactors::empty();
    let mut has_any: bool = false;
    let mut i: usize = 0;
    proof {
        assert(factors@.take(0int) =~= Seq::<Option<FingerFactors>>::empty());
    }
    while i < factors.len()
        invariant
            0 <= i <= factors@.len(),
            has_any == any_factors(factors@.take(i as int)),
            merged.thumb == merged_entry(factors@.take(i as int), Finger::Thumb),
            merged.index == merged_entry(factors@.take(i as int), Finger::Index),
            merged.middle == merged_entry(factors@.take(i as int), Finger::Middle),
            merged.ring == merged_entry(factors@.take(i as int), Finger::Ring),
            merged.pinky == merged_entry(factors@.take(i as int), Finger::Pinky),
        decreases factors@.len() - i,
    {
        proof {
            assert(factors@.take(i + 1).drop_last() =~= factors@.take(i as int));
            assert(factors@.take(i + 1).last() == factors@[i as int]);
        }
        match &factors[i] {
            Option::Some(ff) => {
                if ff.thumb.is_some() {
                    merged.thumb = ff.thumb;
                }
                if ff.index.is_some() {
                    merged.index = ff.index;
                }
                if ff.middle.is_some() {
                    merged.middle = ff.middle;
                }
                if ff.ring.is_some() {
                    merged.ring = ff.ring;
                }
                if ff.pinky.is_some() {
                    merged.pinky = ff.pinky;
                }
                has_any = true;
                proof {
                    assert(factors@.take(i + 1)[i as int] is Some);
                }
            },
            Option::None => {
                proof {
                    assert forall|j: int|
                        0 <= j < i + 1 && #[trigger] factors@.take(i + 1)[j] is Some implies
                        any_factors(factors@.take(i as int)) by {
                        if j < i {
                            assert(factors@.take(i as int)[j] is Some);
                        }
                    }
                }
            },
        }
        i = i + 1;
    }
    proof {
        assert(factors@.take(factors@.len() as int) =~= factors@);
    }
    if has_any {
        Option::Some(merged)
    } else {
        Option::None
    }
}

/// The frequency amplifier: an optional `(threshold_fraction, factor)` pair.
///
/// An n-gram whose share of the total weight exceeds the threshold has its
/// cost multiplied by the factor; every other n-gram keeps the neutral
/// multiplier `1.0`. Both fields must be set for the amplifier to act.
#[derive(Clone, Copy, Debug)]
pub struct FrequencyAmplifier {
    /// Threshold share of the total weight, in fixed-point millionths.
    pub critical_fraction: Option<u64>,
    /// Multiplier for n-grams above the threshold, in fixed-point millionths.
    pub critical_factor: Option<u64>,
}

impl FrequencyAmplifier {
    /// The multiplier for an n-gram of weight `weight` out of `total`:
    /// `factor` exactly when both fields are set and
    /// `weight / total > fraction`, else `1.0`. The comparison is exact
    /// rational arithmetic, so a zero `total` amplifies any positive weight.
    pub open spec fn multiplier_spec(&self, weight: u64, total: u64) -> u64 {
        match (self.critical_fraction, self.critical_factor) {
            (Option::Some(fraction), Option::Some(factor)) => {
                if weight * UNIT > fraction * total {
                    factor
                } else {
                    UNIT
                }
            },
            _ => UNIT,
        }
    }

    /// Compute the multiplier for an n-gram of weight `weight` out of `total`.
    pub fn multiplier(&self, weight: u64, total: u64) -> (r: u64)
        ensures
            r == self.multiplier_spec(weight, total),
    {
        match (self.critical_fraction, self.critical_factor) {
            (Option::Some(fraction), Option::Some(factor)) => {
                proof {
                    assert((weight as int) * (UNIT as int) <= (u64::MAX as int) * (u64::MAX as int))
                        by (nonlinear_arith)
                        requires
                            weight <= u64::MAX,
                            UNIT <= u64::MAX,
                    ;
                    assert((fraction as int) * (total as int) <= (u64::MAX as int) * (u64::MAX as int))
                        by (nonlinear_arith)
                        requires
                            fraction <= u64::MAX,
                            total <= u64::MAX,
                    ;
                }
                if (weight as u128) * (UNIT as u128) > (fraction as u128) * (total as u128) {
                    factor
                } else {
                    UNIT
                }
            },
            _ => UNIT,
        }
    }
}

} // verus!
