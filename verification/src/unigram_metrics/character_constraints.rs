//! Character-constraint metric: penalizes specific characters placed on
//! specific matrix positions with a configurable cost. Useful for keeping
//! certain characters away from hard-to-reach keys.

use vstd::prelude::*;

use crate::fixed::fx_mul;
use crate::fixed::fx_mul_spec;
use crate::key::LayerKey;
use crate::unigram_metrics::UnigramMetric;

verus! {

/// One constrained placement: a symbol, a matrix position, and the cost
/// of placing the symbol there.
#[derive(Clone, Copy, Debug, PartialEq, Eq, Structural)]
pub struct CharPositionCost {
    pub symbol: char,
    pub column: u8,
    pub row: u8,
    pub cost: u64,
}

/// Configuration of the character-constraint metric.
#[derive(Clone, Debug)]
pub struct Parameters {
    /// The constrained placements and their costs.
    pub costs: Vec<CharPositionCost>,
}

/// The character-constraint metric.
#[derive(Clone, Debug)]
pub struct CharacterConstraints {
    pub costs: Vec<CharPositionCost>,
}

/// The cost the constraint list assigns to a symbol at a matrix position:
/// the first matching entry, or `None` where none constrains it.
pub open spec fn constraint_cost_spec(
    entries: Seq<CharPositionCost>,
    symbol: char,
    column: u8,
    row: u8,
) -> Option<u64>
    decreases entries.len(),
{
    if entries.len() == 0 {
        Option::None
    } else if entries[0].symbol == symbol && entries[0].column == column && entries[0].row == row {
        Option::Some(entries[0].cost)
    } else {
        constraint_cost_spec(entries.drop_first(), symbol, column, row)
    }
}

impl CharacterConstraints {
    /// Build the metric from its configuration.
    pub fn new(params: &Parameters) -> (r: CharacterConstraints)
        ensures
            r.costs@ == params.costs@,
    {
        CharacterConstraints { costs: params.costs.clone() }
    }

    /// Look up the constraint cost of a symbol at a matrix position.
    fn lookup(&self, symbol: char, column: u8, row: u8) -> (r: Option<u64>)
        ensures
            r == constraint_cost_spec(self.costs@, symbol, column, row),
    {
        let mut i: usize = 0;
        proof {
            assert(self.costs@.skip(0) =~= self.costs@);
        }
        while i < self.costs.len()
            invariant
                0 <= i <= self.costs@.len(),
                constraint_cost_spec(self.costs@.skip(i as int), symbol, column, row)
                    == constraint_cost_spec(self.costs@, symbol, column, row),
            decreases self.costs@.len() - i,
        {
            let e = self.costs[i];
            proof {
                assert(self.costs@.skip(i as int).drop_first() =~= self.costs@.skip(i + 1));
            }
            if e.symbol == symbol && e.column == column && e.row == row {
                return Option::Some(e.cost);
            }
            i = i + 1;
        }
        Option::None
    }
}

impl UnigramMetric for CharacterConstraints {
    open spec fn name_spec(&self) -> Seq<char> {
        "Character Constraints"@
    }

    /// The cost of one keystroke: `weight * cost` where the constraint
    /// list prices the key's symbol at the key's matrix position, and
    /// zero otherwise.
    open spec fn individual_cost_spec(&self, key: LayerKey, weight: u64, total_weight: u64) -> Option<
        u64,
    > {
        match constraint_cost_spec(self.costs@, key.symbol, key.key.column, key.key.row) {
            Option::Some(cost) => Option::Some(fx_mul_spec(weight, cost)),
            Option::None => Option::Some(0),
        }
    }

    fn name(&self) -> (r: String) {
        String::from_str("Character Constraints")
    }

    fn individual_cost(&self, key: &LayerKey, weight: u64, total_weight: u64) -> (r: Option<u64>) {
        match self.lookup(key.symbol, key.key.column, key.key.row) {
            Option::Some(cost) => Option::Some(fx_mul(weight, cost)),
            Option::None => Option::Some(0),
        }
    }
}

} // verus!
