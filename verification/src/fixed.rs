//! Fixed-point arithmetic for costs, weights and factors.
//!
//! Every quantity of the crate is a non-negative fixed-point number held in a
//! `u64` that counts millionths: [`UNIT`] stands for `1.0`. Products scale
//! back by [`UNIT`] and truncate; sums and products that would exceed
//! `u64::MAX` saturate there.

use vstd::prelude::*;

verus! {

/// The fixed-point scale: one whole unit in millionths.
pub const UNIT: u64 = 1_000_000;

/// Saturating addition.
pub open spec fn sat_add(a: u64, b: u64) -> u64 {
    if a + b > u64::MAX {
        u64::MAX
    } else {
        (a + b) as u64
    }
}

/// Saturating fixed-point multiplication: `a * b / UNIT`, truncated.
pub open spec fn fx_mul_spec(a: u64, b: u64) -> u64 {
    if a * b / (UNIT as int) > u64::MAX {
        u64::MAX
    } else {
        (a * b / (UNIT as int)) as u64
    }
}

/// The share of `weight` in `total`, as a fixed-point percentage
/// (`100.0` is `100 * UNIT`). A zero `total` yields `0` rather than a
/// division by zero.
pub open spec fn pct_spec(weight: u64, total: u64) -> u64 {
    if total == 0 {
        0
    } else if weight * 100 * UNIT / (total as int) > u64::MAX {
        u64::MAX
    } else {
        (weight * 100 * UNIT / (total as int)) as u64
    }
}

/// Fixed-point multiplication of two millionth-scaled values.
pub fn fx_mul(a: u64, b: u64) -> (r: u64)
    ensures
        r == fx_mul_spec(a, b),
{
    proof {
        assert((a as int) * (b as int) <= (u64::MAX as int) * (u64::MAX as int)) by (nonlinear_arith)
            requires
                a <= u64::MAX,
                b <= u64::MAX,
        ;
    }
    let p: u128 = (a as u128) * (b as u128) / (UNIT as u128);
    if p > u64::MAX as u128 {
        u64::MAX
    } else {
        p as u64
    }
}

/// Helper to convert a weight to a percentage of a total.
///
/// Used by the statistics metrics to turn category frequencies into
/// percentages; a zero total yields `0`.
pub fn to_percentage(weight: u64, total: u64) -> (r: u64)
    ensures
        r == pct_spec(weight, total),
{
    if total == 0 {
        0
    } else {
        proof {
            assert((weight as int) * 100 * (UNIT as int) <= (u64::MAX as int) * (u64::MAX as int))
                by (nonlinear_arith)
                requires
                    weight <= u64::MAX,
                    100 * (UNIT as int) <= u64::MAX,
            ;
        }
        let p: u128 = (weight as u128) * 100 * (UNIT as u128) / (total as u128);
        if p > u64::MAX as u128 {
            u64::MAX
        } else {
            p as u64
        }
    }
}

} // verus!
