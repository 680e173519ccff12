//! Physical damage reduction with diminishing returns.
//!
//! The reduction fraction is `armour / (armour + ARMOUR_CONSTANT * damage)`,
//! so armour blunts many small hits far better than one big hit.

use vstd::prelude::*;
use crate::fixed::{clamp_spec, clamp_i128, FULL_PERCENT};
use vstd::arithmetic::div_mod::lemma_div_is_ordered;
use vstd::arithmetic::div_mod::lemma_div_is_ordered_by_denominator;
use vstd::arithmetic::mul::lemma_mul_inequality;

verus! {

/// Armour formula constant: higher makes armour weaker against big hits.
pub const ARMOUR_CONSTANT: i64 = 5;

/// Damage left after armour: `damage * (1 - reduction_fraction)`. Zero
/// armour leaves the damage unchanged; non-positive damage yields zero.
pub open spec fn armour_reduction_spec(armour: int, damage: int) -> int {
    if damage <= 0 {
        0
    } else if armour <= 0 {
        damage
    } else {
        damage - (damage * armour) / (armour + ARMOUR_CONSTANT as int * damage)
    }
}

/// The reduction percentage, in milli-percent:
/// `armour / (armour + ARMOUR_CONSTANT * damage)`, clamped into [0, 100%].
pub open spec fn armour_reduction_percent_spec(armour: int, damage: int) -> int {
    if damage <= 0 || armour <= 0 {
        0
    } else {
        clamp_spec(
            (armour * FULL_PERCENT as int) / (armour + ARMOUR_CONSTANT as int * damage),
            0,
            FULL_PERCENT as int,
        )
    }
}

/// Calculate physical damage left after armour reduction.
pub fn calculate_armour_reduction(armour: i64, damage: i64) -> (r: i64)
    ensures
        r as int == armour_reduction_spec(armour as int, damage as int),
        0 <= r <= damage || damage <= 0,
{
    if damage <= 0 {
        return 0;
    }
    if armour <= 0 {
        return damage;
    }
    let den: i128 = (armour as i128) + (damage as i128) * 5;
    proof {
        assert((damage as int) * (armour as int) >= 0 && (damage as int) * (armour as int) <= (
        i64::MIN as int) * (i64::MIN as int)) by (nonlinear_arith)
            requires
                0 < (damage as int) && (damage as int) <= i64::MAX as int,
                0 < (armour as int) && (armour as int) <= i64::MAX as int,
        ;
    }
    let num: i128 = (damage as i128) * (armour as i128);
    let q: i128 = num / den;
    proof {
        assert(num as int / den as int == q as int);
        lemma_mul_inequality(armour as int, den as int, damage as int);
        assert(armour as int * damage as int == damage as int * armour as int) by (
        nonlinear_arith);
        assert(den as int * damage as int == damage as int * den as int) by (nonlinear_arith);
        lemma_div_is_ordered(num as int, damage as int * den as int, den as int);
        assert(damage as int * den as int / den as int == damage as int) by (nonlinear_arith)
            requires
                den as int > 0,
        ;
        lemma_div_is_ordered(0, num as int, den as int);
    }
    damage - (q as i64)
}

/// The damage reduction percentage for given armour and damage.
pub fn armour_reduction_percent(armour: i64, damage: i64) -> (r: i64)
    ensures
        r as int == armour_reduction_percent_spec(armour as int, damage as int),
{
    if damage <= 0 || armour <= 0 {
        return 0;
    }
    let den: i128 = (armour as i128) + (damage as i128) * 5;
    proof {
        assert((armour as int) * (FULL_PERCENT as int) >= 0 && (armour as int) * (FULL_PERCENT
            as int) <= (i64::MIN as int) * (i64::MIN as int)) by (nonlinear_arith)
            requires
                0 < (armour as int) && (armour as int) <= i64::MAX as int,
        ;
    }
    let num: i128 = (armour as i128) * (FULL_PERCENT as i128);
    let q: i128 = num / den;
    proof {
        lemma_div_is_ordered(0, num as int, den as int);
    }
    if q > FULL_PERCENT as i128 {
        FULL_PERCENT
    } else {
        q as i64
    }
}

/// Armour needed to cut `damage` by `target_reduction` milli-percent.
/// `None` when the target is at or past 100%, which no armour reaches.
pub fn armour_needed_for_reduction(damage: i64, target_reduction: i64) -> (r: Option<i64>)
    requires
        0 <= damage,
    ensures
        match r {
            Some(a) => 0 < target_reduction < FULL_PERCENT && a as int == crate::fixed::clamp_amount(
                (target_reduction as int * ARMOUR_CONSTANT as int * damage as int) / (FULL_PERCENT
                    as int - target_reduction as int),
            ) || target_reduction <= 0 && a == 0,
            None => target_reduction >= FULL_PERCENT,
        },
{
    if target_reduction <= 0 {
        return Some(0);
    }
    if target_reduction >= FULL_PERCENT {
        return None;
    }
    proof {
        assert((target_reduction as int) * (ARMOUR_CONSTANT as int) * (damage as int) >= 0 && (
        target_reduction as int) * (ARMOUR_CONSTANT as int) * (damage as int) <= (i64::MIN
            as int) * (i64::MIN as int)) by (nonlinear_arith)
            requires
                0 < (target_reduction as int) && (target_reduction as int) < FULL_PERCENT as int,
                0 <= (damage as int) && (damage as int) <= i64::MAX as int,
        ;
    }
    let num: i128 = (target_reduction as i128) * (ARMOUR_CONSTANT as i128) * (damage as i128);
    let den: i128 = (FULL_PERCENT as i128) - (target_reduction as i128);
    let q: i128 = num / den;
    Some(clamp_i128(q))
}

/// Diminishing returns: against a larger hit the same armour removes a
/// smaller share of the damage. The computed milli-percent never rises
/// with the hit size, and the exact rational shares are strictly ordered
/// (cross-multiplied: `a * (a + C*d2) > a * (a + C*d1)` when `d1 < d2`).
pub proof fn lemma_armour_diminishing(a: int, d1: int, d2: int)
    requires
        0 < a,
        0 < d1 < d2,
    ensures
        armour_reduction_percent_spec(a, d1) >= armour_reduction_percent_spec(a, d2),
        a * (a + ARMOUR_CONSTANT as int * d2) > a * (a + ARMOUR_CONSTANT as int * d1),
{
    let den1 = a + ARMOUR_CONSTANT as int * d1;
    let den2 = a + ARMOUR_CONSTANT as int * d2;
    assert(den2 > den1 >= 1) by (nonlinear_arith)
        requires
            0 < a && 0 < d1 < d2 && den1 == a + 5 * d1 && den2 == a + 5 * d2,
    ;
    assert(a * FULL_PERCENT as int >= 0) by (nonlinear_arith)
        requires
            a > 0,
    ;
    lemma_div_is_ordered_by_denominator(a * FULL_PERCENT as int, den1, den2);
    assert(a * den2 > a * den1) by (nonlinear_arith)
        requires
            a > 0 && den2 > den1,
    ;
}

} // verus!
