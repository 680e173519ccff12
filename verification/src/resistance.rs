//! Elemental damage mitigation with penetration.
//!
//! Resistances are milli-percent values (`50_000` stands for 50%). A
//! resistance at or above the cap blunts penetration to half strength;
//! below the cap penetration subtracts in full. Negative effective
//! resistance amplifies damage.

use vstd::prelude::*;
use crate::fixed::{
    muldiv, clamp_spec, clamp_amount, clamp_i128, div_floor_i128, sat_muldiv, FULL_PERCENT,
};
use vstd::arithmetic::div_mod::lemma_div_is_ordered;
use vstd::arithmetic::mul::lemma_mul_inequality;

verus! {

/// Maximum resistance, in milli-percent: 100% means immunity.
pub const MAX_RESISTANCE: i64 = 100_000;

/// Minimum resistance, in milli-percent: -200% takes triple damage.
pub const MIN_RESISTANCE: i64 = -200_000;

/// Effective resistance after penetration: a capped resistance loses only
/// half the penetration; an uncapped one loses it in full. The result is
/// clamped back into `[MIN_RESISTANCE, MAX_RESISTANCE]`.
pub open spec fn effective_resistance_spec(resistance: int, penetration: int) -> int {
    let clamped = clamp_spec(resistance, MIN_RESISTANCE as int, MAX_RESISTANCE as int);
    let eff = if clamped >= MAX_RESISTANCE as int {
        MAX_RESISTANCE as int - penetration / 2
    } else {
        clamped - penetration
    };
    clamp_spec(eff, MIN_RESISTANCE as int, MAX_RESISTANCE as int)
}

/// Damage left after resistance mitigation:
/// `damage * (1 - effective / 100%)`, never negative, and zero for
/// non-positive damage.
pub open spec fn resistance_mitigation_spec(damage: int, resistance: int, penetration: int) -> int {
    if damage <= 0 {
        0
    } else {
        muldiv(
            damage,
            FULL_PERCENT as int - effective_resistance_spec(resistance, penetration),
            FULL_PERCENT as int,
        )
    }
}

/// Calculate effective resistance after penetration.
pub fn calculate_effective_resistance(resistance: i64, penetration: i64) -> (r: i64)
    ensures
        r as int == effective_resistance_spec(resistance as int, penetration as int),
        MIN_RESISTANCE <= r <= MAX_RESISTANCE,
{
    let clamped: i64 = if resistance < MIN_RESISTANCE {
        MIN_RESISTANCE
    } else if resistance > MAX_RESISTANCE {
        MAX_RESISTANCE
    } else {
        resistance
    };
    let eff: i128 = if clamped >= MAX_RESISTANCE {
        let half: i128 = div_floor_i128(penetration as i128, 2);
        (MAX_RESISTANCE as i128) - half
    } else {
        (clamped as i128) - (penetration as i128)
    };
    if eff < MIN_RESISTANCE as i128 {
        MIN_RESISTANCE
    } else if eff > MAX_RESISTANCE as i128 {
        MAX_RESISTANCE
    } else {
        eff as i64
    }
}

/// Calculate damage after resistance mitigation.
pub fn calculate_resistance_mitigation(damage: i64, resistance: i64, penetration: i64) -> (r: i64)
    ensures
        r as int == resistance_mitigation_spec(damage as int, resistance as int, penetration
            as int),
        r >= 0,
{
    if damage <= 0 {
        return 0;
    }
    let eff: i64 = calculate_effective_resistance(resistance, penetration);
    let r = sat_muldiv(damage, FULL_PERCENT - eff, FULL_PERCENT);
    proof {
        lemma_mul_inequality(0, damage as int, FULL_PERCENT as int - eff as int);
        lemma_div_is_ordered(0, damage as int * (FULL_PERCENT as int - eff as int), FULL_PERCENT
            as int);
    }
    r
}

/// The resistance needed to reach a target damage reduction: resistance is
/// itself the reduction percentage, clamped into the legal range.
pub fn resistance_needed_for_reduction(target_reduction: i64) -> (r: i64)
    ensures
        r as int == clamp_spec(target_reduction as int, MIN_RESISTANCE as int, MAX_RESISTANCE
            as int),
{
    if target_reduction < MIN_RESISTANCE {
        MIN_RESISTANCE
    } else if target_reduction > MAX_RESISTANCE {
        MAX_RESISTANCE
    } else {
        target_reduction
    }
}

/// Damage reduction percentage granted by a resistance value.
pub fn resistance_reduction_percent(resistance: i64) -> (r: i64)
    ensures
        r as int == clamp_spec(resistance as int, MIN_RESISTANCE as int, MAX_RESISTANCE as int),
{
    if resistance < MIN_RESISTANCE {
        MIN_RESISTANCE
    } else if resistance > MAX_RESISTANCE {
        MAX_RESISTANCE
    } else {
        resistance
    }
}

/// Whether a resistance value sits at or above the cap.
pub fn is_resistance_capped(resistance: i64) -> (r: bool)
    ensures
        r == (resistance >= MAX_RESISTANCE),
{
    resistance >= MAX_RESISTANCE
}

/// Penetration needed to bring `current_resist` down to `target_resist`:
/// double against a capped resistance, one-for-one below the cap.
/// Saturates at the engine's range.
pub fn penetration_needed(current_resist: i64, target_resist: i64) -> (r: i64)
    ensures
        r as int == if current_resist >= MAX_RESISTANCE {
            clamp_amount((MAX_RESISTANCE - target_resist) * 2)
        } else {
            clamp_amount(current_resist - target_resist)
        },
{
    if current_resist >= MAX_RESISTANCE {
        clamp_i128(((MAX_RESISTANCE as i128) - (target_resist as i128)) * 2)
    } else {
        clamp_i128((current_resist as i128) - (target_resist as i128))
    }
}

/// Resistance monotonicity: with no penetration, raising the resistance
/// never lets more damage through.
pub proof fn lemma_resistance_monotonic(d: int, r1: int, r2: int)
    requires
        0 <= d,
        MIN_RESISTANCE as int <= r1 <= r2 <= MAX_RESISTANCE as int,
    ensures
        resistance_mitigation_spec(d, r2, 0) <= resistance_mitigation_spec(d, r1, 0),
{
    if d > 0 {
        let e1 = effective_resistance_spec(r1, 0);
        let e2 = effective_resistance_spec(r2, 0);
        assert(e1 == r1 && e2 == r2);
        let n1 = FULL_PERCENT as int - e1;
        let n2 = FULL_PERCENT as int - e2;
        lemma_mul_inequality(n2, n1, d);
        assert(d * n2 == n2 * d) by (nonlinear_arith);
        assert(d * n1 == n1 * d) by (nonlinear_arith);
        lemma_div_is_ordered(d * n2, d * n1, FULL_PERCENT as int);
    }
}

} // verus!
