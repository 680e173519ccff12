//! One-shot protection: a per-hit damage cap from accuracy vs evasion.
//!
//! `cap = accuracy / (1 + evasion / EVASION_SCALE_FACTOR)`. A hit at or
//! below the cap lands in full; anything above the cap is evaded.

use vstd::prelude::*;
use crate::fixed::{clamp_spec, clamp_amount, clamp_i128, min_spec, FULL_PERCENT};
use vstd::arithmetic::div_mod::lemma_div_is_ordered;
use vstd::arithmetic::mul::lemma_mul_inequality;

verus! {

/// Evasion scaling factor, in milli-units (1000 whole units).
pub const EVASION_SCALE_FACTOR: i64 = 1_000_000;

/// The damage cap: `accuracy / (1 + evasion / scale)`. No accuracy means
/// nothing lands; no evasion leaves the cap at the accuracy itself.
pub open spec fn damage_cap_spec(accuracy: int, evasion: int) -> int {
    if accuracy <= 0 {
        0
    } else if evasion <= 0 {
        accuracy
    } else {
        (accuracy * EVASION_SCALE_FACTOR as int) / (EVASION_SCALE_FACTOR as int + evasion)
    }
}

/// Damage actually taken under the cap.
pub open spec fn evasion_taken_spec(accuracy: int, evasion: int, damage: int) -> int {
    if damage <= 0 {
        0
    } else {
        min_spec(damage, damage_cap_spec(accuracy, evasion))
    }
}

/// Calculate the damage cap from accuracy and evasion.
pub fn calculate_damage_cap(accuracy: i64, evasion: i64) -> (r: i64)
    ensures
        r as int == damage_cap_spec(accuracy as int, evasion as int),
        0 <= r,
        r <= accuracy || accuracy <= 0,
{
    if accuracy <= 0 {
        return 0;
    }
    if evasion <= 0 {
        return accuracy;
    }
    proof {
        assert((accuracy as int) * (EVASION_SCALE_FACTOR as int) >= 0 && (accuracy as int) * (
        EVASION_SCALE_FACTOR as int) <= (i64::MIN as int) * (i64::MIN as int)) by (
        nonlinear_arith)
            requires
                0 < (accuracy as int) && (accuracy as int) <= i64::MAX as int,
        ;
    }
    let num: i128 = (accuracy as i128) * (EVASION_SCALE_FACTOR as i128);
    let den: i128 = (EVASION_SCALE_FACTOR as i128) + (evasion as i128);
    let q: i128 = num / den;
    proof {
        lemma_div_is_ordered(0, num as int, den as int);
        lemma_mul_inequality(EVASION_SCALE_FACTOR as int, den as int, accuracy as int);
        assert(accuracy as int * EVASION_SCALE_FACTOR as int == EVASION_SCALE_FACTOR as int
            * accuracy as int) by (nonlinear_arith);
        assert(den as int * accuracy as int == accuracy as int * den as int) by (nonlinear_arith);
        lemma_div_is_ordered(num as int, accuracy as int * den as int, den as int);
        assert(accuracy as int * den as int / den as int == accuracy as int) by (nonlinear_arith)
            requires
                den as int > 0,
        ;
    }
    q as i64
}

/// Apply the evasion cap to incoming damage, returning
/// `(damage_taken, damage_evaded)`. Whatever is not taken is evaded:
/// `taken + evaded` equals the (non-negative part of the) damage, and
/// `taken` never exceeds the cap.
pub fn apply_evasion_cap(accuracy: i64, evasion: i64, damage: i64) -> (r: (i64, i64))
    ensures
        r.0 as int == evasion_taken_spec(accuracy as int, evasion as int, damage as int),
        damage >= 0 ==> r.0 as int + r.1 as int == damage as int,
        damage < 0 ==> r.0 == 0 && r.1 == 0,
        r.0 as int <= damage_cap_spec(accuracy as int, evasion as int) || damage <= 0,
        r.0 >= 0 && r.1 >= 0,
{
    if damage <= 0 {
        return (0, 0);
    }
    let cap: i64 = calculate_damage_cap(accuracy, evasion);
    if damage <= cap {
        (damage, 0)
    } else {
        (cap, damage - cap)
    }
}

/// Whether a hit of this size would trip the evasion cap.
pub fn triggered_evasion_cap(accuracy: i64, evasion: i64, damage: i64) -> (r: bool)
    ensures
        r == (damage as int > damage_cap_spec(accuracy as int, evasion as int)),
{
    let cap: i64 = calculate_damage_cap(accuracy, evasion);
    damage > cap
}

/// Evasion needed so that an attacker with this accuracy is capped at
/// `target_cap`; zero when the target is not below the accuracy.
pub fn evasion_needed_for_cap(accuracy: i64, target_cap: i64) -> (r: i64)
    ensures
        r as int == if target_cap >= accuracy || target_cap <= 0 {
            0
        } else {
            clamp_amount(
                (EVASION_SCALE_FACTOR as int * (accuracy - target_cap)) / (target_cap as int),
            )
        },
{
    if target_cap >= accuracy || target_cap <= 0 {
        return 0;
    }
    proof {
        assert((EVASION_SCALE_FACTOR as int) * ((accuracy as int) - (target_cap as int)) >= 0 && (
        EVASION_SCALE_FACTOR as int) * ((accuracy as int) - (target_cap as int)) <= (i64::MIN
            as int) * (i64::MIN as int)) by (nonlinear_arith)
            requires
                0 < (target_cap as int) && (target_cap as int) < (accuracy as int) && (accuracy as int) <= i64::MAX as int,
        ;
    }
    let num: i128 = (EVASION_SCALE_FACTOR as i128) * ((accuracy as i128) - (target_cap as i128));
    let den: i128 = target_cap as i128;
    let q: i128 = num / den;
    clamp_i128(q)
}

/// The share of incoming damage that was evaded, in milli-percent.
pub fn evasion_effectiveness(accuracy: i64, evasion: i64, damage: i64) -> (r: i64)
    ensures
        r as int == if damage <= 0 {
            0
        } else {
            clamp_spec(
                ((damage as int - evasion_taken_spec(accuracy as int, evasion as int, damage
                    as int)) * FULL_PERCENT as int) / (damage as int),
                0,
                FULL_PERCENT as int,
            )
        },
{
    if damage <= 0 {
        return 0;
    }
    let (taken, evaded) = apply_evasion_cap(accuracy, evasion, damage);
    proof {
        assert((evaded as int) * (FULL_PERCENT as int) >= 0 && (evaded as int) * (FULL_PERCENT
            as int) <= (i64::MIN as int) * (i64::MIN as int)) by (nonlinear_arith)
            requires
                0 <= (evaded as int) && (evaded as int) <= i64::MAX as int,
        ;
    }
    let num: i128 = (evaded as i128) * (FULL_PERCENT as i128);
    let den: i128 = damage as i128;
    let q: i128 = num / den;
    proof {
        lemma_div_is_ordered(0, num as int, den as int);
    }
    if q > FULL_PERCENT as i128 {
        FULL_PERCENT
    } else {
        q as i64
    }
}

} // verus!
