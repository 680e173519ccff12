//! The outcome of resolving a damage packet against a defender.

use vstd::prelude::*;
use crate::effect::Effect;
use crate::fixed::{clamp_amount, clamp_spec, muldiv, sat_add, sat_sub, FULL_PERCENT};
use crate::types::DamageType;

verus! {

/// Damage breakdown for a single damage type.
#[derive(Clone, Copy)]
pub struct DamageTaken {
    /// The damage type.
    pub damage_type: DamageType,
    /// Raw damage before mitigation, in milli-units.
    pub raw_amount: i64,
    /// Amount removed by defenses, in milli-units.
    pub mitigated_amount: i64,
    /// Final damage after mitigation, in milli-units.
    pub final_amount: i64,
}

impl DamageTaken {
    /// Create a damage breakdown entry.
    pub fn new(damage_type: DamageType, raw: i64, mitigated: i64, final_dmg: i64) -> (r:
        DamageTaken)
        ensures
            r == (DamageTaken {
                damage_type,
                raw_amount: raw,
                mitigated_amount: mitigated,
                final_amount: final_dmg,
            }),
    {
        DamageTaken { damage_type, raw_amount: raw, mitigated_amount: mitigated, final_amount: final_dmg }
    }

    /// The share of the raw damage that was mitigated, in milli-percent.
    pub fn mitigation_percent(&self) -> (r: i64)
        ensures
            r as int == if self.raw_amount <= 0 {
                0
            } else {
                clamp_spec(
                    muldiv(self.mitigated_amount as int, FULL_PERCENT as int, self.raw_amount as int),
                    0,
                    FULL_PERCENT as int,
                )
            },
    {
        if self.raw_amount <= 0 {
            return 0;
        }
        let v = crate::fixed::sat_muldiv(self.mitigated_amount, FULL_PERCENT, self.raw_amount);
        if v < 0 {
            0
        } else if v > FULL_PERCENT {
            FULL_PERCENT
        } else {
            v
        }
    }
}

/// Saturating total of the raw amounts.
pub open spec fn taken_raw_total(s: Seq<DamageTaken>) -> int
    decreases s.len(),
{
    if s.len() == 0 {
        0
    } else {
        clamp_amount(taken_raw_total(s.drop_last()) + s.last().raw_amount)
    }
}

/// Saturating total of the mitigated amounts.
pub open spec fn taken_mitigated_total(s: Seq<DamageTaken>) -> int
    decreases s.len(),
{
    if s.len() == 0 {
        0
    } else {
        clamp_amount(taken_mitigated_total(s.drop_last()) + s.last().mitigated_amount)
    }
}

/// Saturating total of the final amounts.
pub open spec fn taken_final_total(s: Seq<DamageTaken>) -> int
    decreases s.len(),
{
    if s.len() == 0 {
        0
    } else {
        clamp_amount(taken_final_total(s.drop_last()) + s.last().final_amount)
    }
}

/// Result of applying a damage packet to a stat block.
pub struct CombatResult {
    /// Damage taken per type.
    pub damage_taken: Vec<DamageTaken>,
    /// Total damage after all mitigation, in milli-units.
    pub total_damage: i64,
    /// Damage absorbed by energy shield.
    pub damage_blocked_by_es: i64,
    /// Damage removed by armour.
    pub damage_reduced_by_armour: i64,
    /// Damage removed by resistances.
    pub damage_reduced_by_resists: i64,
    /// Damage prevented by the evasion cap.
    pub damage_prevented_by_evasion: i64,
    /// Effects applied by this hit.
    pub effects_applied: Vec<Effect>,
    /// Energy shield before the hit.
    pub es_before: i64,
    /// Energy shield after the hit.
    pub es_after: i64,
    /// Life before the hit.
    pub life_before: i64,
    /// Life after the hit.
    pub life_after: i64,
    /// Whether this hit was fatal.
    pub is_killing_blow: bool,
    /// Whether the evasion cap was triggered.
    pub triggered_evasion_cap: bool,
}

impl CombatResult {
    /// Create an empty combat result.
    pub fn new() -> (r: CombatResult)
        ensures
            r.damage_taken@ =~= Seq::<DamageTaken>::empty(),
            r.total_damage == 0,
            r.damage_blocked_by_es == 0,
            r.damage_reduced_by_armour == 0,
            r.damage_reduced_by_resists == 0,
            r.damage_prevented_by_evasion == 0,
            r.effects_applied@ =~= Seq::<Effect>::empty(),
            r.es_before == 0 && r.es_after == 0,
            r.life_before == 0 && r.life_after == 0,
            !r.is_killing_blow,
            !r.triggered_evasion_cap,
    {
        CombatResult {
            damage_taken: Vec::new(),
            total_damage: 0,
            damage_blocked_by_es: 0,
            damage_reduced_by_armour: 0,
            damage_reduced_by_resists: 0,
            damage_prevented_by_evasion: 0,
            effects_applied: Vec::new(),
            es_before: 0,
            es_after: 0,
            life_before: 0,
            life_after: 0,
            is_killing_blow: false,
            triggered_evasion_cap: false,
        }
    }

    /// Total raw damage before mitigation.
    pub fn total_raw_damage(&self) -> (r: i64)
        ensures
            r as int == taken_raw_total(self.damage_taken@),
    {
        let mut total: i64 = 0;
        let mut i: usize = 0;
        while i < self.damage_taken.len()
            invariant
                i <= self.damage_taken.len(),
                total as int == taken_raw_total(self.damage_taken@.subrange(0, i as int)),
            decreases self.damage_taken.len() - i,
        {
            proof {
                let ext = self.damage_taken@.subrange(0, i as int + 1);
                assert(ext.drop_last() =~= self.damage_taken@.subrange(0, i as int));
                assert(ext.last() == self.damage_taken@[i as int]);
            }
            total = sat_add(total, self.damage_taken[i].raw_amount);
            i = i + 1;
        }
        proof {
            assert(self.damage_taken@.subrange(0, self.damage_taken@.len() as int)
                =~= self.damage_taken@);
        }
        total
    }

    /// Total mitigated damage.
    pub fn total_mitigated(&self) -> (r: i64)
        ensures
            r as int == taken_mitigated_total(self.damage_taken@),
    {
        let mut total: i64 = 0;
        let mut i: usize = 0;
        while i < self.damage_taken.len()
            invariant
                i <= self.damage_taken.len(),
                total as int == taken_mitigated_total(self.damage_taken@.subrange(0, i as int)),
            decreases self.damage_taken.len() - i,
        {
            proof {
                let ext = self.damage_taken@.subrange(0, i as int + 1);
                assert(ext.drop_last() =~= self.damage_taken@.subrange(0, i as int));
                assert(ext.last() == self.damage_taken@[i as int]);
            }
            total = sat_add(total, self.damage_taken[i].mitigated_amount);
            i = i + 1;
        }
        proof {
            assert(self.damage_taken@.subrange(0, self.damage_taken@.len() as int)
                =~= self.damage_taken@);
        }
        total
    }

    /// The breakdown entry for a damage type, if present.
    pub fn damage_of_type(&self, damage_type: DamageType) -> (r: Option<&DamageTaken>)
        ensures
            match r {
                None => forall|k: int|
                    0 <= k < self.damage_taken@.len() ==> (
                    #[trigger] self.damage_taken@[k]).damage_type != damage_type,
                Some(d) => exists|ix: int|
                    {
                        &&& 0 <= ix < self.damage_taken@.len()
                        &&& self.damage_taken@[ix].damage_type == damage_type
                        &&& *d == self.damage_taken@[ix]
                    },
            },
    {
        let mut i: usize = 0;
        while i < self.damage_taken.len()
            invariant
                i <= self.damage_taken.len(),
                forall|k: int|
                    0 <= k < i ==> (#[trigger] self.damage_taken@[k]).damage_type != damage_type,
            decreases self.damage_taken.len() - i,
        {
            if self.damage_taken[i].damage_type == damage_type {
                return Some(&self.damage_taken[i]);
            }
            i = i + 1;
        }
        None
    }

    /// The life change over the hit, negative for a loss.
    pub fn life_change(&self) -> (r: i64)
        ensures
            r as int == clamp_amount(self.life_after - self.life_before),
    {
        sat_sub(self.life_after, self.life_before)
    }

    /// The energy-shield change over the hit, negative for a loss.
    pub fn es_change(&self) -> (r: i64)
        ensures
            r as int == clamp_amount(self.es_after - self.es_before),
    {
        sat_sub(self.es_after, self.es_before)
    }
}

} // verus!
