//! The damage packet: what a calculated hit carries to its target.

use vstd::prelude::*;
use crate::fixed::{clamp_amount, clamp_spec, muldiv, sat_add, sat_scaled, scaled, SCALE};
use crate::types::{DamageType, StatusEffect};

verus! {

/// Final damage of one type, after all scaling.
#[derive(Clone, Copy)]
pub struct FinalDamage {
    /// The damage type.
    pub damage_type: DamageType,
    /// The amount, in milli-units.
    pub amount: i64,
}

impl FinalDamage {
    /// Create a damage entry.
    pub fn new(damage_type: DamageType, amount: i64) -> (r: FinalDamage)
        ensures
            r == (FinalDamage { damage_type, amount }),
    {
        FinalDamage { damage_type, amount }
    }
}

/// A damage-over-time application pending on a hit.
pub struct PendingDoT {
    /// Identifier of the DoT kind.
    pub dot_type: String,
    /// Damage per second, in milli-units.
    pub damage_per_second: i64,
    /// Duration, in milli-seconds.
    pub duration: i64,
}

impl PendingDoT {
    /// Create a pending DoT.
    pub fn new(dot_type: String, dps: i64, duration: i64) -> (r: PendingDoT)
        ensures
            r.dot_type@ == dot_type@,
            r.damage_per_second == dps,
            r.duration == duration,
    {
        PendingDoT { dot_type, damage_per_second: dps, duration }
    }

    /// Total damage this DoT would deal over its whole duration.
    pub fn total_damage(&self) -> (r: i64)
        ensures
            r as int == scaled(self.damage_per_second as int, self.duration as int),
    {
        sat_scaled(self.damage_per_second, self.duration)
    }
}

/// A status effect pending application: the status damage decides the
/// chance to apply, and for damaging kinds the DoT rate.
#[derive(Clone, Copy)]
pub struct PendingStatusEffect {
    /// The ailment kind.
    pub effect_type: StatusEffect,
    /// The status damage driving the application chance, in milli-units.
    pub status_damage: i64,
    /// Duration of the effect, in milli-seconds.
    pub duration: i64,
    /// Magnitude, as a milli fraction.
    pub magnitude: i64,
    /// DoT rate for damaging kinds, in milli-damage per second.
    pub dot_dps: i64,
}

impl PendingStatusEffect {
    /// Create a pending status effect without DoT damage.
    pub fn new(effect_type: StatusEffect, status_damage: i64, duration: i64, magnitude: i64) -> (r:
        PendingStatusEffect)
        ensures
            r == (PendingStatusEffect { effect_type, status_damage, duration, magnitude, dot_dps: 0i64 }),
    {
        PendingStatusEffect { effect_type, status_damage, duration, magnitude, dot_dps: 0 }
    }

    /// Create a pending status effect with DoT damage.
    pub fn new_with_dot(
        effect_type: StatusEffect,
        status_damage: i64,
        duration: i64,
        magnitude: i64,
        dot_dps: i64,
    ) -> (r: PendingStatusEffect)
        ensures
            r == (PendingStatusEffect { effect_type, status_damage, duration, magnitude, dot_dps }),
    {
        PendingStatusEffect { effect_type, status_damage, duration, magnitude, dot_dps }
    }

    /// The chance to apply, as a milli fraction of certainty: status
    /// damage over the target's maximum life, clamped into [0, 1];
    /// zero against a target without life.
    pub open spec fn apply_chance_spec(self, target_max_health: int) -> int {
        if target_max_health <= 0 {
            0
        } else {
            clamp_spec(
                muldiv(self.status_damage as int, SCALE as int, target_max_health),
                0,
                SCALE as int,
            )
        }
    }

    /// Calculate the chance to apply this effect.
    pub fn calculate_apply_chance(&self, target_max_health: i64) -> (r: i64)
        ensures
            r as int == self.apply_chance_spec(target_max_health as int),
            0 <= r <= SCALE,
    {
        if target_max_health <= 0 {
            return 0;
        }
        let v = crate::fixed::sat_muldiv(self.status_damage, SCALE, target_max_health);
        if v < 0 {
            0
        } else if v > SCALE {
            SCALE
        } else {
            v
        }
    }

    /// Whether this kind deals damage over time.
    pub fn is_damaging(&self) -> (r: bool)
        ensures
            r == (self.effect_type == StatusEffect::Poison || self.effect_type
                == StatusEffect::Bleed || self.effect_type == StatusEffect::Burn),
    {
        match self.effect_type {
            StatusEffect::Poison | StatusEffect::Bleed | StatusEffect::Burn => true,
            _ => false,
        }
    }

    /// Total DoT damage this effect would deal over its duration.
    pub fn total_dot_damage(&self) -> (r: i64)
        ensures
            r as int == scaled(self.dot_dps as int, self.duration as int),
    {
        sat_scaled(self.dot_dps, self.duration)
    }
}

/// Saturating total of a damage list.
pub open spec fn damages_total(s: Seq<FinalDamage>) -> int
    decreases s.len(),
{
    if s.len() == 0 {
        0
    } else {
        clamp_amount(damages_total(s.drop_last()) + s.last().amount)
    }
}

/// Saturating total of the entries of one damage type.
pub open spec fn damages_of_type(s: Seq<FinalDamage>, dt: DamageType) -> int
    decreases s.len(),
{
    if s.len() == 0 {
        0
    } else {
        let rest = damages_of_type(s.drop_last(), dt);
        if s.last().damage_type == dt {
            clamp_amount(rest + s.last().amount)
        } else {
            rest
        }
    }
}

/// The result of a stat block generating damage with a skill.
pub struct DamagePacket {
    /// Who dealt this damage.
    pub source_id: String,
    /// The skill used.
    pub skill_id: String,
    /// Damage per type, after all scaling.
    pub damages: Vec<FinalDamage>,
    /// Whether this hit was a critical strike.
    pub is_critical: bool,
    /// The critical multiplier, already applied on a critical hit.
    pub crit_multiplier: i64,
    /// Fire penetration, in milli-percent.
    pub fire_pen: i64,
    /// Cold penetration, in milli-percent.
    pub cold_pen: i64,
    /// Lightning penetration, in milli-percent.
    pub lightning_pen: i64,
    /// Chaos penetration, in milli-percent.
    pub chaos_pen: i64,
    /// DoTs pending application.
    pub dots_to_apply: Vec<PendingDoT>,
    /// Status effects pending application.
    pub status_effects_to_apply: Vec<PendingStatusEffect>,
    /// The attacker's accuracy rating, in milli-units.
    pub accuracy: i64,
    /// Hits in this attack, for multi-hit skills.
    pub hit_count: u32,
    /// Whether this hit can trigger leech.
    pub can_leech: bool,
    /// Whether this hit can trigger on-hit effects.
    pub can_apply_on_hit: bool,
}

impl DamagePacket {
    /// Every pending ailment carries a non-negative DoT rate, so the
    /// effects it spawns are well-formed.
    pub open spec fn wf_pending(self) -> bool {
        forall|k: int|
            0 <= k < self.status_effects_to_apply@.len() ==> (
            #[trigger] self.status_effects_to_apply@[k]).dot_dps >= 0
    }

    /// Create an empty packet with the documented defaults.
    pub fn new(source_id: String, skill_id: String) -> (r: DamagePacket)
        ensures
            r.source_id@ == source_id@,
            r.skill_id@ == skill_id@,
            r.damages@ =~= Seq::<FinalDamage>::empty(),
            !r.is_critical,
            r.crit_multiplier == 1_500,
            r.fire_pen == 0 && r.cold_pen == 0 && r.lightning_pen == 0 && r.chaos_pen == 0,
            r.dots_to_apply@ =~= Seq::<PendingDoT>::empty(),
            r.status_effects_to_apply@ =~= Seq::<PendingStatusEffect>::empty(),
            r.accuracy == 1_000_000,
            r.hit_count == 1,
            r.can_leech,
            r.can_apply_on_hit,
            r.wf_pending(),
    {
        DamagePacket {
            source_id,
            skill_id,
            damages: Vec::new(),
            is_critical: false,
            crit_multiplier: 1_500,
            fire_pen: 0,
            cold_pen: 0,
            lightning_pen: 0,
            chaos_pen: 0,
            dots_to_apply: Vec::new(),
            status_effects_to_apply: Vec::new(),
            accuracy: 1_000_000,
            hit_count: 1,
            can_leech: true,
            can_apply_on_hit: true,
        }
    }

    /// Total damage, summed over all types.
    pub fn total_damage(&self) -> (r: i64)
        ensures
            r as int == damages_total(self.damages@),
    {
        let mut total: i64 = 0;
        let mut i: usize = 0;
        while i < self.damages.len()
            invariant
                i <= self.damages.len(),
                total as int == damages_total(self.damages@.subrange(0, i as int)),
            decreases self.damages.len() - i,
        {
            proof {
                let ext = self.damages@.subrange(0, i as int + 1);
                assert(ext.drop_last() =~= self.damages@.subrange(0, i as int));
                assert(ext.last() == self.damages@[i as int]);
            }
            total = sat_add(total, self.damages[i].amount);
            i = i + 1;
        }
        proof {
            assert(self.damages@.subrange(0, self.damages@.len() as int) =~= self.damages@);
        }
        total
    }

    /// Damage of a specific type.
    pub fn damage_of_type(&self, damage_type: DamageType) -> (r: i64)
        ensures
            r as int == damages_of_type(self.damages@, damage_type),
    {
        let mut total: i64 = 0;
        let mut i: usize = 0;
        while i < self.damages.len()
            invariant
                i <= self.damages.len(),
                total as int == damages_of_type(self.damages@.subrange(0, i as int), damage_type),
            decreases self.damages.len() - i,
        {
            proof {
                let ext = self.damages@.subrange(0, i as int + 1);
                assert(ext.drop_last() =~= self.damages@.subrange(0, i as int));
                assert(ext.last() == self.damages@[i as int]);
            }
            if self.damages[i].damage_type == damage_type {
                total = sat_add(total, self.damages[i].amount);
            }
            i = i + 1;
        }
        proof {
            assert(self.damages@.subrange(0, self.damages@.len() as int) =~= self.damages@);
        }
        total
    }

    /// Add damage of a type: an existing entry of that type grows, a
    /// missing one is appended.
    pub fn add_damage(&mut self, damage_type: DamageType, amount: i64)
        ensures
            *final(self) == (DamagePacket { damages: final(self).damages, ..*old(self) }),
            ({
                let ds = old(self).damages@;
                if exists|k: int| 0 <= k < ds.len() && ds[k].damage_type == damage_type {
                    exists|ix: int|
                        {
                            &&& 0 <= ix < ds.len()
                            &&& ds[ix].damage_type == damage_type
                            &&& forall|k: int| 0 <= k < ix ==> ds[k].damage_type != damage_type
                            &&& final(self).damages@ =~= ds.update(
                                ix,
                                FinalDamage {
                                    damage_type,
                                    amount: clamp_amount(ds[ix].amount + amount) as i64,
                                },
                            )
                        }
                } else {
                    final(self).damages@ =~= ds.push(FinalDamage { damage_type, amount })
                }
            }),
    {
        let mut found: usize = 0;
        let mut was_found: bool = false;
        let mut i: usize = 0;
        while i < self.damages.len()
            invariant
                i <= self.damages.len(),
                !was_found ==> forall|k: int|
                    0 <= k < i ==> self.damages@[k].damage_type != damage_type,
                was_found ==> 0 <= found < i && self.damages@[found as int].damage_type
                    == damage_type && forall|k: int|
                    0 <= k < found ==> self.damages@[k].damage_type != damage_type,
            decreases self.damages.len() - i,
        {
            if !was_found && self.damages[i].damage_type == damage_type {
                was_found = true;
                found = i;
            }
            i = i + 1;
        }
        if was_found {
            let e = self.damages.remove(found);
            self.damages.insert(
                found,
                FinalDamage { damage_type, amount: sat_add(e.amount, amount) },
            );
            proof {
                assert(self.damages@ =~= old(self).damages@.update(
                    found as int,
                    FinalDamage {
                        damage_type,
                        amount: clamp_amount(
                            old(self).damages@[found as int].amount + amount,
                        ) as i64,
                    },
                ));
            }
        } else {
            self.damages.push(FinalDamage { damage_type, amount });
        }
    }

    /// The packet's penetration against one damage type; physical never
    /// penetrates.
    pub open spec fn penetration_spec(self, damage_type: DamageType) -> i64 {
        match damage_type {
            DamageType::Physical => 0,
            DamageType::Fire => self.fire_pen,
            DamageType::Cold => self.cold_pen,
            DamageType::Lightning => self.lightning_pen,
            DamageType::Chaos => self.chaos_pen,
        }
    }

    /// Get the penetration for a damage type.
    pub fn penetration(&self, damage_type: DamageType) -> (r: i64)
        ensures
            r == self.penetration_spec(damage_type),
    {
        match damage_type {
            DamageType::Physical => 0,
            DamageType::Fire => self.fire_pen,
            DamageType::Cold => self.cold_pen,
            DamageType::Lightning => self.lightning_pen,
            DamageType::Chaos => self.chaos_pen,
        }
    }

    /// Whether the packet carries any damage.
    pub fn has_damage(&self) -> (r: bool)
        ensures
            r == (damages_total(self.damages@) > 0),
    {
        self.total_damage() > 0
    }
}

} // verus!
