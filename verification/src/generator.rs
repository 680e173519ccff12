//! Skill templates: how a skill assembles, converts and scales its
//! damage, and which ailments it feeds.

use vstd::prelude::*;
use crate::fixed::{clamp_amount, divc_floor, min_spec, sat_add, sat_scaled, scaled, SCALE};
use crate::types::{DamageType, SkillTag, StatusEffect};

verus! {

/// A dense damage map: one amount per damage type, in milli-units.
#[derive(Clone, Copy)]
pub struct DamageMap {
    /// Physical damage.
    pub physical: i64,
    /// Fire damage.
    pub fire: i64,
    /// Cold damage.
    pub cold: i64,
    /// Lightning damage.
    pub lightning: i64,
    /// Chaos damage.
    pub chaos: i64,
}

impl DamageMap {
    /// The empty map.
    pub fn zero() -> (r: DamageMap)
        ensures
            r == (DamageMap { physical: 0i64, fire: 0i64, cold: 0i64, lightning: 0i64, chaos: 0i64 }),
    {
        DamageMap { physical: 0, fire: 0, cold: 0, lightning: 0, chaos: 0 }
    }

    /// The amount held for one damage type.
    pub open spec fn get_spec(self, dt: DamageType) -> i64 {
        match dt {
            DamageType::Physical => self.physical,
            DamageType::Fire => self.fire,
            DamageType::Cold => self.cold,
            DamageType::Lightning => self.lightning,
            DamageType::Chaos => self.chaos,
        }
    }

    /// Get the amount for one damage type.
    pub fn get(&self, dt: DamageType) -> (r: i64)
        ensures
            r == self.get_spec(dt),
    {
        match dt {
            DamageType::Physical => self.physical,
            DamageType::Fire => self.fire,
            DamageType::Cold => self.cold,
            DamageType::Lightning => self.lightning,
            DamageType::Chaos => self.chaos,
        }
    }

    /// The map with one type's amount grown by `v`, saturating.
    pub open spec fn add_spec(self, dt: DamageType, v: i64) -> DamageMap {
        match dt {
            DamageType::Physical => DamageMap {
                physical: clamp_amount(self.physical + v) as i64,
                ..self
            },
            DamageType::Fire => DamageMap { fire: clamp_amount(self.fire + v) as i64, ..self },
            DamageType::Cold => DamageMap { cold: clamp_amount(self.cold + v) as i64, ..self },
            DamageType::Lightning => DamageMap {
                lightning: clamp_amount(self.lightning + v) as i64,
                ..self
            },
            DamageType::Chaos => DamageMap { chaos: clamp_amount(self.chaos + v) as i64, ..self },
        }
    }

    /// Add to the amount of one damage type.
    pub fn add(&mut self, dt: DamageType, v: i64)
        ensures
            *final(self) == old(self).add_spec(dt, v),
    {
        match dt {
            DamageType::Physical => {
                self.physical = sat_add(self.physical, v);
            },
            DamageType::Fire => {
                self.fire = sat_add(self.fire, v);
            },
            DamageType::Cold => {
                self.cold = sat_add(self.cold, v);
            },
            DamageType::Lightning => {
                self.lightning = sat_add(self.lightning, v);
            },
            DamageType::Chaos => {
                self.chaos = sat_add(self.chaos, v);
            },
        }
    }
}

/// Base damage roll of a skill.
#[derive(Clone, Copy)]
pub struct BaseDamage {
    /// The damage type.
    pub damage_type: DamageType,
    /// Minimum damage, in milli-units.
    pub min: i64,
    /// Maximum damage, in milli-units.
    pub max: i64,
}

impl BaseDamage {
    /// Create a base damage entry.
    pub fn new(damage_type: DamageType, min: i64, max: i64) -> (r: BaseDamage)
        ensures
            r == (BaseDamage { damage_type, min, max }),
    {
        BaseDamage { damage_type, min, max }
    }

    /// The average of the roll: `(min + max) / 2`.
    pub fn average(&self) -> (r: i64)
        ensures
            r as int == clamp_amount(self.min + self.max) / 2,
    {
        divc_floor(sat_add(self.min, self.max), 2)
    }
}

/// Skill-declared conversions from damage types into ailments, as milli
/// fractions. Only the natural pairings carry a leg.
#[derive(Clone, Copy)]
pub struct SkillStatusConversions {
    /// Physical damage feeding poison.
    pub physical_to_poison: i64,
    /// Chaos damage feeding poison.
    pub chaos_to_poison: i64,
    /// Physical damage feeding bleed.
    pub physical_to_bleed: i64,
    /// Fire damage feeding burn.
    pub fire_to_burn: i64,
    /// Cold damage feeding freeze.
    pub cold_to_freeze: i64,
    /// Cold damage feeding chill.
    pub cold_to_chill: i64,
    /// Lightning damage feeding static.
    pub lightning_to_static: i64,
    /// Chaos damage feeding fear.
    pub chaos_to_fear: i64,
    /// Physical damage feeding slow.
    pub physical_to_slow: i64,
    /// Cold damage feeding slow.
    pub cold_to_slow: i64,
}

impl SkillStatusConversions {
    /// A skill with no status conversions.
    pub fn none() -> (r: SkillStatusConversions)
        ensures
            forall|from: DamageType, to: StatusEffect| r.get_conversion_spec(from, to) == 0,
    {
        SkillStatusConversions {
            physical_to_poison: 0,
            chaos_to_poison: 0,
            physical_to_bleed: 0,
            fire_to_burn: 0,
            cold_to_freeze: 0,
            cold_to_chill: 0,
            lightning_to_static: 0,
            chaos_to_fear: 0,
            physical_to_slow: 0,
            cold_to_slow: 0,
        }
    }

    /// The conversion carried from one damage type into one ailment;
    /// pairs without a leg convert nothing.
    pub open spec fn get_conversion_spec(self, from: DamageType, to: StatusEffect) -> i64 {
        match (from, to) {
            (DamageType::Physical, StatusEffect::Poison) => self.physical_to_poison,
            (DamageType::Chaos, StatusEffect::Poison) => self.chaos_to_poison,
            (DamageType::Physical, StatusEffect::Bleed) => self.physical_to_bleed,
            (DamageType::Fire, StatusEffect::Burn) => self.fire_to_burn,
            (DamageType::Cold, StatusEffect::Freeze) => self.cold_to_freeze,
            (DamageType::Cold, StatusEffect::Chill) => self.cold_to_chill,
            (DamageType::Lightning, StatusEffect::Static) => self.lightning_to_static,
            (DamageType::Chaos, StatusEffect::Fear) => self.chaos_to_fear,
            (DamageType::Physical, StatusEffect::Slow) => self.physical_to_slow,
            (DamageType::Cold, StatusEffect::Slow) => self.cold_to_slow,
            _ => 0,
        }
    }

    /// Get the conversion from a damage type into an ailment.
    pub fn get_conversion(&self, from: DamageType, to: StatusEffect) -> (r: i64)
        ensures
            r == self.get_conversion_spec(from, to),
    {
        match (from, to) {
            (DamageType::Physical, StatusEffect::Poison) => self.physical_to_poison,
            (DamageType::Chaos, StatusEffect::Poison) => self.chaos_to_poison,
            (DamageType::Physical, StatusEffect::Bleed) => self.physical_to_bleed,
            (DamageType::Fire, StatusEffect::Burn) => self.fire_to_burn,
            (DamageType::Cold, StatusEffect::Freeze) => self.cold_to_freeze,
            (DamageType::Cold, StatusEffect::Chill) => self.cold_to_chill,
            (DamageType::Lightning, StatusEffect::Static) => self.lightning_to_static,
            (DamageType::Chaos, StatusEffect::Fear) => self.chaos_to_fear,
            (DamageType::Physical, StatusEffect::Slow) => self.physical_to_slow,
            (DamageType::Cold, StatusEffect::Slow) => self.cold_to_slow,
            _ => 0,
        }
    }
}

/// Damage-type conversions of a skill, as milli fractions. The order is
/// fixed: physical first, then lightning, cold, fire; only fire bleeds
/// into chaos, and chaos never converts out.
#[derive(Clone, Copy)]
pub struct DamageConversions {
    /// Physical converted to fire.
    pub physical_to_fire: i64,
    /// Physical converted to cold.
    pub physical_to_cold: i64,
    /// Physical converted to lightning.
    pub physical_to_lightning: i64,
    /// Physical converted to chaos.
    pub physical_to_chaos: i64,
    /// Lightning converted to fire.
    pub lightning_to_fire: i64,
    /// Lightning converted to cold.
    pub lightning_to_cold: i64,
    /// Cold converted to fire.
    pub cold_to_fire: i64,
    /// Fire converted to chaos.
    pub fire_to_chaos: i64,
}

/// The damage map after the fixed conversion chain. Each source type
/// gives up at most what it holds; every leg lands in full.
pub open spec fn conversions_apply_spec(c: DamageConversions, m: DamageMap) -> DamageMap {
    let phys = m.physical as int;
    let p_fire = scaled(phys, c.physical_to_fire as int);
    let p_cold = scaled(phys, c.physical_to_cold as int);
    let p_light = scaled(phys, c.physical_to_lightning as int);
    let p_chaos = scaled(phys, c.physical_to_chaos as int);
    let p_out = min_spec(
        clamp_amount(clamp_amount(clamp_amount(p_fire + p_cold) + p_light) + p_chaos),
        phys,
    );
    let m1 = if p_out > 0 {
        DamageMap {
            physical: clamp_amount(phys - p_out) as i64,
            fire: clamp_amount(m.fire + p_fire) as i64,
            cold: clamp_amount(m.cold + p_cold) as i64,
            lightning: clamp_amount(m.lightning + p_light) as i64,
            chaos: clamp_amount(m.chaos + p_chaos) as i64,
        }
    } else {
        m
    };
    let light = m1.lightning as int;
    let l_fire = scaled(light, c.lightning_to_fire as int);
    let l_cold = scaled(light, c.lightning_to_cold as int);
    let l_out = min_spec(clamp_amount(l_fire + l_cold), light);
    let m2 = if l_out > 0 {
        DamageMap {
            lightning: clamp_amount(light - l_out) as i64,
            fire: clamp_amount(m1.fire + l_fire) as i64,
            cold: clamp_amount(m1.cold + l_cold) as i64,
            ..m1
        }
    } else {
        m1
    };
    let cold = m2.cold as int;
    let c_fire = scaled(cold, c.cold_to_fire as int);
    let m3 = if c_fire > 0 {
        DamageMap {
            cold: clamp_amount(cold - c_fire) as i64,
            fire: clamp_amount(m2.fire + c_fire) as i64,
            ..m2
        }
    } else {
        m2
    };
    let fire = m3.fire as int;
    let f_chaos = scaled(fire, c.fire_to_chaos as int);
    if f_chaos > 0 {
        DamageMap {
            fire: clamp_amount(fire - f_chaos) as i64,
            chaos: clamp_amount(m3.chaos + f_chaos) as i64,
            ..m3
        }
    } else {
        m3
    }
}

impl DamageConversions {
    /// A skill with no damage conversions.
    pub fn none() -> (r: DamageConversions)
        ensures
            r == (DamageConversions {
                physical_to_fire: 0i64,
                physical_to_cold: 0i64,
                physical_to_lightning: 0i64,
                physical_to_chaos: 0i64,
                lightning_to_fire: 0i64,
                lightning_to_cold: 0i64,
                cold_to_fire: 0i64,
                fire_to_chaos: 0i64,
            }),
    {
        DamageConversions {
            physical_to_fire: 0,
            physical_to_cold: 0,
            physical_to_lightning: 0,
            physical_to_chaos: 0,
            lightning_to_fire: 0,
            lightning_to_cold: 0,
            cold_to_fire: 0,
            fire_to_chaos: 0,
        }
    }

    /// The conversion carried from one damage type to another; pairs off
    /// the fixed chain convert nothing.
    pub open spec fn get_conversion_spec(self, from: DamageType, to: DamageType) -> i64 {
        match (from, to) {
            (DamageType::Physical, DamageType::Fire) => self.physical_to_fire,
            (DamageType::Physical, DamageType::Cold) => self.physical_to_cold,
            (DamageType::Physical, DamageType::Lightning) => self.physical_to_lightning,
            (DamageType::Physical, DamageType::Chaos) => self.physical_to_chaos,
            (DamageType::Lightning, DamageType::Fire) => self.lightning_to_fire,
            (DamageType::Lightning, DamageType::Cold) => self.lightning_to_cold,
            (DamageType::Cold, DamageType::Fire) => self.cold_to_fire,
            (DamageType::Fire, DamageType::Chaos) => self.fire_to_chaos,
            _ => 0,
        }
    }

    /// Get the conversion from one damage type to another.
    pub fn get_conversion(&self, from: DamageType, to: DamageType) -> (r: i64)
        ensures
            r == self.get_conversion_spec(from, to),
    {
        match (from, to) {
            (DamageType::Physical, DamageType::Fire) => self.physical_to_fire,
            (DamageType::Physical, DamageType::Cold) => self.physical_to_cold,
            (DamageType::Physical, DamageType::Lightning) => self.physical_to_lightning,
            (DamageType::Physical, DamageType::Chaos) => self.physical_to_chaos,
            (DamageType::Lightning, DamageType::Fire) => self.lightning_to_fire,
            (DamageType::Lightning, DamageType::Cold) => self.lightning_to_cold,
            (DamageType::Cold, DamageType::Fire) => self.cold_to_fire,
            (DamageType::Fire, DamageType::Chaos) => self.fire_to_chaos,
            _ => 0,
        }
    }

    /// Whether any conversion leg is declared.
    pub fn has_conversions(&self) -> (r: bool)
        ensures
            r == (self.physical_to_fire > 0 || self.physical_to_cold > 0
                || self.physical_to_lightning > 0 || self.physical_to_chaos > 0
                || self.lightning_to_fire > 0 || self.lightning_to_cold > 0 || self.cold_to_fire
                > 0 || self.fire_to_chaos > 0),
    {
        self.physical_to_fire > 0 || self.physical_to_cold > 0 || self.physical_to_lightning > 0
            || self.physical_to_chaos > 0 || self.lightning_to_fire > 0 || self.lightning_to_cold
            > 0 || self.cold_to_fire > 0 || self.fire_to_chaos > 0
    }

    /// Run the fixed conversion chain over a damage map.
    pub fn apply(&self, m: &DamageMap) -> (r: DamageMap)
        ensures
            r == conversions_apply_spec(*self, *m),
    {
        let mut out = *m;
        let phys = out.physical;
        let p_fire = sat_scaled(phys, self.physical_to_fire);
        let p_cold = sat_scaled(phys, self.physical_to_cold);
        let p_light = sat_scaled(phys, self.physical_to_lightning);
        let p_chaos = sat_scaled(phys, self.physical_to_chaos);
        let p_out = crate::fixed::min64(
            sat_add(sat_add(sat_add(p_fire, p_cold), p_light), p_chaos),
            phys,
        );
        if p_out > 0 {
            out.physical = crate::fixed::sat_sub(phys, p_out);
            out.fire = sat_add(out.fire, p_fire);
            out.cold = sat_add(out.cold, p_cold);
            out.lightning = sat_add(out.lightning, p_light);
            out.chaos = sat_add(out.chaos, p_chaos);
        }
        let light = out.lightning;
        let l_fire = sat_scaled(light, self.lightning_to_fire);
        let l_cold = sat_scaled(light, self.lightning_to_cold);
        let l_out = crate::fixed::min64(sat_add(l_fire, l_cold), light);
        if l_out > 0 {
            out.lightning = crate::fixed::sat_sub(light, l_out);
            out.fire = sat_add(out.fire, l_fire);
            out.cold = sat_add(out.cold, l_cold);
        }
        let cold = out.cold;
        let c_fire = sat_scaled(cold, self.cold_to_fire);
        if c_fire > 0 {
            out.cold = crate::fixed::sat_sub(cold, c_fire);
            out.fire = sat_add(out.fire, c_fire);
        }
        let fire = out.fire;
        let f_chaos = sat_scaled(fire, self.fire_to_chaos);
        if f_chaos > 0 {
            out.fire = crate::fixed::sat_sub(fire, f_chaos);
            out.chaos = sat_add(out.chaos, f_chaos);
        }
        out
    }
}

/// Per-damage-type effectiveness multipliers, as milli factors.
#[derive(Clone, Copy)]
pub struct DamageTypeEffectiveness {
    /// Physical effectiveness.
    pub physical: i64,
    /// Fire effectiveness.
    pub fire: i64,
    /// Cold effectiveness.
    pub cold: i64,
    /// Lightning effectiveness.
    pub lightning: i64,
    /// Chaos effectiveness.
    pub chaos: i64,
}

impl DamageTypeEffectiveness {
    /// Full effectiveness on every type.
    pub fn full() -> (r: DamageTypeEffectiveness)
        ensures
            r == (DamageTypeEffectiveness {
                physical: 1_000i64,
                fire: 1_000i64,
                cold: 1_000i64,
                lightning: 1_000i64,
                chaos: 1_000i64,
            }),
    {
        DamageTypeEffectiveness {
            physical: 1_000,
            fire: 1_000,
            cold: 1_000,
            lightning: 1_000,
            chaos: 1_000,
        }
    }

    /// The effectiveness factor for one damage type.
    pub open spec fn get_spec(self, dt: DamageType) -> i64 {
        match dt {
            DamageType::Physical => self.physical,
            DamageType::Fire => self.fire,
            DamageType::Cold => self.cold,
            DamageType::Lightning => self.lightning,
            DamageType::Chaos => self.chaos,
        }
    }

    /// Get the effectiveness factor for a damage type.
    pub fn get(&self, dt: DamageType) -> (r: i64)
        ensures
            r == self.get_spec(dt),
    {
        match dt {
            DamageType::Physical => self.physical,
            DamageType::Fire => self.fire,
            DamageType::Cold => self.cold,
            DamageType::Lightning => self.lightning,
            DamageType::Chaos => self.chaos,
        }
    }

    /// Whether every factor sits at its default of one.
    pub fn is_default(&self) -> (r: bool)
        ensures
            r == (self.physical == 1_000 && self.fire == 1_000 && self.cold == 1_000
                && self.lightning == 1_000 && self.chaos == 1_000),
    {
        self.physical == 1_000 && self.fire == 1_000 && self.cold == 1_000 && self.lightning
            == 1_000 && self.chaos == 1_000
    }
}

/// An immutable skill template: how a use of the skill builds its
/// damage packet.
pub struct DamagePacketGenerator {
    /// Unique skill identifier.
    pub id: String,
    /// Display name.
    pub name: String,
    /// Base damage rolls by type.
    pub base_damages: Vec<BaseDamage>,
    /// Share of weapon damage used, as a milli factor.
    pub weapon_effectiveness: i64,
    /// Share of added damage applied, as a milli factor.
    pub damage_effectiveness: i64,
    /// Multiplier on attack or cast speed, as a milli factor.
    pub attack_speed_modifier: i64,
    /// The skill's own critical chance, in milli-percent points.
    pub base_crit_chance: i64,
    /// Added to the critical multiplier, as a milli fraction.
    pub crit_multiplier_bonus: i64,
    /// Tags for categorization and scaling.
    pub tags: Vec<SkillTag>,
    /// Skill-declared conversions into ailments.
    pub status_conversions: SkillStatusConversions,
    /// Skill-declared damage-type conversions.
    pub damage_conversions: DamageConversions,
    /// Per-type effectiveness factors.
    pub type_effectiveness: DamageTypeEffectiveness,
    /// Hits per attack, at least one for a useful skill.
    pub hits_per_attack: u32,
    /// Whether the skill chains between targets.
    pub can_chain: bool,
    /// Number of chains.
    pub chain_count: u32,
    /// Chance to pierce, as a milli fraction.
    pub pierce_chance: i64,
}

/// Whether a tag list carries one tag.
pub open spec fn has_tag(tags: Seq<SkillTag>, t: SkillTag) -> bool {
    exists|i: int| 0 <= i < tags.len() && tags[i] == t
}

impl DamagePacketGenerator {
    /// A plain melee attack: full weapon damage, no extras.
    pub fn basic_attack() -> (r: DamagePacketGenerator)
        ensures
            r.id@ == "basic_attack"@,
            r.base_damages@ =~= Seq::<BaseDamage>::empty(),
            r.weapon_effectiveness == 1_000,
            r.damage_effectiveness == 1_000,
            r.attack_speed_modifier == 1_000,
            r.base_crit_chance == 0,
            r.crit_multiplier_bonus == 0,
            has_tag(r.tags@, SkillTag::Attack),
            r.hits_per_attack == 1,
    {
        let mut tags: Vec<SkillTag> = Vec::new();
        tags.push(SkillTag::Attack);
        tags.push(SkillTag::Melee);
        proof {
            assert(tags@[0] == SkillTag::Attack);
        }
        DamagePacketGenerator {
            id: "basic_attack".to_owned(),
            name: "Basic Attack".to_owned(),
            base_damages: Vec::new(),
            weapon_effectiveness: 1_000,
            damage_effectiveness: 1_000,
            attack_speed_modifier: 1_000,
            base_crit_chance: 0,
            crit_multiplier_bonus: 0,
            tags,
            status_conversions: SkillStatusConversions::none(),
            damage_conversions: DamageConversions::none(),
            type_effectiveness: DamageTypeEffectiveness::full(),
            hits_per_attack: 1,
            can_chain: false,
            chain_count: 0,
            pierce_chance: 0,
        }
    }

    /// Whether this skill is an attack (uses the weapon).
    pub fn is_attack(&self) -> (r: bool)
        ensures
            r == has_tag(self.tags@, SkillTag::Attack),
    {
        let mut i: usize = 0;
        while i < self.tags.len()
            invariant
                i <= self.tags.len(),
                forall|k: int| 0 <= k < i ==> self.tags@[k] != SkillTag::Attack,
            decreases self.tags.len() - i,
        {
            if self.tags[i] == SkillTag::Attack {
                return true;
            }
            i = i + 1;
        }
        false
    }

    /// Whether this skill is a spell.
    pub fn is_spell(&self) -> (r: bool)
        ensures
            r == has_tag(self.tags@, SkillTag::Spell),
    {
        let mut i: usize = 0;
        while i < self.tags.len()
            invariant
                i <= self.tags.len(),
                forall|k: int| 0 <= k < i ==> self.tags@[k] != SkillTag::Spell,
            decreases self.tags.len() - i,
        {
            if self.tags[i] == SkillTag::Spell {
                return true;
            }
            i = i + 1;
        }
        false
    }

    /// Whether the skill deals a damage type, by base roll or tag.
    pub fn deals_damage_type(&self, dt: DamageType) -> (r: bool)
        ensures
            r == ((exists|i: int|
                0 <= i < self.base_damages@.len() && (
                #[trigger] self.base_damages@[i]).damage_type == dt) || has_tag(
                self.tags@,
                match dt {
                    DamageType::Physical => SkillTag::Physical,
                    DamageType::Fire => SkillTag::Fire,
                    DamageType::Cold => SkillTag::Cold,
                    DamageType::Lightning => SkillTag::Lightning,
                    DamageType::Chaos => SkillTag::Chaos,
                },
            )),
    {
        let mut i: usize = 0;
        while i < self.base_damages.len()
            invariant
                i <= self.base_damages.len(),
                forall|k: int|
                    0 <= k < i ==> (#[trigger] self.base_damages@[k]).damage_type != dt,
            decreases self.base_damages.len() - i,
        {
            if self.base_damages[i].damage_type == dt {
                proof {
                    assert(0 <= i as int && (i as int) < self.base_damages@.len() && (
                    #[trigger] self.base_damages@[i as int]).damage_type == dt);
                }
                return true;
            }
            i = i + 1;
        }
        let wanted = match dt {
            DamageType::Physical => SkillTag::Physical,
            DamageType::Fire => SkillTag::Fire,
            DamageType::Cold => SkillTag::Cold,
            DamageType::Lightning => SkillTag::Lightning,
            DamageType::Chaos => SkillTag::Chaos,
        };
        let mut j: usize = 0;
        while j < self.tags.len()
            invariant
                j <= self.tags.len(),
                wanted == (match dt {
                    DamageType::Physical => SkillTag::Physical,
                    DamageType::Fire => SkillTag::Fire,
                    DamageType::Cold => SkillTag::Cold,
                    DamageType::Lightning => SkillTag::Lightning,
                    DamageType::Chaos => SkillTag::Chaos,
                }),
                forall|k: int| 0 <= k < j ==> self.tags@[k] != wanted,
                forall|k: int|
                    0 <= k < self.base_damages@.len() ==> (
                    #[trigger] self.base_damages@[k]).damage_type != dt,
            decreases self.tags.len() - j,
        {
            if self.tags[j] == wanted {
                proof {
                    assert(0 <= j as int && (j as int) < self.tags@.len() && self.tags@[j as int]
                        == wanted);
                    assert(has_tag(self.tags@, wanted));
                }
                return true;
            }
            j = j + 1;
        }
        false
    }

    /// The effective speed of this skill over a base speed.
    pub fn effective_speed(&self, base_speed: i64) -> (r: i64)
        ensures
            r as int == scaled(base_speed as int, self.attack_speed_modifier as int),
    {
        sat_scaled(base_speed, self.attack_speed_modifier)
    }
}

} // verus!
