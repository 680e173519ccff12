//! The accumulator: the write-only scratch that every stat source
//! feeds during a rebuild, later applied onto a stat block.
//!
//! Contribution values arrive in the milli-unit of the stat they name:
//! flat stats in milli-amounts, percentage stats in milli-percent
//! (so a `+40%` contribution arrives as `40_000` and lands as the
//! milli fraction `400`), stack counts in milli-counts.

use vstd::prelude::*;
use crate::fixed::{clamp_amount, sat64, sat_add, sat_add_spec, divc_floor, SCALE};
use crate::types::{DamageType, StatType, StatusEffect};

verus! {

/// Accumulated per-ailment stats.
#[derive(Clone, Copy, PartialEq, Eq, Structural)]
pub struct StatusEffectStats {
    /// Increased DoT damage, as a milli fraction.
    pub dot_increased: i64,
    /// Increased duration, as a milli fraction.
    pub duration_increased: i64,
    /// Increased magnitude, as a milli fraction.
    pub magnitude: i64,
    /// Additional max stacks beyond the kind's base, as a count.
    pub max_stacks: i64,
}

/// Conversion fractions from each damage type into one ailment kind.
#[derive(Clone, Copy, PartialEq, Eq, Structural)]
pub struct StatusConversions {
    /// Conversion from physical damage, as a milli fraction.
    pub from_physical: i64,
    /// Conversion from fire damage, as a milli fraction.
    pub from_fire: i64,
    /// Conversion from cold damage, as a milli fraction.
    pub from_cold: i64,
    /// Conversion from lightning damage, as a milli fraction.
    pub from_lightning: i64,
    /// Conversion from chaos damage, as a milli fraction.
    pub from_chaos: i64,
}

impl StatusConversions {
    /// Total conversion fraction summed over all damage types.
    pub fn total(&self) -> (r: i64)
        ensures
            r as int == sat_add_spec(
                sat_add_spec(
                    sat_add_spec(
                        sat_add_spec(self.from_physical as int, self.from_fire as int),
                        self.from_cold as int,
                    ),
                    self.from_lightning as int,
                ),
                self.from_chaos as int,
            ),
    {
        sat_add(
            sat_add(sat_add(sat_add(self.from_physical, self.from_fire), self.from_cold),
            self.from_lightning),
            self.from_chaos,
        )
    }

    /// The conversion fraction out of one damage type.
    pub open spec fn from_damage_type_spec(self, dt: DamageType) -> i64 {
        match dt {
            DamageType::Physical => self.from_physical,
            DamageType::Fire => self.from_fire,
            DamageType::Cold => self.from_cold,
            DamageType::Lightning => self.from_lightning,
            DamageType::Chaos => self.from_chaos,
        }
    }

    /// Get the conversion fraction from a specific damage type.
    pub fn from_damage_type(&self, dt: DamageType) -> (r: i64)
        ensures
            r == self.from_damage_type_spec(dt),
    {
        match dt {
            DamageType::Physical => self.from_physical,
            DamageType::Fire => self.from_fire,
            DamageType::Cold => self.from_cold,
            DamageType::Lightning => self.from_lightning,
            DamageType::Chaos => self.from_chaos,
        }
    }
}

/// Accumulates stat contributions from every source during a rebuild.
pub struct StatAccumulator {
    pub life_flat: i64,
    pub life_increased: i64,
    pub mana_flat: i64,
    pub mana_increased: i64,
    pub strength_flat: i64,
    pub dexterity_flat: i64,
    pub intelligence_flat: i64,
    pub constitution_flat: i64,
    pub wisdom_flat: i64,
    pub charisma_flat: i64,
    pub all_attributes_flat: i64,
    pub armour_flat: i64,
    pub armour_increased: i64,
    pub evasion_flat: i64,
    pub evasion_increased: i64,
    pub energy_shield_flat: i64,
    pub energy_shield_increased: i64,
    pub fire_resistance: i64,
    pub cold_resistance: i64,
    pub lightning_resistance: i64,
    pub chaos_resistance: i64,
    pub all_resistances: i64,
    pub physical_damage_flat: i64,
    pub physical_damage_increased: i64,
    pub fire_damage_flat: i64,
    pub fire_damage_increased: i64,
    pub cold_damage_flat: i64,
    pub cold_damage_increased: i64,
    pub lightning_damage_flat: i64,
    pub lightning_damage_increased: i64,
    pub chaos_damage_flat: i64,
    pub chaos_damage_increased: i64,
    pub elemental_damage_increased: i64,
    pub attack_speed_increased: i64,
    pub cast_speed_increased: i64,
    pub critical_chance_flat: i64,
    pub critical_chance_increased: i64,
    pub critical_multiplier_flat: i64,
    pub fire_penetration: i64,
    pub cold_penetration: i64,
    pub lightning_penetration: i64,
    pub chaos_penetration: i64,
    pub life_regen_flat: i64,
    pub mana_regen_flat: i64,
    pub life_leech_percent: i64,
    pub mana_leech_percent: i64,
    pub life_on_hit: i64,
    pub accuracy_flat: i64,
    pub accuracy_increased: i64,
    pub movement_speed_increased: i64,
    pub item_rarity_increased: i64,
    pub item_quantity_increased: i64,
    /// Weapon fields, set rather than summed by a main-hand weapon.
    pub weapon_physical_min: i64,
    pub weapon_physical_max: i64,
    pub weapon_physical_increased: i64,
    pub weapon_attack_speed: i64,
    pub weapon_crit_chance: i64,
    pub poison_dot_increased: i64,
    pub poison_duration_increased: i64,
    pub poison_magnitude: i64,
    pub poison_max_stacks: i64,
    pub convert_physical_to_poison: i64,
    pub convert_fire_to_poison: i64,
    pub convert_cold_to_poison: i64,
    pub convert_lightning_to_poison: i64,
    pub convert_chaos_to_poison: i64,
    pub bleed_dot_increased: i64,
    pub bleed_duration_increased: i64,
    pub bleed_magnitude: i64,
    pub bleed_max_stacks: i64,
    pub convert_physical_to_bleed: i64,
    pub convert_fire_to_bleed: i64,
    pub convert_cold_to_bleed: i64,
    pub convert_lightning_to_bleed: i64,
    pub convert_chaos_to_bleed: i64,
    pub burn_dot_increased: i64,
    pub burn_duration_increased: i64,
    pub burn_magnitude: i64,
    pub burn_max_stacks: i64,
    pub convert_physical_to_burn: i64,
    pub convert_fire_to_burn: i64,
    pub convert_cold_to_burn: i64,
    pub convert_lightning_to_burn: i64,
    pub convert_chaos_to_burn: i64,
    pub freeze_duration_increased: i64,
    pub freeze_magnitude: i64,
    pub freeze_max_stacks: i64,
    pub convert_physical_to_freeze: i64,
    pub convert_fire_to_freeze: i64,
    pub convert_cold_to_freeze: i64,
    pub convert_lightning_to_freeze: i64,
    pub convert_chaos_to_freeze: i64,
    pub chill_duration_increased: i64,
    pub chill_magnitude: i64,
    pub chill_max_stacks: i64,
    pub convert_physical_to_chill: i64,
    pub convert_fire_to_chill: i64,
    pub convert_cold_to_chill: i64,
    pub convert_lightning_to_chill: i64,
    pub convert_chaos_to_chill: i64,
    pub static_duration_increased: i64,
    pub static_magnitude: i64,
    pub static_max_stacks: i64,
    pub convert_physical_to_static: i64,
    pub convert_fire_to_static: i64,
    pub convert_cold_to_static: i64,
    pub convert_lightning_to_static: i64,
    pub convert_chaos_to_static: i64,
    pub fear_duration_increased: i64,
    pub fear_magnitude: i64,
    pub fear_max_stacks: i64,
    pub convert_physical_to_fear: i64,
    pub convert_fire_to_fear: i64,
    pub convert_cold_to_fear: i64,
    pub convert_lightning_to_fear: i64,
    pub convert_chaos_to_fear: i64,
    pub slow_duration_increased: i64,
    pub slow_magnitude: i64,
    pub slow_max_stacks: i64,
    pub convert_physical_to_slow: i64,
    pub convert_fire_to_slow: i64,
    pub convert_cold_to_slow: i64,
    pub convert_lightning_to_slow: i64,
    pub convert_chaos_to_slow: i64,
    /// More multipliers gathered per stat, as milli fractions.
    pub life_more: Vec<i64>,
    pub mana_more: Vec<i64>,
    pub physical_damage_more: Vec<i64>,
    pub fire_damage_more: Vec<i64>,
    pub cold_damage_more: Vec<i64>,
    pub lightning_damage_more: Vec<i64>,
    pub chaos_damage_more: Vec<i64>,
    /// Weapon elemental rolls: damage type with min and max.
    pub weapon_elemental_damages: Vec<(DamageType, i64, i64)>,
}

impl StatAccumulator {
    /// A fresh, empty accumulator: every contribution is zero.
    pub fn new() -> (r: StatAccumulator)
        ensures
            r.life_flat == 0,
            r.life_increased == 0,
            r.mana_flat == 0,
            r.mana_increased == 0,
            r.strength_flat == 0,
            r.dexterity_flat == 0,
            r.intelligence_flat == 0,
            r.constitution_flat == 0,
            r.wisdom_flat == 0,
            r.charisma_flat == 0,
            r.all_attributes_flat == 0,
            r.armour_flat == 0,
            r.armour_increased == 0,
            r.evasion_flat == 0,
            r.evasion_increased == 0,
            r.energy_shield_flat == 0,
            r.energy_shield_increased == 0,
            r.fire_resistance == 0,
            r.cold_resistance == 0,
            r.lightning_resistance == 0,
            r.chaos_resistance == 0,
            r.all_resistances == 0,
            r.physical_damage_flat == 0,
            r.physical_damage_increased == 0,
            r.fire_damage_flat == 0,
            r.fire_damage_increased == 0,
            r.cold_damage_flat == 0,
            r.cold_damage_increased == 0,
            r.lightning_damage_flat == 0,
            r.lightning_damage_increased == 0,
            r.chaos_damage_flat == 0,
            r.chaos_damage_increased == 0,
            r.elemental_damage_increased == 0,
            r.attack_speed_increased == 0,
            r.cast_speed_increased == 0,
            r.critical_chance_flat == 0,
            r.critical_chance_increased == 0,
            r.critical_multiplier_flat == 0,
            r.fire_penetration == 0,
            r.cold_penetration == 0,
            r.lightning_penetration == 0,
            r.chaos_penetration == 0,
            r.life_regen_flat == 0,
            r.mana_regen_flat == 0,
            r.life_leech_percent == 0,
            r.mana_leech_percent == 0,
            r.life_on_hit == 0,
            r.accuracy_flat == 0,
            r.accuracy_increased == 0,
            r.movement_speed_increased == 0,
            r.item_rarity_increased == 0,
            r.item_quantity_increased == 0,
            r.weapon_physical_min == 0,
            r.weapon_physical_max == 0,
            r.weapon_physical_increased == 0,
            r.weapon_attack_speed == 0,
            r.weapon_crit_chance == 0,
            r.poison_dot_increased == 0,
            r.poison_duration_increased == 0,
            r.poison_magnitude == 0,
            r.poison_max_stacks == 0,
            r.convert_physical_to_poison == 0,
            r.convert_fire_to_poison == 0,
            r.convert_cold_to_poison == 0,
            r.convert_lightning_to_poison == 0,
            r.convert_chaos_to_poison == 0,
            r.bleed_dot_increased == 0,
            r.bleed_duration_increased == 0,
            r.bleed_magnitude == 0,
            r.bleed_max_stacks == 0,
            r.convert_physical_to_bleed == 0,
            r.convert_fire_to_bleed == 0,
            r.convert_cold_to_bleed == 0,
            r.convert_lightning_to_bleed == 0,
            r.convert_chaos_to_bleed == 0,
            r.burn_dot_increased == 0,
            r.burn_duration_increased == 0,
            r.burn_magnitude == 0,
            r.burn_max_stacks == 0,
            r.convert_physical_to_burn == 0,
            r.convert_fire_to_burn == 0,
            r.convert_cold_to_burn == 0,
            r.convert_lightning_to_burn == 0,
            r.convert_chaos_to_burn == 0,
            r.freeze_duration_increased == 0,
            r.freeze_magnitude == 0,
            r.freeze_max_stacks == 0,
            r.convert_physical_to_freeze == 0,
            r.convert_fire_to_freeze == 0,
            r.convert_cold_to_freeze == 0,
            r.convert_lightning_to_freeze == 0,
            r.convert_chaos_to_freeze == 0,
            r.chill_duration_increased == 0,
            r.chill_magnitude == 0,
            r.chill_max_stacks == 0,
            r.convert_physical_to_chill == 0,
            r.convert_fire_to_chill == 0,
            r.convert_cold_to_chill == 0,
            r.convert_lightning_to_chill == 0,
            r.convert_chaos_to_chill == 0,
            r.static_duration_increased == 0,
            r.static_magnitude == 0,
            r.static_max_stacks == 0,
            r.convert_physical_to_static == 0,
            r.convert_fire_to_static == 0,
            r.convert_cold_to_static == 0,
            r.convert_lightning_to_static == 0,
            r.convert_chaos_to_static == 0,
            r.fear_duration_increased == 0,
            r.fear_magnitude == 0,
            r.fear_max_stacks == 0,
            r.convert_physical_to_fear == 0,
            r.convert_fire_to_fear == 0,
            r.convert_cold_to_fear == 0,
            r.convert_lightning_to_fear == 0,
            r.convert_chaos_to_fear == 0,
            r.slow_duration_increased == 0,
            r.slow_magnitude == 0,
            r.slow_max_stacks == 0,
            r.convert_physical_to_slow == 0,
            r.convert_fire_to_slow == 0,
            r.convert_cold_to_slow == 0,
            r.convert_lightning_to_slow == 0,
            r.convert_chaos_to_slow == 0,
            r.life_more@ =~= Seq::<i64>::empty(),
            r.mana_more@ =~= Seq::<i64>::empty(),
            r.physical_damage_more@ =~= Seq::<i64>::empty(),
            r.fire_damage_more@ =~= Seq::<i64>::empty(),
            r.cold_damage_more@ =~= Seq::<i64>::empty(),
            r.lightning_damage_more@ =~= Seq::<i64>::empty(),
            r.chaos_damage_more@ =~= Seq::<i64>::empty(),
            r.weapon_elemental_damages@ =~= Seq::<(DamageType, i64, i64)>::empty(),
    {
        StatAccumulator {
            life_flat: 0,
            life_increased: 0,
            mana_flat: 0,
            mana_increased: 0,
            strength_flat: 0,
            dexterity_flat: 0,
            intelligence_flat: 0,
            constitution_flat: 0,
            wisdom_flat: 0,
            charisma_flat: 0,
            all_attributes_flat: 0,
            armour_flat: 0,
            armour_increased: 0,
            evasion_flat: 0,
            evasion_increased: 0,
            energy_shield_flat: 0,
            energy_shield_increased: 0,
            fire_resistance: 0,
            cold_resistance: 0,
            lightning_resistance: 0,
            chaos_resistance: 0,
            all_resistances: 0,
            physical_damage_flat: 0,
            physical_damage_increased: 0,
            fire_damage_flat: 0,
            fire_damage_increased: 0,
            cold_damage_flat: 0,
            cold_damage_increased: 0,
            lightning_damage_flat: 0,
            lightning_damage_increased: 0,
            chaos_damage_flat: 0,
            chaos_damage_increased: 0,
            elemental_damage_increased: 0,
            attack_speed_increased: 0,
            cast_speed_increased: 0,
            critical_chance_flat: 0,
            critical_chance_increased: 0,
            critical_multiplier_flat: 0,
            fire_penetration: 0,
            cold_penetration: 0,
            lightning_penetration: 0,
            chaos_penetration: 0,
            life_regen_flat: 0,
            mana_regen_flat: 0,
            life_leech_percent: 0,
            mana_leech_percent: 0,
            life_on_hit: 0,
            accuracy_flat: 0,
            accuracy_increased: 0,
            movement_speed_increased: 0,
            item_rarity_increased: 0,
            item_quantity_increased: 0,
            weapon_physical_min: 0,
            weapon_physical_max: 0,
            weapon_physical_increased: 0,
            weapon_attack_speed: 0,
            weapon_crit_chance: 0,
            poison_dot_increased: 0,
            poison_duration_increased: 0,
            poison_magnitude: 0,
            poison_max_stacks: 0,
            convert_physical_to_poison: 0,
            convert_fire_to_poison: 0,
            convert_cold_to_poison: 0,
            convert_lightning_to_poison: 0,
            convert_chaos_to_poison: 0,
            bleed_dot_increased: 0,
            bleed_duration_increased: 0,
            bleed_magnitude: 0,
            bleed_max_stacks: 0,
            convert_physical_to_bleed: 0,
            convert_fire_to_bleed: 0,
            convert_cold_to_bleed: 0,
            convert_lightning_to_bleed: 0,
            convert_chaos_to_bleed: 0,
            burn_dot_increased: 0,
            burn_duration_increased: 0,
            burn_magnitude: 0,
            burn_max_stacks: 0,
            convert_physical_to_burn: 0,
            convert_fire_to_burn: 0,
            convert_cold_to_burn: 0,
            convert_lightning_to_burn: 0,
            convert_chaos_to_burn: 0,
            freeze_duration_increased: 0,
            freeze_magnitude: 0,
            freeze_max_stacks: 0,
            convert_physical_to_freeze: 0,
            convert_fire_to_freeze: 0,
            convert_cold_to_freeze: 0,
            convert_lightning_to_freeze: 0,
            convert_chaos_to_freeze: 0,
            chill_duration_increased: 0,
            chill_magnitude: 0,
            chill_max_stacks: 0,
            convert_physical_to_chill: 0,
            convert_fire_to_chill: 0,
            convert_cold_to_chill: 0,
            convert_lightning_to_chill: 0,
            convert_chaos_to_chill: 0,
            static_duration_increased: 0,
            static_magnitude: 0,
            static_max_stacks: 0,
            convert_physical_to_static: 0,
            convert_fire_to_static: 0,
            convert_cold_to_static: 0,
            convert_lightning_to_static: 0,
            convert_chaos_to_static: 0,
            fear_duration_increased: 0,
            fear_magnitude: 0,
            fear_max_stacks: 0,
            convert_physical_to_fear: 0,
            convert_fire_to_fear: 0,
            convert_cold_to_fear: 0,
            convert_lightning_to_fear: 0,
            convert_chaos_to_fear: 0,
            slow_duration_increased: 0,
            slow_magnitude: 0,
            slow_max_stacks: 0,
            convert_physical_to_slow: 0,
            convert_fire_to_slow: 0,
            convert_cold_to_slow: 0,
            convert_lightning_to_slow: 0,
            convert_chaos_to_slow: 0,
            life_more: Vec::new(),
            mana_more: Vec::new(),
            physical_damage_more: Vec::new(),
            fire_damage_more: Vec::new(),
            cold_damage_more: Vec::new(),
            lightning_damage_more: Vec::new(),
            chaos_damage_more: Vec::new(),
            weapon_elemental_damages: Vec::new(),
        }
    }

    /// Route one stat contribution into its accumulator field.
    pub fn apply_stat_type(&mut self, stat: StatType, value: i64)
        ensures
            final(self)@ =~= apply_stat_model(old(self)@, stat, value),
    {
        match stat {
            StatType::AddedPhysicalDamage => { self.physical_damage_flat = sat_add(self.physical_damage_flat, value); },
            StatType::AddedFireDamage => { self.fire_damage_flat = sat_add(self.fire_damage_flat, value); },
            StatType::AddedColdDamage => { self.cold_damage_flat = sat_add(self.cold_damage_flat, value); },
            StatType::AddedLightningDamage => { self.lightning_damage_flat = sat_add(self.lightning_damage_flat, value); },
            StatType::AddedChaosDamage => { self.chaos_damage_flat = sat_add(self.chaos_damage_flat, value); },
            StatType::IncreasedPhysicalDamage => { self.physical_damage_increased = sat_add(self.physical_damage_increased, divc_floor(value, 100)); },
            StatType::IncreasedFireDamage => { self.fire_damage_increased = sat_add(self.fire_damage_increased, divc_floor(value, 100)); },
            StatType::IncreasedColdDamage => { self.cold_damage_increased = sat_add(self.cold_damage_increased, divc_floor(value, 100)); },
            StatType::IncreasedLightningDamage => { self.lightning_damage_increased = sat_add(self.lightning_damage_increased, divc_floor(value, 100)); },
            StatType::IncreasedElementalDamage => { self.elemental_damage_increased = sat_add(self.elemental_damage_increased, divc_floor(value, 100)); },
            StatType::IncreasedChaosDamage => { self.chaos_damage_increased = sat_add(self.chaos_damage_increased, divc_floor(value, 100)); },
            StatType::IncreasedAttackSpeed => { self.attack_speed_increased = sat_add(self.attack_speed_increased, divc_floor(value, 100)); },
            StatType::IncreasedCriticalChance => { self.critical_chance_increased = sat_add(self.critical_chance_increased, divc_floor(value, 100)); },
            StatType::IncreasedCriticalDamage => { self.critical_multiplier_flat = sat_add(self.critical_multiplier_flat, divc_floor(value, 100)); },
            StatType::AddedArmour => { self.armour_flat = sat_add(self.armour_flat, value); },
            StatType::AddedEvasion => { self.evasion_flat = sat_add(self.evasion_flat, value); },
            StatType::AddedEnergyShield => { self.energy_shield_flat = sat_add(self.energy_shield_flat, value); },
            StatType::IncreasedArmour => { self.armour_increased = sat_add(self.armour_increased, divc_floor(value, 100)); },
            StatType::IncreasedEvasion => { self.evasion_increased = sat_add(self.evasion_increased, divc_floor(value, 100)); },
            StatType::IncreasedEnergyShield => { self.energy_shield_increased = sat_add(self.energy_shield_increased, divc_floor(value, 100)); },
            StatType::AddedStrength => { self.strength_flat = sat_add(self.strength_flat, value); },
            StatType::AddedDexterity => { self.dexterity_flat = sat_add(self.dexterity_flat, value); },
            StatType::AddedConstitution => { self.constitution_flat = sat_add(self.constitution_flat, value); },
            StatType::AddedIntelligence => { self.intelligence_flat = sat_add(self.intelligence_flat, value); },
            StatType::AddedWisdom => { self.wisdom_flat = sat_add(self.wisdom_flat, value); },
            StatType::AddedCharisma => { self.charisma_flat = sat_add(self.charisma_flat, value); },
            StatType::AddedAllAttributes => { self.all_attributes_flat = sat_add(self.all_attributes_flat, value); },
            StatType::AddedLife => { self.life_flat = sat_add(self.life_flat, value); },
            StatType::AddedMana => { self.mana_flat = sat_add(self.mana_flat, value); },
            StatType::IncreasedLife => { self.life_increased = sat_add(self.life_increased, divc_floor(value, 100)); },
            StatType::IncreasedMana => { self.mana_increased = sat_add(self.mana_increased, divc_floor(value, 100)); },
            StatType::LifeRegeneration => { self.life_regen_flat = sat_add(self.life_regen_flat, value); },
            StatType::ManaRegeneration => { self.mana_regen_flat = sat_add(self.mana_regen_flat, value); },
            StatType::LifeOnHit => { self.life_on_hit = sat_add(self.life_on_hit, value); },
            StatType::LifeLeech => { self.life_leech_percent = sat_add(self.life_leech_percent, divc_floor(value, 100)); },
            StatType::ManaLeech => { self.mana_leech_percent = sat_add(self.mana_leech_percent, divc_floor(value, 100)); },
            StatType::FireResistance => { self.fire_resistance = sat_add(self.fire_resistance, value); },
            StatType::ColdResistance => { self.cold_resistance = sat_add(self.cold_resistance, value); },
            StatType::LightningResistance => { self.lightning_resistance = sat_add(self.lightning_resistance, value); },
            StatType::ChaosResistance => { self.chaos_resistance = sat_add(self.chaos_resistance, value); },
            StatType::AllResistances => { self.all_resistances = sat_add(self.all_resistances, value); },
            StatType::AddedAccuracy => { self.accuracy_flat = sat_add(self.accuracy_flat, value); },
            StatType::IncreasedAccuracy => { self.accuracy_increased = sat_add(self.accuracy_increased, divc_floor(value, 100)); },
            StatType::IncreasedMovementSpeed => { self.movement_speed_increased = sat_add(self.movement_speed_increased, divc_floor(value, 100)); },
            StatType::IncreasedItemRarity => { self.item_rarity_increased = sat_add(self.item_rarity_increased, divc_floor(value, 100)); },
            StatType::IncreasedItemQuantity => { self.item_quantity_increased = sat_add(self.item_quantity_increased, divc_floor(value, 100)); },
            StatType::PoisonDamageOverTime => { self.poison_dot_increased = sat_add(self.poison_dot_increased, divc_floor(value, 100)); },
            StatType::IncreasedPoisonDuration => { self.poison_duration_increased = sat_add(self.poison_duration_increased, divc_floor(value, 100)); },
            StatType::PoisonMagnitude => { self.poison_magnitude = sat_add(self.poison_magnitude, divc_floor(value, 100)); },
            StatType::PoisonMaxStacks => { self.poison_max_stacks = sat_add(self.poison_max_stacks, divc_floor(value, 1000)); },
            StatType::ConvertPhysicalToPoison => { self.convert_physical_to_poison = sat_add(self.convert_physical_to_poison, divc_floor(value, 100)); },
            StatType::ConvertFireToPoison => { self.convert_fire_to_poison = sat_add(self.convert_fire_to_poison, divc_floor(value, 100)); },
            StatType::ConvertColdToPoison => { self.convert_cold_to_poison = sat_add(self.convert_cold_to_poison, divc_floor(value, 100)); },
            StatType::ConvertLightningToPoison => { self.convert_lightning_to_poison = sat_add(self.convert_lightning_to_poison, divc_floor(value, 100)); },
            StatType::ConvertChaosToPoison => { self.convert_chaos_to_poison = sat_add(self.convert_chaos_to_poison, divc_floor(value, 100)); },
            StatType::BleedDamageOverTime => { self.bleed_dot_increased = sat_add(self.bleed_dot_increased, divc_floor(value, 100)); },
            StatType::IncreasedBleedDuration => { self.bleed_duration_increased = sat_add(self.bleed_duration_increased, divc_floor(value, 100)); },
            StatType::BleedMagnitude => { self.bleed_magnitude = sat_add(self.bleed_magnitude, divc_floor(value, 100)); },
            StatType::BleedMaxStacks => { self.bleed_max_stacks = sat_add(self.bleed_max_stacks, divc_floor(value, 1000)); },
            StatType::ConvertPhysicalToBleed => { self.convert_physical_to_bleed = sat_add(self.convert_physical_to_bleed, divc_floor(value, 100)); },
            StatType::ConvertFireToBleed => { self.convert_fire_to_bleed = sat_add(self.convert_fire_to_bleed, divc_floor(value, 100)); },
            StatType::ConvertColdToBleed => { self.convert_cold_to_bleed = sat_add(self.convert_cold_to_bleed, divc_floor(value, 100)); },
            StatType::ConvertLightningToBleed => { self.convert_lightning_to_bleed = sat_add(self.convert_lightning_to_bleed, divc_floor(value, 100)); },
            StatType::ConvertChaosToBleed => { self.convert_chaos_to_bleed = sat_add(self.convert_chaos_to_bleed, divc_floor(value, 100)); },
            StatType::BurnDamageOverTime => { self.burn_dot_increased = sat_add(self.burn_dot_increased, divc_floor(value, 100)); },
            StatType::IncreasedBurnDuration => { self.burn_duration_increased = sat_add(self.burn_duration_increased, divc_floor(value, 100)); },
            StatType::BurnMagnitude => { self.burn_magnitude = sat_add(self.burn_magnitude, divc_floor(value, 100)); },
            StatType::BurnMaxStacks => { self.burn_max_stacks = sat_add(self.burn_max_stacks, divc_floor(value, 1000)); },
            StatType::ConvertPhysicalToBurn => { self.convert_physical_to_burn = sat_add(self.convert_physical_to_burn, divc_floor(value, 100)); },
            StatType::ConvertFireToBurn => { self.convert_fire_to_burn = sat_add(self.convert_fire_to_burn, divc_floor(value, 100)); },
            StatType::ConvertColdToBurn => { self.convert_cold_to_burn = sat_add(self.convert_cold_to_burn, divc_floor(value, 100)); },
            StatType::ConvertLightningToBurn => { self.convert_lightning_to_burn = sat_add(self.convert_lightning_to_burn, divc_floor(value, 100)); },
            StatType::ConvertChaosToBurn => { self.convert_chaos_to_burn = sat_add(self.convert_chaos_to_burn, divc_floor(value, 100)); },
            StatType::IncreasedFreezeDuration => { self.freeze_duration_increased = sat_add(self.freeze_duration_increased, divc_floor(value, 100)); },
            StatType::FreezeMagnitude => { self.freeze_magnitude = sat_add(self.freeze_magnitude, divc_floor(value, 100)); },
            StatType::FreezeMaxStacks => { self.freeze_max_stacks = sat_add(self.freeze_max_stacks, divc_floor(value, 1000)); },
            StatType::ConvertPhysicalToFreeze => { self.convert_physical_to_freeze = sat_add(self.convert_physical_to_freeze, divc_floor(value, 100)); },
            StatType::ConvertFireToFreeze => { self.convert_fire_to_freeze = sat_add(self.convert_fire_to_freeze, divc_floor(value, 100)); },
            StatType::ConvertColdToFreeze => { self.convert_cold_to_freeze = sat_add(self.convert_cold_to_freeze, divc_floor(value, 100)); },
            StatType::ConvertLightningToFreeze => { self.convert_lightning_to_freeze = sat_add(self.convert_lightning_to_freeze, divc_floor(value, 100)); },
            StatType::ConvertChaosToFreeze => { self.convert_chaos_to_freeze = sat_add(self.convert_chaos_to_freeze, divc_floor(value, 100)); },
            StatType::IncreasedChillDuration => { self.chill_duration_increased = sat_add(self.chill_duration_increased, divc_floor(value, 100)); },
            StatType::ChillMagnitude => { self.chill_magnitude = sat_add(self.chill_magnitude, divc_floor(value, 100)); },
            StatType::ChillMaxStacks => { self.chill_max_stacks = sat_add(self.chill_max_stacks, divc_floor(value, 1000)); },
            StatType::ConvertPhysicalToChill => { self.convert_physical_to_chill = sat_add(self.convert_physical_to_chill, divc_floor(value, 100)); },
            StatType::ConvertFireToChill => { self.convert_fire_to_chill = sat_add(self.convert_fire_to_chill, divc_floor(value, 100)); },
            StatType::ConvertColdToChill => { self.convert_cold_to_chill = sat_add(self.convert_cold_to_chill, divc_floor(value, 100)); },
            StatType::ConvertLightningToChill => { self.convert_lightning_to_chill = sat_add(self.convert_lightning_to_chill, divc_floor(value, 100)); },
            StatType::ConvertChaosToChill => { self.convert_chaos_to_chill = sat_add(self.convert_chaos_to_chill, divc_floor(value, 100)); },
            StatType::IncreasedStaticDuration => { self.static_duration_increased = sat_add(self.static_duration_increased, divc_floor(value, 100)); },
            StatType::StaticMagnitude => { self.static_magnitude = sat_add(self.static_magnitude, divc_floor(value, 100)); },
            StatType::StaticMaxStacks => { self.static_max_stacks = sat_add(self.static_max_stacks, divc_floor(value, 1000)); },
            StatType::ConvertPhysicalToStatic => { self.convert_physical_to_static = sat_add(self.convert_physical_to_static, divc_floor(value, 100)); },
            StatType::ConvertFireToStatic => { self.convert_fire_to_static = sat_add(self.convert_fire_to_static, divc_floor(value, 100)); },
            StatType::ConvertColdToStatic => { self.convert_cold_to_static = sat_add(self.convert_cold_to_static, divc_floor(value, 100)); },
            StatType::ConvertLightningToStatic => { self.convert_lightning_to_static = sat_add(self.convert_lightning_to_static, divc_floor(value, 100)); },
            StatType::ConvertChaosToStatic => { self.convert_chaos_to_static = sat_add(self.convert_chaos_to_static, divc_floor(value, 100)); },
            StatType::IncreasedFearDuration => { self.fear_duration_increased = sat_add(self.fear_duration_increased, divc_floor(value, 100)); },
            StatType::FearMagnitude => { self.fear_magnitude = sat_add(self.fear_magnitude, divc_floor(value, 100)); },
            StatType::FearMaxStacks => { self.fear_max_stacks = sat_add(self.fear_max_stacks, divc_floor(value, 1000)); },
            StatType::ConvertPhysicalToFear => { self.convert_physical_to_fear = sat_add(self.convert_physical_to_fear, divc_floor(value, 100)); },
            StatType::ConvertFireToFear => { self.convert_fire_to_fear = sat_add(self.convert_fire_to_fear, divc_floor(value, 100)); },
            StatType::ConvertColdToFear => { self.convert_cold_to_fear = sat_add(self.convert_cold_to_fear, divc_floor(value, 100)); },
            StatType::ConvertLightningToFear => { self.convert_lightning_to_fear = sat_add(self.convert_lightning_to_fear, divc_floor(value, 100)); },
            StatType::ConvertChaosToFear => { self.convert_chaos_to_fear = sat_add(self.convert_chaos_to_fear, divc_floor(value, 100)); },
            StatType::IncreasedSlowDuration => { self.slow_duration_increased = sat_add(self.slow_duration_increased, divc_floor(value, 100)); },
            StatType::SlowMagnitude => { self.slow_magnitude = sat_add(self.slow_magnitude, divc_floor(value, 100)); },
            StatType::SlowMaxStacks => { self.slow_max_stacks = sat_add(self.slow_max_stacks, divc_floor(value, 1000)); },
            StatType::ConvertPhysicalToSlow => { self.convert_physical_to_slow = sat_add(self.convert_physical_to_slow, divc_floor(value, 100)); },
            StatType::ConvertFireToSlow => { self.convert_fire_to_slow = sat_add(self.convert_fire_to_slow, divc_floor(value, 100)); },
            StatType::ConvertColdToSlow => { self.convert_cold_to_slow = sat_add(self.convert_cold_to_slow, divc_floor(value, 100)); },
            StatType::ConvertLightningToSlow => { self.convert_lightning_to_slow = sat_add(self.convert_lightning_to_slow, divc_floor(value, 100)); },
            StatType::ConvertChaosToSlow => { self.convert_chaos_to_slow = sat_add(self.convert_chaos_to_slow, divc_floor(value, 100)); },
        }
    }

    /// The conversion fraction accumulated from one damage type into
    /// one ailment kind.
    pub open spec fn spec_get_conversion(self, from: DamageType, to: StatusEffect) -> i64 {
        match (from, to) {
            (DamageType::Physical, StatusEffect::Poison) => self.convert_physical_to_poison,
            (DamageType::Fire, StatusEffect::Poison) => self.convert_fire_to_poison,
            (DamageType::Cold, StatusEffect::Poison) => self.convert_cold_to_poison,
            (DamageType::Lightning, StatusEffect::Poison) => self.convert_lightning_to_poison,
            (DamageType::Chaos, StatusEffect::Poison) => self.convert_chaos_to_poison,
            (DamageType::Physical, StatusEffect::Bleed) => self.convert_physical_to_bleed,
            (DamageType::Fire, StatusEffect::Bleed) => self.convert_fire_to_bleed,
            (DamageType::Cold, StatusEffect::Bleed) => self.convert_cold_to_bleed,
            (DamageType::Lightning, StatusEffect::Bleed) => self.convert_lightning_to_bleed,
            (DamageType::Chaos, StatusEffect::Bleed) => self.convert_chaos_to_bleed,
            (DamageType::Physical, StatusEffect::Burn) => self.convert_physical_to_burn,
            (DamageType::Fire, StatusEffect::Burn) => self.convert_fire_to_burn,
            (DamageType::Cold, StatusEffect::Burn) => self.convert_cold_to_burn,
            (DamageType::Lightning, StatusEffect::Burn) => self.convert_lightning_to_burn,
            (DamageType::Chaos, StatusEffect::Burn) => self.convert_chaos_to_burn,
            (DamageType::Physical, StatusEffect::Freeze) => self.convert_physical_to_freeze,
            (DamageType::Fire, StatusEffect::Freeze) => self.convert_fire_to_freeze,
            (DamageType::Cold, StatusEffect::Freeze) => self.convert_cold_to_freeze,
            (DamageType::Lightning, StatusEffect::Freeze) => self.convert_lightning_to_freeze,
            (DamageType::Chaos, StatusEffect::Freeze) => self.convert_chaos_to_freeze,
            (DamageType::Physical, StatusEffect::Chill) => self.convert_physical_to_chill,
            (DamageType::Fire, StatusEffect::Chill) => self.convert_fire_to_chill,
            (DamageType::Cold, StatusEffect::Chill) => self.convert_cold_to_chill,
            (DamageType::Lightning, StatusEffect::Chill) => self.convert_lightning_to_chill,
            (DamageType::Chaos, StatusEffect::Chill) => self.convert_chaos_to_chill,
            (DamageType::Physical, StatusEffect::Static) => self.convert_physical_to_static,
            (DamageType::Fire, StatusEffect::Static) => self.convert_fire_to_static,
            (DamageType::Cold, StatusEffect::Static) => self.convert_cold_to_static,
            (DamageType::Lightning, StatusEffect::Static) => self.convert_lightning_to_static,
            (DamageType::Chaos, StatusEffect::Static) => self.convert_chaos_to_static,
            (DamageType::Physical, StatusEffect::Fear) => self.convert_physical_to_fear,
            (DamageType::Fire, StatusEffect::Fear) => self.convert_fire_to_fear,
            (DamageType::Cold, StatusEffect::Fear) => self.convert_cold_to_fear,
            (DamageType::Lightning, StatusEffect::Fear) => self.convert_lightning_to_fear,
            (DamageType::Chaos, StatusEffect::Fear) => self.convert_chaos_to_fear,
            (DamageType::Physical, StatusEffect::Slow) => self.convert_physical_to_slow,
            (DamageType::Fire, StatusEffect::Slow) => self.convert_fire_to_slow,
            (DamageType::Cold, StatusEffect::Slow) => self.convert_cold_to_slow,
            (DamageType::Lightning, StatusEffect::Slow) => self.convert_lightning_to_slow,
            (DamageType::Chaos, StatusEffect::Slow) => self.convert_chaos_to_slow,
        }
    }

    /// Get the conversion fraction from a damage type to an ailment.
    pub fn get_conversion(&self, from: DamageType, to: StatusEffect) -> (r: i64)
        ensures
            r == self.spec_get_conversion(from, to),
    {
        match (from, to) {
            (DamageType::Physical, StatusEffect::Poison) => self.convert_physical_to_poison,
            (DamageType::Fire, StatusEffect::Poison) => self.convert_fire_to_poison,
            (DamageType::Cold, StatusEffect::Poison) => self.convert_cold_to_poison,
            (DamageType::Lightning, StatusEffect::Poison) => self.convert_lightning_to_poison,
            (DamageType::Chaos, StatusEffect::Poison) => self.convert_chaos_to_poison,
            (DamageType::Physical, StatusEffect::Bleed) => self.convert_physical_to_bleed,
            (DamageType::Fire, StatusEffect::Bleed) => self.convert_fire_to_bleed,
            (DamageType::Cold, StatusEffect::Bleed) => self.convert_cold_to_bleed,
            (DamageType::Lightning, StatusEffect::Bleed) => self.convert_lightning_to_bleed,
            (DamageType::Chaos, StatusEffect::Bleed) => self.convert_chaos_to_bleed,
            (DamageType::Physical, StatusEffect::Burn) => self.convert_physical_to_burn,
            (DamageType::Fire, StatusEffect::Burn) => self.convert_fire_to_burn,
            (DamageType::Cold, StatusEffect::Burn) => self.convert_cold_to_burn,
            (DamageType::Lightning, StatusEffect::Burn) => self.convert_lightning_to_burn,
            (DamageType::Chaos, StatusEffect::Burn) => self.convert_chaos_to_burn,
            (DamageType::Physical, StatusEffect::Freeze) => self.convert_physical_to_freeze,
            (DamageType::Fire, StatusEffect::Freeze) => self.convert_fire_to_freeze,
            (DamageType::Cold, StatusEffect::Freeze) => self.convert_cold_to_freeze,
            (DamageType::Lightning, StatusEffect::Freeze) => self.convert_lightning_to_freeze,
            (DamageType::Chaos, StatusEffect::Freeze) => self.convert_chaos_to_freeze,
            (DamageType::Physical, StatusEffect::Chill) => self.convert_physical_to_chill,
            (DamageType::Fire, StatusEffect::Chill) => self.convert_fire_to_chill,
            (DamageType::Cold, StatusEffect::Chill) => self.convert_cold_to_chill,
            (DamageType::Lightning, StatusEffect::Chill) => self.convert_lightning_to_chill,
            (DamageType::Chaos, StatusEffect::Chill) => self.convert_chaos_to_chill,
            (DamageType::Physical, StatusEffect::Static) => self.convert_physical_to_static,
            (DamageType::Fire, StatusEffect::Static) => self.convert_fire_to_static,
            (DamageType::Cold, StatusEffect::Static) => self.convert_cold_to_static,
            (DamageType::Lightning, StatusEffect::Static) => self.convert_lightning_to_static,
            (DamageType::Chaos, StatusEffect::Static) => self.convert_chaos_to_static,
            (DamageType::Physical, StatusEffect::Fear) => self.convert_physical_to_fear,
            (DamageType::Fire, StatusEffect::Fear) => self.convert_fire_to_fear,
            (DamageType::Cold, StatusEffect::Fear) => self.convert_cold_to_fear,
            (DamageType::Lightning, StatusEffect::Fear) => self.convert_lightning_to_fear,
            (DamageType::Chaos, StatusEffect::Fear) => self.convert_chaos_to_fear,
            (DamageType::Physical, StatusEffect::Slow) => self.convert_physical_to_slow,
            (DamageType::Fire, StatusEffect::Slow) => self.convert_fire_to_slow,
            (DamageType::Cold, StatusEffect::Slow) => self.convert_cold_to_slow,
            (DamageType::Lightning, StatusEffect::Slow) => self.convert_lightning_to_slow,
            (DamageType::Chaos, StatusEffect::Slow) => self.convert_chaos_to_slow,
        }
    }

    /// The accumulated per-ailment stats for one kind. The kinds
    /// without a DoT report zero increased DoT.
    pub open spec fn spec_get_status_stats(self, status: StatusEffect) -> StatusEffectStats {
        match status {
            StatusEffect::Poison => StatusEffectStats {
                dot_increased: self.poison_dot_increased,
                duration_increased: self.poison_duration_increased,
                magnitude: self.poison_magnitude,
                max_stacks: self.poison_max_stacks,
            },
            StatusEffect::Bleed => StatusEffectStats {
                dot_increased: self.bleed_dot_increased,
                duration_increased: self.bleed_duration_increased,
                magnitude: self.bleed_magnitude,
                max_stacks: self.bleed_max_stacks,
            },
            StatusEffect::Burn => StatusEffectStats {
                dot_increased: self.burn_dot_increased,
                duration_increased: self.burn_duration_increased,
                magnitude: self.burn_magnitude,
                max_stacks: self.burn_max_stacks,
            },
            StatusEffect::Freeze => StatusEffectStats {
                dot_increased: 0,
                duration_increased: self.freeze_duration_increased,
                magnitude: self.freeze_magnitude,
                max_stacks: self.freeze_max_stacks,
            },
            StatusEffect::Chill => StatusEffectStats {
                dot_increased: 0,
                duration_increased: self.chill_duration_increased,
                magnitude: self.chill_magnitude,
                max_stacks: self.chill_max_stacks,
            },
            StatusEffect::Static => StatusEffectStats {
                dot_increased: 0,
                duration_increased: self.static_duration_increased,
                magnitude: self.static_magnitude,
                max_stacks: self.static_max_stacks,
            },
            StatusEffect::Fear => StatusEffectStats {
                dot_increased: 0,
                duration_increased: self.fear_duration_increased,
                magnitude: self.fear_magnitude,
                max_stacks: self.fear_max_stacks,
            },
            StatusEffect::Slow => StatusEffectStats {
                dot_increased: 0,
                duration_increased: self.slow_duration_increased,
                magnitude: self.slow_magnitude,
                max_stacks: self.slow_max_stacks,
            },
        }
    }

    /// Get the accumulated stats for an ailment kind.
    pub fn get_status_stats(&self, status: StatusEffect) -> (r: StatusEffectStats)
        ensures
            r == self.spec_get_status_stats(status),
    {
        match status {
            StatusEffect::Poison => StatusEffectStats {
                dot_increased: self.poison_dot_increased,
                duration_increased: self.poison_duration_increased,
                magnitude: self.poison_magnitude,
                max_stacks: self.poison_max_stacks,
            },
            StatusEffect::Bleed => StatusEffectStats {
                dot_increased: self.bleed_dot_increased,
                duration_increased: self.bleed_duration_increased,
                magnitude: self.bleed_magnitude,
                max_stacks: self.bleed_max_stacks,
            },
            StatusEffect::Burn => StatusEffectStats {
                dot_increased: self.burn_dot_increased,
                duration_increased: self.burn_duration_increased,
                magnitude: self.burn_magnitude,
                max_stacks: self.burn_max_stacks,
            },
            StatusEffect::Freeze => StatusEffectStats {
                dot_increased: 0,
                duration_increased: self.freeze_duration_increased,
                magnitude: self.freeze_magnitude,
                max_stacks: self.freeze_max_stacks,
            },
            StatusEffect::Chill => StatusEffectStats {
                dot_increased: 0,
                duration_increased: self.chill_duration_increased,
                magnitude: self.chill_magnitude,
                max_stacks: self.chill_max_stacks,
            },
            StatusEffect::Static => StatusEffectStats {
                dot_increased: 0,
                duration_increased: self.static_duration_increased,
                magnitude: self.static_magnitude,
                max_stacks: self.static_max_stacks,
            },
            StatusEffect::Fear => StatusEffectStats {
                dot_increased: 0,
                duration_increased: self.fear_duration_increased,
                magnitude: self.fear_magnitude,
                max_stacks: self.fear_max_stacks,
            },
            StatusEffect::Slow => StatusEffectStats {
                dot_increased: 0,
                duration_increased: self.slow_duration_increased,
                magnitude: self.slow_magnitude,
                max_stacks: self.slow_max_stacks,
            },
        }
    }

    /// The accumulated conversions into one ailment kind.
    pub open spec fn spec_get_status_conversions(self, status: StatusEffect) -> StatusConversions {
        match status {
            StatusEffect::Poison => StatusConversions {
                from_physical: self.convert_physical_to_poison,
                from_fire: self.convert_fire_to_poison,
                from_cold: self.convert_cold_to_poison,
                from_lightning: self.convert_lightning_to_poison,
                from_chaos: self.convert_chaos_to_poison,
            },
            StatusEffect::Bleed => StatusConversions {
                from_physical: self.convert_physical_to_bleed,
                from_fire: self.convert_fire_to_bleed,
                from_cold: self.convert_cold_to_bleed,
                from_lightning: self.convert_lightning_to_bleed,
                from_chaos: self.convert_chaos_to_bleed,
            },
            StatusEffect::Burn => StatusConversions {
                from_physical: self.convert_physical_to_burn,
                from_fire: self.convert_fire_to_burn,
                from_cold: self.convert_cold_to_burn,
                from_lightning: self.convert_lightning_to_burn,
                from_chaos: self.convert_chaos_to_burn,
            },
            StatusEffect::Freeze => StatusConversions {
                from_physical: self.convert_physical_to_freeze,
                from_fire: self.convert_fire_to_freeze,
                from_cold: self.convert_cold_to_freeze,
                from_lightning: self.convert_lightning_to_freeze,
                from_chaos: self.convert_chaos_to_freeze,
            },
            StatusEffect::Chill => StatusConversions {
                from_physical: self.convert_physical_to_chill,
                from_fire: self.convert_fire_to_chill,
                from_cold: self.convert_cold_to_chill,
                from_lightning: self.convert_lightning_to_chill,
                from_chaos: self.convert_chaos_to_chill,
            },
            StatusEffect::Static => StatusConversions {
                from_physical: self.convert_physical_to_static,
                from_fire: self.convert_fire_to_static,
                from_cold: self.convert_cold_to_static,
                from_lightning: self.convert_lightning_to_static,
                from_chaos: self.convert_chaos_to_static,
            },
            StatusEffect::Fear => StatusConversions {
                from_physical: self.convert_physical_to_fear,
                from_fire: self.convert_fire_to_fear,
                from_cold: self.convert_cold_to_fear,
                from_lightning: self.convert_lightning_to_fear,
                from_chaos: self.convert_chaos_to_fear,
            },
            StatusEffect::Slow => StatusConversions {
                from_physical: self.convert_physical_to_slow,
                from_fire: self.convert_fire_to_slow,
                from_cold: self.convert_cold_to_slow,
                from_lightning: self.convert_lightning_to_slow,
                from_chaos: self.convert_chaos_to_slow,
            },
        }
    }

    /// Get the accumulated conversions for an ailment kind.
    pub fn get_status_conversions(&self, status: StatusEffect) -> (r: StatusConversions)
        ensures
            r == self.spec_get_status_conversions(status),
    {
        match status {
            StatusEffect::Poison => StatusConversions {
                from_physical: self.convert_physical_to_poison,
                from_fire: self.convert_fire_to_poison,
                from_cold: self.convert_cold_to_poison,
                from_lightning: self.convert_lightning_to_poison,
                from_chaos: self.convert_chaos_to_poison,
            },
            StatusEffect::Bleed => StatusConversions {
                from_physical: self.convert_physical_to_bleed,
                from_fire: self.convert_fire_to_bleed,
                from_cold: self.convert_cold_to_bleed,
                from_lightning: self.convert_lightning_to_bleed,
                from_chaos: self.convert_chaos_to_bleed,
            },
            StatusEffect::Burn => StatusConversions {
                from_physical: self.convert_physical_to_burn,
                from_fire: self.convert_fire_to_burn,
                from_cold: self.convert_cold_to_burn,
                from_lightning: self.convert_lightning_to_burn,
                from_chaos: self.convert_chaos_to_burn,
            },
            StatusEffect::Freeze => StatusConversions {
                from_physical: self.convert_physical_to_freeze,
                from_fire: self.convert_fire_to_freeze,
                from_cold: self.convert_cold_to_freeze,
                from_lightning: self.convert_lightning_to_freeze,
                from_chaos: self.convert_chaos_to_freeze,
            },
            StatusEffect::Chill => StatusConversions {
                from_physical: self.convert_physical_to_chill,
                from_fire: self.convert_fire_to_chill,
                from_cold: self.convert_cold_to_chill,
                from_lightning: self.convert_lightning_to_chill,
                from_chaos: self.convert_chaos_to_chill,
            },
            StatusEffect::Static => StatusConversions {
                from_physical: self.convert_physical_to_static,
                from_fire: self.convert_fire_to_static,
                from_cold: self.convert_cold_to_static,
                from_lightning: self.convert_lightning_to_static,
                from_chaos: self.convert_chaos_to_static,
            },
            StatusEffect::Fear => StatusConversions {
                from_physical: self.convert_physical_to_fear,
                from_fire: self.convert_fire_to_fear,
                from_cold: self.convert_cold_to_fear,
                from_lightning: self.convert_lightning_to_fear,
                from_chaos: self.convert_chaos_to_fear,
            },
            StatusEffect::Slow => StatusConversions {
                from_physical: self.convert_physical_to_slow,
                from_fire: self.convert_fire_to_slow,
                from_cold: self.convert_cold_to_slow,
                from_lightning: self.convert_lightning_to_slow,
                from_chaos: self.convert_chaos_to_slow,
            },
        }
    }
}

/// The mathematical shadow of an accumulator: every scalar as an
/// unbounded integer, every gathered list as a sequence. The rebuild
/// pipeline is specified over this model.
#[verifier::ext_equal]
pub ghost struct AccModel {
    /// Model of the `life_flat` field.
    pub life_flat: int,
    /// Model of the `life_increased` field.
    pub life_increased: int,
    /// Model of the `mana_flat` field.
    pub mana_flat: int,
    /// Model of the `mana_increased` field.
    pub mana_increased: int,
    /// Model of the `strength_flat` field.
    pub strength_flat: int,
    /// Model of the `dexterity_flat` field.
    pub dexterity_flat: int,
    /// Model of the `intelligence_flat` field.
    pub intelligence_flat: int,
    /// Model of the `constitution_flat` field.
    pub constitution_flat: int,
    /// Model of the `wisdom_flat` field.
    pub wisdom_flat: int,
    /// Model of the `charisma_flat` field.
    pub charisma_flat: int,
    /// Model of the `all_attributes_flat` field.
    pub all_attributes_flat: int,
    /// Model of the `armour_flat` field.
    pub armour_flat: int,
    /// Model of the `armour_increased` field.
    pub armour_increased: int,
    /// Model of the `evasion_flat` field.
    pub evasion_flat: int,
    /// Model of the `evasion_increased` field.
    pub evasion_increased: int,
    /// Model of the `energy_shield_flat` field.
    pub energy_shield_flat: int,
    /// Model of the `energy_shield_increased` field.
    pub energy_shield_increased: int,
    /// Model of the `fire_resistance` field.
    pub fire_resistance: int,
    /// Model of the `cold_resistance` field.
    pub cold_resistance: int,
    /// Model of the `lightning_resistance` field.
    pub lightning_resistance: int,
    /// Model of the `chaos_resistance` field.
    pub chaos_resistance: int,
    /// Model of the `all_resistances` field.
    pub all_resistances: int,
    /// Model of the `physical_damage_flat` field.
    pub physical_damage_flat: int,
    /// Model of the `physical_damage_increased` field.
    pub physical_damage_increased: int,
    /// Model of the `fire_damage_flat` field.
    pub fire_damage_flat: int,
    /// Model of the `fire_damage_increased` field.
    pub fire_damage_increased: int,
    /// Model of the `cold_damage_flat` field.
    pub cold_damage_flat: int,
    /// Model of the `cold_damage_increased` field.
    pub cold_damage_increased: int,
    /// Model of the `lightning_damage_flat` field.
    pub lightning_damage_flat: int,
    /// Model of the `lightning_damage_increased` field.
    pub lightning_damage_increased: int,
    /// Model of the `chaos_damage_flat` field.
    pub chaos_damage_flat: int,
    /// Model of the `chaos_damage_increased` field.
    pub chaos_damage_increased: int,
    /// Model of the `elemental_damage_increased` field.
    pub elemental_damage_increased: int,
    /// Model of the `attack_speed_increased` field.
    pub attack_speed_increased: int,
    /// Model of the `cast_speed_increased` field.
    pub cast_speed_increased: int,
    /// Model of the `critical_chance_flat` field.
    pub critical_chance_flat: int,
    /// Model of the `critical_chance_increased` field.
    pub critical_chance_increased: int,
    /// Model of the `critical_multiplier_flat` field.
    pub critical_multiplier_flat: int,
    /// Model of the `fire_penetration` field.
    pub fire_penetration: int,
    /// Model of the `cold_penetration` field.
    pub cold_penetration: int,
    /// Model of the `lightning_penetration` field.
    pub lightning_penetration: int,
    /// Model of the `chaos_penetration` field.
    pub chaos_penetration: int,
    /// Model of the `life_regen_flat` field.
    pub life_regen_flat: int,
    /// Model of the `mana_regen_flat` field.
    pub mana_regen_flat: int,
    /// Model of the `life_leech_percent` field.
    pub life_leech_percent: int,
    /// Model of the `mana_leech_percent` field.
    pub mana_leech_percent: int,
    /// Model of the `life_on_hit` field.
    pub life_on_hit: int,
    /// Model of the `accuracy_flat` field.
    pub accuracy_flat: int,
    /// Model of the `accuracy_increased` field.
    pub accuracy_increased: int,
    /// Model of the `movement_speed_increased` field.
    pub movement_speed_increased: int,
    /// Model of the `item_rarity_increased` field.
    pub item_rarity_increased: int,
    /// Model of the `item_quantity_increased` field.
    pub item_quantity_increased: int,
    /// Model of the `weapon_physical_min` field.
    pub weapon_physical_min: int,
    /// Model of the `weapon_physical_max` field.
    pub weapon_physical_max: int,
    /// Model of the `weapon_physical_increased` field.
    pub weapon_physical_increased: int,
    /// Model of the `weapon_attack_speed` field.
    pub weapon_attack_speed: int,
    /// Model of the `weapon_crit_chance` field.
    pub weapon_crit_chance: int,
    /// Model of the `poison_dot_increased` field.
    pub poison_dot_increased: int,
    /// Model of the `poison_duration_increased` field.
    pub poison_duration_increased: int,
    /// Model of the `poison_magnitude` field.
    pub poison_magnitude: int,
    /// Model of the `poison_max_stacks` field.
    pub poison_max_stacks: int,
    /// Model of the `convert_physical_to_poison` field.
    pub convert_physical_to_poison: int,
    /// Model of the `convert_fire_to_poison` field.
    pub convert_fire_to_poison: int,
    /// Model of the `convert_cold_to_poison` field.
    pub convert_cold_to_poison: int,
    /// Model of the `convert_lightning_to_poison` field.
    pub convert_lightning_to_poison: int,
    /// Model of the `convert_chaos_to_poison` field.
    pub convert_chaos_to_poison: int,
    /// Model of the `bleed_dot_increased` field.
    pub bleed_dot_increased: int,
    /// Model of the `bleed_duration_increased` field.
    pub bleed_duration_increased: int,
    /// Model of the `bleed_magnitude` field.
    pub bleed_magnitude: int,
    /// Model of the `bleed_max_stacks` field.
    pub bleed_max_stacks: int,
    /// Model of the `convert_physical_to_bleed` field.
    pub convert_physical_to_bleed: int,
    /// Model of the `convert_fire_to_bleed` field.
    pub convert_fire_to_bleed: int,
    /// Model of the `convert_cold_to_bleed` field.
    pub convert_cold_to_bleed: int,
    /// Model of the `convert_lightning_to_bleed` field.
    pub convert_lightning_to_bleed: int,
    /// Model of the `convert_chaos_to_bleed` field.
    pub convert_chaos_to_bleed: int,
    /// Model of the `burn_dot_increased` field.
    pub burn_dot_increased: int,
    /// Model of the `burn_duration_increased` field.
    pub burn_duration_increased: int,
    /// Model of the `burn_magnitude` field.
    pub burn_magnitude: int,
    /// Model of the `burn_max_stacks` field.
    pub burn_max_stacks: int,
    /// Model of the `convert_physical_to_burn` field.
    pub convert_physical_to_burn: int,
    /// Model of the `convert_fire_to_burn` field.
    pub convert_fire_to_burn: int,
    /// Model of the `convert_cold_to_burn` field.
    pub convert_cold_to_burn: int,
    /// Model of the `convert_lightning_to_burn` field.
    pub convert_lightning_to_burn: int,
    /// Model of the `convert_chaos_to_burn` field.
    pub convert_chaos_to_burn: int,
    /// Model of the `freeze_duration_increased` field.
    pub freeze_duration_increased: int,
    /// Model of the `freeze_magnitude` field.
    pub freeze_magnitude: int,
    /// Model of the `freeze_max_stacks` field.
    pub freeze_max_stacks: int,
    /// Model of the `convert_physical_to_freeze` field.
    pub convert_physical_to_freeze: int,
    /// Model of the `convert_fire_to_freeze` field.
    pub convert_fire_to_freeze: int,
    /// Model of the `convert_cold_to_freeze` field.
    pub convert_cold_to_freeze: int,
    /// Model of the `convert_lightning_to_freeze` field.
    pub convert_lightning_to_freeze: int,
    /// Model of the `convert_chaos_to_freeze` field.
    pub convert_chaos_to_freeze: int,
    /// Model of the `chill_duration_increased` field.
    pub chill_duration_increased: int,
    /// Model of the `chill_magnitude` field.
    pub chill_magnitude: int,
    /// Model of the `chill_max_stacks` field.
    pub chill_max_stacks: int,
    /// Model of the `convert_physical_to_chill` field.
    pub convert_physical_to_chill: int,
    /// Model of the `convert_fire_to_chill` field.
    pub convert_fire_to_chill: int,
    /// Model of the `convert_cold_to_chill` field.
    pub convert_cold_to_chill: int,
    /// Model of the `convert_lightning_to_chill` field.
    pub convert_lightning_to_chill: int,
    /// Model of the `convert_chaos_to_chill` field.
    pub convert_chaos_to_chill: int,
    /// Model of the `static_duration_increased` field.
    pub static_duration_increased: int,
    /// Model of the `static_magnitude` field.
    pub static_magnitude: int,
    /// Model of the `static_max_stacks` field.
    pub static_max_stacks: int,
    /// Model of the `convert_physical_to_static` field.
    pub convert_physical_to_static: int,
    /// Model of the `convert_fire_to_static` field.
    pub convert_fire_to_static: int,
    /// Model of the `convert_cold_to_static` field.
    pub convert_cold_to_static: int,
    /// Model of the `convert_lightning_to_static` field.
    pub convert_lightning_to_static: int,
    /// Model of the `convert_chaos_to_static` field.
    pub convert_chaos_to_static: int,
    /// Model of the `fear_duration_increased` field.
    pub fear_duration_increased: int,
    /// Model of the `fear_magnitude` field.
    pub fear_magnitude: int,
    /// Model of the `fear_max_stacks` field.
    pub fear_max_stacks: int,
    /// Model of the `convert_physical_to_fear` field.
    pub convert_physical_to_fear: int,
    /// Model of the `convert_fire_to_fear` field.
    pub convert_fire_to_fear: int,
    /// Model of the `convert_cold_to_fear` field.
    pub convert_cold_to_fear: int,
    /// Model of the `convert_lightning_to_fear` field.
    pub convert_lightning_to_fear: int,
    /// Model of the `convert_chaos_to_fear` field.
    pub convert_chaos_to_fear: int,
    /// Model of the `slow_duration_increased` field.
    pub slow_duration_increased: int,
    /// Model of the `slow_magnitude` field.
    pub slow_magnitude: int,
    /// Model of the `slow_max_stacks` field.
    pub slow_max_stacks: int,
    /// Model of the `convert_physical_to_slow` field.
    pub convert_physical_to_slow: int,
    /// Model of the `convert_fire_to_slow` field.
    pub convert_fire_to_slow: int,
    /// Model of the `convert_cold_to_slow` field.
    pub convert_cold_to_slow: int,
    /// Model of the `convert_lightning_to_slow` field.
    pub convert_lightning_to_slow: int,
    /// Model of the `convert_chaos_to_slow` field.
    pub convert_chaos_to_slow: int,
    /// Model of the `life_more` list.
    pub life_more: Seq<i64>,
    /// Model of the `mana_more` list.
    pub mana_more: Seq<i64>,
    /// Model of the `physical_damage_more` list.
    pub physical_damage_more: Seq<i64>,
    /// Model of the `fire_damage_more` list.
    pub fire_damage_more: Seq<i64>,
    /// Model of the `cold_damage_more` list.
    pub cold_damage_more: Seq<i64>,
    /// Model of the `lightning_damage_more` list.
    pub lightning_damage_more: Seq<i64>,
    /// Model of the `chaos_damage_more` list.
    pub chaos_damage_more: Seq<i64>,
    /// Model of the `weapon_elemental_damages` list.
    pub weapon_elemental_damages: Seq<(DamageType, i64, i64)>,
}

/// The model of an empty accumulator.
pub open spec fn empty_acc_model() -> AccModel {
    AccModel {
        life_flat: 0,
        life_increased: 0,
        mana_flat: 0,
        mana_increased: 0,
        strength_flat: 0,
        dexterity_flat: 0,
        intelligence_flat: 0,
        constitution_flat: 0,
        wisdom_flat: 0,
        charisma_flat: 0,
        all_attributes_flat: 0,
        armour_flat: 0,
        armour_increased: 0,
        evasion_flat: 0,
        evasion_increased: 0,
        energy_shield_flat: 0,
        energy_shield_increased: 0,
        fire_resistance: 0,
        cold_resistance: 0,
        lightning_resistance: 0,
        chaos_resistance: 0,
        all_resistances: 0,
        physical_damage_flat: 0,
        physical_damage_increased: 0,
        fire_damage_flat: 0,
        fire_damage_increased: 0,
        cold_damage_flat: 0,
        cold_damage_increased: 0,
        lightning_damage_flat: 0,
        lightning_damage_increased: 0,
        chaos_damage_flat: 0,
        chaos_damage_increased: 0,
        elemental_damage_increased: 0,
        attack_speed_increased: 0,
        cast_speed_increased: 0,
        critical_chance_flat: 0,
        critical_chance_increased: 0,
        critical_multiplier_flat: 0,
        fire_penetration: 0,
        cold_penetration: 0,
        lightning_penetration: 0,
        chaos_penetration: 0,
        life_regen_flat: 0,
        mana_regen_flat: 0,
        life_leech_percent: 0,
        mana_leech_percent: 0,
        life_on_hit: 0,
        accuracy_flat: 0,
        accuracy_increased: 0,
        movement_speed_increased: 0,
        item_rarity_increased: 0,
        item_quantity_increased: 0,
        weapon_physical_min: 0,
        weapon_physical_max: 0,
        weapon_physical_increased: 0,
        weapon_attack_speed: 0,
        weapon_crit_chance: 0,
        poison_dot_increased: 0,
        poison_duration_increased: 0,
        poison_magnitude: 0,
        poison_max_stacks: 0,
        convert_physical_to_poison: 0,
        convert_fire_to_poison: 0,
        convert_cold_to_poison: 0,
        convert_lightning_to_poison: 0,
        convert_chaos_to_poison: 0,
        bleed_dot_increased: 0,
        bleed_duration_increased: 0,
        bleed_magnitude: 0,
        bleed_max_stacks: 0,
        convert_physical_to_bleed: 0,
        convert_fire_to_bleed: 0,
        convert_cold_to_bleed: 0,
        convert_lightning_to_bleed: 0,
        convert_chaos_to_bleed: 0,
        burn_dot_increased: 0,
        burn_duration_increased: 0,
        burn_magnitude: 0,
        burn_max_stacks: 0,
        convert_physical_to_burn: 0,
        convert_fire_to_burn: 0,
        convert_cold_to_burn: 0,
        convert_lightning_to_burn: 0,
        convert_chaos_to_burn: 0,
        freeze_duration_increased: 0,
        freeze_magnitude: 0,
        freeze_max_stacks: 0,
        convert_physical_to_freeze: 0,
        convert_fire_to_freeze: 0,
        convert_cold_to_freeze: 0,
        convert_lightning_to_freeze: 0,
        convert_chaos_to_freeze: 0,
        chill_duration_increased: 0,
        chill_magnitude: 0,
        chill_max_stacks: 0,
        convert_physical_to_chill: 0,
        convert_fire_to_chill: 0,
        convert_cold_to_chill: 0,
        convert_lightning_to_chill: 0,
        convert_chaos_to_chill: 0,
        static_duration_increased: 0,
        static_magnitude: 0,
        static_max_stacks: 0,
        convert_physical_to_static: 0,
        convert_fire_to_static: 0,
        convert_cold_to_static: 0,
        convert_lightning_to_static: 0,
        convert_chaos_to_static: 0,
        fear_duration_increased: 0,
        fear_magnitude: 0,
        fear_max_stacks: 0,
        convert_physical_to_fear: 0,
        convert_fire_to_fear: 0,
        convert_cold_to_fear: 0,
        convert_lightning_to_fear: 0,
        convert_chaos_to_fear: 0,
        slow_duration_increased: 0,
        slow_magnitude: 0,
        slow_max_stacks: 0,
        convert_physical_to_slow: 0,
        convert_fire_to_slow: 0,
        convert_cold_to_slow: 0,
        convert_lightning_to_slow: 0,
        convert_chaos_to_slow: 0,
        life_more: Seq::<i64>::empty(),
        mana_more: Seq::<i64>::empty(),
        physical_damage_more: Seq::<i64>::empty(),
        fire_damage_more: Seq::<i64>::empty(),
        cold_damage_more: Seq::<i64>::empty(),
        lightning_damage_more: Seq::<i64>::empty(),
        chaos_damage_more: Seq::<i64>::empty(),
        weapon_elemental_damages: Seq::<(DamageType, i64, i64)>::empty(),
    }
}

impl View for StatAccumulator {
    type V = AccModel;

    open spec fn view(&self) -> AccModel {
        AccModel {
            life_flat: self.life_flat as int,
            life_increased: self.life_increased as int,
            mana_flat: self.mana_flat as int,
            mana_increased: self.mana_increased as int,
            strength_flat: self.strength_flat as int,
            dexterity_flat: self.dexterity_flat as int,
            intelligence_flat: self.intelligence_flat as int,
            constitution_flat: self.constitution_flat as int,
            wisdom_flat: self.wisdom_flat as int,
            charisma_flat: self.charisma_flat as int,
            all_attributes_flat: self.all_attributes_flat as int,
            armour_flat: self.armour_flat as int,
            armour_increased: self.armour_increased as int,
            evasion_flat: self.evasion_flat as int,
            evasion_increased: self.evasion_increased as int,
            energy_shield_flat: self.energy_shield_flat as int,
            energy_shield_increased: self.energy_shield_increased as int,
            fire_resistance: self.fire_resistance as int,
            cold_resistance: self.cold_resistance as int,
            lightning_resistance: self.lightning_resistance as int,
            chaos_resistance: self.chaos_resistance as int,
            all_resistances: self.all_resistances as int,
            physical_damage_flat: self.physical_damage_flat as int,
            physical_damage_increased: self.physical_damage_increased as int,
            fire_damage_flat: self.fire_damage_flat as int,
            fire_damage_increased: self.fire_damage_increased as int,
            cold_damage_flat: self.cold_damage_flat as int,
            cold_damage_increased: self.cold_damage_increased as int,
            lightning_damage_flat: self.lightning_damage_flat as int,
            lightning_damage_increased: self.lightning_damage_increased as int,
            chaos_damage_flat: self.chaos_damage_flat as int,
            chaos_damage_increased: self.chaos_damage_increased as int,
            elemental_damage_increased: self.elemental_damage_increased as int,
            attack_speed_increased: self.attack_speed_increased as int,
            cast_speed_increased: self.cast_speed_increased as int,
            critical_chance_flat: self.critical_chance_flat as int,
            critical_chance_increased: self.critical_chance_increased as int,
            critical_multiplier_flat: self.critical_multiplier_flat as int,
            fire_penetration: self.fire_penetration as int,
            cold_penetration: self.cold_penetration as int,
            lightning_penetration: self.lightning_penetration as int,
            chaos_penetration: self.chaos_penetration as int,
            life_regen_flat: self.life_regen_flat as int,
            mana_regen_flat: self.mana_regen_flat as int,
            life_leech_percent: self.life_leech_percent as int,
            mana_leech_percent: self.mana_leech_percent as int,
            life_on_hit: self.life_on_hit as int,
            accuracy_flat: self.accuracy_flat as int,
            accuracy_increased: self.accuracy_increased as int,
            movement_speed_increased: self.movement_speed_increased as int,
            item_rarity_increased: self.item_rarity_increased as int,
            item_quantity_increased: self.item_quantity_increased as int,
            weapon_physical_min: self.weapon_physical_min as int,
            weapon_physical_max: self.weapon_physical_max as int,
            weapon_physical_increased: self.weapon_physical_increased as int,
            weapon_attack_speed: self.weapon_attack_speed as int,
            weapon_crit_chance: self.weapon_crit_chance as int,
            poison_dot_increased: self.poison_dot_increased as int,
            poison_duration_increased: self.poison_duration_increased as int,
            poison_magnitude: self.poison_magnitude as int,
            poison_max_stacks: self.poison_max_stacks as int,
            convert_physical_to_poison: self.convert_physical_to_poison as int,
            convert_fire_to_poison: self.convert_fire_to_poison as int,
            convert_cold_to_poison: self.convert_cold_to_poison as int,
            convert_lightning_to_poison: self.convert_lightning_to_poison as int,
            convert_chaos_to_poison: self.convert_chaos_to_poison as int,
            bleed_dot_increased: self.bleed_dot_increased as int,
            bleed_duration_increased: self.bleed_duration_increased as int,
            bleed_magnitude: self.bleed_magnitude as int,
            bleed_max_stacks: self.bleed_max_stacks as int,
            convert_physical_to_bleed: self.convert_physical_to_bleed as int,
            convert_fire_to_bleed: self.convert_fire_to_bleed as int,
            convert_cold_to_bleed: self.convert_cold_to_bleed as int,
            convert_lightning_to_bleed: self.convert_lightning_to_bleed as int,
            convert_chaos_to_bleed: self.convert_chaos_to_bleed as int,
            burn_dot_increased: self.burn_dot_increased as int,
            burn_duration_increased: self.burn_duration_increased as int,
            burn_magnitude: self.burn_magnitude as int,
            burn_max_stacks: self.burn_max_stacks as int,
            convert_physical_to_burn: self.convert_physical_to_burn as int,
            convert_fire_to_burn: self.convert_fire_to_burn as int,
            convert_cold_to_burn: self.convert_cold_to_burn as int,
            convert_lightning_to_burn: self.convert_lightning_to_burn as int,
            convert_chaos_to_burn: self.convert_chaos_to_burn as int,
            freeze_duration_increased: self.freeze_duration_increased as int,
            freeze_magnitude: self.freeze_magnitude as int,
            freeze_max_stacks: self.freeze_max_stacks as int,
            convert_physical_to_freeze: self.convert_physical_to_freeze as int,
            convert_fire_to_freeze: self.convert_fire_to_freeze as int,
            convert_cold_to_freeze: self.convert_cold_to_freeze as int,
            convert_lightning_to_freeze: self.convert_lightning_to_freeze as int,
            convert_chaos_to_freeze: self.convert_chaos_to_freeze as int,
            chill_duration_increased: self.chill_duration_increased as int,
            chill_magnitude: self.chill_magnitude as int,
            chill_max_stacks: self.chill_max_stacks as int,
            convert_physical_to_chill: self.convert_physical_to_chill as int,
            convert_fire_to_chill: self.convert_fire_to_chill as int,
            convert_cold_to_chill: self.convert_cold_to_chill as int,
            convert_lightning_to_chill: self.convert_lightning_to_chill as int,
            convert_chaos_to_chill: self.convert_chaos_to_chill as int,
            static_duration_increased: self.static_duration_increased as int,
            static_magnitude: self.static_magnitude as int,
            static_max_stacks: self.static_max_stacks as int,
            convert_physical_to_static: self.convert_physical_to_static as int,
            convert_fire_to_static: self.convert_fire_to_static as int,
            convert_cold_to_static: self.convert_cold_to_static as int,
            convert_lightning_to_static: self.convert_lightning_to_static as int,
            convert_chaos_to_static: self.convert_chaos_to_static as int,
            fear_duration_increased: self.fear_duration_increased as int,
            fear_magnitude: self.fear_magnitude as int,
            fear_max_stacks: self.fear_max_stacks as int,
            convert_physical_to_fear: self.convert_physical_to_fear as int,
            convert_fire_to_fear: self.convert_fire_to_fear as int,
            convert_cold_to_fear: self.convert_cold_to_fear as int,
            convert_lightning_to_fear: self.convert_lightning_to_fear as int,
            convert_chaos_to_fear: self.convert_chaos_to_fear as int,
            slow_duration_increased: self.slow_duration_increased as int,
            slow_magnitude: self.slow_magnitude as int,
            slow_max_stacks: self.slow_max_stacks as int,
            convert_physical_to_slow: self.convert_physical_to_slow as int,
            convert_fire_to_slow: self.convert_fire_to_slow as int,
            convert_cold_to_slow: self.convert_cold_to_slow as int,
            convert_lightning_to_slow: self.convert_lightning_to_slow as int,
            convert_chaos_to_slow: self.convert_chaos_to_slow as int,
            life_more: self.life_more@,
            mana_more: self.mana_more@,
            physical_damage_more: self.physical_damage_more@,
            fire_damage_more: self.fire_damage_more@,
            cold_damage_more: self.cold_damage_more@,
            lightning_damage_more: self.lightning_damage_more@,
            chaos_damage_more: self.chaos_damage_more@,
            weapon_elemental_damages: self.weapon_elemental_damages@,
        }
    }
}

/// One contribution routed into the model: flat stats add the value,
/// percentage stats a hundredth, stack counts a thousandth; sums
/// saturate at the engine's range.
pub open spec fn apply_stat_model(m: AccModel, stat: StatType, value: i64) -> AccModel {
    match stat {
        StatType::AddedPhysicalDamage => AccModel { physical_damage_flat: clamp_amount(m.physical_damage_flat + value), ..m },
        StatType::AddedFireDamage => AccModel { fire_damage_flat: clamp_amount(m.fire_damage_flat + value), ..m },
        StatType::AddedColdDamage => AccModel { cold_damage_flat: clamp_amount(m.cold_damage_flat + value), ..m },
        StatType::AddedLightningDamage => AccModel { lightning_damage_flat: clamp_amount(m.lightning_damage_flat + value), ..m },
        StatType::AddedChaosDamage => AccModel { chaos_damage_flat: clamp_amount(m.chaos_damage_flat + value), ..m },
        StatType::IncreasedPhysicalDamage => AccModel { physical_damage_increased: clamp_amount(m.physical_damage_increased + (value as int) / 100), ..m },
        StatType::IncreasedFireDamage => AccModel { fire_damage_increased: clamp_amount(m.fire_damage_increased + (value as int) / 100), ..m },
        StatType::IncreasedColdDamage => AccModel { cold_damage_increased: clamp_amount(m.cold_damage_increased + (value as int) / 100), ..m },
        StatType::IncreasedLightningDamage => AccModel { lightning_damage_increased: clamp_amount(m.lightning_damage_increased + (value as int) / 100), ..m },
        StatType::IncreasedElementalDamage => AccModel { elemental_damage_increased: clamp_amount(m.elemental_damage_increased + (value as int) / 100), ..m },
        StatType::IncreasedChaosDamage => AccModel { chaos_damage_increased: clamp_amount(m.chaos_damage_increased + (value as int) / 100), ..m },
        StatType::IncreasedAttackSpeed => AccModel { attack_speed_increased: clamp_amount(m.attack_speed_increased + (value as int) / 100), ..m },
        StatType::IncreasedCriticalChance => AccModel { critical_chance_increased: clamp_amount(m.critical_chance_increased + (value as int) / 100), ..m },
        StatType::IncreasedCriticalDamage => AccModel { critical_multiplier_flat: clamp_amount(m.critical_multiplier_flat + (value as int) / 100), ..m },
        StatType::AddedArmour => AccModel { armour_flat: clamp_amount(m.armour_flat + value), ..m },
        StatType::AddedEvasion => AccModel { evasion_flat: clamp_amount(m.evasion_flat + value), ..m },
        StatType::AddedEnergyShield => AccModel { energy_shield_flat: clamp_amount(m.energy_shield_flat + value), ..m },
        StatType::IncreasedArmour => AccModel { armour_increased: clamp_amount(m.armour_increased + (value as int) / 100), ..m },
        StatType::IncreasedEvasion => AccModel { evasion_increased: clamp_amount(m.evasion_increased + (value as int) / 100), ..m },
        StatType::IncreasedEnergyShield => AccModel { energy_shield_increased: clamp_amount(m.energy_shield_increased + (value as int) / 100), ..m },
        StatType::AddedStrength => AccModel { strength_flat: clamp_amount(m.strength_flat + value), ..m },
        StatType::AddedDexterity => AccModel { dexterity_flat: clamp_amount(m.dexterity_flat + value), ..m },
        StatType::AddedConstitution => AccModel { constitution_flat: clamp_amount(m.constitution_flat + value), ..m },
        StatType::AddedIntelligence => AccModel { intelligence_flat: clamp_amount(m.intelligence_flat + value), ..m },
        StatType::AddedWisdom => AccModel { wisdom_flat: clamp_amount(m.wisdom_flat + value), ..m },
        StatType::AddedCharisma => AccModel { charisma_flat: clamp_amount(m.charisma_flat + value), ..m },
        StatType::AddedAllAttributes => AccModel { all_attributes_flat: clamp_amount(m.all_attributes_flat + value), ..m },
        StatType::AddedLife => AccModel { life_flat: clamp_amount(m.life_flat + value), ..m },
        StatType::AddedMana => AccModel { mana_flat: clamp_amount(m.mana_flat + value), ..m },
        StatType::IncreasedLife => AccModel { life_increased: clamp_amount(m.life_increased + (value as int) / 100), ..m },
        StatType::IncreasedMana => AccModel { mana_increased: clamp_amount(m.mana_increased + (value as int) / 100), ..m },
        StatType::LifeRegeneration => AccModel { life_regen_flat: clamp_amount(m.life_regen_flat + value), ..m },
        StatType::ManaRegeneration => AccModel { mana_regen_flat: clamp_amount(m.mana_regen_flat + value), ..m },
        StatType::LifeOnHit => AccModel { life_on_hit: clamp_amount(m.life_on_hit + value), ..m },
        StatType::LifeLeech => AccModel { life_leech_percent: clamp_amount(m.life_leech_percent + (value as int) / 100), ..m },
        StatType::ManaLeech => AccModel { mana_leech_percent: clamp_amount(m.mana_leech_percent + (value as int) / 100), ..m },
        StatType::FireResistance => AccModel { fire_resistance: clamp_amount(m.fire_resistance + value), ..m },
        StatType::ColdResistance => AccModel { cold_resistance: clamp_amount(m.cold_resistance + value), ..m },
        StatType::LightningResistance => AccModel { lightning_resistance: clamp_amount(m.lightning_resistance + value), ..m },
        StatType::ChaosResistance => AccModel { chaos_resistance: clamp_amount(m.chaos_resistance + value), ..m },
        StatType::AllResistances => AccModel { all_resistances: clamp_amount(m.all_resistances + value), ..m },
        StatType::AddedAccuracy => AccModel { accuracy_flat: clamp_amount(m.accuracy_flat + value), ..m },
        StatType::IncreasedAccuracy => AccModel { accuracy_increased: clamp_amount(m.accuracy_increased + (value as int) / 100), ..m },
        StatType::IncreasedMovementSpeed => AccModel { movement_speed_increased: clamp_amount(m.movement_speed_increased + (value as int) / 100), ..m },
        StatType::IncreasedItemRarity => AccModel { item_rarity_increased: clamp_amount(m.item_rarity_increased + (value as int) / 100), ..m },
        StatType::IncreasedItemQuantity => AccModel { item_quantity_increased: clamp_amount(m.item_quantity_increased + (value as int) / 100), ..m },
        StatType::PoisonDamageOverTime => AccModel { poison_dot_increased: clamp_amount(m.poison_dot_increased + (value as int) / 100), ..m },
        StatType::IncreasedPoisonDuration => AccModel { poison_duration_increased: clamp_amount(m.poison_duration_increased + (value as int) / 100), ..m },
        StatType::PoisonMagnitude => AccModel { poison_magnitude: clamp_amount(m.poison_magnitude + (value as int) / 100), ..m },
        StatType::PoisonMaxStacks => AccModel { poison_max_stacks: clamp_amount(m.poison_max_stacks + (value as int) / 1000), ..m },
        StatType::ConvertPhysicalToPoison => AccModel { convert_physical_to_poison: clamp_amount(m.convert_physical_to_poison + (value as int) / 100), ..m },
        StatType::ConvertFireToPoison => AccModel { convert_fire_to_poison: clamp_amount(m.convert_fire_to_poison + (value as int) / 100), ..m },
        StatType::ConvertColdToPoison => AccModel { convert_cold_to_poison: clamp_amount(m.convert_cold_to_poison + (value as int) / 100), ..m },
        StatType::ConvertLightningToPoison => AccModel { convert_lightning_to_poison: clamp_amount(m.convert_lightning_to_poison + (value as int) / 100), ..m },
        StatType::ConvertChaosToPoison => AccModel { convert_chaos_to_poison: clamp_amount(m.convert_chaos_to_poison + (value as int) / 100), ..m },
        StatType::BleedDamageOverTime => AccModel { bleed_dot_increased: clamp_amount(m.bleed_dot_increased + (value as int) / 100), ..m },
        StatType::IncreasedBleedDuration => AccModel { bleed_duration_increased: clamp_amount(m.bleed_duration_increased + (value as int) / 100), ..m },
        StatType::BleedMagnitude => AccModel { bleed_magnitude: clamp_amount(m.bleed_magnitude + (value as int) / 100), ..m },
        StatType::BleedMaxStacks => AccModel { bleed_max_stacks: clamp_amount(m.bleed_max_stacks + (value as int) / 1000), ..m },
        StatType::ConvertPhysicalToBleed => AccModel { convert_physical_to_bleed: clamp_amount(m.convert_physical_to_bleed + (value as int) / 100), ..m },
        StatType::ConvertFireToBleed => AccModel { convert_fire_to_bleed: clamp_amount(m.convert_fire_to_bleed + (value as int) / 100), ..m },
        StatType::ConvertColdToBleed => AccModel { convert_cold_to_bleed: clamp_amount(m.convert_cold_to_bleed + (value as int) / 100), ..m },
        StatType::ConvertLightningToBleed => AccModel { convert_lightning_to_bleed: clamp_amount(m.convert_lightning_to_bleed + (value as int) / 100), ..m },
        StatType::ConvertChaosToBleed => AccModel { convert_chaos_to_bleed: clamp_amount(m.convert_chaos_to_bleed + (value as int) / 100), ..m },
        StatType::BurnDamageOverTime => AccModel { burn_dot_increased: clamp_amount(m.burn_dot_increased + (value as int) / 100), ..m },
        StatType::IncreasedBurnDuration => AccModel { burn_duration_increased: clamp_amount(m.burn_duration_increased + (value as int) / 100), ..m },
        StatType::BurnMagnitude => AccModel { burn_magnitude: clamp_amount(m.burn_magnitude + (value as int) / 100), ..m },
        StatType::BurnMaxStacks => AccModel { burn_max_stacks: clamp_amount(m.burn_max_stacks + (value as int) / 1000), ..m },
        StatType::ConvertPhysicalToBurn => AccModel { convert_physical_to_burn: clamp_amount(m.convert_physical_to_burn + (value as int) / 100), ..m },
        StatType::ConvertFireToBurn => AccModel { convert_fire_to_burn: clamp_amount(m.convert_fire_to_burn + (value as int) / 100), ..m },
        StatType::ConvertColdToBurn => AccModel { convert_cold_to_burn: clamp_amount(m.convert_cold_to_burn + (value as int) / 100), ..m },
        StatType::ConvertLightningToBurn => AccModel { convert_lightning_to_burn: clamp_amount(m.convert_lightning_to_burn + (value as int) / 100), ..m },
        StatType::ConvertChaosToBurn => AccModel { convert_chaos_to_burn: clamp_amount(m.convert_chaos_to_burn + (value as int) / 100), ..m },
        StatType::IncreasedFreezeDuration => AccModel { freeze_duration_increased: clamp_amount(m.freeze_duration_increased + (value as int) / 100), ..m },
        StatType::FreezeMagnitude => AccModel { freeze_magnitude: clamp_amount(m.freeze_magnitude + (value as int) / 100), ..m },
        StatType::FreezeMaxStacks => AccModel { freeze_max_stacks: clamp_amount(m.freeze_max_stacks + (value as int) / 1000), ..m },
        StatType::ConvertPhysicalToFreeze => AccModel { convert_physical_to_freeze: clamp_amount(m.convert_physical_to_freeze + (value as int) / 100), ..m },
        StatType::ConvertFireToFreeze => AccModel { convert_fire_to_freeze: clamp_amount(m.convert_fire_to_freeze + (value as int) / 100), ..m },
        StatType::ConvertColdToFreeze => AccModel { convert_cold_to_freeze: clamp_amount(m.convert_cold_to_freeze + (value as int) / 100), ..m },
        StatType::ConvertLightningToFreeze => AccModel { convert_lightning_to_freeze: clamp_amount(m.convert_lightning_to_freeze + (value as int) / 100), ..m },
        StatType::ConvertChaosToFreeze => AccModel { convert_chaos_to_freeze: clamp_amount(m.convert_chaos_to_freeze + (value as int) / 100), ..m },
        StatType::IncreasedChillDuration => AccModel { chill_duration_increased: clamp_amount(m.chill_duration_increased + (value as int) / 100), ..m },
        StatType::ChillMagnitude => AccModel { chill_magnitude: clamp_amount(m.chill_magnitude + (value as int) / 100), ..m },
        StatType::ChillMaxStacks => AccModel { chill_max_stacks: clamp_amount(m.chill_max_stacks + (value as int) / 1000), ..m },
        StatType::ConvertPhysicalToChill => AccModel { convert_physical_to_chill: clamp_amount(m.convert_physical_to_chill + (value as int) / 100), ..m },
        StatType::ConvertFireToChill => AccModel { convert_fire_to_chill: clamp_amount(m.convert_fire_to_chill + (value as int) / 100), ..m },
        StatType::ConvertColdToChill => AccModel { convert_cold_to_chill: clamp_amount(m.convert_cold_to_chill + (value as int) / 100), ..m },
        StatType::ConvertLightningToChill => AccModel { convert_lightning_to_chill: clamp_amount(m.convert_lightning_to_chill + (value as int) / 100), ..m },
        StatType::ConvertChaosToChill => AccModel { convert_chaos_to_chill: clamp_amount(m.convert_chaos_to_chill + (value as int) / 100), ..m },
        StatType::IncreasedStaticDuration => AccModel { static_duration_increased: clamp_amount(m.static_duration_increased + (value as int) / 100), ..m },
        StatType::StaticMagnitude => AccModel { static_magnitude: clamp_amount(m.static_magnitude + (value as int) / 100), ..m },
        StatType::StaticMaxStacks => AccModel { static_max_stacks: clamp_amount(m.static_max_stacks + (value as int) / 1000), ..m },
        StatType::ConvertPhysicalToStatic => AccModel { convert_physical_to_static: clamp_amount(m.convert_physical_to_static + (value as int) / 100), ..m },
        StatType::ConvertFireToStatic => AccModel { convert_fire_to_static: clamp_amount(m.convert_fire_to_static + (value as int) / 100), ..m },
        StatType::ConvertColdToStatic => AccModel { convert_cold_to_static: clamp_amount(m.convert_cold_to_static + (value as int) / 100), ..m },
        StatType::ConvertLightningToStatic => AccModel { convert_lightning_to_static: clamp_amount(m.convert_lightning_to_static + (value as int) / 100), ..m },
        StatType::ConvertChaosToStatic => AccModel { convert_chaos_to_static: clamp_amount(m.convert_chaos_to_static + (value as int) / 100), ..m },
        StatType::IncreasedFearDuration => AccModel { fear_duration_increased: clamp_amount(m.fear_duration_increased + (value as int) / 100), ..m },
        StatType::FearMagnitude => AccModel { fear_magnitude: clamp_amount(m.fear_magnitude + (value as int) / 100), ..m },
        StatType::FearMaxStacks => AccModel { fear_max_stacks: clamp_amount(m.fear_max_stacks + (value as int) / 1000), ..m },
        StatType::ConvertPhysicalToFear => AccModel { convert_physical_to_fear: clamp_amount(m.convert_physical_to_fear + (value as int) / 100), ..m },
        StatType::ConvertFireToFear => AccModel { convert_fire_to_fear: clamp_amount(m.convert_fire_to_fear + (value as int) / 100), ..m },
        StatType::ConvertColdToFear => AccModel { convert_cold_to_fear: clamp_amount(m.convert_cold_to_fear + (value as int) / 100), ..m },
        StatType::ConvertLightningToFear => AccModel { convert_lightning_to_fear: clamp_amount(m.convert_lightning_to_fear + (value as int) / 100), ..m },
        StatType::ConvertChaosToFear => AccModel { convert_chaos_to_fear: clamp_amount(m.convert_chaos_to_fear + (value as int) / 100), ..m },
        StatType::IncreasedSlowDuration => AccModel { slow_duration_increased: clamp_amount(m.slow_duration_increased + (value as int) / 100), ..m },
        StatType::SlowMagnitude => AccModel { slow_magnitude: clamp_amount(m.slow_magnitude + (value as int) / 100), ..m },
        StatType::SlowMaxStacks => AccModel { slow_max_stacks: clamp_amount(m.slow_max_stacks + (value as int) / 1000), ..m },
        StatType::ConvertPhysicalToSlow => AccModel { convert_physical_to_slow: clamp_amount(m.convert_physical_to_slow + (value as int) / 100), ..m },
        StatType::ConvertFireToSlow => AccModel { convert_fire_to_slow: clamp_amount(m.convert_fire_to_slow + (value as int) / 100), ..m },
        StatType::ConvertColdToSlow => AccModel { convert_cold_to_slow: clamp_amount(m.convert_cold_to_slow + (value as int) / 100), ..m },
        StatType::ConvertLightningToSlow => AccModel { convert_lightning_to_slow: clamp_amount(m.convert_lightning_to_slow + (value as int) / 100), ..m },
        StatType::ConvertChaosToSlow => AccModel { convert_chaos_to_slow: clamp_amount(m.convert_chaos_to_slow + (value as int) / 100), ..m },
    }
}

} // verus!
