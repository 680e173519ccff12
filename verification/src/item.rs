//! Items as the engine consumes them: read-only aggregates of modifiers
//! plus optional weapon-damage and defense blocks. Generation and
//! crafting of items live outside the engine.

use vstd::prelude::*;
use crate::types::{AffixScope, DamageType, ItemClass, Rarity, StatType};

verus! {

/// One affix on an item: a stat contribution with scope and tier.
#[derive(Clone, Copy)]
pub struct Modifier {
    /// The stat contributed to.
    pub stat: StatType,
    /// Whether the affix applies to the item itself or the character.
    pub scope: AffixScope,
    /// Affix tier.
    pub tier: u32,
    /// Contribution value, in the stat's milli-units.
    pub value: i64,
    /// Upper bound for ranged contributions (added damage min-max).
    pub value_max: Option<i64>,
}

/// Base defenses on a piece of gear, in milli-units.
#[derive(Clone, Copy)]
pub struct Defenses {
    /// Armour granted, if any.
    pub armour: Option<i64>,
    /// Evasion granted, if any.
    pub evasion: Option<i64>,
    /// Energy shield granted, if any.
    pub energy_shield: Option<i64>,
}

/// One damage roll on a weapon.
#[derive(Clone, Copy)]
pub struct WeaponDamageEntry {
    /// The damage type of the roll.
    pub damage_type: DamageType,
    /// Minimum damage, in milli-units.
    pub min: i64,
    /// Maximum damage, in milli-units.
    pub max: i64,
}

/// The damage block of a weapon.
pub struct WeaponDamage {
    /// Damage rolls by type.
    pub damages: Vec<WeaponDamageEntry>,
    /// Attacks per second, as a milli factor.
    pub attack_speed: i64,
    /// Critical chance, in milli-percent points.
    pub critical_chance: i64,
}

/// An item as delivered by the loot subsystem.
pub struct Item {
    /// Identifier of the item's base type.
    pub base_type_id: String,
    /// Display name.
    pub name: String,
    /// The item's base class.
    pub class: ItemClass,
    /// Rarity tier.
    pub rarity: Rarity,
    /// Implicit modifier, if any.
    pub implicit: Option<Modifier>,
    /// Prefix modifiers.
    pub prefixes: Vec<Modifier>,
    /// Suffix modifiers.
    pub suffixes: Vec<Modifier>,
    /// Base defenses.
    pub defenses: Defenses,
    /// Weapon damage block, present on weapons.
    pub damage: Option<WeaponDamage>,
}

} // verus!
