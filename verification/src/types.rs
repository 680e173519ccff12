//! Closed enumerations shared across the engine.

use vstd::prelude::*;

verus! {

/// The five damage types. Conversion order is fixed:
/// Physical -> Lightning -> Cold -> Fire -> Chaos; Chaos never converts out.
#[derive(Clone, Copy, Debug, Hash, PartialEq, Eq, Structural)]
pub enum DamageType {
    Physical,
    Fire,
    Cold,
    Lightning,
    Chaos,
}

/// The eight ailment kinds.
#[derive(Clone, Copy, Debug, Hash, PartialEq, Eq, Structural)]
pub enum StatusEffect {
    Poison,
    Bleed,
    Burn,
    Freeze,
    Chill,
    Static,
    Fear,
    Slow,
}

/// Whether an item affix applies to the item itself or to the character.
#[derive(Clone, Copy, Debug, Hash, PartialEq, Eq, Structural)]
pub enum AffixScope {
    Local,
    Global,
}

/// Equipment slot for gear.
#[derive(Clone, Copy, Debug, Hash, PartialEq, Eq, Structural)]
pub enum EquipmentSlot {
    MainHand,
    OffHand,
    Helmet,
    BodyArmour,
    Gloves,
    Boots,
    Ring1,
    Ring2,
    Amulet,
    Belt,
}

impl EquipmentSlot {
    /// All equipment slots, in a fixed order.
    pub fn all() -> (r: Vec<EquipmentSlot>)
        ensures
            r@.len() == 10,
    {
        let mut v: Vec<EquipmentSlot> = Vec::new();
        v.push(EquipmentSlot::MainHand);
        v.push(EquipmentSlot::OffHand);
        v.push(EquipmentSlot::Helmet);
        v.push(EquipmentSlot::BodyArmour);
        v.push(EquipmentSlot::Gloves);
        v.push(EquipmentSlot::Boots);
        v.push(EquipmentSlot::Ring1);
        v.push(EquipmentSlot::Ring2);
        v.push(EquipmentSlot::Amulet);
        v.push(EquipmentSlot::Belt);
        v
    }
}

/// Skill tags for damage scaling and categorization.
#[derive(Clone, Copy, Debug, Hash, PartialEq, Eq, Structural)]
pub enum SkillTag {
    Attack,
    Spell,
    Physical,
    Fire,
    Cold,
    Lightning,
    Chaos,
    Elemental,
    Melee,
    Ranged,
    Projectile,
    Aoe,
}

/// Identifier for a skill tree node.
#[derive(Clone, Debug)]
pub struct SkillNodeId(pub String);

/// Item base classes.
#[derive(Clone, Copy, Debug, Hash, PartialEq, Eq, Structural)]
pub enum ItemClass {
    OneHandSword,
    TwoHandSword,
    OneHandAxe,
    TwoHandAxe,
    OneHandMace,
    TwoHandMace,
    Dagger,
    Claw,
    Wand,
    Bow,
    Staff,
    Shield,
    Helmet,
    BodyArmour,
    Gloves,
    Boots,
    Ring,
    Amulet,
    Belt,
}

/// Item rarity tiers.
#[derive(Clone, Copy, Debug, Hash, PartialEq, Eq, Structural)]
pub enum Rarity {
    Normal,
    Magic,
    Rare,
    Unique,
}

/// Every modifiable quantity an item, passive or buff may contribute to.
/// Values route into the accumulator; percentages arrive in whole percent.
#[derive(Clone, Copy, Debug, Hash, PartialEq, Eq, Structural)]
pub enum StatType {
    AddedPhysicalDamage,
    AddedFireDamage,
    AddedColdDamage,
    AddedLightningDamage,
    AddedChaosDamage,
    IncreasedPhysicalDamage,
    IncreasedFireDamage,
    IncreasedColdDamage,
    IncreasedLightningDamage,
    IncreasedElementalDamage,
    IncreasedChaosDamage,
    IncreasedAttackSpeed,
    IncreasedCriticalChance,
    IncreasedCriticalDamage,
    AddedArmour,
    AddedEvasion,
    AddedEnergyShield,
    IncreasedArmour,
    IncreasedEvasion,
    IncreasedEnergyShield,
    AddedStrength,
    AddedDexterity,
    AddedConstitution,
    AddedIntelligence,
    AddedWisdom,
    AddedCharisma,
    AddedAllAttributes,
    AddedLife,
    AddedMana,
    IncreasedLife,
    IncreasedMana,
    LifeRegeneration,
    ManaRegeneration,
    LifeOnHit,
    LifeLeech,
    ManaLeech,
    FireResistance,
    ColdResistance,
    LightningResistance,
    ChaosResistance,
    AllResistances,
    AddedAccuracy,
    IncreasedAccuracy,
    IncreasedMovementSpeed,
    IncreasedItemRarity,
    IncreasedItemQuantity,
    PoisonDamageOverTime,
    IncreasedPoisonDuration,
    PoisonMagnitude,
    PoisonMaxStacks,
    ConvertPhysicalToPoison,
    ConvertFireToPoison,
    ConvertColdToPoison,
    ConvertLightningToPoison,
    ConvertChaosToPoison,
    BleedDamageOverTime,
    IncreasedBleedDuration,
    BleedMagnitude,
    BleedMaxStacks,
    ConvertPhysicalToBleed,
    ConvertFireToBleed,
    ConvertColdToBleed,
    ConvertLightningToBleed,
    ConvertChaosToBleed,
    BurnDamageOverTime,
    IncreasedBurnDuration,
    BurnMagnitude,
    BurnMaxStacks,
    ConvertPhysicalToBurn,
    ConvertFireToBurn,
    ConvertColdToBurn,
    ConvertLightningToBurn,
    ConvertChaosToBurn,
    IncreasedFreezeDuration,
    FreezeMagnitude,
    FreezeMaxStacks,
    ConvertPhysicalToFreeze,
    ConvertFireToFreeze,
    ConvertColdToFreeze,
    ConvertLightningToFreeze,
    ConvertChaosToFreeze,
    IncreasedChillDuration,
    ChillMagnitude,
    ChillMaxStacks,
    ConvertPhysicalToChill,
    ConvertFireToChill,
    ConvertColdToChill,
    ConvertLightningToChill,
    ConvertChaosToChill,
    IncreasedStaticDuration,
    StaticMagnitude,
    StaticMaxStacks,
    ConvertPhysicalToStatic,
    ConvertFireToStatic,
    ConvertColdToStatic,
    ConvertLightningToStatic,
    ConvertChaosToStatic,
    IncreasedFearDuration,
    FearMagnitude,
    FearMaxStacks,
    ConvertPhysicalToFear,
    ConvertFireToFear,
    ConvertColdToFear,
    ConvertLightningToFear,
    ConvertChaosToFear,
    IncreasedSlowDuration,
    SlowMagnitude,
    SlowMaxStacks,
    ConvertPhysicalToSlow,
    ConvertFireToSlow,
    ConvertColdToSlow,
    ConvertLightningToSlow,
    ConvertChaosToSlow,
}

} // verus!
