//! Tunable game constants, read once at startup and immutable after.

use vstd::prelude::*;

verus! {

/// Resistance constants.
pub struct ResistanceConstants {
    /// The resistance cap, in milli-percent: immunity.
    pub max_cap: i64,
    /// The resistance floor, in milli-percent.
    pub min_value: i64,
    /// Penetration effectiveness against a capped resistance, as a
    /// milli fraction.
    pub penetration_vs_capped: i64,
}

impl Default for ResistanceConstants {
    /// The documented defaults.
    fn default() -> (r: ResistanceConstants)
        ensures
            r.max_cap == 100_000,
            r.min_value == -200_000,
            r.penetration_vs_capped == 500,
    {
        ResistanceConstants { max_cap: 100_000, min_value: -200_000, penetration_vs_capped: 500 }
    }
}

/// Armour constants.
pub struct ArmourConstants {
    /// The constant in `armour / (armour + constant * damage)`.
    pub damage_constant: i64,
}

impl Default for ArmourConstants {
    /// The documented default.
    fn default() -> (r: ArmourConstants)
        ensures
            r.damage_constant == 5,
    {
        ArmourConstants { damage_constant: 5 }
    }
}

/// Critical strike constants.
pub struct CritConstants {
    /// The base critical multiplier, as a milli factor.
    pub base_multiplier: i64,
}

impl Default for CritConstants {
    /// The documented default.
    fn default() -> (r: CritConstants)
        ensures
            r.base_multiplier == 1_500,
    {
        CritConstants { base_multiplier: 1_500 }
    }
}

/// Leech constants.
pub struct LeechConstants {
    /// Cap on life leeched per second, as a milli fraction of maximum
    /// life.
    pub max_life_leech_rate: i64,
    /// Cap on mana leeched per second, as a milli fraction of maximum
    /// mana.
    pub max_mana_leech_rate: i64,
}

impl Default for LeechConstants {
    /// The documented defaults.
    fn default() -> (r: LeechConstants)
        ensures
            r.max_life_leech_rate == 200,
            r.max_mana_leech_rate == 200,
    {
        LeechConstants { max_life_leech_rate: 200, max_mana_leech_rate: 200 }
    }
}

/// Energy shield constants.
pub struct EnergyShieldConstants {
    /// Which pool takes damage first.
    pub damage_priority: String,
}

impl Default for EnergyShieldConstants {
    /// The documented default: the shield takes damage first.
    fn default() -> (r: EnergyShieldConstants)
        ensures
            r.damage_priority@ == "first"@,
    {
        EnergyShieldConstants { damage_priority: "first".to_owned() }
    }
}

/// All tunable constants together.
pub struct GameConstants {
    /// Resistance constants.
    pub resistances: ResistanceConstants,
    /// Armour constants.
    pub armour: ArmourConstants,
    /// Critical strike constants.
    pub crit: CritConstants,
    /// Leech constants.
    pub leech: LeechConstants,
    /// Energy shield constants.
    pub energy_shield: EnergyShieldConstants,
}

impl Default for GameConstants {
    /// The documented defaults for every table.
    fn default() -> (r: GameConstants)
        ensures
            r.resistances.max_cap == 100_000,
            r.resistances.min_value == -200_000,
            r.resistances.penetration_vs_capped == 500,
            r.armour.damage_constant == 5,
            r.crit.base_multiplier == 1_500,
            r.leech.max_life_leech_rate == 200,
            r.leech.max_mana_leech_rate == 200,
            r.energy_shield.damage_priority@ == "first"@,
    {
        GameConstants {
            resistances: Default::default(),
            armour: Default::default(),
            crit: Default::default(),
            leech: Default::default(),
            energy_shield: Default::default(),
        }
    }
}

} // verus!
