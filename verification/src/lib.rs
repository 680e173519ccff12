//! Deterministic stat-aggregation and combat-resolution engine.
//!
//! All fractional quantities (damage amounts, percentages, durations in
//! seconds, speed multipliers) are fixed-point integers in milli-units:
//! the `i64` value `1500` stands for `1.5`. Percentages are carried in
//! milli-percent: `50_000` stands for `50%`. Arithmetic saturates at
//! [`fixed::MAX_AMOUNT`], the numeric range of the engine.

pub mod accumulator;
pub mod armour;
pub mod codec;
pub mod constants;
pub mod dots;
pub mod skills;
pub mod calculation;
pub mod effect;
pub mod evasion;
pub mod fixed;
pub mod generator;
pub mod item;
pub mod packet;
pub mod resolution;
pub mod result;
pub mod rng;
pub mod source;
pub mod resistance;
pub mod stat_block;
pub mod stat_value;
pub mod strings;
pub mod types;

pub use accumulator::{StatAccumulator, StatusConversions, StatusEffectStats};
pub use armour::calculate_armour_reduction;
pub use calculation::{calculate_average_damage_by_type, calculate_damage, calculate_skill_dps};
pub use constants::GameConstants;
pub use dots::{DotConfig, DotRegistry, DotStacking};
pub use effect::{AilmentStacking, Effect, EffectType, StatMod, TickResult};
pub use evasion::{apply_evasion_cap, calculate_damage_cap};
pub use fixed::MAX_AMOUNT;
pub use fixed::SCALE;
pub use generator::{
    BaseDamage, DamageConversions, DamageMap, DamagePacketGenerator, DamageTypeEffectiveness,
    SkillStatusConversions,
};
pub use item::{Defenses, Item, Modifier, WeaponDamage, WeaponDamageEntry};
pub use packet::{DamagePacket, FinalDamage, PendingDoT, PendingStatusEffect};
pub use resistance::calculate_resistance_mitigation;
pub use resolution::{resolve_damage, resolve_damage_with_rng};
pub use result::{CombatResult, DamageTaken};
pub use skills::{default_skills, find_skill};
pub use source::{
    BaseStatsSource, BuffPresets, BuffSource, GearSource, NodeModifier, SkillTreeSource, Source,
};
pub use stat_block::{StatBlock, StatusEffectData};
pub use stat_value::StatValue;
pub use types::{AffixScope, DamageType, EquipmentSlot, ItemClass, Rarity, SkillNodeId, SkillTag,
    StatType, StatusEffect};
