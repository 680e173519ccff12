//! The stat block: the materialized snapshot of an entity. Rebuilt
//! deterministically from its sources, it owns its active effects and
//! its equipped items, and every derived quantity is computed from it.

use vstd::prelude::*;
use crate::accumulator::{
    empty_acc_model, AccModel, StatAccumulator, StatusConversions, StatusEffectStats,
};
use crate::effect::{tick_total_spec, AilmentStacking, Effect, EffectType, StatMod, TickResult};
use crate::fixed::{
    clamp_amount, clamp_spec, factor_applied, max_spec, min_spec, muldiv, sat_add, sat_factor,
    sat_muldiv,
    sat_scaled, scaled, min64, FULL_PERCENT, SCALE,
};
use crate::item::Item;
use crate::stat_value::{sv_eq, StatValue};
use crate::strings::str_eq;
use crate::types::{DamageType, EquipmentSlot, StatusEffect};
use crate::source::{
    buff_apply_model, filter_priority, gear_apply_model, lemma_sources_model_push,
    source_apply_model, source_priority_spec, sources_in_priority_order, sources_model, BuffSource,
    Source,
};

verus! {

/// Per-ailment stats and conversions, one pair per kind.
#[derive(Clone, Copy, PartialEq, Eq, Structural)]
pub struct StatusEffectData {
    /// Accumulated stats for poison.
    pub poison: StatusEffectStats,
    /// Conversions into poison.
    pub poison_conversions: StatusConversions,
    /// Accumulated stats for bleed.
    pub bleed: StatusEffectStats,
    /// Conversions into bleed.
    pub bleed_conversions: StatusConversions,
    /// Accumulated stats for burn.
    pub burn: StatusEffectStats,
    /// Conversions into burn.
    pub burn_conversions: StatusConversions,
    /// Accumulated stats for freeze.
    pub freeze: StatusEffectStats,
    /// Conversions into freeze.
    pub freeze_conversions: StatusConversions,
    /// Accumulated stats for chill.
    pub chill: StatusEffectStats,
    /// Conversions into chill.
    pub chill_conversions: StatusConversions,
    /// Accumulated stats for static.
    pub static_effect: StatusEffectStats,
    /// Conversions into static.
    pub static_conversions: StatusConversions,
    /// Accumulated stats for fear.
    pub fear: StatusEffectStats,
    /// Conversions into fear.
    pub fear_conversions: StatusConversions,
    /// Accumulated stats for slow.
    pub slow: StatusEffectStats,
    /// Conversions into slow.
    pub slow_conversions: StatusConversions,
}

/// Zeroed per-ailment stats.
pub open spec fn zero_status_stats() -> StatusEffectStats {
    StatusEffectStats { dot_increased: 0, duration_increased: 0, magnitude: 0, max_stacks: 0 }
}

/// Zeroed conversions.
pub open spec fn zero_conversions() -> StatusConversions {
    StatusConversions { from_physical: 0, from_fire: 0, from_cold: 0, from_lightning: 0, from_chaos: 0 }
}

/// Zeroed status data for a fresh block.
pub open spec fn zero_status_data() -> StatusEffectData {
    StatusEffectData {
        poison: zero_status_stats(),
        poison_conversions: zero_conversions(),
        bleed: zero_status_stats(),
        bleed_conversions: zero_conversions(),
        burn: zero_status_stats(),
        burn_conversions: zero_conversions(),
        freeze: zero_status_stats(),
        freeze_conversions: zero_conversions(),
        chill: zero_status_stats(),
        chill_conversions: zero_conversions(),
        static_effect: zero_status_stats(),
        static_conversions: zero_conversions(),
        fear: zero_status_stats(),
        fear_conversions: zero_conversions(),
        slow: zero_status_stats(),
        slow_conversions: zero_conversions(),
    }
}

/// The per-ailment stats an accumulator model carries for one kind.
pub open spec fn model_status_stats(m: AccModel, status: StatusEffect) -> StatusEffectStats {
    match status {
        StatusEffect::Poison => StatusEffectStats {
            dot_increased: m.poison_dot_increased as i64,
            duration_increased: m.poison_duration_increased as i64,
            magnitude: m.poison_magnitude as i64,
            max_stacks: m.poison_max_stacks as i64,
        },
        StatusEffect::Bleed => StatusEffectStats {
            dot_increased: m.bleed_dot_increased as i64,
            duration_increased: m.bleed_duration_increased as i64,
            magnitude: m.bleed_magnitude as i64,
            max_stacks: m.bleed_max_stacks as i64,
        },
        StatusEffect::Burn => StatusEffectStats {
            dot_increased: m.burn_dot_increased as i64,
            duration_increased: m.burn_duration_increased as i64,
            magnitude: m.burn_magnitude as i64,
            max_stacks: m.burn_max_stacks as i64,
        },
        StatusEffect::Freeze => StatusEffectStats {
            dot_increased: 0,
            duration_increased: m.freeze_duration_increased as i64,
            magnitude: m.freeze_magnitude as i64,
            max_stacks: m.freeze_max_stacks as i64,
        },
        StatusEffect::Chill => StatusEffectStats {
            dot_increased: 0,
            duration_increased: m.chill_duration_increased as i64,
            magnitude: m.chill_magnitude as i64,
            max_stacks: m.chill_max_stacks as i64,
        },
        StatusEffect::Static => StatusEffectStats {
            dot_increased: 0,
            duration_increased: m.static_duration_increased as i64,
            magnitude: m.static_magnitude as i64,
            max_stacks: m.static_max_stacks as i64,
        },
        StatusEffect::Fear => StatusEffectStats {
            dot_increased: 0,
            duration_increased: m.fear_duration_increased as i64,
            magnitude: m.fear_magnitude as i64,
            max_stacks: m.fear_max_stacks as i64,
        },
        StatusEffect::Slow => StatusEffectStats {
            dot_increased: 0,
            duration_increased: m.slow_duration_increased as i64,
            magnitude: m.slow_magnitude as i64,
            max_stacks: m.slow_max_stacks as i64,
        },
    }
}

/// The conversions an accumulator model carries into one kind.
pub open spec fn model_status_conversions(m: AccModel, status: StatusEffect) -> StatusConversions {
    match status {
        StatusEffect::Poison => StatusConversions {
            from_physical: m.convert_physical_to_poison as i64,
            from_fire: m.convert_fire_to_poison as i64,
            from_cold: m.convert_cold_to_poison as i64,
            from_lightning: m.convert_lightning_to_poison as i64,
            from_chaos: m.convert_chaos_to_poison as i64,
        },
        StatusEffect::Bleed => StatusConversions {
            from_physical: m.convert_physical_to_bleed as i64,
            from_fire: m.convert_fire_to_bleed as i64,
            from_cold: m.convert_cold_to_bleed as i64,
            from_lightning: m.convert_lightning_to_bleed as i64,
            from_chaos: m.convert_chaos_to_bleed as i64,
        },
        StatusEffect::Burn => StatusConversions {
            from_physical: m.convert_physical_to_burn as i64,
            from_fire: m.convert_fire_to_burn as i64,
            from_cold: m.convert_cold_to_burn as i64,
            from_lightning: m.convert_lightning_to_burn as i64,
            from_chaos: m.convert_chaos_to_burn as i64,
        },
        StatusEffect::Freeze => StatusConversions {
            from_physical: m.convert_physical_to_freeze as i64,
            from_fire: m.convert_fire_to_freeze as i64,
            from_cold: m.convert_cold_to_freeze as i64,
            from_lightning: m.convert_lightning_to_freeze as i64,
            from_chaos: m.convert_chaos_to_freeze as i64,
        },
        StatusEffect::Chill => StatusConversions {
            from_physical: m.convert_physical_to_chill as i64,
            from_fire: m.convert_fire_to_chill as i64,
            from_cold: m.convert_cold_to_chill as i64,
            from_lightning: m.convert_lightning_to_chill as i64,
            from_chaos: m.convert_chaos_to_chill as i64,
        },
        StatusEffect::Static => StatusConversions {
            from_physical: m.convert_physical_to_static as i64,
            from_fire: m.convert_fire_to_static as i64,
            from_cold: m.convert_cold_to_static as i64,
            from_lightning: m.convert_lightning_to_static as i64,
            from_chaos: m.convert_chaos_to_static as i64,
        },
        StatusEffect::Fear => StatusConversions {
            from_physical: m.convert_physical_to_fear as i64,
            from_fire: m.convert_fire_to_fear as i64,
            from_cold: m.convert_cold_to_fear as i64,
            from_lightning: m.convert_lightning_to_fear as i64,
            from_chaos: m.convert_chaos_to_fear as i64,
        },
        StatusEffect::Slow => StatusConversions {
            from_physical: m.convert_physical_to_slow as i64,
            from_fire: m.convert_fire_to_slow as i64,
            from_cold: m.convert_cold_to_slow as i64,
            from_lightning: m.convert_lightning_to_slow as i64,
            from_chaos: m.convert_chaos_to_slow as i64,
        },
    }
}

/// The whole status table an accumulator model yields.
pub open spec fn model_status_data(m: AccModel) -> StatusEffectData {
    StatusEffectData {
        poison: model_status_stats(m, StatusEffect::Poison),
        poison_conversions: model_status_conversions(m, StatusEffect::Poison),
        bleed: model_status_stats(m, StatusEffect::Bleed),
        bleed_conversions: model_status_conversions(m, StatusEffect::Bleed),
        burn: model_status_stats(m, StatusEffect::Burn),
        burn_conversions: model_status_conversions(m, StatusEffect::Burn),
        freeze: model_status_stats(m, StatusEffect::Freeze),
        freeze_conversions: model_status_conversions(m, StatusEffect::Freeze),
        chill: model_status_stats(m, StatusEffect::Chill),
        chill_conversions: model_status_conversions(m, StatusEffect::Chill),
        static_effect: model_status_stats(m, StatusEffect::Static),
        static_conversions: model_status_conversions(m, StatusEffect::Static),
        fear: model_status_stats(m, StatusEffect::Fear),
        fear_conversions: model_status_conversions(m, StatusEffect::Fear),
        slow: model_status_stats(m, StatusEffect::Slow),
        slow_conversions: model_status_conversions(m, StatusEffect::Slow),
    }
}

impl StatusEffectData {
    /// The stats recorded for one ailment kind.
    pub open spec fn get_stats_spec(self, effect: StatusEffect) -> StatusEffectStats {
        match effect {
            StatusEffect::Poison => self.poison,
            StatusEffect::Bleed => self.bleed,
            StatusEffect::Burn => self.burn,
            StatusEffect::Freeze => self.freeze,
            StatusEffect::Chill => self.chill,
            StatusEffect::Static => self.static_effect,
            StatusEffect::Fear => self.fear,
            StatusEffect::Slow => self.slow,
        }
    }

    /// Get the stats for an ailment kind.
    pub fn get_stats(&self, effect: StatusEffect) -> (r: &StatusEffectStats)
        ensures
            *r == self.get_stats_spec(effect),
    {
        match effect {
            StatusEffect::Poison => &self.poison,
            StatusEffect::Bleed => &self.bleed,
            StatusEffect::Burn => &self.burn,
            StatusEffect::Freeze => &self.freeze,
            StatusEffect::Chill => &self.chill,
            StatusEffect::Static => &self.static_effect,
            StatusEffect::Fear => &self.fear,
            StatusEffect::Slow => &self.slow,
        }
    }

    /// The conversions recorded into one ailment kind.
    pub open spec fn get_conversions_spec(self, effect: StatusEffect) -> StatusConversions {
        match effect {
            StatusEffect::Poison => self.poison_conversions,
            StatusEffect::Bleed => self.bleed_conversions,
            StatusEffect::Burn => self.burn_conversions,
            StatusEffect::Freeze => self.freeze_conversions,
            StatusEffect::Chill => self.chill_conversions,
            StatusEffect::Static => self.static_conversions,
            StatusEffect::Fear => self.fear_conversions,
            StatusEffect::Slow => self.slow_conversions,
        }
    }

    /// Get the conversions for an ailment kind.
    pub fn get_conversions(&self, effect: StatusEffect) -> (r: &StatusConversions)
        ensures
            *r == self.get_conversions_spec(effect),
    {
        match effect {
            StatusEffect::Poison => &self.poison_conversions,
            StatusEffect::Bleed => &self.bleed_conversions,
            StatusEffect::Burn => &self.burn_conversions,
            StatusEffect::Freeze => &self.freeze_conversions,
            StatusEffect::Chill => &self.chill_conversions,
            StatusEffect::Static => &self.static_conversions,
            StatusEffect::Fear => &self.fear_conversions,
            StatusEffect::Slow => &self.slow_conversions,
        }
    }
}

/// Status damage gathered from a list of hit damages through one
/// kind's conversions, summed with saturation.
pub open spec fn status_damage_fold(convs: StatusConversions, damages: Seq<(DamageType, i64)>) -> int
    decreases damages.len(),
{
    if damages.len() == 0 {
        0
    } else {
        clamp_amount(
            status_damage_fold(convs, damages.drop_last()) + scaled(
                damages.last().1 as int,
                convs.from_damage_type_spec(damages.last().0) as int,
            ),
        )
    }
}

impl StatusEffectData {
    /// Status damage converted from hit damages for one kind:
    /// the conversion-weighted sum, then the magnitude factor.
    pub open spec fn status_damage_spec(
        self,
        effect: StatusEffect,
        damages: Seq<(DamageType, i64)>,
    ) -> int {
        factor_applied(
            status_damage_fold(self.get_conversions_spec(effect), damages),
            self.get_stats_spec(effect).magnitude as int,
        )
    }

    /// Calculate the status damage one kind draws from hit damages.
    pub fn calculate_status_damage(
        &self,
        effect: StatusEffect,
        damages: &Vec<(DamageType, i64)>,
    ) -> (r: i64)
        ensures
            r as int == self.status_damage_spec(effect, damages@),
    {
        let convs = self.get_conversions(effect);
        let stats = self.get_stats(effect);
        let mut sum: i64 = 0;
        let mut i: usize = 0;
        while i < damages.len()
            invariant
                i <= damages.len(),
                *convs == self.get_conversions_spec(effect),
                sum as int == status_damage_fold(
                    self.get_conversions_spec(effect),
                    damages@.subrange(0, i as int),
                ),
            decreases damages.len() - i,
        {
            let (dt, amount) = damages[i];
            sum = sat_add(sum, sat_scaled(amount, convs.from_damage_type(dt)));
            proof {
                let cs = self.get_conversions_spec(effect);
                let pre = damages@.subrange(0, i as int);
                let ext = damages@.subrange(0, i as int + 1);
                assert(ext.drop_last() =~= pre);
                assert(ext.last() == damages@[i as int]);
                assert(dt == damages@[i as int].0);
                assert(amount == damages@[i as int].1);
                assert(status_damage_fold(cs, ext) == clamp_amount(
                    status_damage_fold(cs, pre) + scaled(
                        ext.last().1 as int,
                        cs.from_damage_type_spec(ext.last().0) as int,
                    ),
                ));
            }
            i = i + 1;
        }
        proof {
            assert(damages@.subrange(0, damages@.len() as int) =~= damages@);
        }
        sat_factor(sum, stats.magnitude)
    }

    /// The chance to apply one kind, as a milli fraction of certainty:
    /// status damage over the target's maximum life, clamped into
    /// [0, 1]; zero against a target without life.
    pub open spec fn apply_chance_spec(
        self,
        effect: StatusEffect,
        damages: Seq<(DamageType, i64)>,
        target_max_health: int,
    ) -> int {
        if target_max_health <= 0 {
            0
        } else {
            clamp_spec(
                muldiv(self.status_damage_spec(effect, damages), SCALE as int, target_max_health),
                0,
                SCALE as int,
            )
        }
    }

    /// Calculate the chance to apply one kind from hit damages.
    pub fn calculate_apply_chance(
        &self,
        effect: StatusEffect,
        damages: &Vec<(DamageType, i64)>,
        target_max_health: i64,
    ) -> (r: i64)
        ensures
            r as int == self.apply_chance_spec(effect, damages@, target_max_health as int),
            0 <= r <= SCALE,
    {
        if target_max_health <= 0 {
            return 0;
        }
        let sd = self.calculate_status_damage(effect, damages);
        let v = sat_muldiv(sd, SCALE, target_max_health);
        if v < 0 {
            0
        } else if v > SCALE {
            SCALE
        } else {
            v
        }
    }
}

/// Complete stat state for an entity (player, monster, and so on).
pub struct StatBlock {
    /// Unique identifier of this entity.
    pub id: String,
    /// Equipped items by slot; at most one item per slot.
    pub equipped_items: Vec<(EquipmentSlot, Item)>,
    /// Active buff sources feeding the internal rebuild.
    pub buff_sources: Vec<BuffSource>,
    /// Maximum life.
    pub max_life: StatValue,
    /// Current life, in milli-units.
    pub current_life: i64,
    /// Maximum mana.
    pub max_mana: StatValue,
    /// Current mana, in milli-units.
    pub current_mana: i64,
    /// Maximum energy shield; granted externally, never regenerating.
    pub max_energy_shield: i64,
    /// Current energy shield, in milli-units.
    pub current_energy_shield: i64,
    /// Strength.
    pub strength: StatValue,
    /// Dexterity.
    pub dexterity: StatValue,
    /// Intelligence.
    pub intelligence: StatValue,
    /// Constitution.
    pub constitution: StatValue,
    /// Wisdom.
    pub wisdom: StatValue,
    /// Charisma.
    pub charisma: StatValue,
    /// Armour rating.
    pub armour: StatValue,
    /// Evasion rating; also the one-shot protection threshold.
    pub evasion: StatValue,
    /// Fire resistance, in milli-percent.
    pub fire_resistance: StatValue,
    /// Cold resistance, in milli-percent.
    pub cold_resistance: StatValue,
    /// Lightning resistance, in milli-percent.
    pub lightning_resistance: StatValue,
    /// Chaos resistance, in milli-percent.
    pub chaos_resistance: StatValue,
    /// Accuracy rating: sets the damage cap against evasion.
    pub accuracy: StatValue,
    /// Global physical damage scaling.
    pub global_physical_damage: StatValue,
    /// Global fire damage scaling.
    pub global_fire_damage: StatValue,
    /// Global cold damage scaling.
    pub global_cold_damage: StatValue,
    /// Global lightning damage scaling.
    pub global_lightning_damage: StatValue,
    /// Global chaos damage scaling.
    pub global_chaos_damage: StatValue,
    /// Attack speed factor.
    pub attack_speed: StatValue,
    /// Cast speed factor.
    pub cast_speed: StatValue,
    /// Critical strike chance, in milli-percent points.
    pub critical_chance: StatValue,
    /// Critical strike multiplier.
    pub critical_multiplier: StatValue,
    /// Fire penetration, in milli-percent.
    pub fire_penetration: StatValue,
    /// Cold penetration, in milli-percent.
    pub cold_penetration: StatValue,
    /// Lightning penetration, in milli-percent.
    pub lightning_penetration: StatValue,
    /// Chaos penetration, in milli-percent.
    pub chaos_penetration: StatValue,
    /// Life regenerated per second.
    pub life_regen: StatValue,
    /// Mana regenerated per second.
    pub mana_regen: StatValue,
    /// Life leech fraction.
    pub life_leech: StatValue,
    /// Mana leech fraction.
    pub mana_leech: StatValue,
    /// Increased movement speed, as a milli fraction.
    pub movement_speed_increased: i64,
    /// Increased item rarity, as a milli fraction.
    pub item_rarity_increased: i64,
    /// Increased item quantity, as a milli fraction.
    pub item_quantity_increased: i64,
    /// Active timed effects owned by this block.
    pub effects: Vec<Effect>,
    /// Weapon physical damage, lower roll.
    pub weapon_physical_min: i64,
    /// Weapon physical damage, upper roll.
    pub weapon_physical_max: i64,
    /// Weapon fire damage, lower roll.
    pub weapon_fire_min: i64,
    /// Weapon fire damage, upper roll.
    pub weapon_fire_max: i64,
    /// Weapon cold damage, lower roll.
    pub weapon_cold_min: i64,
    /// Weapon cold damage, upper roll.
    pub weapon_cold_max: i64,
    /// Weapon lightning damage, lower roll.
    pub weapon_lightning_min: i64,
    /// Weapon lightning damage, upper roll.
    pub weapon_lightning_max: i64,
    /// Weapon chaos damage, lower roll.
    pub weapon_chaos_min: i64,
    /// Weapon chaos damage, upper roll.
    pub weapon_chaos_max: i64,
    /// Weapon attacks per second, as a milli factor.
    pub weapon_attack_speed: i64,
    /// Weapon critical chance, in milli-percent points.
    pub weapon_crit_chance: i64,
    /// Per-ailment stats and conversions.
    pub status_effect_stats: StatusEffectData,
}

/// A stat at its base value with no modifiers.
pub open spec fn sv_is_base(v: StatValue, base: int) -> bool {
    v.base == base && v.flat == 0 && v.increased == 0 && v.more@ == Seq::<i64>::empty()
}

/// A stat after an accumulator landed on its fresh state: flat and
/// increased contributions added, more list appended in order.
pub open spec fn sv_applied(n: StatValue, o: StatValue, flat: int, inc: int, more: Seq<i64>) -> bool {
    n.base == o.base && n.flat as int == clamp_amount(o.flat + flat) && n.increased as int
        == clamp_amount(o.increased + inc) && n.more@ == o.more@ + more
}

/// The fresh stat part a block starts from: the documented base
/// defaults, with every contribution slot empty.
pub open spec fn fresh_stats(b: StatBlock) -> bool {
    &&& sv_is_base(b.max_life, 50_000)
    &&& sv_is_base(b.max_mana, 40_000)
    &&& sv_is_base(b.strength, 10_000)
    &&& sv_is_base(b.dexterity, 10_000)
    &&& sv_is_base(b.intelligence, 10_000)
    &&& sv_is_base(b.constitution, 10_000)
    &&& sv_is_base(b.wisdom, 10_000)
    &&& sv_is_base(b.charisma, 10_000)
    &&& sv_is_base(b.armour, 0)
    &&& sv_is_base(b.evasion, 0)
    &&& sv_is_base(b.fire_resistance, 0)
    &&& sv_is_base(b.cold_resistance, 0)
    &&& sv_is_base(b.lightning_resistance, 0)
    &&& sv_is_base(b.chaos_resistance, 0)
    &&& sv_is_base(b.accuracy, 1_000_000)
    &&& sv_is_base(b.global_physical_damage, 0)
    &&& sv_is_base(b.global_fire_damage, 0)
    &&& sv_is_base(b.global_cold_damage, 0)
    &&& sv_is_base(b.global_lightning_damage, 0)
    &&& sv_is_base(b.global_chaos_damage, 0)
    &&& sv_is_base(b.attack_speed, 1_000)
    &&& sv_is_base(b.cast_speed, 1_000)
    &&& sv_is_base(b.critical_chance, 0)
    &&& sv_is_base(b.critical_multiplier, 1_500)
    &&& sv_is_base(b.fire_penetration, 0)
    &&& sv_is_base(b.cold_penetration, 0)
    &&& sv_is_base(b.lightning_penetration, 0)
    &&& sv_is_base(b.chaos_penetration, 0)
    &&& sv_is_base(b.life_regen, 0)
    &&& sv_is_base(b.mana_regen, 0)
    &&& sv_is_base(b.life_leech, 0)
    &&& sv_is_base(b.mana_leech, 0)
    &&& b.movement_speed_increased == 0
    &&& b.item_rarity_increased == 0
    &&& b.item_quantity_increased == 0
    &&& b.weapon_physical_min == 0
    &&& b.weapon_physical_max == 0
    &&& b.weapon_fire_min == 0
    &&& b.weapon_fire_max == 0
    &&& b.weapon_cold_min == 0
    &&& b.weapon_cold_max == 0
    &&& b.weapon_lightning_min == 0
    &&& b.weapon_lightning_max == 0
    &&& b.weapon_chaos_min == 0
    &&& b.weapon_chaos_max == 0
    &&& b.weapon_attack_speed == 1_000
    &&& b.weapon_crit_chance == 5_000
    &&& b.status_effect_stats == zero_status_data()
}

/// Saturating sum of the lower rolls gathered for one damage type.
pub open spec fn fold_elem_min(v0: int, s: Seq<(DamageType, i64, i64)>, dt: DamageType) -> int
    decreases s.len(),
{
    if s.len() == 0 {
        v0
    } else {
        let prev = fold_elem_min(v0, s.drop_last(), dt);
        if s.last().0 == dt {
            clamp_amount(prev + s.last().1)
        } else {
            prev
        }
    }
}

/// Saturating sum of the upper rolls gathered for one damage type.
pub open spec fn fold_elem_max(v0: int, s: Seq<(DamageType, i64, i64)>, dt: DamageType) -> int
    decreases s.len(),
{
    if s.len() == 0 {
        v0
    } else {
        let prev = fold_elem_max(v0, s.drop_last(), dt);
        if s.last().0 == dt {
            clamp_amount(prev + s.last().2)
        } else {
            prev
        }
    }
}

/// The block `n` is the block `o` with the accumulator model `m`
/// applied: every stat receives its contributions, weapon fields are
/// set by a main-hand weapon's rolls, elemental weapon rolls add up,
/// and the status table is taken whole. Identity, resources and
/// effects stay untouched.
pub open spec fn block_applied(n: StatBlock, o: StatBlock, m: AccModel) -> bool {
    &&& sv_applied(n.max_life, o.max_life, m.life_flat, m.life_increased, m.life_more)
    &&& sv_applied(n.max_mana, o.max_mana, m.mana_flat, m.mana_increased, m.mana_more)
    &&& sv_applied(n.strength, o.strength, clamp_amount(m.strength_flat + m.all_attributes_flat), 0, Seq::<i64>::empty())
    &&& sv_applied(n.dexterity, o.dexterity, clamp_amount(m.dexterity_flat + m.all_attributes_flat), 0, Seq::<i64>::empty())
    &&& sv_applied(n.intelligence, o.intelligence, clamp_amount(m.intelligence_flat + m.all_attributes_flat), 0, Seq::<i64>::empty())
    &&& sv_applied(n.constitution, o.constitution, clamp_amount(m.constitution_flat + m.all_attributes_flat), 0, Seq::<i64>::empty())
    &&& sv_applied(n.wisdom, o.wisdom, clamp_amount(m.wisdom_flat + m.all_attributes_flat), 0, Seq::<i64>::empty())
    &&& sv_applied(n.charisma, o.charisma, clamp_amount(m.charisma_flat + m.all_attributes_flat), 0, Seq::<i64>::empty())
    &&& sv_applied(n.armour, o.armour, m.armour_flat, m.armour_increased, Seq::<i64>::empty())
    &&& sv_applied(n.evasion, o.evasion, m.evasion_flat, m.evasion_increased, Seq::<i64>::empty())
    &&& sv_applied(n.fire_resistance, o.fire_resistance, clamp_amount(m.fire_resistance + m.all_resistances), 0, Seq::<i64>::empty())
    &&& sv_applied(n.cold_resistance, o.cold_resistance, clamp_amount(m.cold_resistance + m.all_resistances), 0, Seq::<i64>::empty())
    &&& sv_applied(n.lightning_resistance, o.lightning_resistance, clamp_amount(m.lightning_resistance + m.all_resistances), 0, Seq::<i64>::empty())
    &&& sv_applied(n.chaos_resistance, o.chaos_resistance, m.chaos_resistance, 0, Seq::<i64>::empty())
    &&& sv_applied(n.accuracy, o.accuracy, m.accuracy_flat, m.accuracy_increased, Seq::<i64>::empty())
    &&& sv_applied(n.global_physical_damage, o.global_physical_damage, m.physical_damage_flat, m.physical_damage_increased, m.physical_damage_more)
    &&& sv_applied(n.global_fire_damage, o.global_fire_damage, m.fire_damage_flat, clamp_amount(m.fire_damage_increased + m.elemental_damage_increased), m.fire_damage_more)
    &&& sv_applied(n.global_cold_damage, o.global_cold_damage, m.cold_damage_flat, clamp_amount(m.cold_damage_increased + m.elemental_damage_increased), m.cold_damage_more)
    &&& sv_applied(n.global_lightning_damage, o.global_lightning_damage, m.lightning_damage_flat, clamp_amount(m.lightning_damage_increased + m.elemental_damage_increased), m.lightning_damage_more)
    &&& sv_applied(n.global_chaos_damage, o.global_chaos_damage, m.chaos_damage_flat, m.chaos_damage_increased, m.chaos_damage_more)
    &&& sv_applied(n.attack_speed, o.attack_speed, 0, m.attack_speed_increased, Seq::<i64>::empty())
    &&& sv_applied(n.cast_speed, o.cast_speed, 0, m.cast_speed_increased, Seq::<i64>::empty())
    &&& sv_applied(n.critical_chance, o.critical_chance, m.critical_chance_flat, m.critical_chance_increased, Seq::<i64>::empty())
    &&& sv_applied(n.critical_multiplier, o.critical_multiplier, m.critical_multiplier_flat, 0, Seq::<i64>::empty())
    &&& sv_applied(n.fire_penetration, o.fire_penetration, m.fire_penetration, 0, Seq::<i64>::empty())
    &&& sv_applied(n.cold_penetration, o.cold_penetration, m.cold_penetration, 0, Seq::<i64>::empty())
    &&& sv_applied(n.lightning_penetration, o.lightning_penetration, m.lightning_penetration, 0, Seq::<i64>::empty())
    &&& sv_applied(n.chaos_penetration, o.chaos_penetration, m.chaos_penetration, 0, Seq::<i64>::empty())
    &&& sv_applied(n.life_regen, o.life_regen, m.life_regen_flat, 0, Seq::<i64>::empty())
    &&& sv_applied(n.mana_regen, o.mana_regen, m.mana_regen_flat, 0, Seq::<i64>::empty())
    &&& sv_applied(n.life_leech, o.life_leech, m.life_leech_percent, 0, Seq::<i64>::empty())
    &&& sv_applied(n.mana_leech, o.mana_leech, m.mana_leech_percent, 0, Seq::<i64>::empty())
    &&& n.movement_speed_increased as int == clamp_amount(o.movement_speed_increased + m.movement_speed_increased)
    &&& n.item_rarity_increased as int == clamp_amount(o.item_rarity_increased + m.item_rarity_increased)
    &&& n.item_quantity_increased as int == clamp_amount(o.item_quantity_increased + m.item_quantity_increased)
    &&& if m.weapon_physical_min > 0 || m.weapon_physical_max > 0 {
        n.weapon_physical_min as int == factor_applied(m.weapon_physical_min, m.weapon_physical_increased)
            && n.weapon_physical_max as int == factor_applied(m.weapon_physical_max, m.weapon_physical_increased)
    } else {
        n.weapon_physical_min == o.weapon_physical_min && n.weapon_physical_max == o.weapon_physical_max
    }
    &&& if m.weapon_attack_speed > 0 {
        n.weapon_attack_speed as int == m.weapon_attack_speed
    } else {
        n.weapon_attack_speed == o.weapon_attack_speed
    }
    &&& if m.weapon_crit_chance > 0 {
        n.weapon_crit_chance as int == m.weapon_crit_chance
    } else {
        n.weapon_crit_chance == o.weapon_crit_chance
    }
    &&& n.weapon_fire_min as int == fold_elem_min(o.weapon_fire_min as int, m.weapon_elemental_damages, DamageType::Fire)
    &&& n.weapon_fire_max as int == fold_elem_max(o.weapon_fire_max as int, m.weapon_elemental_damages, DamageType::Fire)
    &&& n.weapon_cold_min as int == fold_elem_min(o.weapon_cold_min as int, m.weapon_elemental_damages, DamageType::Cold)
    &&& n.weapon_cold_max as int == fold_elem_max(o.weapon_cold_max as int, m.weapon_elemental_damages, DamageType::Cold)
    &&& n.weapon_lightning_min as int == fold_elem_min(o.weapon_lightning_min as int, m.weapon_elemental_damages, DamageType::Lightning)
    &&& n.weapon_lightning_max as int == fold_elem_max(o.weapon_lightning_max as int, m.weapon_elemental_damages, DamageType::Lightning)
    &&& n.weapon_chaos_min as int == fold_elem_min(o.weapon_chaos_min as int, m.weapon_elemental_damages, DamageType::Chaos)
    &&& n.weapon_chaos_max as int == fold_elem_max(o.weapon_chaos_max as int, m.weapon_elemental_damages, DamageType::Chaos)
    &&& n.status_effect_stats == model_status_data(m)
    &&& n.id == o.id
    &&& n.equipped_items == o.equipped_items
    &&& n.buff_sources == o.buff_sources
    &&& n.effects == o.effects
    &&& n.current_life == o.current_life
    &&& n.current_mana == o.current_mana
    &&& n.current_energy_shield == o.current_energy_shield
    &&& n.max_energy_shield == o.max_energy_shield
}

impl StatBlock {
    /// Create a block with the documented base defaults and an id.
    pub fn with_id(id: &str) -> (r: StatBlock)
        ensures
            r.id@ == id@,
            fresh_stats(r),
            r.equipped_items@ =~= Seq::<(EquipmentSlot, Item)>::empty(),
            r.buff_sources@ =~= Seq::<BuffSource>::empty(),
            r.effects@ =~= Seq::<Effect>::empty(),
            r.current_life == 50_000,
            r.current_mana == 40_000,
            r.max_energy_shield == 0,
            r.current_energy_shield == 0,
    {
        StatBlock {
            id: id.to_owned(),
            equipped_items: Vec::new(),
            buff_sources: Vec::new(),
            max_life: StatValue::with_base(50_000),
            current_life: 50_000,
            max_mana: StatValue::with_base(40_000),
            current_mana: 40_000,
            max_energy_shield: 0,
            current_energy_shield: 0,
            strength: StatValue::with_base(10_000),
            dexterity: StatValue::with_base(10_000),
            intelligence: StatValue::with_base(10_000),
            constitution: StatValue::with_base(10_000),
            wisdom: StatValue::with_base(10_000),
            charisma: StatValue::with_base(10_000),
            armour: StatValue::with_base(0),
            evasion: StatValue::with_base(0),
            fire_resistance: StatValue::with_base(0),
            cold_resistance: StatValue::with_base(0),
            lightning_resistance: StatValue::with_base(0),
            chaos_resistance: StatValue::with_base(0),
            accuracy: StatValue::with_base(1_000_000),
            global_physical_damage: StatValue::with_base(0),
            global_fire_damage: StatValue::with_base(0),
            global_cold_damage: StatValue::with_base(0),
            global_lightning_damage: StatValue::with_base(0),
            global_chaos_damage: StatValue::with_base(0),
            attack_speed: StatValue::with_base(1_000),
            cast_speed: StatValue::with_base(1_000),
            critical_chance: StatValue::with_base(0),
            critical_multiplier: StatValue::with_base(1_500),
            fire_penetration: StatValue::with_base(0),
            cold_penetration: StatValue::with_base(0),
            lightning_penetration: StatValue::with_base(0),
            chaos_penetration: StatValue::with_base(0),
            life_regen: StatValue::with_base(0),
            mana_regen: StatValue::with_base(0),
            life_leech: StatValue::with_base(0),
            mana_leech: StatValue::with_base(0),
            movement_speed_increased: 0,
            item_rarity_increased: 0,
            item_quantity_increased: 0,
            effects: Vec::new(),
            weapon_physical_min: 0,
            weapon_physical_max: 0,
            weapon_fire_min: 0,
            weapon_fire_max: 0,
            weapon_cold_min: 0,
            weapon_cold_max: 0,
            weapon_lightning_min: 0,
            weapon_lightning_max: 0,
            weapon_chaos_min: 0,
            weapon_chaos_max: 0,
            weapon_attack_speed: 1_000,
            weapon_crit_chance: 5_000,
            status_effect_stats: StatusEffectData {
                poison: StatusEffectStats { dot_increased: 0, duration_increased: 0, magnitude: 0, max_stacks: 0 },
                poison_conversions: StatusConversions { from_physical: 0, from_fire: 0, from_cold: 0, from_lightning: 0, from_chaos: 0 },
                bleed: StatusEffectStats { dot_increased: 0, duration_increased: 0, magnitude: 0, max_stacks: 0 },
                bleed_conversions: StatusConversions { from_physical: 0, from_fire: 0, from_cold: 0, from_lightning: 0, from_chaos: 0 },
                burn: StatusEffectStats { dot_increased: 0, duration_increased: 0, magnitude: 0, max_stacks: 0 },
                burn_conversions: StatusConversions { from_physical: 0, from_fire: 0, from_cold: 0, from_lightning: 0, from_chaos: 0 },
                freeze: StatusEffectStats { dot_increased: 0, duration_increased: 0, magnitude: 0, max_stacks: 0 },
                freeze_conversions: StatusConversions { from_physical: 0, from_fire: 0, from_cold: 0, from_lightning: 0, from_chaos: 0 },
                chill: StatusEffectStats { dot_increased: 0, duration_increased: 0, magnitude: 0, max_stacks: 0 },
                chill_conversions: StatusConversions { from_physical: 0, from_fire: 0, from_cold: 0, from_lightning: 0, from_chaos: 0 },
                static_effect: StatusEffectStats { dot_increased: 0, duration_increased: 0, magnitude: 0, max_stacks: 0 },
                static_conversions: StatusConversions { from_physical: 0, from_fire: 0, from_cold: 0, from_lightning: 0, from_chaos: 0 },
                fear: StatusEffectStats { dot_increased: 0, duration_increased: 0, magnitude: 0, max_stacks: 0 },
                fear_conversions: StatusConversions { from_physical: 0, from_fire: 0, from_cold: 0, from_lightning: 0, from_chaos: 0 },
                slow: StatusEffectStats { dot_increased: 0, duration_increased: 0, magnitude: 0, max_stacks: 0 },
                slow_conversions: StatusConversions { from_physical: 0, from_fire: 0, from_cold: 0, from_lightning: 0, from_chaos: 0 },
            },
        }
    }

    /// Create a block with the default id.
    pub fn new() -> (r: StatBlock)
        ensures
            r.id@ == "entity"@,
            fresh_stats(r),
            r.equipped_items@ =~= Seq::<(EquipmentSlot, Item)>::empty(),
            r.buff_sources@ =~= Seq::<BuffSource>::empty(),
            r.effects@ =~= Seq::<Effect>::empty(),
            r.current_life == 50_000,
            r.current_mana == 40_000,
            r.max_energy_shield == 0,
            r.current_energy_shield == 0,
    {
        Self::with_id("entity")
    }
}

impl StatAccumulator {
    /// Apply the accumulated contributions onto a block.
    pub fn apply_to(&self, block: &mut StatBlock)
        ensures
            block_applied(*final(block), *old(block), self@),
    {
        block.max_life.add_flat(self.life_flat);
        block.max_life.add_increased(self.life_increased);
        block.max_life.add_more_list(&self.life_more);
        block.max_mana.add_flat(self.mana_flat);
        block.max_mana.add_increased(self.mana_increased);
        block.max_mana.add_more_list(&self.mana_more);
        block.strength.add_flat(sat_add(self.strength_flat, self.all_attributes_flat));
        block.strength.add_increased(0);
        block.dexterity.add_flat(sat_add(self.dexterity_flat, self.all_attributes_flat));
        block.dexterity.add_increased(0);
        block.intelligence.add_flat(sat_add(self.intelligence_flat, self.all_attributes_flat));
        block.intelligence.add_increased(0);
        block.constitution.add_flat(sat_add(self.constitution_flat, self.all_attributes_flat));
        block.constitution.add_increased(0);
        block.wisdom.add_flat(sat_add(self.wisdom_flat, self.all_attributes_flat));
        block.wisdom.add_increased(0);
        block.charisma.add_flat(sat_add(self.charisma_flat, self.all_attributes_flat));
        block.charisma.add_increased(0);
        block.armour.add_flat(self.armour_flat);
        block.armour.add_increased(self.armour_increased);
        block.evasion.add_flat(self.evasion_flat);
        block.evasion.add_increased(self.evasion_increased);
        block.fire_resistance.add_flat(sat_add(self.fire_resistance, self.all_resistances));
        block.fire_resistance.add_increased(0);
        block.cold_resistance.add_flat(sat_add(self.cold_resistance, self.all_resistances));
        block.cold_resistance.add_increased(0);
        block.lightning_resistance.add_flat(sat_add(self.lightning_resistance, self.all_resistances));
        block.lightning_resistance.add_increased(0);
        block.chaos_resistance.add_flat(self.chaos_resistance);
        block.chaos_resistance.add_increased(0);
        block.accuracy.add_flat(self.accuracy_flat);
        block.accuracy.add_increased(self.accuracy_increased);
        block.global_physical_damage.add_flat(self.physical_damage_flat);
        block.global_physical_damage.add_increased(self.physical_damage_increased);
        block.global_physical_damage.add_more_list(&self.physical_damage_more);
        block.global_fire_damage.add_flat(self.fire_damage_flat);
        block.global_fire_damage.add_increased(sat_add(self.fire_damage_increased, self.elemental_damage_increased));
        block.global_fire_damage.add_more_list(&self.fire_damage_more);
        block.global_cold_damage.add_flat(self.cold_damage_flat);
        block.global_cold_damage.add_increased(sat_add(self.cold_damage_increased, self.elemental_damage_increased));
        block.global_cold_damage.add_more_list(&self.cold_damage_more);
        block.global_lightning_damage.add_flat(self.lightning_damage_flat);
        block.global_lightning_damage.add_increased(sat_add(self.lightning_damage_increased, self.elemental_damage_increased));
        block.global_lightning_damage.add_more_list(&self.lightning_damage_more);
        block.global_chaos_damage.add_flat(self.chaos_damage_flat);
        block.global_chaos_damage.add_increased(self.chaos_damage_increased);
        block.global_chaos_damage.add_more_list(&self.chaos_damage_more);
        block.attack_speed.add_flat(0);
        block.attack_speed.add_increased(self.attack_speed_increased);
        block.cast_speed.add_flat(0);
        block.cast_speed.add_increased(self.cast_speed_increased);
        block.critical_chance.add_flat(self.critical_chance_flat);
        block.critical_chance.add_increased(self.critical_chance_increased);
        block.critical_multiplier.add_flat(self.critical_multiplier_flat);
        block.critical_multiplier.add_increased(0);
        block.fire_penetration.add_flat(self.fire_penetration);
        block.fire_penetration.add_increased(0);
        block.cold_penetration.add_flat(self.cold_penetration);
        block.cold_penetration.add_increased(0);
        block.lightning_penetration.add_flat(self.lightning_penetration);
        block.lightning_penetration.add_increased(0);
        block.chaos_penetration.add_flat(self.chaos_penetration);
        block.chaos_penetration.add_increased(0);
        block.life_regen.add_flat(self.life_regen_flat);
        block.life_regen.add_increased(0);
        block.mana_regen.add_flat(self.mana_regen_flat);
        block.mana_regen.add_increased(0);
        block.life_leech.add_flat(self.life_leech_percent);
        block.life_leech.add_increased(0);
        block.mana_leech.add_flat(self.mana_leech_percent);
        block.mana_leech.add_increased(0);
        block.movement_speed_increased = sat_add(block.movement_speed_increased, self.movement_speed_increased);
        block.item_rarity_increased = sat_add(block.item_rarity_increased, self.item_rarity_increased);
        block.item_quantity_increased = sat_add(block.item_quantity_increased, self.item_quantity_increased);
        if self.weapon_physical_min > 0 || self.weapon_physical_max > 0 {
            block.weapon_physical_min = sat_factor(self.weapon_physical_min, self.weapon_physical_increased);
            block.weapon_physical_max = sat_factor(self.weapon_physical_max, self.weapon_physical_increased);
        }
        if self.weapon_attack_speed > 0 {
            block.weapon_attack_speed = self.weapon_attack_speed;
        }
        if self.weapon_crit_chance > 0 {
            block.weapon_crit_chance = self.weapon_crit_chance;
        }
        let mut w_fire_min: i64 = block.weapon_fire_min;
        let mut w_fire_max: i64 = block.weapon_fire_max;
        let mut w_cold_min: i64 = block.weapon_cold_min;
        let mut w_cold_max: i64 = block.weapon_cold_max;
        let mut w_lightning_min: i64 = block.weapon_lightning_min;
        let mut w_lightning_max: i64 = block.weapon_lightning_max;
        let mut w_chaos_min: i64 = block.weapon_chaos_min;
        let mut w_chaos_max: i64 = block.weapon_chaos_max;
        let mut i: usize = 0;
        while i < self.weapon_elemental_damages.len()
            invariant
                i <= self.weapon_elemental_damages.len(),
                w_fire_min as int == fold_elem_min(old(block).weapon_fire_min as int, self.weapon_elemental_damages@.subrange(0, i as int), DamageType::Fire),
                w_fire_max as int == fold_elem_max(old(block).weapon_fire_max as int, self.weapon_elemental_damages@.subrange(0, i as int), DamageType::Fire),
                w_cold_min as int == fold_elem_min(old(block).weapon_cold_min as int, self.weapon_elemental_damages@.subrange(0, i as int), DamageType::Cold),
                w_cold_max as int == fold_elem_max(old(block).weapon_cold_max as int, self.weapon_elemental_damages@.subrange(0, i as int), DamageType::Cold),
                w_lightning_min as int == fold_elem_min(old(block).weapon_lightning_min as int, self.weapon_elemental_damages@.subrange(0, i as int), DamageType::Lightning),
                w_lightning_max as int == fold_elem_max(old(block).weapon_lightning_max as int, self.weapon_elemental_damages@.subrange(0, i as int), DamageType::Lightning),
                w_chaos_min as int == fold_elem_min(old(block).weapon_chaos_min as int, self.weapon_elemental_damages@.subrange(0, i as int), DamageType::Chaos),
                w_chaos_max as int == fold_elem_max(old(block).weapon_chaos_max as int, self.weapon_elemental_damages@.subrange(0, i as int), DamageType::Chaos),
                block.weapon_fire_min == old(block).weapon_fire_min,
            decreases self.weapon_elemental_damages.len() - i,
        {
            let (dt, mn, mx) = self.weapon_elemental_damages[i];
            proof {
                let full = self.weapon_elemental_damages@;
                assert(full.subrange(0, i as int + 1).drop_last() =~= full.subrange(0, i as int));
                assert(full.subrange(0, i as int + 1).last() == full[i as int]);
            }
            match dt {
                DamageType::Fire => {
                    w_fire_min = sat_add(w_fire_min, mn);
                    w_fire_max = sat_add(w_fire_max, mx);
                },
                DamageType::Cold => {
                    w_cold_min = sat_add(w_cold_min, mn);
                    w_cold_max = sat_add(w_cold_max, mx);
                },
                DamageType::Lightning => {
                    w_lightning_min = sat_add(w_lightning_min, mn);
                    w_lightning_max = sat_add(w_lightning_max, mx);
                },
                DamageType::Chaos => {
                    w_chaos_min = sat_add(w_chaos_min, mn);
                    w_chaos_max = sat_add(w_chaos_max, mx);
                },
                DamageType::Physical => {},
            }
            i = i + 1;
        }
        proof {
            assert(self.weapon_elemental_damages@.subrange(
                0,
                self.weapon_elemental_damages@.len() as int,
            ) =~= self.weapon_elemental_damages@);
        }
        block.weapon_fire_min = w_fire_min;
        block.weapon_fire_max = w_fire_max;
        block.weapon_cold_min = w_cold_min;
        block.weapon_cold_max = w_cold_max;
        block.weapon_lightning_min = w_lightning_min;
        block.weapon_lightning_max = w_lightning_max;
        block.weapon_chaos_min = w_chaos_min;
        block.weapon_chaos_max = w_chaos_max;
        block.status_effect_stats = StatusEffectData {
            poison: self.get_status_stats(StatusEffect::Poison),
            poison_conversions: self.get_status_conversions(StatusEffect::Poison),
            bleed: self.get_status_stats(StatusEffect::Bleed),
            bleed_conversions: self.get_status_conversions(StatusEffect::Bleed),
            burn: self.get_status_stats(StatusEffect::Burn),
            burn_conversions: self.get_status_conversions(StatusEffect::Burn),
            freeze: self.get_status_stats(StatusEffect::Freeze),
            freeze_conversions: self.get_status_conversions(StatusEffect::Freeze),
            chill: self.get_status_stats(StatusEffect::Chill),
            chill_conversions: self.get_status_conversions(StatusEffect::Chill),
            static_effect: self.get_status_stats(StatusEffect::Static),
            static_conversions: self.get_status_conversions(StatusEffect::Static),
            fear: self.get_status_stats(StatusEffect::Fear),
            fear_conversions: self.get_status_conversions(StatusEffect::Fear),
            slow: self.get_status_stats(StatusEffect::Slow),
            slow_conversions: self.get_status_conversions(StatusEffect::Slow),
        };
    }
}


// ---------------------------------------------------------------------
// Derived quantities
// ---------------------------------------------------------------------

impl StatBlock {
    /// The resistance facing one damage type; physical has none,
    /// armour plays that role.
    pub open spec fn resistance_spec(self, dt: DamageType) -> int {
        match dt {
            DamageType::Physical => 0,
            DamageType::Fire => self.fire_resistance.compute_spec(),
            DamageType::Cold => self.cold_resistance.compute_spec(),
            DamageType::Lightning => self.lightning_resistance.compute_spec(),
            DamageType::Chaos => self.chaos_resistance.compute_spec(),
        }
    }

    /// The penetration granted against one damage type; penetration of
    /// physical damage is defined to be zero.
    pub open spec fn penetration_spec(self, dt: DamageType) -> int {
        match dt {
            DamageType::Physical => 0,
            DamageType::Fire => self.fire_penetration.compute_spec(),
            DamageType::Cold => self.cold_penetration.compute_spec(),
            DamageType::Lightning => self.lightning_penetration.compute_spec(),
            DamageType::Chaos => self.chaos_penetration.compute_spec(),
        }
    }

    /// Whether the entity is alive.
    pub fn is_alive(&self) -> (r: bool)
        ensures
            r == (self.current_life > 0),
    {
        self.current_life > 0
    }

    /// Computed maximum life.
    pub fn computed_max_life(&self) -> (r: i64)
        ensures
            r as int == self.max_life.compute_spec(),
    {
        self.max_life.compute()
    }

    /// Computed maximum mana.
    pub fn computed_max_mana(&self) -> (r: i64)
        ensures
            r as int == self.max_mana.compute_spec(),
    {
        self.max_mana.compute()
    }

    /// Heal life, capped at the computed maximum.
    pub fn heal(&mut self, amount: i64)
        ensures
            final(self).current_life as int == min_spec(
                clamp_amount(old(self).current_life + amount),
                old(self).max_life.compute_spec(),
            ),
            *final(self) == (StatBlock { current_life: final(self).current_life, ..*old(self) }),
    {
        let mx = self.max_life.compute();
        self.current_life = min64(sat_add(self.current_life, amount), mx);
    }

    /// Restore mana, capped at the computed maximum.
    pub fn restore_mana(&mut self, amount: i64)
        ensures
            final(self).current_mana as int == min_spec(
                clamp_amount(old(self).current_mana + amount),
                old(self).max_mana.compute_spec(),
            ),
            *final(self) == (StatBlock { current_mana: final(self).current_mana, ..*old(self) }),
    {
        let mx = self.max_mana.compute();
        self.current_mana = min64(sat_add(self.current_mana, amount), mx);
    }

    /// Grant energy shield, capped at the maximum.
    pub fn apply_energy_shield(&mut self, amount: i64)
        ensures
            final(self).current_energy_shield as int == min_spec(
                clamp_amount(old(self).current_energy_shield + amount),
                old(self).max_energy_shield as int,
            ),
            *final(self) == (StatBlock {
                current_energy_shield: final(self).current_energy_shield,
                ..*old(self)
            }),
    {
        self.current_energy_shield = min64(
            sat_add(self.current_energy_shield, amount),
            self.max_energy_shield,
        );
    }

    /// Set the energy-shield capacity, clamping the current value.
    pub fn set_max_energy_shield(&mut self, amount: i64)
        ensures
            final(self).max_energy_shield == amount,
            final(self).current_energy_shield as int == min_spec(
                old(self).current_energy_shield as int,
                amount as int,
            ),
            *final(self) == (StatBlock {
                max_energy_shield: amount,
                current_energy_shield: final(self).current_energy_shield,
                ..*old(self)
            }),
    {
        self.max_energy_shield = amount;
        self.current_energy_shield = min64(self.current_energy_shield, amount);
    }

    /// The damage scaling multiplier for one type, at least one.
    pub fn damage_multiplier(&self, dt: DamageType) -> (r: i64)
        ensures
            r as int == max_spec(
                match dt {
                    DamageType::Physical => self.global_physical_damage.compute_spec(),
                    DamageType::Fire => self.global_fire_damage.compute_spec(),
                    DamageType::Cold => self.global_cold_damage.compute_spec(),
                    DamageType::Lightning => self.global_lightning_damage.compute_spec(),
                    DamageType::Chaos => self.global_chaos_damage.compute_spec(),
                },
                SCALE as int,
            ),
    {
        let v = match dt {
            DamageType::Physical => self.global_physical_damage.compute(),
            DamageType::Fire => self.global_fire_damage.compute(),
            DamageType::Cold => self.global_cold_damage.compute(),
            DamageType::Lightning => self.global_lightning_damage.compute(),
            DamageType::Chaos => self.global_chaos_damage.compute(),
        };
        crate::fixed::max64(v, SCALE)
    }

    /// The resistance value for a damage type.
    pub fn resistance(&self, dt: DamageType) -> (r: i64)
        ensures
            r as int == self.resistance_spec(dt),
    {
        match dt {
            DamageType::Physical => 0,
            DamageType::Fire => self.fire_resistance.compute(),
            DamageType::Cold => self.cold_resistance.compute(),
            DamageType::Lightning => self.lightning_resistance.compute(),
            DamageType::Chaos => self.chaos_resistance.compute(),
        }
    }

    /// The penetration value for a damage type.
    pub fn penetration(&self, dt: DamageType) -> (r: i64)
        ensures
            r as int == self.penetration_spec(dt),
    {
        match dt {
            DamageType::Physical => 0,
            DamageType::Fire => self.fire_penetration.compute(),
            DamageType::Cold => self.cold_penetration.compute(),
            DamageType::Lightning => self.lightning_penetration.compute(),
            DamageType::Chaos => self.chaos_penetration.compute(),
        }
    }

    /// Computed attack speed: the attack-speed stat scaled by the
    /// weapon's own speed.
    pub open spec fn computed_attack_speed_spec(self) -> int {
        scaled(self.attack_speed.compute_spec(), self.weapon_attack_speed as int)
    }

    /// Get the computed attack speed.
    pub fn computed_attack_speed(&self) -> (r: i64)
        ensures
            r as int == self.computed_attack_speed_spec(),
    {
        sat_scaled(self.attack_speed.compute(), self.weapon_attack_speed)
    }

    /// Get the computed cast speed.
    pub fn computed_cast_speed(&self) -> (r: i64)
        ensures
            r as int == self.cast_speed.compute_spec(),
    {
        self.cast_speed.compute()
    }

    /// Computed critical chance for attacks: weapon base plus flat
    /// bonuses, scaled by increased and more crit chance.
    pub open spec fn computed_attack_crit_chance_spec(self) -> int {
        scaled(
            factor_applied(
                clamp_amount(self.weapon_crit_chance + self.critical_chance.flat),
                self.critical_chance.increased as int,
            ),
            crate::stat_value::apply_more_prefix(
                SCALE as int,
                self.critical_chance.more@,
                self.critical_chance.more@.len() as int,
            ),
        )
    }

    /// Get the computed critical chance for attacks.
    pub fn computed_attack_crit_chance(&self) -> (r: i64)
        ensures
            r as int == self.computed_attack_crit_chance_spec(),
    {
        let base = sat_add(self.weapon_crit_chance, self.critical_chance.flat);
        let with_inc = crate::fixed::sat_factor(base, self.critical_chance.increased);
        sat_scaled(with_inc, self.critical_chance.total_more_multiplier())
    }

    /// Get the computed critical multiplier.
    pub fn computed_crit_multiplier(&self) -> (r: i64)
        ensures
            r as int == self.critical_multiplier.compute_spec(),
    {
        self.critical_multiplier.compute()
    }

    /// The weapon damage range carried for one type.
    pub open spec fn weapon_damage_spec(self, dt: DamageType) -> (i64, i64) {
        match dt {
            DamageType::Physical => (self.weapon_physical_min, self.weapon_physical_max),
            DamageType::Fire => (self.weapon_fire_min, self.weapon_fire_max),
            DamageType::Cold => (self.weapon_cold_min, self.weapon_cold_max),
            DamageType::Lightning => (self.weapon_lightning_min, self.weapon_lightning_max),
            DamageType::Chaos => (self.weapon_chaos_min, self.weapon_chaos_max),
        }
    }

    /// Get the weapon damage range for a damage type.
    pub fn weapon_damage(&self, dt: DamageType) -> (r: (i64, i64))
        ensures
            r == self.weapon_damage_spec(dt),
    {
        match dt {
            DamageType::Physical => (self.weapon_physical_min, self.weapon_physical_max),
            DamageType::Fire => (self.weapon_fire_min, self.weapon_fire_max),
            DamageType::Cold => (self.weapon_cold_min, self.weapon_cold_max),
            DamageType::Lightning => (self.weapon_lightning_min, self.weapon_lightning_max),
            DamageType::Chaos => (self.weapon_chaos_min, self.weapon_chaos_max),
        }
    }

    /// Total weapon damage per second: the summed average rolls times
    /// the weapon's attack speed.
    pub fn weapon_dps(&self) -> (r: i64)
        ensures
            r as int == scaled(
                clamp_amount(
                    clamp_amount(
                        clamp_amount(
                            clamp_amount(
                                clamp_amount(self.weapon_physical_min + self.weapon_physical_max)
                                    / 2 + clamp_amount(
                                    self.weapon_fire_min + self.weapon_fire_max,
                                ) / 2,
                            ) + clamp_amount(self.weapon_cold_min + self.weapon_cold_max) / 2,
                        ) + clamp_amount(self.weapon_lightning_min + self.weapon_lightning_max)
                            / 2,
                    ) + clamp_amount(self.weapon_chaos_min + self.weapon_chaos_max) / 2,
                ),
                self.weapon_attack_speed as int,
            ),
    {
        let phys = crate::fixed::divc_floor(
            sat_add(self.weapon_physical_min, self.weapon_physical_max),
            2,
        );
        let fire = crate::fixed::divc_floor(sat_add(self.weapon_fire_min, self.weapon_fire_max), 2);
        let cold = crate::fixed::divc_floor(sat_add(self.weapon_cold_min, self.weapon_cold_max), 2);
        let light = crate::fixed::divc_floor(
            sat_add(self.weapon_lightning_min, self.weapon_lightning_max),
            2,
        );
        let chaos = crate::fixed::divc_floor(
            sat_add(self.weapon_chaos_min, self.weapon_chaos_max),
            2,
        );
        let total = sat_add(sat_add(sat_add(sat_add(phys, fire), cold), light), chaos);
        sat_scaled(total, self.weapon_attack_speed)
    }

    /// Share of life remaining, in milli-percent.
    pub fn life_percent(&self) -> (r: i64)
        ensures
            r as int == if self.max_life.compute_spec() <= 0 {
                0
            } else {
                clamp_spec(
                    muldiv(
                        self.current_life as int,
                        FULL_PERCENT as int,
                        self.max_life.compute_spec(),
                    ),
                    0,
                    FULL_PERCENT as int,
                )
            },
    {
        let mx = self.max_life.compute();
        if mx <= 0 {
            return 0;
        }
        let v = sat_muldiv(self.current_life, FULL_PERCENT, mx);
        if v < 0 {
            0
        } else if v > FULL_PERCENT {
            FULL_PERCENT
        } else {
            v
        }
    }

    /// Share of mana remaining, in milli-percent.
    pub fn mana_percent(&self) -> (r: i64)
        ensures
            r as int == if self.max_mana.compute_spec() <= 0 {
                0
            } else {
                clamp_spec(
                    muldiv(
                        self.current_mana as int,
                        FULL_PERCENT as int,
                        self.max_mana.compute_spec(),
                    ),
                    0,
                    FULL_PERCENT as int,
                )
            },
    {
        let mx = self.max_mana.compute();
        if mx <= 0 {
            return 0;
        }
        let v = sat_muldiv(self.current_mana, FULL_PERCENT, mx);
        if v < 0 {
            0
        } else if v > FULL_PERCENT {
            FULL_PERCENT
        } else {
            v
        }
    }

    /// Share of energy shield remaining, in milli-percent.
    pub fn energy_shield_percent(&self) -> (r: i64)
        ensures
            r as int == if self.max_energy_shield <= 0 {
                0
            } else {
                clamp_spec(
                    muldiv(
                        self.current_energy_shield as int,
                        FULL_PERCENT as int,
                        self.max_energy_shield as int,
                    ),
                    0,
                    FULL_PERCENT as int,
                )
            },
    {
        if self.max_energy_shield <= 0 {
            return 0;
        }
        let v = sat_muldiv(self.current_energy_shield, FULL_PERCENT, self.max_energy_shield);
        if v < 0 {
            0
        } else if v > FULL_PERCENT {
            FULL_PERCENT
        } else {
            v
        }
    }

    /// Drop all active effects.
    pub fn clear_effects(&mut self)
        ensures
            final(self).effects@ =~= Seq::<Effect>::empty(),
            *final(self) == (StatBlock { effects: final(self).effects, ..*old(self) }),
    {
        self.effects.clear();
    }
}



// ---------------------------------------------------------------------
// Rebuild
// ---------------------------------------------------------------------

/// A stat rebuilt from scratch: its base default plus the accumulated
/// contributions, with the gathered more list taken whole.
pub open spec fn sv_rebuilt(n: StatValue, base: int, flat: int, inc: int, more: Seq<i64>) -> bool {
    n.base == base && n.flat as int == clamp_amount(flat) && n.increased as int == clamp_amount(
        inc,
    ) && n.more@ == more
}

/// The stat part of a block rebuilt from an accumulator model: every
/// value is its documented default plus the model's contributions.
pub open spec fn rebuilt_stats(n: StatBlock, m: AccModel) -> bool {
    &&& sv_rebuilt(n.max_life, 50_000, m.life_flat, m.life_increased, m.life_more)
    &&& sv_rebuilt(n.max_mana, 40_000, m.mana_flat, m.mana_increased, m.mana_more)
    &&& sv_rebuilt(n.strength, 10_000, clamp_amount(m.strength_flat + m.all_attributes_flat), 0, Seq::<i64>::empty())
    &&& sv_rebuilt(n.dexterity, 10_000, clamp_amount(m.dexterity_flat + m.all_attributes_flat), 0, Seq::<i64>::empty())
    &&& sv_rebuilt(n.intelligence, 10_000, clamp_amount(m.intelligence_flat + m.all_attributes_flat), 0, Seq::<i64>::empty())
    &&& sv_rebuilt(n.constitution, 10_000, clamp_amount(m.constitution_flat + m.all_attributes_flat), 0, Seq::<i64>::empty())
    &&& sv_rebuilt(n.wisdom, 10_000, clamp_amount(m.wisdom_flat + m.all_attributes_flat), 0, Seq::<i64>::empty())
    &&& sv_rebuilt(n.charisma, 10_000, clamp_amount(m.charisma_flat + m.all_attributes_flat), 0, Seq::<i64>::empty())
    &&& sv_rebuilt(n.armour, 0, m.armour_flat, m.armour_increased, Seq::<i64>::empty())
    &&& sv_rebuilt(n.evasion, 0, m.evasion_flat, m.evasion_increased, Seq::<i64>::empty())
    &&& sv_rebuilt(n.fire_resistance, 0, clamp_amount(m.fire_resistance + m.all_resistances), 0, Seq::<i64>::empty())
    &&& sv_rebuilt(n.cold_resistance, 0, clamp_amount(m.cold_resistance + m.all_resistances), 0, Seq::<i64>::empty())
    &&& sv_rebuilt(n.lightning_resistance, 0, clamp_amount(m.lightning_resistance + m.all_resistances), 0, Seq::<i64>::empty())
    &&& sv_rebuilt(n.chaos_resistance, 0, m.chaos_resistance, 0, Seq::<i64>::empty())
    &&& sv_rebuilt(n.accuracy, 1_000_000, m.accuracy_flat, m.accuracy_increased, Seq::<i64>::empty())
    &&& sv_rebuilt(n.global_physical_damage, 0, m.physical_damage_flat, m.physical_damage_increased, m.physical_damage_more)
    &&& sv_rebuilt(n.global_fire_damage, 0, m.fire_damage_flat, clamp_amount(m.fire_damage_increased + m.elemental_damage_increased), m.fire_damage_more)
    &&& sv_rebuilt(n.global_cold_damage, 0, m.cold_damage_flat, clamp_amount(m.cold_damage_increased + m.elemental_damage_increased), m.cold_damage_more)
    &&& sv_rebuilt(n.global_lightning_damage, 0, m.lightning_damage_flat, clamp_amount(m.lightning_damage_increased + m.elemental_damage_increased), m.lightning_damage_more)
    &&& sv_rebuilt(n.global_chaos_damage, 0, m.chaos_damage_flat, m.chaos_damage_increased, m.chaos_damage_more)
    &&& sv_rebuilt(n.attack_speed, 1_000, 0, m.attack_speed_increased, Seq::<i64>::empty())
    &&& sv_rebuilt(n.cast_speed, 1_000, 0, m.cast_speed_increased, Seq::<i64>::empty())
    &&& sv_rebuilt(n.critical_chance, 0, m.critical_chance_flat, m.critical_chance_increased, Seq::<i64>::empty())
    &&& sv_rebuilt(n.critical_multiplier, 1_500, m.critical_multiplier_flat, 0, Seq::<i64>::empty())
    &&& sv_rebuilt(n.fire_penetration, 0, m.fire_penetration, 0, Seq::<i64>::empty())
    &&& sv_rebuilt(n.cold_penetration, 0, m.cold_penetration, 0, Seq::<i64>::empty())
    &&& sv_rebuilt(n.lightning_penetration, 0, m.lightning_penetration, 0, Seq::<i64>::empty())
    &&& sv_rebuilt(n.chaos_penetration, 0, m.chaos_penetration, 0, Seq::<i64>::empty())
    &&& sv_rebuilt(n.life_regen, 0, m.life_regen_flat, 0, Seq::<i64>::empty())
    &&& sv_rebuilt(n.mana_regen, 0, m.mana_regen_flat, 0, Seq::<i64>::empty())
    &&& sv_rebuilt(n.life_leech, 0, m.life_leech_percent, 0, Seq::<i64>::empty())
    &&& sv_rebuilt(n.mana_leech, 0, m.mana_leech_percent, 0, Seq::<i64>::empty())
    &&& n.movement_speed_increased as int == clamp_amount(m.movement_speed_increased)
    &&& n.item_rarity_increased as int == clamp_amount(m.item_rarity_increased)
    &&& n.item_quantity_increased as int == clamp_amount(m.item_quantity_increased)
    &&& if m.weapon_physical_min > 0 || m.weapon_physical_max > 0 {
        n.weapon_physical_min as int == factor_applied(m.weapon_physical_min, m.weapon_physical_increased)
            && n.weapon_physical_max as int == factor_applied(m.weapon_physical_max, m.weapon_physical_increased)
    } else {
        n.weapon_physical_min == 0 && n.weapon_physical_max == 0
    }
    &&& if m.weapon_attack_speed > 0 {
        n.weapon_attack_speed as int == m.weapon_attack_speed
    } else {
        n.weapon_attack_speed == 1_000
    }
    &&& if m.weapon_crit_chance > 0 {
        n.weapon_crit_chance as int == m.weapon_crit_chance
    } else {
        n.weapon_crit_chance == 5_000
    }
    &&& n.weapon_fire_min as int == fold_elem_min(0, m.weapon_elemental_damages, DamageType::Fire)
    &&& n.weapon_fire_max as int == fold_elem_max(0, m.weapon_elemental_damages, DamageType::Fire)
    &&& n.weapon_cold_min as int == fold_elem_min(0, m.weapon_elemental_damages, DamageType::Cold)
    &&& n.weapon_cold_max as int == fold_elem_max(0, m.weapon_elemental_damages, DamageType::Cold)
    &&& n.weapon_lightning_min as int == fold_elem_min(0, m.weapon_elemental_damages, DamageType::Lightning)
    &&& n.weapon_lightning_max as int == fold_elem_max(0, m.weapon_elemental_damages, DamageType::Lightning)
    &&& n.weapon_chaos_min as int == fold_elem_min(0, m.weapon_elemental_damages, DamageType::Chaos)
    &&& n.weapon_chaos_max as int == fold_elem_max(0, m.weapon_elemental_damages, DamageType::Chaos)
    &&& n.status_effect_stats == model_status_data(m)
}

/// Applying an accumulator onto a fresh block rebuilds it.
pub proof fn lemma_fresh_applied(n: StatBlock, o: StatBlock, m: AccModel)
    requires
        fresh_stats(o),
        block_applied(n, o, m),
    ensures
        rebuilt_stats(n, m),
{
    assert(Seq::<i64>::empty() + m.life_more =~= m.life_more);
    assert(Seq::<i64>::empty() + m.mana_more =~= m.mana_more);
    assert(Seq::<i64>::empty() + m.physical_damage_more =~= m.physical_damage_more);
    assert(Seq::<i64>::empty() + m.fire_damage_more =~= m.fire_damage_more);
    assert(Seq::<i64>::empty() + m.cold_damage_more =~= m.cold_damage_more);
    assert(Seq::<i64>::empty() + m.lightning_damage_more =~= m.lightning_damage_more);
    assert(Seq::<i64>::empty() + m.chaos_damage_more =~= m.chaos_damage_more);
}

/// The accumulator model a rebuild gathers from an ordered source list.
pub open spec fn rebuilt_model(ss: Seq<Source>) -> AccModel {
    sources_model(empty_acc_model(), sources_in_priority_order(ss))
}

/// Equipped items folded into a model, first to last.
pub open spec fn gears_fold_model(m: AccModel, equip: Seq<(EquipmentSlot, Item)>) -> AccModel
    decreases equip.len(),
{
    if equip.len() == 0 {
        m
    } else {
        gear_apply_model(gears_fold_model(m, equip.drop_last()), equip.last().0, equip.last().1)
    }
}

/// Buffs folded into a model, first to last.
pub open spec fn buffs_fold_model(m: AccModel, buffs: Seq<BuffSource>) -> AccModel
    decreases buffs.len(),
{
    if buffs.len() == 0 {
        m
    } else {
        buff_apply_model(buffs_fold_model(m, buffs.drop_last()), buffs.last())
    }
}

/// The model an internal rebuild gathers: equipped gear, then buffs.
pub open spec fn internal_model(equip: Seq<(EquipmentSlot, Item)>, buffs: Seq<BuffSource>) -> AccModel {
    buffs_fold_model(gears_fold_model(empty_acc_model(), equip), buffs)
}

/// Apply every source of one priority, in order.
fn apply_bucket(acc: &mut StatAccumulator, sources: &Vec<Source>, priority: i32)
    ensures
        final(acc)@ =~= sources_model(old(acc)@, filter_priority(sources@, priority as int)),
{
    let ghost m0 = acc@;
    let mut i: usize = 0;
    while i < sources.len()
        invariant
            i <= sources.len(),
            acc@ =~= sources_model(m0, filter_priority(sources@.subrange(0, i as int), priority as int)),
        decreases sources.len() - i,
    {
        let ghost fp = filter_priority(sources@.subrange(0, i as int), priority as int);
        if sources[i].priority() == priority {
            sources[i].apply(acc);
        }
        proof {
            let ext = sources@.subrange(0, i as int + 1);
            assert(ext.drop_last() =~= sources@.subrange(0, i as int));
            assert(ext.last() == sources@[i as int]);
            if source_priority_spec(sources@[i as int]) == priority as int {
                lemma_sources_model_push(m0, fp, sources@[i as int]);
            }
        }
        i = i + 1;
    }
    proof {
        assert(sources@.subrange(0, sources@.len() as int) =~= sources@);
    }
}

impl StatBlock {
    /// Reset every stat to its base default, keeping identity,
    /// resources and effects.
    fn reset_stats(&mut self)
        ensures
            fresh_stats(*final(self)),
            final(self).id == old(self).id,
            final(self).equipped_items == old(self).equipped_items,
            final(self).buff_sources == old(self).buff_sources,
            final(self).effects == old(self).effects,
            final(self).current_life == old(self).current_life,
            final(self).current_mana == old(self).current_mana,
            final(self).current_energy_shield == old(self).current_energy_shield,
            final(self).max_energy_shield == old(self).max_energy_shield,
    {
        self.max_life = StatValue::with_base(50_000);
        self.max_mana = StatValue::with_base(40_000);
        self.strength = StatValue::with_base(10_000);
        self.dexterity = StatValue::with_base(10_000);
        self.intelligence = StatValue::with_base(10_000);
        self.constitution = StatValue::with_base(10_000);
        self.wisdom = StatValue::with_base(10_000);
        self.charisma = StatValue::with_base(10_000);
        self.armour = StatValue::with_base(0);
        self.evasion = StatValue::with_base(0);
        self.fire_resistance = StatValue::with_base(0);
        self.cold_resistance = StatValue::with_base(0);
        self.lightning_resistance = StatValue::with_base(0);
        self.chaos_resistance = StatValue::with_base(0);
        self.accuracy = StatValue::with_base(1_000_000);
        self.global_physical_damage = StatValue::with_base(0);
        self.global_fire_damage = StatValue::with_base(0);
        self.global_cold_damage = StatValue::with_base(0);
        self.global_lightning_damage = StatValue::with_base(0);
        self.global_chaos_damage = StatValue::with_base(0);
        self.attack_speed = StatValue::with_base(1_000);
        self.cast_speed = StatValue::with_base(1_000);
        self.critical_chance = StatValue::with_base(0);
        self.critical_multiplier = StatValue::with_base(1_500);
        self.fire_penetration = StatValue::with_base(0);
        self.cold_penetration = StatValue::with_base(0);
        self.lightning_penetration = StatValue::with_base(0);
        self.chaos_penetration = StatValue::with_base(0);
        self.life_regen = StatValue::with_base(0);
        self.mana_regen = StatValue::with_base(0);
        self.life_leech = StatValue::with_base(0);
        self.mana_leech = StatValue::with_base(0);
        self.movement_speed_increased = 0;
        self.item_rarity_increased = 0;
        self.item_quantity_increased = 0;
        self.weapon_physical_min = 0;
        self.weapon_physical_max = 0;
        self.weapon_fire_min = 0;
        self.weapon_fire_max = 0;
        self.weapon_cold_min = 0;
        self.weapon_cold_max = 0;
        self.weapon_lightning_min = 0;
        self.weapon_lightning_max = 0;
        self.weapon_chaos_min = 0;
        self.weapon_chaos_max = 0;
        self.weapon_attack_speed = 1_000;
        self.weapon_crit_chance = 5_000;
        self.status_effect_stats = StatusEffectData {
            poison: StatusEffectStats { dot_increased: 0, duration_increased: 0, magnitude: 0, max_stacks: 0 },
            poison_conversions: StatusConversions { from_physical: 0, from_fire: 0, from_cold: 0, from_lightning: 0, from_chaos: 0 },
            bleed: StatusEffectStats { dot_increased: 0, duration_increased: 0, magnitude: 0, max_stacks: 0 },
            bleed_conversions: StatusConversions { from_physical: 0, from_fire: 0, from_cold: 0, from_lightning: 0, from_chaos: 0 },
            burn: StatusEffectStats { dot_increased: 0, duration_increased: 0, magnitude: 0, max_stacks: 0 },
            burn_conversions: StatusConversions { from_physical: 0, from_fire: 0, from_cold: 0, from_lightning: 0, from_chaos: 0 },
            freeze: StatusEffectStats { dot_increased: 0, duration_increased: 0, magnitude: 0, max_stacks: 0 },
            freeze_conversions: StatusConversions { from_physical: 0, from_fire: 0, from_cold: 0, from_lightning: 0, from_chaos: 0 },
            chill: StatusEffectStats { dot_increased: 0, duration_increased: 0, magnitude: 0, max_stacks: 0 },
            chill_conversions: StatusConversions { from_physical: 0, from_fire: 0, from_cold: 0, from_lightning: 0, from_chaos: 0 },
            static_effect: StatusEffectStats { dot_increased: 0, duration_increased: 0, magnitude: 0, max_stacks: 0 },
            static_conversions: StatusConversions { from_physical: 0, from_fire: 0, from_cold: 0, from_lightning: 0, from_chaos: 0 },
            fear: StatusEffectStats { dot_increased: 0, duration_increased: 0, magnitude: 0, max_stacks: 0 },
            fear_conversions: StatusConversions { from_physical: 0, from_fire: 0, from_cold: 0, from_lightning: 0, from_chaos: 0 },
            slow: StatusEffectStats { dot_increased: 0, duration_increased: 0, magnitude: 0, max_stacks: 0 },
            slow_conversions: StatusConversions { from_physical: 0, from_fire: 0, from_cold: 0, from_lightning: 0, from_chaos: 0 },
        };
    }

    /// Rebuild the stat part from an explicit source list: reset to
    /// base defaults, gather every source in stable priority order,
    /// apply, and clamp current resources to their new maxima.
    /// Identity, equipped items, buffs and effects are preserved.
    pub fn rebuild_from_sources(&mut self, sources: &Vec<Source>)
        ensures
            rebuilt_stats(*final(self), rebuilt_model(sources@)),
            final(self).id == old(self).id,
            final(self).equipped_items == old(self).equipped_items,
            final(self).buff_sources == old(self).buff_sources,
            final(self).effects == old(self).effects,
            final(self).max_energy_shield == old(self).max_energy_shield,
            final(self).current_life as int == min_spec(
                old(self).current_life as int,
                final(self).max_life.compute_spec(),
            ),
            final(self).current_mana as int == min_spec(
                old(self).current_mana as int,
                final(self).max_mana.compute_spec(),
            ),
            final(self).current_energy_shield as int == min_spec(
                old(self).current_energy_shield as int,
                old(self).max_energy_shield as int,
            ),
    {
        self.reset_stats();
        let ghost fresh_state = *self;
        let mut acc = StatAccumulator::new();
        proof {
            assert(acc@ =~= empty_acc_model());
        }
        apply_bucket(&mut acc, sources, crate::source::PRIORITY_BASE);
        apply_bucket(&mut acc, sources, crate::source::PRIORITY_GEAR);
        apply_bucket(&mut acc, sources, crate::source::PRIORITY_TREE);
        apply_bucket(&mut acc, sources, crate::source::PRIORITY_BUFF);
        proof {
            let f1 = filter_priority(sources@, crate::source::PRIORITY_BASE as int);
            let f2 = filter_priority(sources@, crate::source::PRIORITY_GEAR as int);
            let f3 = filter_priority(sources@, crate::source::PRIORITY_TREE as int);
            let f4 = filter_priority(sources@, crate::source::PRIORITY_BUFF as int);
            crate::source::lemma_sources_model_concat(empty_acc_model(), f1, f2);
            crate::source::lemma_sources_model_concat(empty_acc_model(), f1 + f2, f3);
            crate::source::lemma_sources_model_concat(empty_acc_model(), f1 + f2 + f3, f4);
            assert(sources_in_priority_order(sources@) == f1 + f2 + f3 + f4);
            assert(acc@ =~= rebuilt_model(sources@));
        }
        acc.apply_to(self);
        proof {
            lemma_fresh_applied(*self, fresh_state, acc@);
        }
        let ml = self.max_life.compute();
        self.current_life = min64(self.current_life, ml);
        let mm = self.max_mana.compute();
        self.current_mana = min64(self.current_mana, mm);
        self.current_energy_shield = min64(self.current_energy_shield, self.max_energy_shield);
    }

    /// Rebuild the stat part from the equipped items and active buffs.
    fn rebuild(&mut self)
        ensures
            rebuilt_stats(
                *final(self),
                internal_model(old(self).equipped_items@, old(self).buff_sources@),
            ),
            final(self).id == old(self).id,
            final(self).equipped_items == old(self).equipped_items,
            final(self).buff_sources == old(self).buff_sources,
            final(self).effects == old(self).effects,
            final(self).max_energy_shield == old(self).max_energy_shield,
            final(self).current_life as int == min_spec(
                old(self).current_life as int,
                final(self).max_life.compute_spec(),
            ),
            final(self).current_mana as int == min_spec(
                old(self).current_mana as int,
                final(self).max_mana.compute_spec(),
            ),
            final(self).current_energy_shield as int == min_spec(
                old(self).current_energy_shield as int,
                old(self).max_energy_shield as int,
            ),
    {
        self.reset_stats();
        let ghost fresh_state = *self;
        let mut acc = StatAccumulator::new();
        proof {
            assert(acc@ =~= empty_acc_model());
        }
        let mut i: usize = 0;
        while i < self.equipped_items.len()
            invariant
                i <= self.equipped_items.len(),
                acc@ =~= gears_fold_model(
                    empty_acc_model(),
                    self.equipped_items@.subrange(0, i as int),
                ),
            decreases self.equipped_items.len() - i,
        {
            let pair = &self.equipped_items[i];
            crate::source::GearSource::apply_item(&mut acc, pair.0, &pair.1);
            proof {
                let ext = self.equipped_items@.subrange(0, i as int + 1);
                assert(ext.drop_last() =~= self.equipped_items@.subrange(0, i as int));
                assert(ext.last() == self.equipped_items@[i as int]);
            }
            i = i + 1;
        }
        proof {
            assert(self.equipped_items@.subrange(0, self.equipped_items@.len() as int)
                =~= self.equipped_items@);
        }
        let ghost gear_m = acc@;
        let mut j: usize = 0;
        while j < self.buff_sources.len()
            invariant
                j <= self.buff_sources.len(),
                acc@ =~= buffs_fold_model(gear_m, self.buff_sources@.subrange(0, j as int)),
            decreases self.buff_sources.len() - j,
        {
            let b = &self.buff_sources[j];
            b.apply(&mut acc);
            proof {
                let ext = self.buff_sources@.subrange(0, j as int + 1);
                assert(ext.drop_last() =~= self.buff_sources@.subrange(0, j as int));
                assert(ext.last() == self.buff_sources@[j as int]);
            }
            j = j + 1;
        }
        proof {
            assert(self.buff_sources@.subrange(0, self.buff_sources@.len() as int)
                =~= self.buff_sources@);
        }
        acc.apply_to(self);
        proof {
            lemma_fresh_applied(*self, fresh_state, acc@);
        }
        let ml = self.max_life.compute();
        self.current_life = min64(self.current_life, ml);
        let mm = self.max_mana.compute();
        self.current_mana = min64(self.current_mana, mm);
        self.current_energy_shield = min64(self.current_energy_shield, self.max_energy_shield);
    }
}



// ---------------------------------------------------------------------
// Equipment and buffs
// ---------------------------------------------------------------------

/// The equipped pairs with any entry for `slot` removed.
pub open spec fn filter_slot(
    equip: Seq<(EquipmentSlot, Item)>,
    slot: EquipmentSlot,
) -> Seq<(EquipmentSlot, Item)>
    decreases equip.len(),
{
    if equip.len() == 0 {
        Seq::<(EquipmentSlot, Item)>::empty()
    } else {
        let rest = filter_slot(equip.drop_last(), slot);
        if equip.last().0 == slot {
            rest
        } else {
            rest.push(equip.last())
        }
    }
}

/// The buffs with any entry named `id` removed.
pub open spec fn filter_buff(buffs: Seq<BuffSource>, id: Seq<char>) -> Seq<BuffSource>
    decreases buffs.len(),
{
    if buffs.len() == 0 {
        Seq::<BuffSource>::empty()
    } else {
        let rest = filter_buff(buffs.drop_last(), id);
        if buffs.last().buff_id@ == id {
            rest
        } else {
            rest.push(buffs.last())
        }
    }
}

/// A buff refreshed by a new application: full duration again and one
/// more stack, up to the counter's range.
pub open spec fn refreshed_buff(b: BuffSource, duration: i64) -> BuffSource {
    BuffSource {
        duration_remaining: duration,
        stacks: if b.stacks < u32::MAX {
            (b.stacks + 1) as u32
        } else {
            b.stacks
        },
        ..b
    }
}

/// The buffs surviving a tick of `delta` milli-seconds, each with its
/// duration spent down; expired ones are gone.
pub open spec fn tick_surviving(buffs: Seq<BuffSource>, delta: i64) -> Seq<BuffSource>
    decreases buffs.len(),
{
    if buffs.len() == 0 {
        Seq::<BuffSource>::empty()
    } else {
        let rest = tick_surviving(buffs.drop_last(), delta);
        let nb = BuffSource {
            duration_remaining: clamp_amount(buffs.last().duration_remaining - delta) as i64,
            ..buffs.last()
        };
        if nb.duration_remaining > 0 && nb.stacks > 0 {
            rest.push(nb)
        } else {
            rest
        }
    }
}

impl StatBlock {
    /// Equip an item into a slot, replacing whatever sat there, and
    /// rebuild the stats from equipment and buffs.
    pub fn equip(&mut self, slot: EquipmentSlot, item: Item)
        ensures
            final(self).equipped_items@ =~= filter_slot(old(self).equipped_items@, slot).push(
                (slot, item),
            ),
            rebuilt_stats(
                *final(self),
                internal_model(final(self).equipped_items@, old(self).buff_sources@),
            ),
            final(self).id == old(self).id,
            final(self).buff_sources == old(self).buff_sources,
            final(self).effects == old(self).effects,
            final(self).max_energy_shield == old(self).max_energy_shield,
            final(self).current_life as int == min_spec(
                old(self).current_life as int,
                final(self).max_life.compute_spec(),
            ),
            final(self).current_mana as int == min_spec(
                old(self).current_mana as int,
                final(self).max_mana.compute_spec(),
            ),
            final(self).current_energy_shield as int == min_spec(
                old(self).current_energy_shield as int,
                old(self).max_energy_shield as int,
            ),
    {
        let ghost orig = self.equipped_items@;
        let ghost p0: int = 0;
        let mut p: Ghost<int> = Ghost(0);
        let mut i: usize = 0;
        while i < self.equipped_items.len()
            invariant
                0 <= p@ <= orig.len(),
                self.equipped_items@ =~= filter_slot(orig.subrange(0, p@), slot) + orig.skip(
                    p@,
                ),
                i as int == filter_slot(orig.subrange(0, p@), slot).len(),
                *self == (StatBlock { equipped_items: self.equipped_items, ..*old(self) }),
            decreases orig.len() - p@,
        {
            let ghost fprefix = filter_slot(orig.subrange(0, p@), slot);
            proof {
                assert(orig.skip(p@).len() > 0);
                assert(self.equipped_items@[i as int] == orig.skip(p@)[0]);
                assert(orig.skip(p@)[0] == orig[p@]);
                assert(orig.subrange(0, p@ + 1).drop_last() =~= orig.subrange(0, p@));
                assert(orig.subrange(0, p@ + 1).last() == orig[p@]);
            }
            if self.equipped_items[i].0 == slot {
                self.equipped_items.remove(i);
                proof {
                    assert(self.equipped_items@ =~= filter_slot(orig.subrange(0, p@ + 1), slot)
                        + orig.skip(p@ + 1));
                }
            } else {
                proof {
                    assert(orig.skip(p@) =~= seq![orig[p@]] + orig.skip(p@ + 1));
                    assert(self.equipped_items@ =~= filter_slot(orig.subrange(0, p@ + 1), slot)
                        + orig.skip(p@ + 1));
                }
                i = i + 1;
            }
            proof {
                p@ = p@ + 1;
            }
        }
        proof {
            assert(orig.skip(p@).len() == 0);
            assert(p@ == orig.len());
            assert(orig.subrange(0, orig.len() as int) =~= orig);
        }
        self.equipped_items.push((slot, item));
        self.rebuild();
    }

    /// Unequip the item in a slot, returning it and rebuilding; with
    /// nothing in the slot the block is untouched.
    pub fn unequip(&mut self, slot: EquipmentSlot) -> (r: Option<Item>)
        ensures
            match r {
                None => (forall|k: int|
                    0 <= k < old(self).equipped_items@.len()
                        ==> old(self).equipped_items@[k].0 != slot) && *final(self) == *old(self),
                Some(item) => exists|ix: int|
                    {
                        &&& 0 <= ix < old(self).equipped_items@.len()
                        &&& old(self).equipped_items@[ix].0 == slot
                        &&& forall|k: int|
                            0 <= k < ix ==> old(self).equipped_items@[k].0 != slot
                        &&& item == old(self).equipped_items@[ix].1
                        &&& final(self).equipped_items@ =~= old(self).equipped_items@.remove(
                            ix,
                        )
                    },
            },
            r is Some ==> rebuilt_stats(
                *final(self),
                internal_model(final(self).equipped_items@, old(self).buff_sources@),
            ),
            r is Some ==> final(self).id == old(self).id,
            r is Some ==> final(self).buff_sources == old(self).buff_sources,
            r is Some ==> final(self).effects == old(self).effects,
            r is Some ==> final(self).max_energy_shield == old(self).max_energy_shield,
            r is Some ==> final(self).current_life as int == min_spec(
                old(self).current_life as int,
                final(self).max_life.compute_spec(),
            ),
            r is Some ==> final(self).current_mana as int == min_spec(
                old(self).current_mana as int,
                final(self).max_mana.compute_spec(),
            ),
            r is Some ==> final(self).current_energy_shield as int == min_spec(
                old(self).current_energy_shield as int,
                old(self).max_energy_shield as int,
            ),
    {
        let mut found: usize = 0;
        let mut was_found: bool = false;
        let mut i: usize = 0;
        while i < self.equipped_items.len()
            invariant
                i <= self.equipped_items.len(),
                !was_found ==> forall|k: int|
                    0 <= k < i ==> self.equipped_items@[k].0 != slot,
                was_found ==> 0 <= found < i && self.equipped_items@[found as int].0 == slot
                    && forall|k: int| 0 <= k < found ==> self.equipped_items@[k].0 != slot,
            decreases self.equipped_items.len() - i,
        {
            if !was_found && self.equipped_items[i].0 == slot {
                was_found = true;
                found = i;
            }
            i = i + 1;
        }
        if !was_found {
            return None;
        }
        let pair = self.equipped_items.remove(found);
        self.rebuild();
        Some(pair.1)
    }

    /// The item equipped in a slot, if any.
    pub fn equipped(&self, slot: EquipmentSlot) -> (r: Option<&Item>)
        ensures
            match r {
                None => forall|k: int|
                    0 <= k < self.equipped_items@.len() ==> self.equipped_items@[k].0 != slot,
                Some(item) => exists|ix: int|
                    {
                        &&& 0 <= ix < self.equipped_items@.len()
                        &&& self.equipped_items@[ix].0 == slot
                        &&& *item == self.equipped_items@[ix].1
                    },
            },
    {
        let mut i: usize = 0;
        while i < self.equipped_items.len()
            invariant
                i <= self.equipped_items.len(),
                forall|k: int| 0 <= k < i ==> self.equipped_items@[k].0 != slot,
            decreases self.equipped_items.len() - i,
        {
            if self.equipped_items[i].0 == slot {
                return Some(&self.equipped_items[i].1);
            }
            i = i + 1;
        }
        None
    }

    /// All equipped items with their slots.
    pub fn all_equipped(&self) -> (r: &Vec<(EquipmentSlot, Item)>)
        ensures
            r == &self.equipped_items,
    {
        &self.equipped_items
    }
}



impl StatBlock {
    /// Apply a buff: an already-present buff of the same identifier is
    /// refreshed and gains a stack; a new one is appended. Stats are
    /// rebuilt either way.
    pub fn apply_buff(&mut self, buff: BuffSource)
        ensures
            ({
                let obs = old(self).buff_sources@;
                if exists|k: int| 0 <= k < obs.len() && obs[k].buff_id@ == buff.buff_id@ {
                    exists|ix: int|
                        {
                            &&& 0 <= ix < obs.len()
                            &&& obs[ix].buff_id@ == buff.buff_id@
                            &&& forall|k: int| 0 <= k < ix ==> obs[k].buff_id@ != buff.buff_id@
                            &&& final(self).buff_sources@ =~= obs.update(
                                ix,
                                refreshed_buff(obs[ix], buff.duration_remaining),
                            )
                        }
                } else {
                    final(self).buff_sources@ =~= obs.push(buff)
                }
            }),
            rebuilt_stats(
                *final(self),
                internal_model(old(self).equipped_items@, final(self).buff_sources@),
            ),
            final(self).id == old(self).id,
            final(self).equipped_items == old(self).equipped_items,
            final(self).effects == old(self).effects,
            final(self).max_energy_shield == old(self).max_energy_shield,
            final(self).current_life as int == min_spec(
                old(self).current_life as int,
                final(self).max_life.compute_spec(),
            ),
            final(self).current_mana as int == min_spec(
                old(self).current_mana as int,
                final(self).max_mana.compute_spec(),
            ),
            final(self).current_energy_shield as int == min_spec(
                old(self).current_energy_shield as int,
                old(self).max_energy_shield as int,
            ),
    {
        let mut found: usize = 0;
        let mut was_found: bool = false;
        let mut i: usize = 0;
        while i < self.buff_sources.len()
            invariant
                i <= self.buff_sources.len(),
                !was_found ==> forall|k: int|
                    0 <= k < i ==> self.buff_sources@[k].buff_id@ != buff.buff_id@,
                was_found ==> 0 <= found < i && self.buff_sources@[found as int].buff_id@
                    == buff.buff_id@ && forall|k: int|
                    0 <= k < found ==> self.buff_sources@[k].buff_id@ != buff.buff_id@,
            decreases self.buff_sources.len() - i,
        {
            if !was_found && str_eq(self.buff_sources[i].buff_id.as_str(), buff.buff_id.as_str())
            {
                was_found = true;
                found = i;
            }
            i = i + 1;
        }
        if was_found {
            let mut b = self.buff_sources.remove(found);
            b.refresh(buff.duration_remaining);
            if b.stacks < u32::MAX {
                b.add_stack();
            }
            self.buff_sources.insert(found, b);
            proof {
                assert(self.buff_sources@ =~= old(self).buff_sources@.update(
                    found as int,
                    refreshed_buff(old(self).buff_sources@[found as int], buff.duration_remaining),
                ));
            }
        } else {
            self.buff_sources.push(buff);
        }
        self.rebuild();
    }

    /// Remove every buff with this identifier; stats are rebuilt only
    /// when something was removed.
    pub fn remove_buff(&mut self, buff_id: &str)
        ensures
            final(self).buff_sources@ =~= filter_buff(old(self).buff_sources@, buff_id@),
            filter_buff(old(self).buff_sources@, buff_id@).len() == old(self).buff_sources@.len() ==> *final(self) == (StatBlock {
                buff_sources: final(self).buff_sources,
                ..*old(self)
            }),
            filter_buff(old(self).buff_sources@, buff_id@).len() != old(self).buff_sources@.len() ==> rebuilt_stats(
                *final(self),
                internal_model(old(self).equipped_items@, final(self).buff_sources@),
            ) && final(self).id == old(self).id && final(self).equipped_items == old(self).equipped_items && final(self).effects == old(self).effects && final(self).max_energy_shield == old(self).max_energy_shield && final(self).current_life as int == min_spec(
                old(self).current_life as int,
                final(self).max_life.compute_spec(),
            ) && final(self).current_mana as int == min_spec(
                old(self).current_mana as int,
                final(self).max_mana.compute_spec(),
            ) && final(self).current_energy_shield as int == min_spec(
                old(self).current_energy_shield as int,
                old(self).max_energy_shield as int,
            ),
    {
        let count_before: usize = self.buff_sources.len();
        let ghost orig = self.buff_sources@;
        let mut p: Ghost<int> = Ghost(0);
        let mut i: usize = 0;
        while i < self.buff_sources.len()
            invariant
                0 <= p@ <= orig.len(),
                self.buff_sources@ =~= filter_buff(orig.subrange(0, p@), buff_id@) + orig.skip(
                    p@,
                ),
                i as int == filter_buff(orig.subrange(0, p@), buff_id@).len(),
                *self == (StatBlock { buff_sources: self.buff_sources, ..*old(self) }),
            decreases orig.len() - p@,
        {
            proof {
                assert(orig.skip(p@).len() > 0);
                assert(self.buff_sources@[i as int] == orig.skip(p@)[0]);
                assert(orig.skip(p@)[0] == orig[p@]);
                assert(orig.subrange(0, p@ + 1).drop_last() =~= orig.subrange(0, p@));
                assert(orig.subrange(0, p@ + 1).last() == orig[p@]);
            }
            if str_eq(self.buff_sources[i].buff_id.as_str(), buff_id) {
                self.buff_sources.remove(i);
                proof {
                    assert(self.buff_sources@ =~= filter_buff(orig.subrange(0, p@ + 1), buff_id@)
                        + orig.skip(p@ + 1));
                }
            } else {
                proof {
                    assert(orig.skip(p@) =~= seq![orig[p@]] + orig.skip(p@ + 1));
                    assert(self.buff_sources@ =~= filter_buff(orig.subrange(0, p@ + 1), buff_id@)
                        + orig.skip(p@ + 1));
                }
                i = i + 1;
            }
            proof {
                p@ = p@ + 1;
            }
        }
        proof {
            assert(orig.skip(p@).len() == 0);
            assert(p@ == orig.len());
            assert(orig.subrange(0, orig.len() as int) =~= orig);
        }
        if self.buff_sources.len() != count_before {
            self.rebuild();
        }
    }

    /// Spend `delta` milli-seconds of every buff's duration, dropping
    /// the expired ones; stats are rebuilt when any expired.
    pub fn tick_buffs(&mut self, delta: i64)
        ensures
            final(self).buff_sources@ =~= tick_surviving(old(self).buff_sources@, delta),
            tick_surviving(old(self).buff_sources@, delta).len() == old(self).buff_sources@.len() ==> *final(self) == (StatBlock {
                buff_sources: final(self).buff_sources,
                ..*old(self)
            }),
            tick_surviving(old(self).buff_sources@, delta).len() != old(self).buff_sources@.len() ==> rebuilt_stats(
                *final(self),
                internal_model(old(self).equipped_items@, final(self).buff_sources@),
            ) && final(self).id == old(self).id && final(self).equipped_items == old(self).equipped_items && final(self).effects == old(self).effects && final(self).max_energy_shield == old(self).max_energy_shield && final(self).current_life as int == min_spec(
                old(self).current_life as int,
                final(self).max_life.compute_spec(),
            ) && final(self).current_mana as int == min_spec(
                old(self).current_mana as int,
                final(self).max_mana.compute_spec(),
            ) && final(self).current_energy_shield as int == min_spec(
                old(self).current_energy_shield as int,
                old(self).max_energy_shield as int,
            ),
    {
        let count_before: usize = self.buff_sources.len();
        let ghost orig = self.buff_sources@;
        let mut p: Ghost<int> = Ghost(0);
        let mut i: usize = 0;
        while i < self.buff_sources.len()
            invariant
                0 <= p@ <= orig.len(),
                self.buff_sources@ =~= tick_surviving(orig.subrange(0, p@), delta) + orig.skip(
                    p@,
                ),
                i as int == tick_surviving(orig.subrange(0, p@), delta).len(),
                *self == (StatBlock { buff_sources: self.buff_sources, ..*old(self) }),
            decreases orig.len() - p@,
        {
            proof {
                assert(orig.skip(p@).len() > 0);
                assert(self.buff_sources@[i as int] == orig.skip(p@)[0]);
                assert(orig.skip(p@)[0] == orig[p@]);
                assert(orig.subrange(0, p@ + 1).drop_last() =~= orig.subrange(0, p@));
                assert(orig.subrange(0, p@ + 1).last() == orig[p@]);
            }
            let mut b = self.buff_sources.remove(i);
            let active = b.tick(delta);
            if active {
                self.buff_sources.insert(i, b);
                proof {
                    assert(self.buff_sources@ =~= tick_surviving(orig.subrange(0, p@ + 1), delta)
                        + orig.skip(p@ + 1));
                }
                i = i + 1;
            } else {
                proof {
                    assert(self.buff_sources@ =~= tick_surviving(orig.subrange(0, p@ + 1), delta)
                        + orig.skip(p@ + 1));
                }
            }
            proof {
                p@ = p@ + 1;
            }
        }
        proof {
            assert(orig.skip(p@).len() == 0);
            assert(p@ == orig.len());
            assert(orig.subrange(0, orig.len() as int) =~= orig);
        }
        if self.buff_sources.len() != count_before {
            self.rebuild();
        }
    }

    /// The active buff sources.
    pub fn active_buff_sources(&self) -> (r: &Vec<BuffSource>)
        ensures
            r == &self.buff_sources,
    {
        &self.buff_sources
    }
}



/// Equality of the stat parts of two blocks: every stat value, weapon
/// field, utility field and the status table agree.
pub open spec fn block_stats_eq(a: StatBlock, b: StatBlock) -> bool {
    &&& sv_eq(a.max_life, b.max_life)
    &&& sv_eq(a.max_mana, b.max_mana)
    &&& sv_eq(a.strength, b.strength)
    &&& sv_eq(a.dexterity, b.dexterity)
    &&& sv_eq(a.intelligence, b.intelligence)
    &&& sv_eq(a.constitution, b.constitution)
    &&& sv_eq(a.wisdom, b.wisdom)
    &&& sv_eq(a.charisma, b.charisma)
    &&& sv_eq(a.armour, b.armour)
    &&& sv_eq(a.evasion, b.evasion)
    &&& sv_eq(a.fire_resistance, b.fire_resistance)
    &&& sv_eq(a.cold_resistance, b.cold_resistance)
    &&& sv_eq(a.lightning_resistance, b.lightning_resistance)
    &&& sv_eq(a.chaos_resistance, b.chaos_resistance)
    &&& sv_eq(a.accuracy, b.accuracy)
    &&& sv_eq(a.global_physical_damage, b.global_physical_damage)
    &&& sv_eq(a.global_fire_damage, b.global_fire_damage)
    &&& sv_eq(a.global_cold_damage, b.global_cold_damage)
    &&& sv_eq(a.global_lightning_damage, b.global_lightning_damage)
    &&& sv_eq(a.global_chaos_damage, b.global_chaos_damage)
    &&& sv_eq(a.attack_speed, b.attack_speed)
    &&& sv_eq(a.cast_speed, b.cast_speed)
    &&& sv_eq(a.critical_chance, b.critical_chance)
    &&& sv_eq(a.critical_multiplier, b.critical_multiplier)
    &&& sv_eq(a.fire_penetration, b.fire_penetration)
    &&& sv_eq(a.cold_penetration, b.cold_penetration)
    &&& sv_eq(a.lightning_penetration, b.lightning_penetration)
    &&& sv_eq(a.chaos_penetration, b.chaos_penetration)
    &&& sv_eq(a.life_regen, b.life_regen)
    &&& sv_eq(a.mana_regen, b.mana_regen)
    &&& sv_eq(a.life_leech, b.life_leech)
    &&& sv_eq(a.mana_leech, b.mana_leech)
    &&& a.movement_speed_increased == b.movement_speed_increased
    &&& a.item_rarity_increased == b.item_rarity_increased
    &&& a.item_quantity_increased == b.item_quantity_increased
    &&& a.weapon_physical_min == b.weapon_physical_min
    &&& a.weapon_physical_max == b.weapon_physical_max
    &&& a.weapon_fire_min == b.weapon_fire_min
    &&& a.weapon_fire_max == b.weapon_fire_max
    &&& a.weapon_cold_min == b.weapon_cold_min
    &&& a.weapon_cold_max == b.weapon_cold_max
    &&& a.weapon_lightning_min == b.weapon_lightning_min
    &&& a.weapon_lightning_max == b.weapon_lightning_max
    &&& a.weapon_chaos_min == b.weapon_chaos_min
    &&& a.weapon_chaos_max == b.weapon_chaos_max
    &&& a.weapon_attack_speed == b.weapon_attack_speed
    &&& a.weapon_crit_chance == b.weapon_crit_chance
    &&& a.status_effect_stats == b.status_effect_stats
}

/// Stats with equal parts compute equal values.
pub proof fn lemma_sv_eq_compute(a: StatValue, b: StatValue)
    requires
        sv_eq(a, b),
    ensures
        a.compute_spec() == b.compute_spec(),
{
    assert(a.more@ == b.more@);
}

/// Rebuild idempotence: rebuilding from the same sources a second time
/// reproduces the block exactly. Two blocks rebuilt from one model have
/// equal stats, and re-clamping already-clamped resources against the
/// same maxima leaves them unchanged.
pub proof fn lemma_rebuild_idempotent(b1: StatBlock, b2: StatBlock, m: AccModel)
    requires
        rebuilt_stats(b1, m),
        rebuilt_stats(b2, m),
        b1.current_life as int <= b1.max_life.compute_spec(),
        b1.current_mana as int <= b1.max_mana.compute_spec(),
        b1.current_energy_shield <= b1.max_energy_shield,
        b2.max_energy_shield == b1.max_energy_shield,
        b2.current_life as int == min_spec(b1.current_life as int, b2.max_life.compute_spec()),
        b2.current_mana as int == min_spec(b1.current_mana as int, b2.max_mana.compute_spec()),
        b2.current_energy_shield as int == min_spec(
            b1.current_energy_shield as int,
            b1.max_energy_shield as int,
        ),
    ensures
        block_stats_eq(b1, b2),
        b2.current_life == b1.current_life,
        b2.current_mana == b1.current_mana,
        b2.current_energy_shield == b1.current_energy_shield,
{
    lemma_sv_eq_compute(b1.max_life, b2.max_life);
    lemma_sv_eq_compute(b1.max_mana, b2.max_mana);
}



// ---------------------------------------------------------------------
// Effects: stacking disciplines and ticking
// ---------------------------------------------------------------------

/// The ailment kind an effect carries, if any.
pub open spec fn spec_status(e: Effect) -> Option<StatusEffect> {
    match e.effect_type {
        EffectType::Ailment { status, .. } => Some(status),
        EffectType::StatModifier { .. } => None,
    }
}

/// The DoT rate an effect carries; zero for stat modifiers.
pub open spec fn spec_dot_dps(e: Effect) -> int {
    match e.effect_type {
        EffectType::Ailment { dot_dps, .. } => dot_dps as int,
        EffectType::StatModifier { .. } => 0,
    }
}

/// The strength competing instances are ranked by: the DoT rate for
/// damaging ailments, the magnitude for non-damaging ones.
pub open spec fn spec_strength(e: Effect) -> int {
    match e.effect_type {
        EffectType::Ailment { dot_dps, magnitude, .. } => if dot_dps > 0 {
            dot_dps as int
        } else {
            magnitude as int
        },
        EffectType::StatModifier { .. } => 0,
    }
}

/// How many effects of one ailment kind a list holds.
pub open spec fn count_status(effects: Seq<Effect>, st: StatusEffect) -> int
    decreases effects.len(),
{
    if effects.len() == 0 {
        0
    } else {
        count_status(effects.drop_last(), st) + if spec_status(effects.last()) == Some(st) {
            1int
        } else {
            0int
        }
    }
}

/// An effect with its stacking effectiveness replaced.
pub open spec fn with_effectiveness(e: Effect, v: i64) -> Effect {
    match e.effect_type {
        EffectType::Ailment {
            status,
            magnitude,
            dot_dps,
            tick_rate,
            time_until_tick,
            stacking,
            effectiveness,
        } => Effect {
            effect_type: EffectType::Ailment {
                status,
                magnitude,
                dot_dps,
                tick_rate,
                time_until_tick,
                stacking,
                effectiveness: v,
            },
            ..e
        },
        EffectType::StatModifier { .. } => e,
    }
}

/// A capped instance refreshed by a new application: the new duration
/// and DoT rate land on the old instance.
pub open spec fn refreshed_instance(ex: Effect, e: Effect) -> Effect {
    match ex.effect_type {
        EffectType::Ailment {
            status,
            magnitude,
            dot_dps,
            tick_rate,
            time_until_tick,
            stacking,
            effectiveness,
        } => Effect {
            duration_remaining: e.duration_remaining,
            total_duration: e.total_duration,
            effect_type: EffectType::Ailment {
                status,
                magnitude,
                dot_dps: spec_dot_dps(e) as i64,
                tick_rate,
                time_until_tick,
                stacking,
                effectiveness,
            },
            ..ex
        },
        EffectType::StatModifier { .. } => ex,
    }
}

impl StatBlock {
    /// Every owned effect is well-formed.
    pub open spec fn wf_effects(self) -> bool {
        forall|k: int| 0 <= k < self.effects@.len() ==> (#[trigger] self.effects@[k]).wf()
    }

    /// Add an effect under its own stacking discipline. Stat modifiers
    /// and unlimited ailments always append. A strongest-only ailment
    /// replaces the incumbent only if at least as strong, refreshing
    /// the duration. A limited ailment appends below its stack cap —
    /// dampened when not the first — and at the cap refreshes the
    /// weakest incumbent with the new duration and DoT rate.
    #[verifier::rlimit(100)]
    pub fn add_effect(&mut self, effect: Effect)
        requires
            effect.wf(),
            old(self).wf_effects(),
        ensures
            final(self).wf_effects(),
            *final(self) == (StatBlock { effects: final(self).effects, ..*old(self) }),
            ({
                let obs = old(self).effects@;
                let nbs = final(self).effects@;
                match effect.effect_type {
                    EffectType::StatModifier { .. } => nbs =~= obs.push(effect),
                    EffectType::Ailment { status, stacking: AilmentStacking::Unlimited, .. } =>
                        nbs =~= obs.push(effect),
                    EffectType::Ailment {
                        status,
                        stacking: AilmentStacking::StrongestOnly,
                        ..
                    } => {
                        if exists|k: int|
                            0 <= k < obs.len() && spec_status(obs[k]) == Some(status) {
                            exists|ix: int|
                                {
                                    &&& 0 <= ix < obs.len()
                                    &&& spec_status(obs[ix]) == Some(status)
                                    &&& forall|k: int|
                                        0 <= k < ix ==> spec_status(obs[k]) != Some(status)
                                    &&& if spec_strength(effect) >= spec_strength(obs[ix]) {
                                        nbs =~= obs.update(ix, effect)
                                    } else {
                                        nbs =~= obs
                                    }
                                }
                        } else {
                            nbs =~= obs.push(effect)
                        }
                    },
                    EffectType::Ailment {
                        status,
                        stacking: AilmentStacking::Limited { stack_effectiveness },
                        ..
                    } => {
                        let cnt = count_status(obs, status);
                        if cnt < effect.max_stacks as int {
                            nbs =~= obs.push(
                                with_effectiveness(
                                    effect,
                                    if cnt == 0 {
                                        SCALE
                                    } else {
                                        stack_effectiveness
                                    },
                                ),
                            )
                        } else if cnt == 0 {
                            nbs =~= obs
                        } else {
                            exists|wix: int|
                                {
                                    &&& 0 <= wix < obs.len()
                                    &&& spec_status(obs[wix]) == Some(status)
                                    &&& forall|k: int|
                                        0 <= k < obs.len() && spec_status(obs[k]) == Some(
                                            status,
                                        ) ==> spec_dot_dps(obs[wix]) <= spec_dot_dps(obs[k])
                                    &&& forall|k: int|
                                        0 <= k < wix && spec_status(obs[k]) == Some(status)
                                            ==> spec_dot_dps(obs[k]) > spec_dot_dps(obs[wix])
                                    &&& nbs =~= obs.update(
                                        wix,
                                        refreshed_instance(obs[wix], effect),
                                    )
                                }
                        }
                    },
                }
            }),
    {
        let is_statmod = match &effect.effect_type {
            EffectType::StatModifier { .. } => true,
            _ => false,
        };
        if is_statmod {
            self.effects.push(effect);
            return ;
        }
        let st: StatusEffect = match &effect.effect_type {
            EffectType::Ailment { status, .. } => *status,
            EffectType::StatModifier { .. } => StatusEffect::Poison,
        };
        let is_unlimited = match &effect.effect_type {
            EffectType::Ailment { stacking: AilmentStacking::Unlimited, .. } => true,
            _ => false,
        };
        if is_unlimited {
            self.effects.push(effect);
            return ;
        }
        let is_strongest_only = match &effect.effect_type {
            EffectType::Ailment { stacking: AilmentStacking::StrongestOnly, .. } => true,
            _ => false,
        };
        if is_strongest_only {
            let mut found: usize = 0;
            let mut was_found: bool = false;
            let mut i: usize = 0;
            while i < self.effects.len()
                invariant
                    i <= self.effects.len(),
                    !was_found ==> forall|k: int|
                        0 <= k < i ==> spec_status(self.effects@[k]) != Some(st),
                    was_found ==> 0 <= found < i && spec_status(
                        self.effects@[found as int],
                    ) == Some(st) && forall|k: int|
                        0 <= k < found ==> spec_status(self.effects@[k]) != Some(st),
                decreases self.effects.len() - i,
            {
                let matches_st = match &self.effects[i].effect_type {
                    EffectType::Ailment { status, .. } => *status == st,
                    EffectType::StatModifier { .. } => false,
                };
                if !was_found && matches_st {
                    was_found = true;
                    found = i;
                }
                i = i + 1;
            }
            if !was_found {
                self.effects.push(effect);
                return ;
            }
            let new_strength: i64 = match &effect.effect_type {
                EffectType::Ailment { dot_dps, magnitude, .. } => if *dot_dps > 0 {
                    *dot_dps
                } else {
                    *magnitude
                },
                EffectType::StatModifier { .. } => 0,
            };
            let old_strength: i64 = match &self.effects[found].effect_type {
                EffectType::Ailment { dot_dps, magnitude, .. } => if *dot_dps > 0 {
                    *dot_dps
                } else {
                    *magnitude
                },
                EffectType::StatModifier { .. } => 0,
            };
            if new_strength >= old_strength {
                self.effects.remove(found);
                self.effects.insert(found, effect);
                proof {
                    assert(self.effects@ =~= old(self).effects@.update(found as int, effect));
                }
            }
            return ;
        }
        // Limited stacking.
        let stack_eff: i64 = match &effect.effect_type {
            EffectType::Ailment {
                stacking: AilmentStacking::Limited { stack_effectiveness },
                ..
            } => *stack_effectiveness,
            _ => SCALE,
        };
        let mut cnt: usize = 0;
        let mut i: usize = 0;
        while i < self.effects.len()
            invariant
                i <= self.effects.len(),
                cnt as int == count_status(self.effects@.subrange(0, i as int), st),
                cnt <= i,
            decreases self.effects.len() - i,
        {
            let matches_st = match &self.effects[i].effect_type {
                EffectType::Ailment { status, .. } => *status == st,
                EffectType::StatModifier { .. } => false,
            };
            proof {
                let ext = self.effects@.subrange(0, i as int + 1);
                assert(ext.drop_last() =~= self.effects@.subrange(0, i as int));
                assert(ext.last() == self.effects@[i as int]);
            }
            if matches_st {
                cnt = cnt + 1;
            }
            i = i + 1;
        }
        proof {
            assert(self.effects@.subrange(0, self.effects@.len() as int) =~= self.effects@);
        }
        if (cnt as u64) < (effect.max_stacks as u64) {
            let eff_val: i64 = if cnt == 0 {
                SCALE
            } else {
                stack_eff
            };
            let mut e2 = effect;
            match &mut e2.effect_type {
                EffectType::Ailment { effectiveness, .. } => {
                    *effectiveness = eff_val;
                },
                EffectType::StatModifier { .. } => {},
            }
            self.effects.push(e2);
            return ;
        }
        // At the cap: refresh the weakest incumbent.
        let mut wix: usize = 0;
        let mut wdps: i64 = 0;
        let mut was_found: bool = false;
        let mut j: usize = 0;
        while j < self.effects.len()
            invariant
                j <= self.effects.len(),
                !was_found ==> forall|k: int|
                    0 <= k < j ==> spec_status(self.effects@[k]) != Some(st),
                was_found ==> {
                    &&& 0 <= wix < j
                    &&& spec_status(self.effects@[wix as int]) == Some(st)
                    &&& wdps as int == spec_dot_dps(self.effects@[wix as int])
                    &&& forall|k: int|
                        0 <= k < j && spec_status(self.effects@[k]) == Some(st)
                            ==> wdps as int <= spec_dot_dps(self.effects@[k])
                    &&& forall|k: int|
                        0 <= k < wix && spec_status(self.effects@[k]) == Some(st)
                            ==> spec_dot_dps(self.effects@[k]) > wdps as int
                },
            decreases self.effects.len() - j,
        {
            let cur_dps: i64 = match &self.effects[j].effect_type {
                EffectType::Ailment { dot_dps, .. } => *dot_dps,
                EffectType::StatModifier { .. } => 0,
            };
            let matches_st = match &self.effects[j].effect_type {
                EffectType::Ailment { status, .. } => *status == st,
                EffectType::StatModifier { .. } => false,
            };
            if matches_st && (!was_found || cur_dps < wdps) {
                was_found = true;
                wix = j;
                wdps = cur_dps;
            }
            j = j + 1;
        }
        if !was_found {
            // A zero stack cap stores nothing: the application is lost.
            proof {
                lemma_count_status_bound(self.effects@, st);
            }
            return ;
        }
        let new_dps: i64 = match &effect.effect_type {
            EffectType::Ailment { dot_dps, .. } => *dot_dps,
            EffectType::StatModifier { .. } => 0,
        };
        let mut ex = self.effects.remove(wix);
        ex.duration_remaining = effect.duration_remaining;
        ex.total_duration = effect.total_duration;
        match &mut ex.effect_type {
            EffectType::Ailment { dot_dps, .. } => {
                *dot_dps = new_dps;
            },
            EffectType::StatModifier { .. } => {},
        }
        self.effects.insert(wix, ex);
        proof {
            let obs = old(self).effects@;
            lemma_count_status_pos(obs, st, wix as int);
            assert(self.effects@ =~= obs.update(
                wix as int,
                refreshed_instance(obs[wix as int], effect),
            ));
            let wi: int = wix as int;
            assert(0 <= wi && wi < obs.len());
            assert(spec_status(obs[wi]) == Some(st));
            assert(forall|k: int|
                0 <= k < obs.len() && spec_status(obs[k]) == Some(st) ==> spec_dot_dps(obs[wi])
                    <= spec_dot_dps(obs[k]));
            assert(forall|k: int|
                0 <= k < wi && spec_status(obs[k]) == Some(st) ==> spec_dot_dps(obs[k])
                    > spec_dot_dps(obs[wi]));
        }
    }
}

/// An element of one kind makes the count of that kind positive.
pub proof fn lemma_count_status_pos(effects: Seq<Effect>, st: StatusEffect, k: int)
    requires
        0 <= k < effects.len(),
        spec_status(effects[k]) == Some(st),
    ensures
        count_status(effects, st) > 0,
    decreases effects.len(),
{
    lemma_count_status_bound(effects.drop_last(), st);
    if k == effects.len() - 1 {
        assert(spec_status(effects.last()) == Some(st));
    } else {
        assert(effects.drop_last()[k] == effects[k]);
        lemma_count_status_pos(effects.drop_last(), st, k);
    }
}

/// A positive count of one kind means some element carries that kind.
pub proof fn lemma_count_status_bound(effects: Seq<Effect>, st: StatusEffect)
    ensures
        count_status(effects, st) > 0 ==> exists|k: int|
            0 <= k < effects.len() && spec_status(#[trigger] effects[k]) == Some(st),
        count_status(effects, st) >= 0,
    decreases effects.len(),
{
    if effects.len() > 0 {
        lemma_count_status_bound(effects.drop_last(), st);
        if count_status(effects, st) > 0 {
            if spec_status(effects.last()) == Some(st) {
                assert(spec_status(effects[effects.len() - 1]) == Some(st));
            } else {
                let k = choose|k: int|
                    0 <= k < effects.drop_last().len() && spec_status(
                        #[trigger] effects.drop_last()[k],
                    ) == Some(st);
                assert(effects.drop_last()[k] == effects[k]);
            }
        }
    }
}



// ---------------------------------------------------------------------
// Ticking
// ---------------------------------------------------------------------

/// Equality of effects up to the identity of inner allocations: every
/// field agrees, with stat-modifier lists compared by contents.
pub open spec fn effect_eq(a: Effect, b: Effect) -> bool {
    &&& a.id == b.id
    &&& a.name == b.name
    &&& a.duration_remaining == b.duration_remaining
    &&& a.total_duration == b.total_duration
    &&& a.stacks == b.stacks
    &&& a.max_stacks == b.max_stacks
    &&& a.source_id == b.source_id
    &&& match (a.effect_type, b.effect_type) {
        (
            EffectType::Ailment {
                status: s1,
                magnitude: m1,
                dot_dps: d1,
                tick_rate: t1,
                time_until_tick: u1,
                stacking: k1,
                effectiveness: e1,
            },
            EffectType::Ailment {
                status: s2,
                magnitude: m2,
                dot_dps: d2,
                tick_rate: t2,
                time_until_tick: u2,
                stacking: k2,
                effectiveness: e2,
            },
        ) => s1 == s2 && m1 == m2 && d1 == d2 && t1 == t2 && u1 == u2 && k1 == k2 && e1 == e2,
        (
            EffectType::StatModifier { modifiers: v1, is_debuff: b1 },
            EffectType::StatModifier { modifiers: v2, is_debuff: b2 },
        ) => b1 == b2 && v1@ == v2@,
        _ => false,
    }
}

/// Pointwise effect equality of two lists.
pub open spec fn effects_eq(a: Seq<Effect>, b: Seq<Effect>) -> bool {
    a.len() == b.len() && forall|i: int| 0 <= i < a.len() ==> effect_eq(#[trigger] a[i], b[i])
}

/// The damage one effect emits over an advance of `delta`: the fired
/// ticks of a damaging ailment, doubled for a bleed on a moving target.
pub open spec fn effect_tick_damage_spec(e: Effect, delta: i64, moving: bool) -> int {
    let base = match e.effect_type {
        EffectType::Ailment { status, dot_dps, tick_rate, time_until_tick, effectiveness, .. } =>
            if dot_dps > 0 {
                tick_total_spec(
                    clamp_amount(time_until_tick - delta),
                    e.duration_remaining as int,
                    tick_rate as int,
                    crate::effect::per_tick_spec(
                        dot_dps as int,
                        tick_rate as int,
                        e.stacks as int,
                        effectiveness as int,
                    ),
                )
            } else {
                0
            },
        EffectType::StatModifier { .. } => 0,
    };
    if moving && spec_status(e) == Some(StatusEffect::Bleed) {
        clamp_amount(base * 2)
    } else {
        base
    }
}

/// An effect after one advance: ticks fired, timer stepped, duration
/// spent.
pub open spec fn ticked_effect(e: Effect, delta: i64) -> Effect {
    let nd = clamp_amount(e.duration_remaining - delta) as i64;
    match e.effect_type {
        EffectType::Ailment {
            status,
            magnitude,
            dot_dps,
            tick_rate,
            time_until_tick,
            stacking,
            effectiveness,
        } => if dot_dps > 0 {
            Effect {
                duration_remaining: nd,
                effect_type: EffectType::Ailment {
                    status,
                    magnitude,
                    dot_dps,
                    tick_rate,
                    time_until_tick: crate::effect::ttt_after_spec(
                        clamp_amount(time_until_tick - delta),
                        e.duration_remaining as int,
                        tick_rate as int,
                    ) as i64,
                    stacking,
                    effectiveness,
                },
                ..e
            }
        } else {
            Effect { duration_remaining: nd, ..e }
        },
        EffectType::StatModifier { .. } => Effect { duration_remaining: nd, ..e },
    }
}

/// Total damage an advance draws from a list of effects.
pub open spec fn effects_tick_total(effects: Seq<Effect>, delta: i64, moving: bool) -> int
    decreases effects.len(),
{
    if effects.len() == 0 {
        0
    } else {
        clamp_amount(
            effects_tick_total(effects.drop_last(), delta, moving) + effect_tick_damage_spec(
                effects.last(),
                delta,
                moving,
            ),
        )
    }
}

/// The effects surviving an advance, each ticked; expired ones drop.
pub open spec fn effects_surviving(effects: Seq<Effect>, delta: i64) -> Seq<Effect>
    decreases effects.len(),
{
    if effects.len() == 0 {
        Seq::<Effect>::empty()
    } else {
        let rest = effects_surviving(effects.drop_last(), delta);
        let te = ticked_effect(effects.last(), delta);
        if te.is_active_spec() {
            rest.push(te)
        } else {
            rest
        }
    }
}

/// The identifiers of the effects an advance expires.
pub open spec fn effects_expired_ids(effects: Seq<Effect>, delta: i64) -> Seq<String>
    decreases effects.len(),
{
    if effects.len() == 0 {
        Seq::<String>::empty()
    } else {
        let rest = effects_expired_ids(effects.drop_last(), delta);
        if ticked_effect(effects.last(), delta).is_active_spec() {
            rest
        } else {
            rest.push(effects.last().id)
        }
    }
}

/// Whether an advance expires any stat-modifier effect.
pub open spec fn any_statmod_expired(effects: Seq<Effect>, delta: i64) -> bool
    decreases effects.len(),
{
    if effects.len() == 0 {
        false
    } else {
        any_statmod_expired(effects.drop_last(), delta) || (!ticked_effect(
            effects.last(),
            delta,
        ).is_active_spec() && effects.last().effect_type matches EffectType::StatModifier { .. })
    }
}



impl Effect {
    /// An independent copy of this effect, equal up to inner
    /// allocations.
    pub fn duplicate(&self) -> (r: Effect)
        ensures
            effect_eq(r, *self),
            self.wf() ==> r.wf(),
    {
        let effect_type = match &self.effect_type {
            EffectType::Ailment {
                status,
                magnitude,
                dot_dps,
                tick_rate,
                time_until_tick,
                stacking,
                effectiveness,
            } => EffectType::Ailment {
                status: *status,
                magnitude: *magnitude,
                dot_dps: *dot_dps,
                tick_rate: *tick_rate,
                time_until_tick: *time_until_tick,
                stacking: *stacking,
                effectiveness: *effectiveness,
            },
            EffectType::StatModifier { modifiers, is_debuff } => {
                let mut ms: Vec<StatMod> = Vec::new();
                let mut i: usize = 0;
                while i < modifiers.len()
                    invariant
                        i <= modifiers.len(),
                        ms@ =~= modifiers@.subrange(0, i as int),
                    decreases modifiers.len() - i,
                {
                    ms.push(modifiers[i]);
                    proof {
                        assert(modifiers@.subrange(0, i as int + 1) =~= modifiers@.subrange(
                            0,
                            i as int,
                        ).push(modifiers@[i as int]));
                    }
                    i = i + 1;
                }
                proof {
                    assert(modifiers@.subrange(0, modifiers@.len() as int) =~= modifiers@);
                }
                EffectType::StatModifier { modifiers: ms, is_debuff: *is_debuff }
            },
        };
        Effect {
            id: self.id.clone(),
            name: self.name.clone(),
            effect_type,
            duration_remaining: self.duration_remaining,
            total_duration: self.total_duration,
            stacks: self.stacks,
            max_stacks: self.max_stacks,
            source_id: self.source_id.clone(),
        }
    }
}

/// An independent copy of an item, carrying the same stats.
fn dup_item(item: &Item) -> (r: Item) {
    let mut prefixes: Vec<crate::item::Modifier> = Vec::new();
    let mut i: usize = 0;
    while i < item.prefixes.len()
        decreases item.prefixes.len() - i,
    {
        prefixes.push(item.prefixes[i]);
        i = i + 1;
    }
    let mut suffixes: Vec<crate::item::Modifier> = Vec::new();
    let mut j: usize = 0;
    while j < item.suffixes.len()
        decreases item.suffixes.len() - j,
    {
        suffixes.push(item.suffixes[j]);
        j = j + 1;
    }
    let damage = match &item.damage {
        Some(wd) => {
            let mut ds: Vec<crate::item::WeaponDamageEntry> = Vec::new();
            let mut k: usize = 0;
            while k < wd.damages.len()
                decreases wd.damages.len() - k,
            {
                ds.push(wd.damages[k]);
                k = k + 1;
            }
            Some(
                crate::item::WeaponDamage {
                    damages: ds,
                    attack_speed: wd.attack_speed,
                    critical_chance: wd.critical_chance,
                },
            )
        },
        None => None,
    };
    Item {
        base_type_id: item.base_type_id.clone(),
        name: item.name.clone(),
        class: item.class,
        rarity: item.rarity,
        implicit: item.implicit,
        prefixes,
        suffixes,
        defenses: item.defenses,
        damage,
    }
}

/// An independent copy of a buff source.
fn dup_buff(b: &BuffSource) -> (r: BuffSource) {
    let mut ms: Vec<crate::source::BuffModifier> = Vec::new();
    let mut i: usize = 0;
    while i < b.modifiers.len()
        decreases b.modifiers.len() - i,
    {
        ms.push(b.modifiers[i]);
        i = i + 1;
    }
    BuffSource {
        buff_id: b.buff_id.clone(),
        name: b.name.clone(),
        duration_remaining: b.duration_remaining,
        stacks: b.stacks,
        is_debuff: b.is_debuff,
        modifiers: ms,
    }
}

impl StatBlock {
    /// A deep, independent copy of this block. The copy agrees on the
    /// identity, every stat, the resources and the effects; the
    /// equipment and buff lists are copied with the same length.
    pub fn duplicate(&self) -> (r: StatBlock)
        ensures
            block_stats_eq(r, *self),
            r.id == self.id,
            r.current_life == self.current_life,
            r.current_mana == self.current_mana,
            r.current_energy_shield == self.current_energy_shield,
            r.max_energy_shield == self.max_energy_shield,
            effects_eq(r.effects@, self.effects@),
            r.equipped_items@.len() == self.equipped_items@.len(),
            r.buff_sources@.len() == self.buff_sources@.len(),
            self.wf_effects() ==> r.wf_effects(),
    {
        let mut equipped_items: Vec<(EquipmentSlot, Item)> = Vec::new();
        let mut i: usize = 0;
        while i < self.equipped_items.len()
            invariant
                i <= self.equipped_items.len(),
                equipped_items@.len() == i,
            decreases self.equipped_items.len() - i,
        {
            let pair = &self.equipped_items[i];
            equipped_items.push((pair.0, dup_item(&pair.1)));
            i = i + 1;
        }
        let mut buff_sources: Vec<BuffSource> = Vec::new();
        let mut j: usize = 0;
        while j < self.buff_sources.len()
            invariant
                j <= self.buff_sources.len(),
                buff_sources@.len() == j,
            decreases self.buff_sources.len() - j,
        {
            buff_sources.push(dup_buff(&self.buff_sources[j]));
            j = j + 1;
        }
        let mut effects: Vec<Effect> = Vec::new();
        let mut k: usize = 0;
        while k < self.effects.len()
            invariant
                k <= self.effects.len(),
                effects@.len() == k,
                forall|t: int| 0 <= t < k ==> effect_eq(#[trigger] effects@[t], self.effects@[t]),
                self.wf_effects() ==> forall|t: int|
                    0 <= t < k ==> (#[trigger] effects@[t]).wf(),
            decreases self.effects.len() - k,
        {
            effects.push(self.effects[k].duplicate());
            k = k + 1;
        }
        StatBlock {
            id: self.id.clone(),
            equipped_items,
            buff_sources,
            max_life: self.max_life.duplicate(),
            current_life: self.current_life,
            max_mana: self.max_mana.duplicate(),
            current_mana: self.current_mana,
            max_energy_shield: self.max_energy_shield,
            current_energy_shield: self.current_energy_shield,
            strength: self.strength.duplicate(),
            dexterity: self.dexterity.duplicate(),
            intelligence: self.intelligence.duplicate(),
            constitution: self.constitution.duplicate(),
            wisdom: self.wisdom.duplicate(),
            charisma: self.charisma.duplicate(),
            armour: self.armour.duplicate(),
            evasion: self.evasion.duplicate(),
            fire_resistance: self.fire_resistance.duplicate(),
            cold_resistance: self.cold_resistance.duplicate(),
            lightning_resistance: self.lightning_resistance.duplicate(),
            chaos_resistance: self.chaos_resistance.duplicate(),
            accuracy: self.accuracy.duplicate(),
            global_physical_damage: self.global_physical_damage.duplicate(),
            global_fire_damage: self.global_fire_damage.duplicate(),
            global_cold_damage: self.global_cold_damage.duplicate(),
            global_lightning_damage: self.global_lightning_damage.duplicate(),
            global_chaos_damage: self.global_chaos_damage.duplicate(),
            attack_speed: self.attack_speed.duplicate(),
            cast_speed: self.cast_speed.duplicate(),
            critical_chance: self.critical_chance.duplicate(),
            critical_multiplier: self.critical_multiplier.duplicate(),
            fire_penetration: self.fire_penetration.duplicate(),
            cold_penetration: self.cold_penetration.duplicate(),
            lightning_penetration: self.lightning_penetration.duplicate(),
            chaos_penetration: self.chaos_penetration.duplicate(),
            life_regen: self.life_regen.duplicate(),
            mana_regen: self.mana_regen.duplicate(),
            life_leech: self.life_leech.duplicate(),
            mana_leech: self.mana_leech.duplicate(),
            movement_speed_increased: self.movement_speed_increased,
            item_rarity_increased: self.item_rarity_increased,
            item_quantity_increased: self.item_quantity_increased,
            effects,
            weapon_physical_min: self.weapon_physical_min,
            weapon_physical_max: self.weapon_physical_max,
            weapon_fire_min: self.weapon_fire_min,
            weapon_fire_max: self.weapon_fire_max,
            weapon_cold_min: self.weapon_cold_min,
            weapon_cold_max: self.weapon_cold_max,
            weapon_lightning_min: self.weapon_lightning_min,
            weapon_lightning_max: self.weapon_lightning_max,
            weapon_chaos_min: self.weapon_chaos_min,
            weapon_chaos_max: self.weapon_chaos_max,
            weapon_attack_speed: self.weapon_attack_speed,
            weapon_crit_chance: self.weapon_crit_chance,
            status_effect_stats: self.status_effect_stats,
        }
    }
}



impl StatBlock {
    /// Advance every owned effect by `delta` milli-seconds, in place:
    /// ailments fire their due ticks (bleeds hit twice as hard on a
    /// moving target), durations are spent, expired effects drop, and
    /// the accumulated DoT damage lands on life — once, after all
    /// emissions, and never below zero. A dead target takes nothing.
    pub fn tick_effects_mut(&mut self, delta: i64, is_moving: bool) -> (r: TickResult)
        requires
            old(self).wf_effects(),
        ensures
            final(self).wf_effects(),
            final(self).effects@ =~= effects_surviving(old(self).effects@, delta),
            r.dot_damage as int == effects_tick_total(old(self).effects@, delta, is_moving),
            r.dot_damage >= 0,
            r.expired_effects@ =~= effects_expired_ids(old(self).effects@, delta),
            r.stat_effects_expired == any_statmod_expired(old(self).effects@, delta),
            final(self).current_life as int == if old(self).current_life > 0 {
                max_spec(clamp_amount(old(self).current_life - r.dot_damage), 0)
            } else {
                old(self).current_life as int
            },
            r.life_remaining == final(self).current_life,
            r.is_dead == (final(self).current_life <= 0),
            *final(self) == (StatBlock {
                effects: final(self).effects,
                current_life: final(self).current_life,
                ..*old(self)
            }),
    {
        let ghost orig = self.effects@;
        let mut total: i64 = 0;
        let mut expired_ids: Vec<String> = Vec::new();
        let mut stat_expired: bool = false;
        let mut p: Ghost<int> = Ghost(0);
        let mut i: usize = 0;
        while i < self.effects.len()
            invariant
                0 <= p@ <= orig.len(),
                forall|k: int| 0 <= k < orig.len() ==> (#[trigger] orig[k]).wf(),
                self.effects@ =~= effects_surviving(orig.subrange(0, p@), delta) + orig.skip(
                    p@,
                ),
                i as int == effects_surviving(orig.subrange(0, p@), delta).len(),
                total as int == effects_tick_total(orig.subrange(0, p@), delta, is_moving),
                total >= 0,
                expired_ids@ =~= effects_expired_ids(orig.subrange(0, p@), delta),
                stat_expired == any_statmod_expired(orig.subrange(0, p@), delta),
                forall|k: int|
                    0 <= k < self.effects@.len() ==> (#[trigger] self.effects@[k]).wf(),
                *self == (StatBlock { effects: self.effects, ..*old(self) }),
            decreases orig.len() - p@,
        {
            proof {
                assert(orig.skip(p@).len() > 0);
                assert(self.effects@[i as int] == orig.skip(p@)[0]);
                assert(orig.skip(p@)[0] == orig[p@]);
                assert(orig.subrange(0, p@ + 1).drop_last() =~= orig.subrange(0, p@));
                assert(orig.subrange(0, p@ + 1).last() == orig[p@]);
            }
            let mut e = self.effects.remove(i);
            let is_bleed = match &e.effect_type {
                EffectType::Ailment { status: StatusEffect::Bleed, .. } => true,
                _ => false,
            };
            let mut dmg = e.tick(delta);
            if is_moving && is_bleed {
                dmg = crate::fixed::sat_mul(dmg, 2);
            }
            proof {
                assert(dmg as int == effect_tick_damage_spec(orig[p@], delta, is_moving));
                assert(e == ticked_effect(orig[p@], delta));
            }
            total = sat_add(total, dmg);
            if e.is_active() {
                self.effects.insert(i, e);
                proof {
                    assert(self.effects@ =~= effects_surviving(orig.subrange(0, p@ + 1), delta)
                        + orig.skip(p@ + 1));
                }
                i = i + 1;
            } else {
                if e.is_stat_modifier() {
                    stat_expired = true;
                }
                expired_ids.push(e.id);
                proof {
                    assert(self.effects@ =~= effects_surviving(orig.subrange(0, p@ + 1), delta)
                        + orig.skip(p@ + 1));
                }
            }
            proof {
                p@ = p@ + 1;
            }
        }
        proof {
            assert(orig.skip(p@).len() == 0);
            assert(p@ == orig.len());
            assert(orig.subrange(0, orig.len() as int) =~= orig);
        }
        if self.current_life > 0 {
            self.current_life = crate::fixed::max64(
                crate::fixed::sat_sub(self.current_life, total),
                0,
            );
        }
        TickResult {
            dot_damage: total,
            expired_effects: expired_ids,
            stat_effects_expired: stat_expired,
            life_remaining: self.current_life,
            is_dead: self.current_life <= 0,
        }
    }
}

/// Lists equal up to inner allocations tick identically: the same
/// damage, the same expirations, and survivors equal in the same way.
pub proof fn lemma_tick_congruence(a: Seq<Effect>, b: Seq<Effect>, delta: i64, moving: bool)
    requires
        effects_eq(a, b),
    ensures
        effects_tick_total(a, delta, moving) == effects_tick_total(b, delta, moving),
        effects_eq(effects_surviving(a, delta), effects_surviving(b, delta)),
        effects_expired_ids(a, delta) == effects_expired_ids(b, delta),
        any_statmod_expired(a, delta) == any_statmod_expired(b, delta),
    decreases a.len(),
{
    if a.len() > 0 {
        assert(effects_eq(a.drop_last(), b.drop_last())) by {
            assert(forall|i: int|
                0 <= i < a.drop_last().len() ==> a.drop_last()[i] == a[i] && b.drop_last()[i]
                    == b[i]);
        }
        lemma_tick_congruence(a.drop_last(), b.drop_last(), delta, moving);
        assert(effect_eq(a.last(), b.last()));
        let ta = ticked_effect(a.last(), delta);
        let tb = ticked_effect(b.last(), delta);
        assert(effect_eq(ta, tb));
        assert(effect_tick_damage_spec(a.last(), delta, moving) == effect_tick_damage_spec(
            b.last(),
            delta,
            moving,
        ));
        if ta.is_active_spec() {
            let sa = effects_surviving(a.drop_last(), delta);
            let sb = effects_surviving(b.drop_last(), delta);
            assert(forall|i: int|
                0 <= i < sa.push(ta).len() ==> effect_eq(
                    #[trigger] sa.push(ta)[i],
                    sb.push(tb)[i],
                ));
        }
    }
}

impl StatBlock {
    /// Advance every effect by `delta` milli-seconds without touching
    /// this block: the ticked block and the tick report come back as a
    /// new snapshot.
    pub fn tick_effects(&self, delta: i64, is_moving: bool) -> (r: (StatBlock, TickResult))
        requires
            self.wf_effects(),
        ensures
            r.0.wf_effects(),
            effects_eq(r.0.effects@, effects_surviving(self.effects@, delta)),
            r.1.dot_damage as int == effects_tick_total(self.effects@, delta, is_moving),
            r.1.dot_damage >= 0,
            r.1.expired_effects@ =~= effects_expired_ids(self.effects@, delta),
            r.1.stat_effects_expired == any_statmod_expired(self.effects@, delta),
            r.0.current_life as int == if self.current_life > 0 {
                max_spec(clamp_amount(self.current_life - r.1.dot_damage), 0)
            } else {
                self.current_life as int
            },
            r.1.life_remaining == r.0.current_life,
            r.1.is_dead == (r.0.current_life <= 0),
            block_stats_eq(r.0, *self),
            r.0.id == self.id,
            r.0.current_mana == self.current_mana,
            r.0.current_energy_shield == self.current_energy_shield,
            r.0.max_energy_shield == self.max_energy_shield,
    {
        let mut nb = self.duplicate();
        let ghost dup_effects = nb.effects@;
        let tr = nb.tick_effects_mut(delta, is_moving);
        proof {
            lemma_tick_congruence(self.effects@, dup_effects, delta, is_moving);
        }
        (nb, tr)
    }

    /// The index of the strongest effect of one ailment kind: the
    /// first instance attaining the highest DoT rate.
    pub fn strongest_effect_index(&self, status: StatusEffect) -> (r: Option<usize>)
        ensures
            match r {
                None => forall|k: int|
                    0 <= k < self.effects@.len() ==> spec_status(#[trigger] self.effects@[k])
                        != Some(status),
                Some(ix) => {
                    &&& 0 <= ix < self.effects@.len()
                    &&& spec_status(self.effects@[ix as int]) == Some(status)
                    &&& forall|k: int|
                        0 <= k < self.effects@.len() && spec_status(
                            #[trigger] self.effects@[k],
                        ) == Some(status) ==> spec_dot_dps(self.effects@[k]) <= spec_dot_dps(
                            self.effects@[ix as int],
                        )
                    &&& forall|k: int|
                        0 <= k < ix && spec_status(#[trigger] self.effects@[k]) == Some(
                            status,
                        ) ==> spec_dot_dps(self.effects@[k]) < spec_dot_dps(
                            self.effects@[ix as int],
                        )
                },
            },
    {
        let mut best: usize = 0;
        let mut best_dps: i64 = 0;
        let mut was_found: bool = false;
        let mut i: usize = 0;
        while i < self.effects.len()
            invariant
                i <= self.effects.len(),
                !was_found ==> forall|k: int|
                    0 <= k < i ==> spec_status(#[trigger] self.effects@[k]) != Some(status),
                was_found ==> {
                    &&& 0 <= best < i
                    &&& spec_status(self.effects@[best as int]) == Some(status)
                    &&& best_dps as int == spec_dot_dps(self.effects@[best as int])
                    &&& forall|k: int|
                        0 <= k < i && spec_status(#[trigger] self.effects@[k]) == Some(
                            status,
                        ) ==> spec_dot_dps(self.effects@[k]) <= best_dps as int
                    &&& forall|k: int|
                        0 <= k < best && spec_status(#[trigger] self.effects@[k]) == Some(
                            status,
                        ) ==> spec_dot_dps(self.effects@[k]) < best_dps as int
                },
            decreases self.effects.len() - i,
        {
            let cur_dps: i64 = match &self.effects[i].effect_type {
                EffectType::Ailment { dot_dps, .. } => *dot_dps,
                EffectType::StatModifier { .. } => 0,
            };
            let matches_st = match &self.effects[i].effect_type {
                EffectType::Ailment { status: st2, .. } => *st2 == status,
                EffectType::StatModifier { .. } => false,
            };
            if matches_st && (!was_found || cur_dps > best_dps) {
                was_found = true;
                best = i;
                best_dps = cur_dps;
            }
            i = i + 1;
        }
        if was_found {
            Some(best)
        } else {
            None
        }
    }

    /// The summed damage per second of all active damaging effects.
    pub fn total_effect_dps(&self) -> (r: i64)
        ensures
            r as int == effects_dps_total(self.effects@),
    {
        let mut total: i64 = 0;
        let mut i: usize = 0;
        while i < self.effects.len()
            invariant
                i <= self.effects.len(),
                total as int == effects_dps_total(self.effects@.subrange(0, i as int)),
            decreases self.effects.len() - i,
        {
            proof {
                let ext = self.effects@.subrange(0, i as int + 1);
                assert(ext.drop_last() =~= self.effects@.subrange(0, i as int));
                assert(ext.last() == self.effects@[i as int]);
            }
            let d = self.effects[i].dps();
            total = sat_add(total, d);
            i = i + 1;
        }
        proof {
            assert(self.effects@.subrange(0, self.effects@.len() as int) =~= self.effects@);
        }
        total
    }
}

/// The summed per-second rate of a list of effects.
pub open spec fn effects_dps_total(effects: Seq<Effect>) -> int
    decreases effects.len(),
{
    if effects.len() == 0 {
        0
    } else {
        clamp_amount(
            effects_dps_total(effects.drop_last()) + match effects.last().effect_type {
                EffectType::Ailment { dot_dps, effectiveness, .. } => scaled(
                    muldiv(dot_dps as int, effects.last().stacks as int, 1),
                    effectiveness as int,
                ),
                EffectType::StatModifier { .. } => 0,
            },
        )
    }
}


} // verus!
