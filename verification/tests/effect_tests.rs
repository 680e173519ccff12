//! Effects, ticking, stacking disciplines and the ailment table.

use rand::SeedableRng;
use stat_core::types::{DamageType, StatusEffect};
use stat_core::{
    resolve_damage_with_rng, DamagePacket, DotConfig, DotRegistry, DotStacking, Effect,
    FinalDamage, GameConstants, PendingStatusEffect, StatBlock,
};

fn make_test_rng() -> rand::rngs::StdRng {
    rand::rngs::StdRng::seed_from_u64(12345)
}

#[test]
fn test_default_constants() {
    let constants = GameConstants::default();
    assert_eq!(constants.resistances.max_cap, 100_000);
    assert_eq!(constants.armour.damage_constant, 5);
    assert_eq!(constants.crit.base_multiplier, 1_500);
}

#[test]
fn test_dot_config_tick_count() {
    let config = DotConfig {
        id: "test".to_string(),
        name: "Test".to_string(),
        damage_type: DamageType::Fire,
        stacking: DotStacking::StrongestOnly,
        base_duration: 4_000,
        tick_rate: 500,
        base_damage_percent: 250,
        max_stacks: 1,
        stack_effectiveness: 1_000,
        moving_multiplier: 1_000,
    };
    assert_eq!(config.base_tick_count(), 8);
    assert_eq!(config.actual_duration(), 4_000);
}

#[test]
fn test_dot_registry_defaults() {
    let registry = DotRegistry::with_defaults();
    assert!(registry.get("burn").is_some());
    assert!(registry.get("poison").is_some());
    assert!(registry.get("bleed").is_some());
    assert!(registry.get("missing").is_none());
    let bleed = registry.get("bleed").unwrap();
    assert_eq!(bleed.moving_multiplier, 2_000);
    assert_eq!(registry.get_base_damage_percent(StatusEffect::Burn), 250);
    assert_eq!(registry.get_base_duration(StatusEffect::Poison), 2_000);
}

#[test]
fn test_effect_durations_follow_table() {
    assert_eq!(Effect::base_duration_for(StatusEffect::Poison), 2_000);
    assert_eq!(Effect::base_duration_for(StatusEffect::Bleed), 5_000);
    assert_eq!(Effect::base_duration_for(StatusEffect::Burn), 4_000);
    assert_eq!(Effect::base_duration_for(StatusEffect::Freeze), 500);
    assert_eq!(Effect::base_duration_for(StatusEffect::Chill), 2_000);
    assert_eq!(Effect::base_duration_for(StatusEffect::Static), 1_000);
    assert_eq!(Effect::base_duration_for(StatusEffect::Fear), 1_500);
    assert_eq!(Effect::base_duration_for(StatusEffect::Slow), 3_000);
    assert_eq!(Effect::base_dot_percent_for(StatusEffect::Poison), 200);
    assert_eq!(Effect::base_dot_percent_for(StatusEffect::Bleed), 200);
    assert_eq!(Effect::base_dot_percent_for(StatusEffect::Burn), 250);
    assert_eq!(Effect::base_dot_percent_for(StatusEffect::Chill), 0);
}

#[test]
fn test_poison_stacking_unlimited() {
    // Three poisons stack freely; the strongest is the heaviest one and
    // the rates sum.
    let mut block = StatBlock::with_id("target");
    block.add_effect(Effect::poison(50_000, "a"));
    block.add_effect(Effect::poison(30_000, "a"));
    block.add_effect(Effect::poison(70_000, "a"));
    assert_eq!(block.effects.len(), 3);
    assert_eq!(block.total_effect_dps(), 150_000);
    let strongest = block.strongest_effect_index(StatusEffect::Poison).unwrap();
    assert_eq!(strongest, 2);
}

#[test]
fn test_strongest_only_replaces_upward() {
    let mut block = StatBlock::with_id("target");
    block.add_effect(Effect::burn(50_000, "a"));
    assert_eq!(block.effects.len(), 1);
    // A weaker burn is discarded.
    block.add_effect(Effect::burn(30_000, "a"));
    assert_eq!(block.effects.len(), 1);
    assert_eq!(block.total_effect_dps(), 50_000);
    // A stronger burn takes over.
    block.add_effect(Effect::burn(70_000, "a"));
    assert_eq!(block.effects.len(), 1);
    assert_eq!(block.total_effect_dps(), 70_000);
}

#[test]
fn test_limited_stacking_caps_and_dampens() {
    let mut block = StatBlock::with_id("target");
    for _ in 0..10 {
        block.add_effect(Effect::bleed(100_000, "a"));
    }
    // Bleed caps at eight instances.
    assert_eq!(block.effects.len(), 8);
    // The first instance is at full effectiveness, the rest at half:
    // 100 + 7 * 50 = 450 per second.
    assert_eq!(block.total_effect_dps(), 450_000);
}

#[test]
fn test_tick_conservation() {
    // A poison at 50 per second over its whole 2 s lifetime deals its
    // rate times the duration, within one tick's worth.
    let mut block = StatBlock::with_id("target");
    block.current_life = 1_000_000;
    block.add_effect(Effect::poison(50_000, "a"));
    let (ticked, result) = block.tick_effects(2_000, false);
    // Six ticks of 0.33 s at 16.5 each: 99 of the ideal 100.
    assert_eq!(result.dot_damage, 99_000);
    assert!((result.dot_damage - 100_000i64).abs() <= 16_500);
    assert_eq!(ticked.current_life, 1_000_000 - 99_000);
    assert_eq!(ticked.effects.len(), 0);
    assert_eq!(result.expired_effects.len(), 1);
}

#[test]
fn test_bleed_moving_multiplier() {
    let mut block = StatBlock::with_id("target");
    block.current_life = 1_000_000;
    block.add_effect(Effect::bleed(100_000, "a"));
    let (_, still) = block.tick_effects(1_000, false);
    let (_, moving) = block.tick_effects(1_000, true);
    assert_eq!(still.dot_damage, 100_000);
    assert_eq!(moving.dot_damage, 200_000);
}

#[test]
fn test_expired_effects_never_tick() {
    let mut block = StatBlock::with_id("target");
    block.current_life = 1_000_000;
    block.add_effect(Effect::burn(40_000, "a"));
    // Burn the whole 4 s duration away, then advance again.
    let (after, first) = block.tick_effects(4_000, false);
    assert!(first.dot_damage > 0);
    let (_, second) = after.tick_effects(1_000, false);
    assert_eq!(second.dot_damage, 0);
}

#[test]
fn test_dot_on_dead_target_is_suppressed() {
    let mut block = StatBlock::with_id("target");
    block.current_life = 0;
    block.add_effect(Effect::poison(50_000, "a"));
    let (after, result) = block.tick_effects(1_000, false);
    assert_eq!(after.current_life, 0);
    assert!(result.is_dead);
}

#[test]
fn test_ailment_applied_from_packet() {
    // Status damage at the target's whole life is a certain application.
    let mut defender = StatBlock::with_id("target");
    defender.current_life = 50_000;
    let mut packet = DamagePacket::new("attacker".to_string(), "skill".to_string());
    packet.damages.push(FinalDamage::new(DamageType::Chaos, 10_000));
    packet.status_effects_to_apply.push(PendingStatusEffect::new_with_dot(
        StatusEffect::Poison,
        1_000_000,
        2_000,
        1_000,
        25_000,
    ));
    let mut rng = make_test_rng();
    let (new_defender, result) = resolve_damage_with_rng(&defender, &packet, &mut rng);
    assert_eq!(result.effects_applied.len(), 1);
    assert_eq!(new_defender.effects.len(), 1);
}

#[test]
fn test_zero_max_life_blocks_ailments() {
    // A target without life cannot be ailed: the chance is zero.
    let pending = PendingStatusEffect::new_with_dot(StatusEffect::Poison, 1_000_000, 2_000, 1_000, 25_000);
    assert_eq!(pending.calculate_apply_chance(0), 0);
    assert_eq!(pending.calculate_apply_chance(-5), 0);
}

#[test]
fn test_stat_modifier_expiry_flags_rebuild() {
    let mut block = StatBlock::with_id("target");
    block.add_effect(Effect::new_stat_modifier("buff", "Buff", 500, false, vec![], "src"));
    let (after, result) = block.tick_effects(1_000, false);
    assert!(result.stat_effects_expired);
    assert_eq!(after.effects.len(), 0);
}
