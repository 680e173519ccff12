//! Stat values, sources and the accumulator, in milli-units.

use stat_core::source::{PRIORITY_BASE, PRIORITY_BUFF, PRIORITY_TREE};
use stat_core::types::DamageType;
use stat_core::{
    BaseStatsSource, BuffSource, GearSource, NodeModifier, SkillNodeId, SkillTreeSource, Source,
    StatAccumulator, StatType, StatValue,
};

#[test]
fn test_compute_basic() {
    let stat = StatValue::with_base(100_000);
    assert_eq!(stat.compute(), 100_000);
}

#[test]
fn test_compute_with_flat() {
    let mut stat = StatValue::with_base(100_000);
    stat.add_flat(50_000);
    assert_eq!(stat.compute(), 150_000);
}

#[test]
fn test_compute_with_increased() {
    let mut stat = StatValue::with_base(100_000);
    stat.add_increased(400);
    assert_eq!(stat.compute(), 140_000);
}

#[test]
fn test_compute_with_more() {
    let mut stat = StatValue::with_base(100_000);
    stat.add_more(200);
    assert_eq!(stat.compute(), 120_000);
}

#[test]
fn test_compute_full_formula() {
    // (100 + 50) * 1.70 * (1.20 * 1.15) = 351.9
    let mut stat = StatValue::with_base(100_000);
    stat.add_flat(50_000);
    stat.add_increased(400);
    stat.add_increased(300);
    stat.add_more(200);
    stat.add_more(150);
    assert_eq!(stat.compute(), 351_900);
}

#[test]
fn test_multiple_increased_stack_additively() {
    let mut stat = StatValue::with_base(100_000);
    stat.add_increased(200);
    stat.add_increased(300);
    // 100 * 1.5 = 150, not 100 * 1.2 * 1.3 = 156.
    assert_eq!(stat.compute(), 150_000);
}

#[test]
fn test_multiple_more_stack_multiplicatively() {
    let mut stat = StatValue::with_base(100_000);
    stat.add_more(200);
    stat.add_more(300);
    // 100 * 1.2 * 1.3 = 156, not 100 * 1.5 = 150.
    assert_eq!(stat.compute(), 156_000);
    assert_ne!(stat.compute(), 150_000);
}

#[test]
fn test_reset_to_base() {
    let mut stat = StatValue::with_base(100_000);
    stat.add_flat(50_000);
    stat.add_increased(400);
    stat.add_more(200);
    stat.reset_to_base();
    assert_eq!(stat.compute(), 100_000);
}

#[test]
fn test_base_stats_level_scaling() {
    let source = BaseStatsSource::new(10);
    let mut acc = StatAccumulator::new();
    source.apply(&mut acc);
    assert_eq!(acc.life_flat, 108_000);
    assert_eq!(acc.mana_flat, 54_000);
}

#[test]
fn test_base_stats_attributes() {
    let source = BaseStatsSource::new(1);
    let mut acc = StatAccumulator::new();
    source.apply(&mut acc);
    assert_eq!(acc.strength_flat, 10_000);
    assert_eq!(acc.intelligence_flat, 10_000);
}

#[test]
fn test_base_stats_priority() {
    let source = Source::Base(BaseStatsSource::new(1));
    assert_eq!(source.priority(), -100);
    assert_eq!(source.priority(), PRIORITY_BASE);
}

#[test]
fn test_buff_tick() {
    let mut buff = BuffSource::new("test".to_string(), "Test".to_string(), 5_000, false);
    assert!(buff.is_active());
    assert!(buff.tick(2_000));
    assert_eq!(buff.duration_remaining, 3_000);
    assert!(!buff.tick(4_000));
    assert!(!buff.is_active());
}

#[test]
fn test_buff_stacks() {
    let buff = BuffSource::new("test".to_string(), "Test".to_string(), 5_000, false)
        .with_modifier(StatType::IncreasedPhysicalDamage, 10_000, false)
        .with_stacks(3);
    let mut acc = StatAccumulator::new();
    buff.apply(&mut acc);
    // 10% per stack over three stacks: 30% increased.
    assert_eq!(acc.physical_damage_increased, 300);
}

#[test]
fn test_buff_refresh() {
    let mut buff = BuffSource::new("test".to_string(), "Test".to_string(), 5_000, false);
    buff.tick(4_000);
    assert_eq!(buff.duration_remaining, 1_000);
    buff.refresh(5_000);
    assert_eq!(buff.duration_remaining, 5_000);
}

#[test]
fn test_buff_priority() {
    let buff = BuffSource::new("test".to_string(), "Test".to_string(), 5_000, false);
    assert_eq!(Source::Buff(buff).priority(), 200);
    assert_eq!(PRIORITY_BUFF, 200);
}

#[test]
fn test_skill_tree_allocation() {
    let mut tree = SkillTreeSource::new();
    tree.allocate(SkillNodeId("node_1".to_string()));
    tree.allocate(SkillNodeId("node_2".to_string()));
    assert_eq!(tree.allocated_nodes.len(), 2);
    tree.allocate(SkillNodeId("node_1".to_string()));
    assert_eq!(tree.allocated_nodes.len(), 2);
}

#[test]
fn test_skill_tree_deallocation() {
    let mut tree = SkillTreeSource::new();
    tree.allocate(SkillNodeId("node_1".to_string()));
    tree.allocate(SkillNodeId("node_2".to_string()));
    tree.deallocate(&SkillNodeId("node_1".to_string()));
    assert_eq!(tree.allocated_nodes.len(), 1);
    assert_eq!(tree.allocated_nodes[0].0, "node_2");
}

#[test]
fn test_skill_tree_apply() {
    let mut tree = SkillTreeSource::new();
    tree.register_node(
        "life_node".to_string(),
        vec![NodeModifier { stat: StatType::AddedLife, value: 20_000, is_more: false }],
    );
    tree.allocate(SkillNodeId("life_node".to_string()));
    let mut acc = StatAccumulator::new();
    tree.apply(&mut acc);
    assert_eq!(acc.life_flat, 20_000);
}

#[test]
fn test_skill_tree_priority() {
    let tree = SkillTreeSource::new();
    assert_eq!(Source::Tree(tree).priority(), 100);
    assert_eq!(PRIORITY_TREE, 100);
}

#[test]
fn test_gear_source_id() {
    let item = stat_core::Item {
        base_type_id: "test_sword".to_string(),
        name: "Test Sword".to_string(),
        class: stat_core::ItemClass::OneHandSword,
        rarity: stat_core::Rarity::Normal,
        implicit: None,
        prefixes: vec![],
        suffixes: vec![],
        defenses: stat_core::Defenses { armour: None, evasion: None, energy_shield: None },
        damage: None,
    };
    let source = GearSource::new(stat_core::EquipmentSlot::MainHand, item);
    assert_eq!(Source::Gear(source).id(), "test_sword");
}

#[test]
fn test_accumulator_routes_percentages() {
    let mut acc = StatAccumulator::new();
    acc.apply_stat_type(StatType::IncreasedLife, 40_000);
    acc.apply_stat_type(StatType::AddedLife, 20_000);
    acc.apply_stat_type(StatType::FireResistance, 35_000);
    acc.apply_stat_type(StatType::PoisonMaxStacks, 5_000);
    assert_eq!(acc.life_increased, 400);
    assert_eq!(acc.life_flat, 20_000);
    assert_eq!(acc.fire_resistance, 35_000);
    assert_eq!(acc.poison_max_stacks, 5);
}

#[test]
fn test_rebuild_idempotence_concrete() {
    // Rebuilding twice with the same sources leaves the block equal.
    let mut block = stat_core::StatBlock::with_id("hero");
    let sources = vec![
        Source::Base(BaseStatsSource::new(10)),
        Source::Buff(
            BuffSource::new("b".to_string(), "B".to_string(), 5_000, false)
                .with_modifier(StatType::IncreasedLife, 20_000, false),
        ),
    ];
    block.rebuild_from_sources(&sources);
    let life1 = block.max_life.compute();
    let cur1 = block.current_life;
    let str1 = block.strength.compute();
    block.rebuild_from_sources(&sources);
    assert_eq!(block.max_life.compute(), life1);
    assert_eq!(block.current_life, cur1);
    assert_eq!(block.strength.compute(), str1);
}

#[test]
fn test_damage_multiplier_default() {
    let block = stat_core::StatBlock::new();
    assert_eq!(block.damage_multiplier(DamageType::Physical), 1_000);
}

#[test]
fn test_equip_rebuilds_armour() {
    let mut block = stat_core::StatBlock::with_id("hero");
    let item = stat_core::Item {
        base_type_id: "plate".to_string(),
        name: "Plate".to_string(),
        class: stat_core::ItemClass::BodyArmour,
        rarity: stat_core::Rarity::Normal,
        implicit: None,
        prefixes: vec![],
        suffixes: vec![],
        defenses: stat_core::Defenses {
            armour: Some(500_000),
            evasion: None,
            energy_shield: None,
        },
        damage: None,
    };
    block.equip(stat_core::EquipmentSlot::BodyArmour, item);
    assert_eq!(block.armour.compute(), 500_000);
    let back = block.unequip(stat_core::EquipmentSlot::BodyArmour);
    assert!(back.is_some());
    assert_eq!(block.armour.compute(), 0);
}

#[test]
fn test_life_percent() {
    let mut block = stat_core::StatBlock::new();
    block.current_life = 25_000;
    // Base life is 50: half remains.
    assert_eq!(block.life_percent(), 50_000);
}

#[test]
fn test_weapon_dps() {
    let mut block = stat_core::StatBlock::new();
    block.weapon_physical_min = 10_000;
    block.weapon_physical_max = 20_000;
    block.weapon_attack_speed = 1_500;
    // An average of 15 at 1.5 attacks per second: 22.5 per second.
    assert_eq!(block.weapon_dps(), 22_500);
}
