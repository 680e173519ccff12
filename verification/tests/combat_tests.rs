//! Damage packets, calculation and resolution, in milli-units.

use rand::SeedableRng;
use stat_core::types::DamageType;
use stat_core::{
    calculate_damage, calculate_skill_dps, resolve_damage_with_rng, BaseDamage, CombatResult,
    DamageConversions, DamageMap, DamagePacket, DamagePacketGenerator, DamageTaken,
    DamageTypeEffectiveness, FinalDamage, PendingDoT, SkillTag, StatBlock,
};

fn make_test_rng() -> rand::rngs::StdRng {
    rand::rngs::StdRng::seed_from_u64(12345)
}

fn make_test_packet(damages: Vec<(DamageType, i64)>) -> DamagePacket {
    let mut packet = DamagePacket::new("attacker".to_string(), "test_skill".to_string());
    for (dtype, amount) in damages {
        packet.damages.push(FinalDamage::new(dtype, amount));
    }
    packet
}

#[test]
fn test_damage_packet_total() {
    let mut packet = DamagePacket::new("player".to_string(), "fireball".to_string());
    packet.add_damage(DamageType::Fire, 100_000);
    packet.add_damage(DamageType::Physical, 20_000);
    assert_eq!(packet.total_damage(), 120_000);
}

#[test]
fn test_damage_packet_by_type() {
    let mut packet = DamagePacket::new("player".to_string(), "fireball".to_string());
    packet.add_damage(DamageType::Fire, 100_000);
    packet.add_damage(DamageType::Cold, 50_000);
    assert_eq!(packet.damage_of_type(DamageType::Fire), 100_000);
    assert_eq!(packet.damage_of_type(DamageType::Cold), 50_000);
    assert_eq!(packet.damage_of_type(DamageType::Physical), 0);
}

#[test]
fn test_damage_packet_add_same_type() {
    let mut packet = DamagePacket::new("player".to_string(), "fireball".to_string());
    packet.add_damage(DamageType::Fire, 100_000);
    packet.add_damage(DamageType::Fire, 50_000);
    assert_eq!(packet.damage_of_type(DamageType::Fire), 150_000);
    assert_eq!(packet.damages.len(), 1);
}

#[test]
fn test_pending_dot_total() {
    let dot = PendingDoT::new("ignite".to_string(), 25_000, 4_000);
    assert_eq!(dot.total_damage(), 100_000);
}

#[test]
fn test_basic_attack() {
    let attack = DamagePacketGenerator::basic_attack();
    assert!(attack.is_attack());
    assert!(!attack.is_spell());
    assert_eq!(attack.weapon_effectiveness, 1_000);
}

#[test]
fn test_base_damage_average() {
    let damage = BaseDamage::new(DamageType::Physical, 10_000, 20_000);
    assert_eq!(damage.average(), 15_000);
}

#[test]
fn test_skill_tags() {
    let mut skill = DamagePacketGenerator::basic_attack();
    skill.tags = vec![SkillTag::Spell, SkillTag::Fire, SkillTag::Aoe];
    assert!(skill.is_spell());
    assert!(!skill.is_attack());
    assert!(skill.deals_damage_type(DamageType::Fire));
}

#[test]
fn test_effective_speed() {
    let mut skill = DamagePacketGenerator::basic_attack();
    skill.attack_speed_modifier = 850;
    let effective = skill.effective_speed(1_500);
    assert_eq!(effective, 1_275);
}

#[test]
fn test_damage_conversion_physical_to_fire() {
    let mut conv = DamageConversions::none();
    conv.physical_to_fire = 500;
    let mut input = DamageMap::zero();
    input.add(DamageType::Physical, 100_000);
    let result = conv.apply(&input);
    assert_eq!(result.get(DamageType::Physical), 50_000);
    assert_eq!(result.get(DamageType::Fire), 50_000);
}

#[test]
fn test_damage_conversion_full_chain() {
    let mut conv = DamageConversions::none();
    conv.physical_to_lightning = 500;
    conv.lightning_to_cold = 500;
    conv.cold_to_fire = 500;
    let mut input = DamageMap::zero();
    input.add(DamageType::Physical, 100_000);
    let result = conv.apply(&input);
    assert_eq!(result.get(DamageType::Physical), 50_000);
    assert_eq!(result.get(DamageType::Lightning), 25_000);
    assert_eq!(result.get(DamageType::Cold), 12_500);
    assert_eq!(result.get(DamageType::Fire), 12_500);
}

#[test]
fn test_type_effectiveness() {
    let mut eff = DamageTypeEffectiveness::full();
    eff.fire = 1_500;
    eff.cold = 500;
    assert_eq!(eff.get(DamageType::Fire), 1_500);
    assert_eq!(eff.get(DamageType::Cold), 500);
    assert!(!eff.is_default());
}

#[test]
fn test_basic_damage_calculation() {
    let attacker = StatBlock::new();
    let mut skill = DamagePacketGenerator::basic_attack();
    skill.id = "test".to_string();
    skill.name = "Test".to_string();
    skill.base_damages = vec![BaseDamage::new(DamageType::Physical, 100_000, 100_000)];
    skill.weapon_effectiveness = 0;
    skill.tags = vec![];
    let mut rng = make_test_rng();
    let packet = calculate_damage(&attacker, &skill, "player".to_string(), &mut rng);
    assert_eq!(packet.total_damage(), 100_000);
}

#[test]
fn test_damage_scaling() {
    let mut attacker = StatBlock::new();
    attacker.global_physical_damage.add_increased(500);
    let mut skill = DamagePacketGenerator::basic_attack();
    skill.id = "test".to_string();
    skill.base_damages = vec![BaseDamage::new(DamageType::Physical, 100_000, 100_000)];
    skill.weapon_effectiveness = 0;
    skill.tags = vec![];
    let mut rng = make_test_rng();
    let packet = calculate_damage(&attacker, &skill, "player".to_string(), &mut rng);
    assert_eq!(packet.total_damage(), 150_000);
}

#[test]
fn test_weapon_damage() {
    let mut attacker = StatBlock::new();
    attacker.weapon_physical_min = 50_000;
    attacker.weapon_physical_max = 50_000;
    let mut skill = DamagePacketGenerator::basic_attack();
    skill.id = "attack".to_string();
    skill.name = "Attack".to_string();
    let mut rng = make_test_rng();
    let packet = calculate_damage(&attacker, &skill, "player".to_string(), &mut rng);
    assert_eq!(packet.damage_of_type(DamageType::Physical), 50_000);
}

#[test]
fn test_crit_multiplier() {
    let mut attacker = StatBlock::new();
    attacker.critical_chance.flat = 100_000;
    let mut skill = DamagePacketGenerator::basic_attack();
    skill.id = "test".to_string();
    skill.base_damages = vec![BaseDamage::new(DamageType::Physical, 100_000, 100_000)];
    skill.weapon_effectiveness = 0;
    skill.tags = vec![];
    skill.base_crit_chance = 0;
    let mut rng = make_test_rng();
    let packet = calculate_damage(&attacker, &skill, "player".to_string(), &mut rng);
    assert!(packet.is_critical);
    assert_eq!(packet.total_damage(), 150_000);
}

#[test]
fn test_skill_dps() {
    let mut attacker = StatBlock::new();
    attacker.weapon_physical_min = 100_000;
    attacker.weapon_physical_max = 100_000;
    attacker.weapon_attack_speed = 1_000;
    let mut skill = DamagePacketGenerator::basic_attack();
    skill.id = "attack".to_string();
    skill.base_crit_chance = 5_000;
    let dps = calculate_skill_dps(&attacker, &skill);
    assert!(dps > 100_000);
    assert!(dps < 110_000);
}

#[test]
fn test_rolled_damage_stays_in_range() {
    // A ranged roll lands strictly inside the declared bounds.
    let attacker = StatBlock::new();
    let mut skill = DamagePacketGenerator::basic_attack();
    skill.base_damages = vec![BaseDamage::new(DamageType::Physical, 10_000, 20_000)];
    skill.weapon_effectiveness = 0;
    skill.tags = vec![];
    skill.base_crit_chance = 0;
    let mut rng = make_test_rng();
    for _ in 0..20 {
        let packet = calculate_damage(&attacker, &skill, "player".to_string(), &mut rng);
        let total = packet.total_damage();
        assert!((10_000..=20_000).contains(&total));
    }
}

#[test]
fn test_basic_damage() {
    let mut defender = StatBlock::new();
    defender.current_life = 100_000;
    let packet = make_test_packet(vec![(DamageType::Physical, 50_000)]);
    let mut rng = make_test_rng();
    let (new_defender, result) = resolve_damage_with_rng(&defender, &packet, &mut rng);
    assert!(result.total_damage > 0);
    assert!(new_defender.current_life < 100_000);
}

#[test]
fn test_resistance_mitigation() {
    let mut defender = StatBlock::new();
    defender.current_life = 100_000;
    defender.fire_resistance.base = 50_000;
    let packet = make_test_packet(vec![(DamageType::Fire, 100_000)]);
    let mut rng = make_test_rng();
    let (_, result) = resolve_damage_with_rng(&defender, &packet, &mut rng);
    assert_eq!(result.total_damage, 50_000);
    assert_eq!(result.damage_reduced_by_resists, 50_000);
}

#[test]
fn test_armour_reduction() {
    let mut defender = StatBlock::new();
    defender.current_life = 200_000;
    defender.armour.base = 1_000_000;
    let packet = make_test_packet(vec![(DamageType::Physical, 100_000)]);
    let mut rng = make_test_rng();
    let (_, result) = resolve_damage_with_rng(&defender, &packet, &mut rng);
    assert!(result.damage_reduced_by_armour > 0);
    assert!(result.total_damage < 100_000);
}

#[test]
fn test_evasion_cap() {
    let mut defender = StatBlock::new();
    defender.current_life = 10_000_000;
    defender.evasion.base = 1_000_000;
    let mut packet = make_test_packet(vec![(DamageType::Fire, 1_500_000)]);
    packet.accuracy = 2_000_000;
    let mut rng = make_test_rng();
    let (_, result) = resolve_damage_with_rng(&defender, &packet, &mut rng);
    assert!(result.triggered_evasion_cap);
    assert_eq!(result.damage_prevented_by_evasion, 500_000);
    assert_eq!(result.total_damage, 1_000_000);
}

#[test]
fn test_es_absorbs_first() {
    let mut defender = StatBlock::new();
    defender.current_life = 100_000;
    defender.current_energy_shield = 50_000;
    defender.max_energy_shield = 50_000;
    let packet = make_test_packet(vec![(DamageType::Fire, 75_000)]);
    let mut rng = make_test_rng();
    let (new_defender, result) = resolve_damage_with_rng(&defender, &packet, &mut rng);
    assert_eq!(result.damage_blocked_by_es, 50_000);
    assert_eq!(new_defender.current_energy_shield, 0);
    assert_eq!(new_defender.current_life, 75_000);
}

#[test]
fn test_killing_blow() {
    let mut defender = StatBlock::new();
    defender.current_life = 50_000;
    let packet = make_test_packet(vec![(DamageType::Fire, 1_000_000)]);
    let mut rng = make_test_rng();
    let (new_defender, result) = resolve_damage_with_rng(&defender, &packet, &mut rng);
    assert!(result.is_killing_blow);
    assert!(!new_defender.is_alive());
    assert_eq!(new_defender.current_life, 0);
}

#[test]
fn test_penetration() {
    let mut defender = StatBlock::new();
    defender.current_life = 200_000;
    defender.fire_resistance.base = 75_000;
    let mut packet = make_test_packet(vec![(DamageType::Fire, 100_000)]);
    packet.fire_pen = 25_000;
    let mut rng = make_test_rng();
    let (_, result) = resolve_damage_with_rng(&defender, &packet, &mut rng);
    assert_eq!(result.total_damage, 50_000);
}

#[test]
fn test_multiple_damage_types() {
    let mut defender = StatBlock::new();
    defender.current_life = 200_000;
    defender.fire_resistance.base = 50_000;
    defender.cold_resistance.base = 25_000;
    let packet = make_test_packet(vec![
        (DamageType::Fire, 100_000),
        (DamageType::Cold, 100_000),
    ]);
    let mut rng = make_test_rng();
    let (_, result) = resolve_damage_with_rng(&defender, &packet, &mut rng);
    assert_eq!(result.total_damage, 125_000);
}

#[test]
fn test_combat_result_totals() {
    let mut result = CombatResult::new();
    result.damage_taken.push(DamageTaken::new(DamageType::Physical, 100_000, 30_000, 70_000));
    result.damage_taken.push(DamageTaken::new(DamageType::Fire, 50_000, 25_000, 25_000));
    result.total_damage = 95_000;
    assert_eq!(result.total_raw_damage(), 150_000);
    assert_eq!(result.total_mitigated(), 55_000);
}

#[test]
fn test_damage_taken_mitigation_percent() {
    let damage = DamageTaken::new(DamageType::Physical, 100_000, 40_000, 60_000);
    assert_eq!(damage.mitigation_percent(), 40_000);
}
