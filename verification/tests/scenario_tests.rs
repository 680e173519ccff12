//! End-to-end scenarios over the whole pipeline, in milli-units.

use rand::SeedableRng;
use stat_core::types::DamageType;
use stat_core::{
    calculate_skill_dps, default_skills, find_skill, resolve_damage_with_rng, BaseDamage,
    DamagePacket, DamagePacketGenerator, FinalDamage, StatBlock, StatValue,
};

fn make_test_rng() -> rand::rngs::StdRng {
    rand::rngs::StdRng::seed_from_u64(777)
}

fn fire_packet(amount: i64) -> DamagePacket {
    let mut packet = DamagePacket::new("attacker".to_string(), "skill".to_string());
    packet.damages.push(FinalDamage::new(DamageType::Fire, amount));
    packet
}

#[test]
fn test_pure_resistance_scenario() {
    // Half the fire is resisted; half lands on life.
    let mut defender = StatBlock::with_id("target");
    defender.current_life = 100_000;
    defender.fire_resistance.base = 50_000;
    let packet = fire_packet(100_000);
    let mut rng = make_test_rng();
    let (after, result) = resolve_damage_with_rng(&defender, &packet, &mut rng);
    assert_eq!(result.total_damage, 50_000);
    assert_eq!(result.damage_reduced_by_resists, 50_000);
    assert_eq!(after.current_life, 50_000);
}

#[test]
fn test_pen_vs_cap_scenario() {
    // Against a capped resistance, penetration works at half strength.
    let mut defender = StatBlock::with_id("target");
    defender.current_life = 100_000;
    defender.fire_resistance.base = 100_000;
    let mut packet = fire_packet(100_000);
    packet.fire_pen = 30_000;
    let mut rng = make_test_rng();
    let (_, result) = resolve_damage_with_rng(&defender, &packet, &mut rng);
    assert_eq!(result.total_damage, 15_000);
}

#[test]
fn test_evasion_cap_scenario() {
    let mut defender = StatBlock::with_id("target");
    defender.current_life = 10_000_000;
    defender.evasion.base = 1_000_000;
    let mut packet = fire_packet(1_500_000);
    packet.accuracy = 2_000_000;
    let mut rng = make_test_rng();
    let (_, result) = resolve_damage_with_rng(&defender, &packet, &mut rng);
    assert!(result.triggered_evasion_cap);
    assert_eq!(result.damage_prevented_by_evasion, 500_000);
    assert_eq!(result.total_damage, 1_000_000);
}

#[test]
fn test_es_absorption_scenario() {
    let mut defender = StatBlock::with_id("target");
    defender.current_life = 100_000;
    defender.current_energy_shield = 50_000;
    defender.max_energy_shield = 50_000;
    let packet = fire_packet(75_000);
    let mut rng = make_test_rng();
    let (after, result) = resolve_damage_with_rng(&defender, &packet, &mut rng);
    assert_eq!(result.damage_blocked_by_es, 50_000);
    assert_eq!(after.current_energy_shield, 0);
    assert_eq!(after.current_life, 75_000);
}

#[test]
fn test_crit_scenario() {
    // A certain critical chance turns 100 physical into 150.
    let mut attacker = StatBlock::with_id("hero");
    attacker.critical_chance.flat = 100_000;
    let mut skill = DamagePacketGenerator::basic_attack();
    skill.base_damages = vec![BaseDamage::new(DamageType::Physical, 100_000, 100_000)];
    skill.weapon_effectiveness = 0;
    skill.tags = vec![];
    skill.base_crit_chance = 0;
    let mut rng = make_test_rng();
    let packet = stat_core::calculate_damage(&attacker, &skill, "hero".to_string(), &mut rng);
    assert!(packet.is_critical);
    assert_eq!(packet.total_damage(), 150_000);
}

#[test]
fn test_es_never_skipped() {
    // Whenever life drops, the shield is already gone.
    let mut rng = make_test_rng();
    for es in [0i64, 10_000, 40_000, 75_000, 200_000] {
        let mut defender = StatBlock::with_id("target");
        defender.current_life = 100_000;
        defender.current_energy_shield = es;
        defender.max_energy_shield = es;
        let packet = fire_packet(75_000);
        let (_, result) = resolve_damage_with_rng(&defender, &packet, &mut rng);
        if result.life_after < result.life_before {
            assert_eq!(result.es_after, 0);
        }
    }
}

#[test]
fn test_estimator_is_deterministic() {
    // Two estimates from equal inputs agree; no randomness is consumed.
    let mut attacker = StatBlock::with_id("hero");
    attacker.weapon_physical_min = 80_000;
    attacker.weapon_physical_max = 120_000;
    attacker.global_physical_damage.add_increased(400);
    let skill = DamagePacketGenerator::basic_attack();
    let first = calculate_skill_dps(&attacker, &skill);
    let second = calculate_skill_dps(&attacker, &skill);
    assert_eq!(first, second);
    assert!(first > 0);
}

#[test]
fn test_increased_additivity_concrete() {
    // Granting 20% then 30% increased equals a single 50%.
    let mut twice = StatValue::with_base(100_000);
    twice.add_increased(200);
    twice.add_increased(300);
    let mut once = StatValue::with_base(100_000);
    once.add_increased(500);
    assert_eq!(twice.compute(), once.compute());
    assert_eq!(twice.compute(), 150_000);
}

#[test]
fn test_more_multiplies_not_adds() {
    // 20% then 30% more lands on x1.56, above the x1.5 of a single 50%.
    let mut more = StatValue::with_base(100_000);
    more.add_more(200);
    more.add_more(300);
    let mut single = StatValue::with_base(100_000);
    single.add_more(500);
    assert_eq!(more.compute(), 156_000);
    assert_eq!(single.compute(), 150_000);
    assert!(more.compute() > single.compute());
}

#[test]
fn test_default_skill_lookup() {
    let skills = default_skills();
    assert_eq!(skills.len(), 1);
    assert!(find_skill(&skills, "basic_attack").is_some());
    // A miss is an explicit absence, not a failure.
    assert!(find_skill(&skills, "unknown_skill").is_none());
}

#[test]
fn test_compose_law_concrete() {
    // (100 + 50) * (1 + 0.70) * 1.20 * 1.15 = 351.9
    let mut stat = StatValue::with_base(100_000);
    stat.add_flat(50_000);
    stat.add_increased(700);
    stat.add_more(200);
    stat.add_more(150);
    assert_eq!(stat.compute(), 351_900);
    assert_eq!(stat.total_flat(), 150_000);
    assert_eq!(stat.total_increased_multiplier(), 1_700);
    assert_eq!(stat.total_more_multiplier(), 1_380);
}
