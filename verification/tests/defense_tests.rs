//! Defense math: resistance, armour and evasion, in milli-units.

use stat_core::armour::{armour_needed_for_reduction, armour_reduction_percent};
use stat_core::evasion::{evasion_effectiveness, evasion_needed_for_cap, triggered_evasion_cap};
use stat_core::resistance::{
    calculate_effective_resistance, is_resistance_capped, penetration_needed,
};
use stat_core::{apply_evasion_cap, calculate_armour_reduction, calculate_damage_cap,
    calculate_resistance_mitigation};

#[test]
fn test_positive_resistance() {
    let result = calculate_resistance_mitigation(100_000, 50_000, 0);
    assert_eq!(result, 50_000);
}

#[test]
fn test_negative_resistance() {
    let result = calculate_resistance_mitigation(100_000, -50_000, 0);
    assert_eq!(result, 150_000);
}

#[test]
fn test_capped_resistance() {
    let result = calculate_resistance_mitigation(100_000, 100_000, 0);
    assert_eq!(result, 0);
}

#[test]
fn test_basic_penetration() {
    let result = calculate_resistance_mitigation(100_000, 75_000, 25_000);
    assert_eq!(result, 50_000);
}

#[test]
fn test_penetration_vs_capped() {
    let result = calculate_resistance_mitigation(100_000, 100_000, 30_000);
    assert_eq!(result, 15_000);
}

#[test]
fn test_overcapped_resistance() {
    let effective = calculate_effective_resistance(120_000, 30_000);
    assert_eq!(effective, 85_000);
}

#[test]
fn test_penetration_cannot_go_negative() {
    let effective = calculate_effective_resistance(100_000, 300_000);
    assert!(effective >= -200_000);
}

#[test]
fn test_is_capped() {
    assert!(is_resistance_capped(100_000));
    assert!(is_resistance_capped(120_000));
    assert!(!is_resistance_capped(75_000));
    assert!(!is_resistance_capped(0));
    assert!(!is_resistance_capped(-50_000));
}

#[test]
fn test_design_doc_example() {
    let effective = calculate_effective_resistance(100_000, 30_000);
    assert_eq!(effective, 85_000);
    let damage = calculate_resistance_mitigation(100_000, 100_000, 30_000);
    assert_eq!(damage, 15_000);
}

#[test]
fn test_penetration_needed_capped() {
    let needed = penetration_needed(100_000, 50_000);
    assert_eq!(needed, 100_000);
}

#[test]
fn test_penetration_needed_uncapped() {
    let needed = penetration_needed(75_000, 50_000);
    assert_eq!(needed, 25_000);
}

#[test]
fn test_no_armour() {
    let result = calculate_armour_reduction(0, 100_000);
    assert_eq!(result, 100_000);
}

#[test]
fn test_no_damage() {
    let result = calculate_armour_reduction(1_000_000, 0);
    assert_eq!(result, 0);
}

#[test]
fn test_armour_vs_small_hit() {
    // 1000 armour vs a 100 hit: two thirds removed.
    let result = calculate_armour_reduction(1_000_000, 100_000);
    assert!((result - 33_330).abs() < 100);
}

#[test]
fn test_armour_vs_large_hit() {
    // 1000 armour vs a 1000 hit: only a sixth removed.
    let result = calculate_armour_reduction(1_000_000, 1_000_000);
    assert!((result - 833_330).abs() < 100);
}

#[test]
fn test_diminishing_returns() {
    let armour = 1_000_000;
    let small_reduction = armour_reduction_percent(armour, 100_000);
    let large_reduction = armour_reduction_percent(armour, 1_000_000);
    assert!(small_reduction > large_reduction);
}

#[test]
fn test_armour_needed() {
    let needed = armour_needed_for_reduction(1_000_000, 50_000).unwrap();
    assert!((needed - 5_000_000).abs() < 100);
    let reduction = armour_reduction_percent(needed, 1_000_000);
    assert!((reduction - 50_000).abs() < 100);
}

#[test]
fn test_high_armour() {
    let result = calculate_armour_reduction(10_000_000, 10_000);
    assert!(result < 1_000);
}

#[test]
fn test_damage_cap_no_evasion() {
    let cap = calculate_damage_cap(2_000_000, 0);
    assert_eq!(cap, 2_000_000);
}

#[test]
fn test_damage_cap_with_evasion() {
    let cap = calculate_damage_cap(2_000_000, 1_000_000);
    assert_eq!(cap, 1_000_000);
}

#[test]
fn test_damage_cap_high_evasion() {
    let cap = calculate_damage_cap(2_000_000, 3_000_000);
    assert_eq!(cap, 500_000);
}

#[test]
fn test_damage_cap_high_accuracy() {
    let cap = calculate_damage_cap(5_000_000, 1_000_000);
    assert_eq!(cap, 2_500_000);
}

#[test]
fn test_damage_below_cap() {
    let (taken, evaded) = apply_evasion_cap(2_000_000, 1_000_000, 800_000);
    assert_eq!(taken, 800_000);
    assert_eq!(evaded, 0);
}

#[test]
fn test_damage_above_cap() {
    let (taken, evaded) = apply_evasion_cap(2_000_000, 1_000_000, 1_500_000);
    assert_eq!(taken, 1_000_000);
    assert_eq!(evaded, 500_000);
}

#[test]
fn test_damage_at_cap() {
    let (taken, evaded) = apply_evasion_cap(2_000_000, 1_000_000, 1_000_000);
    assert_eq!(taken, 1_000_000);
    assert_eq!(evaded, 0);
}

#[test]
fn test_no_evasion() {
    let (taken, evaded) = apply_evasion_cap(2_000_000, 0, 1_500_000);
    assert_eq!(taken, 1_500_000);
    assert_eq!(evaded, 0);
}

#[test]
fn test_no_accuracy() {
    let (taken, evaded) = apply_evasion_cap(0, 1_000_000, 1_500_000);
    assert_eq!(taken, 0);
    assert_eq!(evaded, 1_500_000);
}

#[test]
fn test_triggered_cap() {
    assert!(triggered_evasion_cap(2_000_000, 1_000_000, 1_200_000));
    assert!(!triggered_evasion_cap(2_000_000, 1_000_000, 800_000));
    assert!(!triggered_evasion_cap(2_000_000, 1_000_000, 1_000_000));
}

#[test]
fn test_evasion_effectiveness() {
    let effectiveness = evasion_effectiveness(2_000_000, 1_000_000, 2_000_000);
    assert_eq!(effectiveness, 50_000);
    let effectiveness = evasion_effectiveness(2_000_000, 1_000_000, 500_000);
    assert_eq!(effectiveness, 0);
}

#[test]
fn test_higher_accuracy_counters_evasion() {
    let low_acc_cap = calculate_damage_cap(1_000_000, 1_000_000);
    let high_acc_cap = calculate_damage_cap(4_000_000, 1_000_000);
    assert!(high_acc_cap > low_acc_cap);
}

#[test]
fn test_higher_evasion_is_better() {
    let low_eva_cap = calculate_damage_cap(2_000_000, 500_000);
    let high_eva_cap = calculate_damage_cap(2_000_000, 2_000_000);
    assert!(high_eva_cap < low_eva_cap);
}

#[test]
fn test_evasion_needed() {
    let needed = evasion_needed_for_cap(2_000_000, 1_000_000);
    assert_eq!(needed, 1_000_000);
    let needed = evasion_needed_for_cap(2_000_000, 500_000);
    assert_eq!(needed, 3_000_000);
}

#[test]
fn test_evasion_boundary_sums() {
    // Whatever lands plus whatever is evaded is the whole hit, and what
    // lands never exceeds the cap.
    for (acc, eva, d) in [
        (2_000_000i64, 1_000_000i64, 1_500_000i64),
        (0, 500_000, 900_000),
        (750_000, 0, 10_000),
        (3_000_000, 2_000_000, 5_000_000),
    ] {
        let cap = calculate_damage_cap(acc, eva);
        let (taken, evaded) = apply_evasion_cap(acc, eva, d);
        assert_eq!(taken + evaded, d);
        assert!(taken <= cap.max(0));
    }
}

#[test]
fn test_resistance_monotonic_examples() {
    // A higher resistance never lets more damage through.
    let d = 240_000;
    let mut last = i64::MAX;
    for r in [-200_000i64, -50_000, 0, 30_000, 75_000, 100_000] {
        let taken = calculate_resistance_mitigation(d, r, 0);
        assert!(taken <= last);
        last = taken;
    }
}
