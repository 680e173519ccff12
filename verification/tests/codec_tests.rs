//! The word codec round trip on concrete records.

use stat_core::codec::{
    decode_damage_taken, decode_final_damage, encode_damage_taken, encode_final_damage,
};
use stat_core::types::DamageType;
use stat_core::{DamageTaken, FinalDamage};

#[test]
fn test_final_damage_round_trip() {
    let records = vec![
        FinalDamage::new(DamageType::Fire, 100_000),
        FinalDamage::new(DamageType::Physical, -3),
        FinalDamage::new(DamageType::Chaos, 0),
    ];
    let mut words: Vec<i64> = Vec::new();
    for r in &records {
        encode_final_damage(&mut words, r);
    }
    let mut at = 0usize;
    for r in &records {
        let (d, next) = decode_final_damage(&words, at).expect("an encoding parses");
        assert_eq!(d.damage_type, r.damage_type);
        assert_eq!(d.amount, r.amount);
        at = next;
    }
    assert_eq!(at, words.len());
    // Re-encoding what was decoded reproduces the identical stream.
    let mut again: Vec<i64> = Vec::new();
    let mut at2 = 0usize;
    while at2 < words.len() {
        let (d, next) = decode_final_damage(&words, at2).expect("an encoding parses");
        encode_final_damage(&mut again, &d);
        at2 = next;
    }
    assert_eq!(words, again);
}

#[test]
fn test_damage_taken_round_trip() {
    let record = DamageTaken::new(DamageType::Cold, 100_000, 25_000, 75_000);
    let mut words: Vec<i64> = Vec::new();
    encode_damage_taken(&mut words, &record);
    let (d, next) = decode_damage_taken(&words, 0).expect("an encoding parses");
    assert_eq!(next, words.len());
    assert_eq!(d.damage_type, record.damage_type);
    assert_eq!(d.raw_amount, record.raw_amount);
    assert_eq!(d.mitigated_amount, record.mitigated_amount);
    assert_eq!(d.final_amount, record.final_amount);
}

#[test]
fn test_garbage_does_not_parse() {
    let words = vec![9i64, 1, 2, 3];
    assert!(decode_damage_taken(&words, 0).is_none());
    let short = vec![1i64];
    assert!(decode_final_damage(&short, 0).is_none());
}
