//! Damage calculation: turning an attacker's stats and a skill into a
//! damage packet, and the roll-free average pipeline behind the DPS
//! estimator.

use vstd::prelude::*;
use crate::fixed::{
    clamp_amount, clamp_spec, factor_applied, max_spec, muldiv, sat_add, sat_factor, sat_muldiv,
    sat_scaled, scaled, SCALE,
};
use crate::generator::{conversions_apply_spec, has_tag, DamageMap, DamagePacketGenerator};
use crate::packet::{DamagePacket, FinalDamage, PendingStatusEffect};
use crate::stat_block::{StatBlock, StatusEffectData};
use crate::stat_value::apply_more_prefix;
use crate::effect::{base_dot_percent_spec, base_duration_spec, Effect};
use crate::types::{DamageType, SkillTag, StatusEffect};
use crate::rng::{roll_inclusive, roll_percent};

verus! {

/// The critical chance of a skill use, in milli-percent: skill base plus
/// weapon base for attacks, plus flat bonuses, scaled by increased and
/// more critical chance, clamped into [0, 100%].
pub open spec fn crit_chance_spec(attacker: StatBlock, skill: DamagePacketGenerator) -> int {
    let base = if has_tag(skill.tags@, SkillTag::Attack) {
        clamp_amount(skill.base_crit_chance + attacker.weapon_crit_chance)
    } else {
        skill.base_crit_chance as int
    };
    let flat = clamp_amount(base + attacker.critical_chance.flat);
    let v = scaled(
        factor_applied(flat, attacker.critical_chance.increased as int),
        apply_more_prefix(
            SCALE as int,
            attacker.critical_chance.more@,
            attacker.critical_chance.more@.len() as int,
        ),
    );
    clamp_spec(v, 0, 100_000)
}

/// One damage type's amount scaled through the attacker's bonuses and
/// the skill's effectiveness:
/// `amount * (1 + increased) * more * damage_effectiveness * type_effectiveness`.
pub open spec fn scaled_damage_spec(
    attacker: StatBlock,
    skill: DamagePacketGenerator,
    dt: DamageType,
    amount: int,
) -> int {
    let sv = match dt {
        DamageType::Physical => attacker.global_physical_damage,
        DamageType::Fire => attacker.global_fire_damage,
        DamageType::Cold => attacker.global_cold_damage,
        DamageType::Lightning => attacker.global_lightning_damage,
        DamageType::Chaos => attacker.global_chaos_damage,
    };
    scaled(
        scaled(
            scaled(
                factor_applied(amount, sv.increased as int),
                apply_more_prefix(SCALE as int, sv.more@, sv.more@.len() as int),
            ),
            skill.damage_effectiveness as int,
        ),
        skill.type_effectiveness.get_spec(dt) as int,
    )
}

/// One final damage entry, if the type carries anything: the scaled
/// amount, multiplied by the critical multiplier on a critical hit.
pub open spec fn final_entry_spec(
    attacker: StatBlock,
    skill: DamagePacketGenerator,
    dt: DamageType,
    amount: int,
    crit: bool,
    cm: i64,
) -> Seq<FinalDamage> {
    if amount <= 0 {
        Seq::<FinalDamage>::empty()
    } else {
        let sd = scaled_damage_spec(attacker, skill, dt, amount);
        if sd > 0 {
            seq![
                FinalDamage {
                    damage_type: dt,
                    amount: if crit {
                        scaled(sd, cm as int) as i64
                    } else {
                        sd as i64
                    },
                },
            ]
        } else {
            Seq::<FinalDamage>::empty()
        }
    }
}

/// The packet's damage list: the converted map scaled type by type, in
/// the fixed order physical, fire, cold, lightning, chaos.
pub open spec fn build_damages_spec(
    attacker: StatBlock,
    skill: DamagePacketGenerator,
    m: DamageMap,
    crit: bool,
    cm: i64,
) -> Seq<FinalDamage> {
    final_entry_spec(attacker, skill, DamageType::Physical, m.physical as int, crit, cm)
        + final_entry_spec(attacker, skill, DamageType::Fire, m.fire as int, crit, cm)
        + final_entry_spec(attacker, skill, DamageType::Cold, m.cold as int, crit, cm)
        + final_entry_spec(attacker, skill, DamageType::Lightning, m.lightning as int, crit, cm)
        + final_entry_spec(attacker, skill, DamageType::Chaos, m.chaos as int, crit, cm)
}

/// The damage map a skill converts: only a skill with declared legs
/// runs the chain.
pub open spec fn converted_map_spec(skill: DamagePacketGenerator, m: DamageMap) -> DamageMap {
    if skill.damage_conversions.physical_to_fire > 0 || skill.damage_conversions.physical_to_cold
        > 0 || skill.damage_conversions.physical_to_lightning > 0
        || skill.damage_conversions.physical_to_chaos > 0
        || skill.damage_conversions.lightning_to_fire > 0
        || skill.damage_conversions.lightning_to_cold > 0 || skill.damage_conversions.cold_to_fire
        > 0 || skill.damage_conversions.fire_to_chaos > 0 {
        conversions_apply_spec(skill.damage_conversions, m)
    } else {
        m
    }
}

/// Status damage one ailment kind draws from a damage list: the sum of
/// each amount scaled by the combined (skill plus character) conversion.
pub open spec fn combined_status_damage_spec(
    skill: DamagePacketGenerator,
    sed: StatusEffectData,
    st: StatusEffect,
    damages: Seq<(DamageType, i64)>,
) -> int
    decreases damages.len(),
{
    if damages.len() == 0 {
        0
    } else {
        let d = damages.last();
        let conv = clamp_amount(
            skill.status_conversions.get_conversion_spec(d.0, st)
                + sed.get_conversions_spec(st).from_damage_type_spec(d.0),
        );
        clamp_amount(
            combined_status_damage_spec(skill, sed, st, damages.drop_last()) + scaled(
                d.1 as int,
                conv,
            ),
        )
    }
}

/// The pending ailment one kind contributes, if it draws any status
/// damage: the kind's base duration and DoT share scaled by the
/// attacker's per-kind bonuses, with the DoT rate never negative.
pub open spec fn pending_for_spec(
    skill: DamagePacketGenerator,
    sed: StatusEffectData,
    st: StatusEffect,
    damages: Seq<(DamageType, i64)>,
) -> Seq<PendingStatusEffect> {
    let sd = combined_status_damage_spec(skill, sed, st, damages);
    if sd > 0 {
        let stats = sed.get_stats_spec(st);
        seq![
            PendingStatusEffect {
                effect_type: st,
                status_damage: sd as i64,
                duration: factor_applied(
                    base_duration_spec(st),
                    stats.duration_increased as int,
                ) as i64,
                magnitude: clamp_amount(SCALE + stats.magnitude) as i64,
                dot_dps: max_spec(
                    factor_applied(
                        scaled(sd, base_dot_percent_spec(st)),
                        stats.dot_increased as int,
                    ),
                    0,
                ) as i64,
            },
        ]
    } else {
        Seq::<PendingStatusEffect>::empty()
    }
}

/// The packet's pending ailments, one slot per kind in a fixed order.
pub open spec fn build_pendings_spec(
    skill: DamagePacketGenerator,
    sed: StatusEffectData,
    damages: Seq<(DamageType, i64)>,
) -> Seq<PendingStatusEffect> {
    pending_for_spec(skill, sed, StatusEffect::Poison, damages) + pending_for_spec(
        skill,
        sed,
        StatusEffect::Bleed,
        damages,
    ) + pending_for_spec(skill, sed, StatusEffect::Burn, damages) + pending_for_spec(
        skill,
        sed,
        StatusEffect::Freeze,
        damages,
    ) + pending_for_spec(skill, sed, StatusEffect::Chill, damages) + pending_for_spec(
        skill,
        sed,
        StatusEffect::Static,
        damages,
    ) + pending_for_spec(skill, sed, StatusEffect::Fear, damages) + pending_for_spec(
        skill,
        sed,
        StatusEffect::Slow,
        damages,
    )
}

/// The damage-type and amount pairs of a damage list.
pub open spec fn pairs_of(s: Seq<FinalDamage>) -> Seq<(DamageType, i64)>
    decreases s.len(),
{
    if s.len() == 0 {
        Seq::<(DamageType, i64)>::empty()
    } else {
        pairs_of(s.drop_last()).push((s.last().damage_type, s.last().amount))
    }
}

/// Compute the critical chance of a skill use, in milli-percent.
pub fn calculate_crit_chance(attacker: &StatBlock, skill: &DamagePacketGenerator) -> (r: i64)
    ensures
        r as int == crit_chance_spec(*attacker, *skill),
        0 <= r <= 100_000,
{
    let base: i64 = if skill.is_attack() {
        sat_add(skill.base_crit_chance, attacker.weapon_crit_chance)
    } else {
        skill.base_crit_chance
    };
    let flat = sat_add(base, attacker.critical_chance.flat);
    let with_inc = sat_factor(flat, attacker.critical_chance.increased);
    let v = sat_scaled(with_inc, attacker.critical_chance.total_more_multiplier());
    if v < 0 {
        0
    } else if v > 100_000 {
        100_000
    } else {
        v
    }
}

/// Compute the combined status damage one kind draws from damage pairs.
pub fn combined_status_damage(
    skill: &DamagePacketGenerator,
    sed: &StatusEffectData,
    st: StatusEffect,
    damages: &Vec<(DamageType, i64)>,
) -> (r: i64)
    ensures
        r as int == combined_status_damage_spec(*skill, *sed, st, damages@),
{
    let convs = sed.get_conversions(st);
    let mut total: i64 = 0;
    let mut i: usize = 0;
    while i < damages.len()
        invariant
            i <= damages.len(),
            *convs == sed.get_conversions_spec(st),
            total as int == combined_status_damage_spec(*skill, *sed, st, damages@.subrange(0, i as int)),
        decreases damages.len() - i,
    {
        proof {
            let ext = damages@.subrange(0, i as int + 1);
            assert(ext.drop_last() =~= damages@.subrange(0, i as int));
            assert(ext.last() == damages@[i as int]);
        }
        let (dt, amount) = damages[i];
        let conv = sat_add(
            skill.status_conversions.get_conversion(dt, st),
            convs.from_damage_type(dt),
        );
        total = sat_add(total, sat_scaled(amount, conv));
        i = i + 1;
    }
    proof {
        assert(damages@.subrange(0, damages@.len() as int) =~= damages@);
    }
    total
}

/// Push one type's scaled damage onto the packet lists, if any.
fn push_entry(
    attacker: &StatBlock,
    skill: &DamagePacketGenerator,
    dt: DamageType,
    amount: i64,
    crit: bool,
    cm: i64,
    damages: &mut Vec<FinalDamage>,
    pairs: &mut Vec<(DamageType, i64)>,
)
    requires
        old(pairs)@ == pairs_of(old(damages)@),
    ensures
        final(damages)@ =~= old(damages)@ + final_entry_spec(
            *attacker,
            *skill,
            dt,
            amount as int,
            crit,
            cm,
        ),
        final(pairs)@ == pairs_of(final(damages)@),
{
    if amount <= 0 {
        proof {
            assert(old(damages)@ + Seq::<FinalDamage>::empty() =~= old(damages)@);
        }
        return ;
    }
    let sv = match dt {
        DamageType::Physical => &attacker.global_physical_damage,
        DamageType::Fire => &attacker.global_fire_damage,
        DamageType::Cold => &attacker.global_cold_damage,
        DamageType::Lightning => &attacker.global_lightning_damage,
        DamageType::Chaos => &attacker.global_chaos_damage,
    };
    let a1 = sat_factor(amount, sv.increased);
    let a2 = sat_scaled(a1, sv.total_more_multiplier());
    let a3 = sat_scaled(a2, skill.damage_effectiveness);
    let sd = sat_scaled(a3, skill.type_effectiveness.get(dt));
    if sd > 0 {
        let final_amt: i64 = if crit {
            sat_scaled(sd, cm)
        } else {
            sd
        };
        damages.push(FinalDamage { damage_type: dt, amount: final_amt });
        pairs.push((dt, final_amt));
        proof {
            assert(final(damages)@.drop_last() =~= old(damages)@);
            assert(final(damages)@ =~= old(damages)@ + final_entry_spec(
                *attacker,
                *skill,
                dt,
                amount as int,
                crit,
                cm,
            ));
        }
    } else {
        proof {
            assert(old(damages)@ + Seq::<FinalDamage>::empty() =~= old(damages)@);
        }
    }
}

/// Assemble the damage packet a skill use produces, from the already
/// rolled base damage map and the critical roll: conversion, scaling,
/// the critical decision and multiplier, penetration, accuracy, and the
/// pending ailments, all pinned exactly.
#[verifier::rlimit(100)]
pub fn assemble_packet(
    attacker: &StatBlock,
    skill: &DamagePacketGenerator,
    source_id: &str,
    base_map: DamageMap,
    crit_roll: i64,
) -> (r: DamagePacket)
    requires
        0 <= crit_roll < 100_000,
    ensures
        r.source_id@ == source_id@,
        r.skill_id@ == skill.id@,
        r.is_critical == ((crit_roll as int) < crit_chance_spec(*attacker, *skill)),
        r.crit_multiplier as int == if r.is_critical {
            clamp_amount(
                attacker.critical_multiplier.compute_spec() + skill.crit_multiplier_bonus,
            )
        } else {
            1_500
        },
        r.damages@ =~= build_damages_spec(
            *attacker,
            *skill,
            converted_map_spec(*skill, base_map),
            r.is_critical,
            r.crit_multiplier,
        ),
        r.fire_pen as int == attacker.fire_penetration.compute_spec(),
        r.cold_pen as int == attacker.cold_penetration.compute_spec(),
        r.lightning_pen as int == attacker.lightning_penetration.compute_spec(),
        r.chaos_pen as int == attacker.chaos_penetration.compute_spec(),
        r.accuracy as int == attacker.accuracy.compute_spec(),
        r.status_effects_to_apply@ =~= build_pendings_spec(
            *skill,
            attacker.status_effect_stats,
            pairs_of(r.damages@),
        ),
        r.hit_count == skill.hits_per_attack,
        r.dots_to_apply@ =~= Seq::<crate::packet::PendingDoT>::empty(),
        r.can_leech && r.can_apply_on_hit,
        r.wf_pending(),
{
    let conv: DamageMap = if skill.damage_conversions.has_conversions() {
        skill.damage_conversions.apply(&base_map)
    } else {
        base_map
    };
    let chance = calculate_crit_chance(attacker, skill);
    let is_critical = crit_roll < chance;
    let cm: i64 = if is_critical {
        sat_add(attacker.computed_crit_multiplier(), skill.crit_multiplier_bonus)
    } else {
        1_500
    };
    let mut damages: Vec<FinalDamage> = Vec::new();
    let mut pairs: Vec<(DamageType, i64)> = Vec::new();
    proof {
        assert(pairs@ == pairs_of(damages@));
    }
    push_entry(attacker, skill, DamageType::Physical, conv.physical, is_critical, cm, &mut damages, &mut pairs);
    push_entry(attacker, skill, DamageType::Fire, conv.fire, is_critical, cm, &mut damages, &mut pairs);
    push_entry(attacker, skill, DamageType::Cold, conv.cold, is_critical, cm, &mut damages, &mut pairs);
    push_entry(attacker, skill, DamageType::Lightning, conv.lightning, is_critical, cm, &mut damages, &mut pairs);
    push_entry(attacker, skill, DamageType::Chaos, conv.chaos, is_critical, cm, &mut damages, &mut pairs);
    let sed = &attacker.status_effect_stats;
    let mut pendings: Vec<PendingStatusEffect> = Vec::new();
    push_pending(skill, sed, StatusEffect::Poison, &pairs, &mut pendings);
    push_pending(skill, sed, StatusEffect::Bleed, &pairs, &mut pendings);
    push_pending(skill, sed, StatusEffect::Burn, &pairs, &mut pendings);
    push_pending(skill, sed, StatusEffect::Freeze, &pairs, &mut pendings);
    push_pending(skill, sed, StatusEffect::Chill, &pairs, &mut pendings);
    push_pending(skill, sed, StatusEffect::Static, &pairs, &mut pendings);
    push_pending(skill, sed, StatusEffect::Fear, &pairs, &mut pendings);
    push_pending(skill, sed, StatusEffect::Slow, &pairs, &mut pendings);
    proof {
        assert(pendings@ =~= build_pendings_spec(*skill, *sed, pairs@));
    }
    DamagePacket {
        source_id: source_id.to_owned(),
        skill_id: skill.id.clone(),
        damages,
        is_critical,
        crit_multiplier: cm,
        fire_pen: attacker.fire_penetration.compute(),
        cold_pen: attacker.cold_penetration.compute(),
        lightning_pen: attacker.lightning_penetration.compute(),
        chaos_pen: attacker.chaos_penetration.compute(),
        dots_to_apply: Vec::new(),
        status_effects_to_apply: pendings,
        accuracy: attacker.accuracy.compute(),
        hit_count: skill.hits_per_attack,
        can_leech: true,
        can_apply_on_hit: true,
    }
}

/// Push the pending ailment one kind contributes, if any.
fn push_pending(
    skill: &DamagePacketGenerator,
    sed: &StatusEffectData,
    st: StatusEffect,
    pairs: &Vec<(DamageType, i64)>,
    pendings: &mut Vec<PendingStatusEffect>,
)
    ensures
        final(pendings)@ =~= old(pendings)@ + pending_for_spec(*skill, *sed, st, pairs@),
{
    let sd = combined_status_damage(skill, sed, st, pairs);
    if sd > 0 {
        let stats = sed.get_stats(st);
        let duration = sat_factor(Effect::base_duration_for(st), stats.duration_increased);
        let magnitude = sat_add(SCALE, stats.magnitude);
        let dot_raw = sat_factor(
            sat_scaled(sd, Effect::base_dot_percent_for(st)),
            stats.dot_increased,
        );
        let dot_dps = crate::fixed::max64(dot_raw, 0);
        pendings.push(
            PendingStatusEffect { effect_type: st, status_damage: sd, duration, magnitude, dot_dps },
        );
        proof {
            assert(final(pendings)@ =~= old(pendings)@ + pending_for_spec(
                *skill,
                *sed,
                st,
                pairs@,
            ));
        }
    } else {
        proof {
            assert(old(pendings)@ + Seq::<PendingStatusEffect>::empty() =~= old(pendings)@);
        }
    }
}

/// Calculate the damage packet for one use of a skill: base damages and
/// weapon damage are rolled through the given generator, everything
/// after the rolls follows the assembly pipeline exactly. The
/// penetration, accuracy and hit count never depend on the rolls, and a
/// certain critical chance always crits while a zero chance never does.
pub fn calculate_damage(
    attacker: &StatBlock,
    skill: &DamagePacketGenerator,
    source_id: String,
    rng: &mut rand::rngs::StdRng,
) -> (r: DamagePacket)
    ensures
        r.source_id@ == source_id@,
        r.skill_id@ == skill.id@,
        r.fire_pen as int == attacker.fire_penetration.compute_spec(),
        r.cold_pen as int == attacker.cold_penetration.compute_spec(),
        r.lightning_pen as int == attacker.lightning_penetration.compute_spec(),
        r.chaos_pen as int == attacker.chaos_penetration.compute_spec(),
        r.accuracy as int == attacker.accuracy.compute_spec(),
        r.hit_count == skill.hits_per_attack,
        r.wf_pending(),
        crit_chance_spec(*attacker, *skill) >= 100_000 ==> r.is_critical,
        crit_chance_spec(*attacker, *skill) <= 0 ==> !r.is_critical,
        r.crit_multiplier as int == if r.is_critical {
            clamp_amount(
                attacker.critical_multiplier.compute_spec() + skill.crit_multiplier_bonus,
            )
        } else {
            1_500
        },
        r.status_effects_to_apply@ =~= build_pendings_spec(
            *skill,
            attacker.status_effect_stats,
            pairs_of(r.damages@),
        ),
    {
    let mut base_map = DamageMap::zero();
    let mut i: usize = 0;
    while i < skill.base_damages.len()
        decreases skill.base_damages.len() - i,
    {
        let bd = &skill.base_damages[i];
        let rolled: i64 = if bd.min >= bd.max {
            bd.max
        } else {
            roll_inclusive(rng, bd.min, bd.max)
        };
        base_map.add(bd.damage_type, rolled);
        i = i + 1;
    }
    if skill.is_attack() && skill.weapon_effectiveness > 0 {
        let mut j: usize = 0;
        while j < 5
            decreases 5 - j,
        {
            let dt = match j {
                0 => DamageType::Physical,
                1 => DamageType::Fire,
                2 => DamageType::Cold,
                3 => DamageType::Lightning,
                _ => DamageType::Chaos,
            };
            let (mn, mx) = attacker.weapon_damage(dt);
            if mx > 0 {
                let smin = sat_scaled(mn, skill.weapon_effectiveness);
                let smax = sat_scaled(mx, skill.weapon_effectiveness);
                let rolled: i64 = if smin >= smax {
                    smax
                } else {
                    roll_inclusive(rng, smin, smax)
                };
                base_map.add(dt, rolled);
            }
            j = j + 1;
        }
    }
    let u = roll_percent(rng);
    assemble_packet(attacker, skill, source_id.as_str(), base_map, u)
}


/// The averaged base damage map of a skill: every roll replaced by its
/// mean.
pub open spec fn base_avg_fold(m: DamageMap, bds: Seq<crate::generator::BaseDamage>) -> DamageMap
    decreases bds.len(),
{
    if bds.len() == 0 {
        m
    } else {
        base_avg_fold(m, bds.drop_last()).add_spec(
            bds.last().damage_type,
            (clamp_amount(bds.last().min + bds.last().max) / 2) as i64,
        )
    }
}

/// Weapon damage averages taken at the skill's weapon effectiveness.
pub open spec fn weapon_avg_spec(m: DamageMap, attacker: StatBlock, we: i64) -> DamageMap {
    let m1 = if attacker.weapon_physical_max > 0 {
        m.add_spec(
            DamageType::Physical,
            scaled(
                clamp_amount(attacker.weapon_physical_min + attacker.weapon_physical_max) / 2,
                we as int,
            ) as i64,
        )
    } else {
        m
    };
    let m2 = if attacker.weapon_fire_max > 0 {
        m1.add_spec(
            DamageType::Fire,
            scaled(
                clamp_amount(attacker.weapon_fire_min + attacker.weapon_fire_max) / 2,
                we as int,
            ) as i64,
        )
    } else {
        m1
    };
    let m3 = if attacker.weapon_cold_max > 0 {
        m2.add_spec(
            DamageType::Cold,
            scaled(
                clamp_amount(attacker.weapon_cold_min + attacker.weapon_cold_max) / 2,
                we as int,
            ) as i64,
        )
    } else {
        m2
    };
    let m4 = if attacker.weapon_lightning_max > 0 {
        m3.add_spec(
            DamageType::Lightning,
            scaled(
                clamp_amount(attacker.weapon_lightning_min + attacker.weapon_lightning_max) / 2,
                we as int,
            ) as i64,
        )
    } else {
        m3
    };
    if attacker.weapon_chaos_max > 0 {
        m4.add_spec(
            DamageType::Chaos,
            scaled(
                clamp_amount(attacker.weapon_chaos_min + attacker.weapon_chaos_max) / 2,
                we as int,
            ) as i64,
        )
    } else {
        m4
    }
}

/// The averaged damage map one skill use draws, before conversion.
pub open spec fn avg_map_spec(attacker: StatBlock, skill: DamagePacketGenerator) -> DamageMap {
    let base = base_avg_fold(
        DamageMap { physical: 0i64, fire: 0i64, cold: 0i64, lightning: 0i64, chaos: 0i64 },
        skill.base_damages@,
    );
    if has_tag(skill.tags@, SkillTag::Attack) && skill.weapon_effectiveness > 0 {
        weapon_avg_spec(base, attacker, skill.weapon_effectiveness)
    } else {
        base
    }
}

/// One averaged entry, if the type carries anything after scaling.
pub open spec fn avg_entry_spec(
    attacker: StatBlock,
    skill: DamagePacketGenerator,
    dt: DamageType,
    amount: int,
) -> Seq<(DamageType, i64)> {
    if amount <= 0 {
        Seq::<(DamageType, i64)>::empty()
    } else {
        let sd = scaled_damage_spec(attacker, skill, dt, amount);
        if sd > 0 {
            seq![(dt, sd as i64)]
        } else {
            Seq::<(DamageType, i64)>::empty()
        }
    }
}

/// The averaged, converted and scaled damage pairs of a skill use, in
/// the fixed type order.
pub open spec fn avg_pairs_spec(attacker: StatBlock, skill: DamagePacketGenerator) -> Seq<
    (DamageType, i64),
> {
    let m = converted_map_spec(skill, avg_map_spec(attacker, skill));
    avg_entry_spec(attacker, skill, DamageType::Physical, m.physical as int) + avg_entry_spec(
        attacker,
        skill,
        DamageType::Fire,
        m.fire as int,
    ) + avg_entry_spec(attacker, skill, DamageType::Cold, m.cold as int) + avg_entry_spec(
        attacker,
        skill,
        DamageType::Lightning,
        m.lightning as int,
    ) + avg_entry_spec(attacker, skill, DamageType::Chaos, m.chaos as int)
}

/// Saturating total of damage pairs.
pub open spec fn pairs_total(s: Seq<(DamageType, i64)>) -> int
    decreases s.len(),
{
    if s.len() == 0 {
        0
    } else {
        clamp_amount(pairs_total(s.drop_last()) + s.last().1)
    }
}

/// Push one averaged entry onto the pair list, if any.
fn push_avg_entry(
    attacker: &StatBlock,
    skill: &DamagePacketGenerator,
    dt: DamageType,
    amount: i64,
    pairs: &mut Vec<(DamageType, i64)>,
)
    ensures
        final(pairs)@ =~= old(pairs)@ + avg_entry_spec(*attacker, *skill, dt, amount as int),
{
    if amount <= 0 {
        proof {
            assert(old(pairs)@ + Seq::<(DamageType, i64)>::empty() =~= old(pairs)@);
        }
        return ;
    }
    let sv = match dt {
        DamageType::Physical => &attacker.global_physical_damage,
        DamageType::Fire => &attacker.global_fire_damage,
        DamageType::Cold => &attacker.global_cold_damage,
        DamageType::Lightning => &attacker.global_lightning_damage,
        DamageType::Chaos => &attacker.global_chaos_damage,
    };
    let a1 = sat_factor(amount, sv.increased);
    let a2 = sat_scaled(a1, sv.total_more_multiplier());
    let a3 = sat_scaled(a2, skill.damage_effectiveness);
    let sd = sat_scaled(a3, skill.type_effectiveness.get(dt));
    if sd > 0 {
        pairs.push((dt, sd));
        proof {
            assert(final(pairs)@ =~= old(pairs)@ + avg_entry_spec(
                *attacker,
                *skill,
                dt,
                amount as int,
            ));
        }
    } else {
        proof {
            assert(old(pairs)@ + Seq::<(DamageType, i64)>::empty() =~= old(pairs)@);
        }
    }
}

/// The average damage of one skill use, by type: every roll replaced by
/// its mean, then converted and scaled exactly as a real hit.
pub fn calculate_average_damage_by_type(
    attacker: &StatBlock,
    skill: &DamagePacketGenerator,
) -> (r: Vec<(DamageType, i64)>)
    ensures
        r@ =~= avg_pairs_spec(*attacker, *skill),
{
    let mut base = DamageMap::zero();
    let mut i: usize = 0;
    while i < skill.base_damages.len()
        invariant
            i <= skill.base_damages.len(),
            base == base_avg_fold(
                DamageMap { physical: 0i64, fire: 0i64, cold: 0i64, lightning: 0i64, chaos: 0i64 },
                skill.base_damages@.subrange(0, i as int),
            ),
        decreases skill.base_damages.len() - i,
    {
        proof {
            let ext = skill.base_damages@.subrange(0, i as int + 1);
            assert(ext.drop_last() =~= skill.base_damages@.subrange(0, i as int));
            assert(ext.last() == skill.base_damages@[i as int]);
        }
        let bd = &skill.base_damages[i];
        base.add(bd.damage_type, bd.average());
        i = i + 1;
    }
    proof {
        assert(skill.base_damages@.subrange(0, skill.base_damages@.len() as int)
            =~= skill.base_damages@);
    }
    if skill.is_attack() && skill.weapon_effectiveness > 0 {
        let we = skill.weapon_effectiveness;
        if attacker.weapon_physical_max > 0 {
            base.add(
                DamageType::Physical,
                sat_scaled(
                    crate::fixed::divc_floor(
                        sat_add(attacker.weapon_physical_min, attacker.weapon_physical_max),
                        2,
                    ),
                    we,
                ),
            );
        }
        if attacker.weapon_fire_max > 0 {
            base.add(
                DamageType::Fire,
                sat_scaled(
                    crate::fixed::divc_floor(
                        sat_add(attacker.weapon_fire_min, attacker.weapon_fire_max),
                        2,
                    ),
                    we,
                ),
            );
        }
        if attacker.weapon_cold_max > 0 {
            base.add(
                DamageType::Cold,
                sat_scaled(
                    crate::fixed::divc_floor(
                        sat_add(attacker.weapon_cold_min, attacker.weapon_cold_max),
                        2,
                    ),
                    we,
                ),
            );
        }
        if attacker.weapon_lightning_max > 0 {
            base.add(
                DamageType::Lightning,
                sat_scaled(
                    crate::fixed::divc_floor(
                        sat_add(attacker.weapon_lightning_min, attacker.weapon_lightning_max),
                        2,
                    ),
                    we,
                ),
            );
        }
        if attacker.weapon_chaos_max > 0 {
            base.add(
                DamageType::Chaos,
                sat_scaled(
                    crate::fixed::divc_floor(
                        sat_add(attacker.weapon_chaos_min, attacker.weapon_chaos_max),
                        2,
                    ),
                    we,
                ),
            );
        }
    }
    let m: DamageMap = if skill.damage_conversions.has_conversions() {
        skill.damage_conversions.apply(&base)
    } else {
        base
    };
    let mut pairs: Vec<(DamageType, i64)> = Vec::new();
    push_avg_entry(attacker, skill, DamageType::Physical, m.physical, &mut pairs);
    push_avg_entry(attacker, skill, DamageType::Fire, m.fire, &mut pairs);
    push_avg_entry(attacker, skill, DamageType::Cold, m.cold, &mut pairs);
    push_avg_entry(attacker, skill, DamageType::Lightning, m.lightning, &mut pairs);
    push_avg_entry(attacker, skill, DamageType::Chaos, m.chaos, &mut pairs);
    pairs
}

/// The DoT contribution of one damaging kind to the estimator.
pub open spec fn dot_contribution_spec(
    attacker: StatBlock,
    skill: DamagePacketGenerator,
    st: StatusEffect,
    pairs: Seq<(DamageType, i64)>,
    speed: int,
) -> int {
    let sd = combined_status_damage_spec(skill, attacker.status_effect_stats, st, pairs);
    if sd > 0 {
        let stats = attacker.status_effect_stats.get_stats_spec(st);
        scaled(
            max_spec(
                factor_applied(scaled(sd, base_dot_percent_spec(st)), stats.dot_increased as int),
                0,
            ),
            speed,
        )
    } else {
        0
    }
}

/// The estimated damage per second of one skill use: average hit damage
/// times the expected critical factor, speed and hit count, plus the
/// DoT rate each damaging ailment sustains under continuous
/// reapplication. A pure function of the attacker and the skill: no
/// randomness enters, so equal inputs give equal estimates.
pub open spec fn skill_dps_spec(attacker: StatBlock, skill: DamagePacketGenerator) -> int {
    let pairs = avg_pairs_spec(attacker, skill);
    let total = pairs_total(pairs);
    let chance = crit_chance_spec(attacker, skill);
    let cm = clamp_amount(attacker.critical_multiplier.compute_spec() + skill.crit_multiplier_bonus);
    let crit_factor = clamp_amount(SCALE + muldiv(clamp_amount(cm - SCALE), chance, 100_000));
    let speed = if has_tag(skill.tags@, SkillTag::Attack) {
        scaled(attacker.computed_attack_speed_spec(), skill.attack_speed_modifier as int)
    } else {
        scaled(attacker.cast_speed.compute_spec(), skill.attack_speed_modifier as int)
    };
    let hit_dps = muldiv(scaled(scaled(total, crit_factor), speed), skill.hits_per_attack as int, 1);
    let with_poison = clamp_amount(
        hit_dps + dot_contribution_spec(attacker, skill, StatusEffect::Poison, pairs, speed),
    );
    let with_bleed = clamp_amount(
        with_poison + dot_contribution_spec(attacker, skill, StatusEffect::Bleed, pairs, speed),
    );
    clamp_amount(
        with_bleed + dot_contribution_spec(attacker, skill, StatusEffect::Burn, pairs, speed),
    )
}

/// Compute the DoT contribution of one damaging kind.
fn dot_contribution(
    attacker: &StatBlock,
    skill: &DamagePacketGenerator,
    st: StatusEffect,
    pairs: &Vec<(DamageType, i64)>,
    speed: i64,
) -> (r: i64)
    ensures
        r as int == dot_contribution_spec(*attacker, *skill, st, pairs@, speed as int),
{
    let sd = combined_status_damage(skill, &attacker.status_effect_stats, st, pairs);
    if sd > 0 {
        let stats = attacker.status_effect_stats.get_stats(st);
        let raw = sat_factor(sat_scaled(sd, Effect::base_dot_percent_for(st)), stats.dot_increased);
        sat_scaled(crate::fixed::max64(raw, 0), speed)
    } else {
        0
    }
}

/// Estimate the damage per second of a skill: the roll-free average
/// pipeline, the expected critical factor, attack or cast speed, hits
/// per attack, and the sustained DoT of the damaging ailments. No
/// randomness is consumed, so two calls with equal inputs agree.
pub fn calculate_skill_dps(attacker: &StatBlock, skill: &DamagePacketGenerator) -> (r: i64)
    ensures
        r as int == skill_dps_spec(*attacker, *skill),
{
    let pairs = calculate_average_damage_by_type(attacker, skill);
    let mut total: i64 = 0;
    let mut i: usize = 0;
    while i < pairs.len()
        invariant
            i <= pairs.len(),
            total as int == pairs_total(pairs@.subrange(0, i as int)),
        decreases pairs.len() - i,
    {
        proof {
            let ext = pairs@.subrange(0, i as int + 1);
            assert(ext.drop_last() =~= pairs@.subrange(0, i as int));
            assert(ext.last() == pairs@[i as int]);
        }
        total = sat_add(total, pairs[i].1);
        i = i + 1;
    }
    proof {
        assert(pairs@.subrange(0, pairs@.len() as int) =~= pairs@);
    }
    let chance = calculate_crit_chance(attacker, skill);
    let cm = sat_add(attacker.computed_crit_multiplier(), skill.crit_multiplier_bonus);
    let crit_factor = sat_add(SCALE, sat_muldiv(crate::fixed::sat_sub(cm, SCALE), chance, 100_000));
    let speed: i64 = if skill.is_attack() {
        sat_scaled(attacker.computed_attack_speed(), skill.attack_speed_modifier)
    } else {
        sat_scaled(attacker.computed_cast_speed(), skill.attack_speed_modifier)
    };
    let hit_dps = sat_muldiv(
        sat_scaled(sat_scaled(total, crit_factor), speed),
        skill.hits_per_attack as i64,
        1,
    );
    let c_poison = dot_contribution(attacker, skill, StatusEffect::Poison, &pairs, speed);
    let c_bleed = dot_contribution(attacker, skill, StatusEffect::Bleed, &pairs, speed);
    let c_burn = dot_contribution(attacker, skill, StatusEffect::Burn, &pairs, speed);
    sat_add(sat_add(sat_add(hit_dps, c_poison), c_bleed), c_burn)
}

} // verus!
