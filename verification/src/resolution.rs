//! Damage resolution: applying a damage packet to a defender, through
//! resistance, armour, the evasion cap, energy shield and life, and the
//! probabilistic application of pending ailments.

use vstd::prelude::*;
use crate::armour::{armour_reduction_spec, calculate_armour_reduction};
use crate::effect::{Effect, EffectType};
use crate::evasion::{apply_evasion_cap, damage_cap_spec};
use crate::fixed::{clamp_amount, max_spec, min_spec, muldiv, sat_add, sat_sub, min64};
use crate::packet::{DamagePacket, FinalDamage};
use crate::resistance::{calculate_resistance_mitigation, resistance_mitigation_spec};
use crate::result::{taken_final_total, CombatResult, DamageTaken};
use crate::rng::{entropy_rng, roll_fraction};
use crate::stat_block::StatBlock;
use crate::types::{DamageType, StatusEffect};
use vstd::pervasive::VecAdditionalExecFns;

verus! {

/// One damage entry taken through resistances: physical passes at raw;
/// the others are mitigated with the packet's penetration. What was
/// removed is recorded, never below zero.
pub open spec fn mitigate_entry_spec(defender: StatBlock, packet: DamagePacket, d: FinalDamage) -> DamageTaken {
    let after = if d.damage_type == DamageType::Physical {
        d.amount as int
    } else {
        resistance_mitigation_spec(
            d.amount as int,
            defender.resistance_spec(d.damage_type),
            packet.penetration_spec(d.damage_type) as int,
        )
    };
    DamageTaken {
        damage_type: d.damage_type,
        raw_amount: d.amount,
        mitigated_amount: max_spec(clamp_amount(d.amount - after), 0) as i64,
        final_amount: after as i64,
    }
}

/// The breakdown list after resistances, entry by entry.
pub open spec fn mitigate_entries_spec(
    defender: StatBlock,
    packet: DamagePacket,
    ds: Seq<FinalDamage>,
) -> Seq<DamageTaken>
    decreases ds.len(),
{
    if ds.len() == 0 {
        Seq::<DamageTaken>::empty()
    } else {
        mitigate_entries_spec(defender, packet, ds.drop_last()).push(
            mitigate_entry_spec(defender, packet, ds.last()),
        )
    }
}

/// The damage resistances removed in all, counting only entries where
/// mitigation was positive.
pub open spec fn resists_reduced_spec(
    defender: StatBlock,
    packet: DamagePacket,
    ds: Seq<FinalDamage>,
) -> int
    decreases ds.len(),
{
    if ds.len() == 0 {
        0
    } else {
        let rest = resists_reduced_spec(defender, packet, ds.drop_last());
        let m = clamp_amount(
            ds.last().amount - mitigate_entry_spec(defender, packet, ds.last()).final_amount,
        );
        if m > 0 {
            clamp_amount(rest + m)
        } else {
            rest
        }
    }
}

/// An entry with armour applied, if it holds positive physical damage.
pub open spec fn armour_entry_spec(e: DamageTaken, armour: int) -> DamageTaken {
    if e.final_amount > 0 {
        let after = armour_reduction_spec(armour, e.final_amount as int);
        DamageTaken {
            mitigated_amount: clamp_amount(
                e.mitigated_amount + clamp_amount(e.final_amount - after),
            ) as i64,
            final_amount: after as i64,
            ..e
        }
    } else {
        e
    }
}

/// The breakdown with armour applied to the first physical entry.
pub open spec fn armour_entries_spec(entries: Seq<DamageTaken>, armour: int) -> Seq<DamageTaken>
    decreases entries.len(),
{
    if entries.len() == 0 {
        Seq::<DamageTaken>::empty()
    } else if entries[0].damage_type == DamageType::Physical {
        seq![armour_entry_spec(entries[0], armour)] + entries.drop_first()
    } else {
        seq![entries[0]] + armour_entries_spec(entries.drop_first(), armour)
    }
}

/// What armour removed from the first physical entry, if any.
pub open spec fn armour_delta_spec(entries: Seq<DamageTaken>, armour: int) -> int
    decreases entries.len(),
{
    if entries.len() == 0 {
        0
    } else if entries[0].damage_type == DamageType::Physical {
        if entries[0].final_amount > 0 {
            clamp_amount(
                entries[0].final_amount - armour_reduction_spec(
                    armour,
                    entries[0].final_amount as int,
                ),
            )
        } else {
            0
        }
    } else {
        armour_delta_spec(entries.drop_first(), armour)
    }
}

/// The breakdown scaled down under the evasion cap: every final amount
/// shrinks by the ratio of what landed to what was incoming.
pub open spec fn evasion_entries_spec(entries: Seq<DamageTaken>, after: int, total: int) -> Seq<
    DamageTaken,
>
    decreases entries.len(),
{
    if entries.len() == 0 {
        Seq::<DamageTaken>::empty()
    } else {
        let e = entries.last();
        let nf = muldiv(e.final_amount as int, after, total);
        evasion_entries_spec(entries.drop_last(), after, total).push(
            DamageTaken {
                mitigated_amount: clamp_amount(
                    e.mitigated_amount + clamp_amount(e.final_amount - nf),
                ) as i64,
                final_amount: nf as i64,
                ..e
            },
        )
    }
}

/// Create the effect one ailment kind instantiates: the kind's own
/// envelope and stacking discipline, carrying the rolled duration,
/// magnitude and DoT rate.
pub fn create_effect_from_status(
    status: StatusEffect,
    duration: i64,
    magnitude: i64,
    dot_dps: i64,
    source_id: &str,
) -> (e: Effect)
    ensures
        e.duration_remaining == duration,
        e.total_duration == duration,
        e.stacks == 1,
        e.source_id@ == source_id@,
        dot_dps >= 0 ==> e.wf(),
        match e.effect_type {
            EffectType::Ailment { status: st2, magnitude: m2, dot_dps: d2, .. } => st2 == status
                && (d2 == dot_dps || d2 == 0) && (m2 == magnitude || m2 == 0),
            EffectType::StatModifier { .. } => false,
        },
{
    let mut e = match status {
        StatusEffect::Poison => Effect::poison(dot_dps, source_id),
        StatusEffect::Bleed => Effect::bleed(dot_dps, source_id),
        StatusEffect::Burn => Effect::burn(dot_dps, source_id),
        StatusEffect::Freeze => Effect::freeze(magnitude, source_id),
        StatusEffect::Chill => Effect::chill(magnitude, source_id),
        StatusEffect::Static => Effect::shock(magnitude, source_id),
        StatusEffect::Fear => Effect::fear(magnitude, source_id),
        StatusEffect::Slow => Effect::slow(magnitude, source_id),
    };
    e.duration_remaining = duration;
    e.total_duration = duration;
    e
}

/// Resolve a damage packet against a defender with a caller-supplied
/// generator: per-type resistance mitigation, armour on physical, the
/// evasion cap over the whole hit, energy shield before life, and a
/// chance roll per pending ailment. The defender is untouched; the new
/// state and the combat result come back together. Life never drops
/// before the energy shield is exhausted.
#[verifier::rlimit(100)]
pub fn resolve_damage_with_rng(
    defender: &StatBlock,
    packet: &DamagePacket,
    rng: &mut rand::rngs::StdRng,
) -> (r: (StatBlock, CombatResult))
    requires
        defender.wf_effects(),
        packet.wf_pending(),
    ensures
        ({
            let entries0 = mitigate_entries_spec(*defender, *packet, packet.damages@);
            let entries1 = armour_entries_spec(entries0, defender.armour.compute_spec());
            let total1 = taken_final_total(entries1);
            let cap = damage_cap_spec(packet.accuracy as int, defender.evasion.compute_spec());
            let evaded = if total1 > 0 && total1 > cap {
                total1 - cap
            } else {
                0
            };
            let entries2 = if evaded > 0 {
                evasion_entries_spec(entries1, min_spec(total1, cap), total1)
            } else {
                entries1
            };
            let total2 = taken_final_total(entries2);
            let absorbed = if defender.current_energy_shield > 0 && total2 > 0 {
                min_spec(total2 as int, defender.current_energy_shield as int)
            } else {
                0
            };
            let remaining = total2 - absorbed;
            let life_pre = if remaining > 0 {
                clamp_amount(defender.current_life - remaining)
            } else {
                defender.current_life as int
            };
            &&& r.1.damage_taken@ =~= entries2
            &&& r.1.damage_reduced_by_resists as int == resists_reduced_spec(
                *defender,
                *packet,
                packet.damages@,
            )
            &&& r.1.damage_reduced_by_armour as int == armour_delta_spec(
                entries0,
                defender.armour.compute_spec(),
            )
            &&& r.1.triggered_evasion_cap == (evaded > 0)
            &&& r.1.damage_prevented_by_evasion as int == evaded
            &&& r.1.total_damage as int == total2
            &&& r.1.es_before == defender.current_energy_shield
            &&& r.1.life_before == defender.current_life
            &&& r.1.damage_blocked_by_es as int == absorbed
            &&& r.1.es_after as int == defender.current_energy_shield - absorbed
            &&& r.1.life_after as int == max_spec(life_pre, 0)
            &&& r.1.is_killing_blow == (life_pre <= 0)
            &&& r.0.current_energy_shield == r.1.es_after
            &&& r.0.current_life == r.1.life_after
        }),
        r.1.life_after < r.1.life_before ==> r.1.es_after <= 0,
        crate::stat_block::block_stats_eq(r.0, *defender),
        r.0.id == defender.id,
        r.0.current_mana == defender.current_mana,
        r.0.max_energy_shield == defender.max_energy_shield,
        r.0.wf_effects(),
        r.1.effects_applied@.len() <= packet.status_effects_to_apply@.len(),
        forall|k: int|
            0 <= k < r.1.effects_applied@.len() ==> (#[trigger] r.1.effects_applied@[k]).wf(),
{
    let mut nd = defender.duplicate();
    let es_before = nd.current_energy_shield;
    let life_before = nd.current_life;

    // Resistance mitigation, entry by entry.
    let mut entries: Vec<DamageTaken> = Vec::new();
    let mut resists: i64 = 0;
    let mut i: usize = 0;
    while i < packet.damages.len()
        invariant
            i <= packet.damages.len(),
            crate::stat_block::block_stats_eq(nd, *defender),
            entries@ =~= mitigate_entries_spec(
                *defender,
                *packet,
                packet.damages@.subrange(0, i as int),
            ),
            resists as int == resists_reduced_spec(
                *defender,
                *packet,
                packet.damages@.subrange(0, i as int),
            ),
        decreases packet.damages.len() - i,
    {
        proof {
            let ext = packet.damages@.subrange(0, i as int + 1);
            assert(ext.drop_last() =~= packet.damages@.subrange(0, i as int));
            assert(ext.last() == packet.damages@[i as int]);
        }
        let d = packet.damages[i];
        let raw = d.amount;
        let pen = packet.penetration(d.damage_type);
        let resist = nd.resistance(d.damage_type);
        proof {
            crate::stat_block::lemma_sv_eq_compute(nd.fire_resistance, defender.fire_resistance);
            crate::stat_block::lemma_sv_eq_compute(nd.cold_resistance, defender.cold_resistance);
            crate::stat_block::lemma_sv_eq_compute(
                nd.lightning_resistance,
                defender.lightning_resistance,
            );
            crate::stat_block::lemma_sv_eq_compute(nd.chaos_resistance, defender.chaos_resistance);
        }
        let after: i64 = match d.damage_type {
            DamageType::Physical => raw,
            _ => calculate_resistance_mitigation(raw, resist, pen),
        };
        let mitigated = sat_sub(raw, after);
        if mitigated > 0 {
            resists = sat_add(resists, mitigated);
        }
        entries.push(
            DamageTaken {
                damage_type: d.damage_type,
                raw_amount: raw,
                mitigated_amount: crate::fixed::max64(mitigated, 0),
                final_amount: after,
            },
        );
        i = i + 1;
    }
    proof {
        assert(packet.damages@.subrange(0, packet.damages@.len() as int) =~= packet.damages@);
    }
    let ghost entries0 = entries@;

    // Armour on the first physical entry.
    let armour_value = nd.armour.compute();
    proof {
        crate::stat_block::lemma_sv_eq_compute(nd.armour, defender.armour);
    }
    let mut armour_red: i64 = 0;
    let mut ai: usize = 0;
    let mut armour_done: bool = false;
    proof {
        assert(entries0.skip(0) =~= entries0);
        assert(entries0.subrange(0, 0) + armour_entries_spec(entries0.skip(0), armour_value as int)
            =~= armour_entries_spec(entries0, armour_value as int));
    }
    while ai < entries.len() && !armour_done
        invariant
            ai <= entries.len(),
            entries@.len() == entries0.len(),
            !armour_done ==> entries@ =~= entries0 && armour_delta_spec(
                entries0.skip(ai as int),
                armour_value as int,
            ) == armour_delta_spec(entries0, armour_value as int) && armour_entries_spec(
                entries0,
                armour_value as int,
            ) =~= entries0.subrange(0, ai as int) + armour_entries_spec(
                entries0.skip(ai as int),
                armour_value as int,
            ),
            armour_done ==> entries@ =~= armour_entries_spec(entries0, armour_value as int)
                && armour_red as int == armour_delta_spec(entries0, armour_value as int),
            !armour_done ==> armour_red == 0,
        decreases entries@.len() - ai + (if armour_done {
            0int
        } else {
            1int
        }),
    {
        proof {
            assert(entries0.skip(ai as int)[0] == entries0[ai as int]);
            assert(entries0.skip(ai as int).drop_first() =~= entries0.skip(ai as int + 1));
        }
        let is_phys = match entries[ai].damage_type {
            DamageType::Physical => true,
            _ => false,
        };
        if is_phys {
            let e = entries[ai];
            if e.final_amount > 0 {
                let after_armour = calculate_armour_reduction(armour_value, e.final_amount);
                let delta = sat_sub(e.final_amount, after_armour);
                armour_red = delta;
                entries.set(
                    ai,
                    DamageTaken {
                        damage_type: e.damage_type,
                        raw_amount: e.raw_amount,
                        mitigated_amount: sat_add(e.mitigated_amount, delta),
                        final_amount: after_armour,
                    },
                );
            }
            armour_done = true;
            proof {
                assert(entries@ =~= entries0.subrange(0, ai as int) + (seq![
                    armour_entry_spec(entries0[ai as int], armour_value as int),
                ] + entries0.skip(ai as int + 1)));
                assert(entries0.subrange(0, ai as int) + (seq![
                    armour_entry_spec(entries0[ai as int], armour_value as int),
                ] + entries0.skip(ai as int + 1)) =~= entries0.subrange(0, ai as int)
                    + armour_entries_spec(entries0.skip(ai as int), armour_value as int));
            }
        } else {
            proof {
                assert(armour_entries_spec(entries0.skip(ai as int), armour_value as int)
                    =~= seq![entries0[ai as int]] + armour_entries_spec(
                    entries0.skip(ai as int + 1),
                    armour_value as int,
                ));
                assert(entries0.subrange(0, ai as int + 1) =~= entries0.subrange(0, ai as int)
                    + seq![entries0[ai as int]]);
                assert(entries0.subrange(0, ai as int) + armour_entries_spec(
                    entries0.skip(ai as int),
                    armour_value as int,
                ) =~= entries0.subrange(0, ai as int + 1) + armour_entries_spec(
                    entries0.skip(ai as int + 1),
                    armour_value as int,
                ));
            }
            ai = ai + 1;
        }
    }
    proof {
        if !armour_done {
            assert(entries0.skip(ai as int).len() == 0);
            assert(armour_entries_spec(entries0.skip(ai as int), armour_value as int)
                =~= Seq::<DamageTaken>::empty());
            assert(entries0.subrange(0, ai as int) =~= entries0);
            assert(entries@ =~= armour_entries_spec(entries0, armour_value as int));
            assert(armour_delta_spec(entries0, armour_value as int) == 0);
        }
    }
    let ghost entries1 = entries@;

    // Evasion cap over the whole hit.
    let mut total1: i64 = 0;
    let mut ti: usize = 0;
    while ti < entries.len()
        invariant
            ti <= entries.len(),
            entries@ =~= entries1,
            total1 as int == taken_final_total(entries@.subrange(0, ti as int)),
        decreases entries.len() - ti,
    {
        proof {
            let ext = entries@.subrange(0, ti as int + 1);
            assert(ext.drop_last() =~= entries@.subrange(0, ti as int));
            assert(ext.last() == entries@[ti as int]);
        }
        total1 = sat_add(total1, entries[ti].final_amount);
        ti = ti + 1;
    }
    proof {
        assert(entries@.subrange(0, entries@.len() as int) =~= entries@);
    }
    let evasion_value = nd.evasion.compute();
    proof {
        crate::stat_block::lemma_sv_eq_compute(nd.evasion, defender.evasion);
    }
    let (after_ev, evaded) = apply_evasion_cap(packet.accuracy, evasion_value, total1);
    let triggered = evaded > 0;
    if evaded > 0 {
        let mut si: usize = 0;
        while si < entries.len()
            invariant
                si <= entries.len(),
                entries@.len() == entries1.len(),
                total1 > 0,
                entries@ =~= evasion_entries_spec(
                    entries1.subrange(0, si as int),
                    after_ev as int,
                    total1 as int,
                ) + entries1.skip(si as int),
            decreases entries.len() - si,
        {
            proof {
                let ext = entries1.subrange(0, si as int + 1);
                assert(ext.drop_last() =~= entries1.subrange(0, si as int));
                assert(ext.last() == entries1[si as int]);
                assert(entries@[si as int] == entries1.skip(si as int)[0]);
                assert(entries1.skip(si as int)[0] == entries1[si as int]);
            }
            let e = entries[si];
            let nf = crate::fixed::sat_muldiv(e.final_amount, after_ev, total1);
            entries.set(
                si,
                DamageTaken {
                    damage_type: e.damage_type,
                    raw_amount: e.raw_amount,
                    mitigated_amount: sat_add(e.mitigated_amount, sat_sub(e.final_amount, nf)),
                    final_amount: nf,
                },
            );
            proof {
                assert(entries1.skip(si as int) =~= seq![entries1[si as int]] + entries1.skip(
                    si as int + 1,
                ));
                assert(entries@ =~= evasion_entries_spec(
                    entries1.subrange(0, si as int + 1),
                    after_ev as int,
                    total1 as int,
                ) + entries1.skip(si as int + 1));
            }
            si = si + 1;
        }
        proof {
            assert(entries1.subrange(0, entries1.len() as int) =~= entries1);
            assert(entries1.skip(entries1.len() as int) =~= Seq::<DamageTaken>::empty());
            assert(entries@ =~= evasion_entries_spec(
                entries1,
                after_ev as int,
                total1 as int,
            ) + Seq::<DamageTaken>::empty());
            assert(entries@ =~= evasion_entries_spec(entries1, after_ev as int, total1 as int));
        }
    }

    // Final total, then energy shield before life.
    let ghost entries2 = entries@;
    let mut total2: i64 = 0;
    let mut fi: usize = 0;
    while fi < entries.len()
        invariant
            fi <= entries.len(),
            entries@ =~= entries2,
            total2 as int == taken_final_total(entries@.subrange(0, fi as int)),
        decreases entries.len() - fi,
    {
        proof {
            let ext = entries@.subrange(0, fi as int + 1);
            assert(ext.drop_last() =~= entries@.subrange(0, fi as int));
            assert(ext.last() == entries@[fi as int]);
        }
        total2 = sat_add(total2, entries[fi].final_amount);
        fi = fi + 1;
    }
    proof {
        assert(entries@.subrange(0, entries@.len() as int) =~= entries@);
    }
    let mut remaining = total2;
    let mut blocked: i64 = 0;
    if nd.current_energy_shield > 0 && remaining > 0 {
        let absorbed = min64(remaining, nd.current_energy_shield);
        nd.current_energy_shield = nd.current_energy_shield - absorbed;
        remaining = remaining - absorbed;
        blocked = absorbed;
    }
    if remaining > 0 {
        nd.current_life = sat_sub(nd.current_life, remaining);
    }
    let mut killing = false;
    if nd.current_life <= 0 {
        killing = true;
        nd.current_life = 0;
    }
    let es_after = nd.current_energy_shield;
    let life_after = nd.current_life;

    // Pending ailments: one chance roll each.
    let target_max_health = nd.computed_max_life();
    let mut applied: Vec<Effect> = Vec::new();
    let mut pi: usize = 0;
    while pi < packet.status_effects_to_apply.len()
        invariant
            pi <= packet.status_effects_to_apply.len(),
            packet.wf_pending(),
            nd.wf_effects(),
            applied@.len() <= pi,
            forall|k: int|
                0 <= k < applied@.len() ==> (#[trigger] applied@[k]).wf(),
            crate::stat_block::block_stats_eq(nd, *defender),
            nd.current_life == life_after,
            nd.current_energy_shield == es_after,
            nd.id == defender.id,
            nd.current_mana == defender.current_mana,
            nd.max_energy_shield == defender.max_energy_shield,
        decreases packet.status_effects_to_apply.len() - pi,
    {
        let pending = packet.status_effects_to_apply[pi];
        let chance = pending.calculate_apply_chance(target_max_health);
        let u = roll_fraction(rng);
        if u < chance {
            let eff = create_effect_from_status(
                pending.effect_type,
                pending.duration,
                pending.magnitude,
                pending.dot_dps,
                packet.source_id.as_str(),
            );
            let eff2 = eff.duplicate();
            nd.add_effect(eff);
            applied.push(eff2);
        }
        pi = pi + 1;
    }

    proof {
        assert(life_after < life_before ==> es_after <= 0);
    }
    let result = CombatResult {
        damage_taken: entries,
        total_damage: total2,
        damage_blocked_by_es: blocked,
        damage_reduced_by_armour: armour_red,
        damage_reduced_by_resists: resists,
        damage_prevented_by_evasion: evaded,
        effects_applied: applied,
        es_before,
        es_after,
        life_before,
        life_after,
        is_killing_blow: killing,
        triggered_evasion_cap: triggered,
    };
    (nd, result)
}

/// Resolve a damage packet with a fresh operating-system-seeded
/// generator; the deterministic parts of the outcome match the seeded
/// variant exactly.
pub fn resolve_damage(defender: &StatBlock, packet: &DamagePacket) -> (r: (StatBlock, CombatResult))
    requires
        defender.wf_effects(),
        packet.wf_pending(),
    ensures
        r.1.es_before == defender.current_energy_shield,
        r.1.life_before == defender.current_life,
        r.1.life_after < r.1.life_before ==> r.1.es_after <= 0,
        r.0.current_life == r.1.life_after,
        r.0.current_energy_shield == r.1.es_after,
        crate::stat_block::block_stats_eq(r.0, *defender),
        r.0.wf_effects(),
{
    let mut rng = entropy_rng();
    resolve_damage_with_rng(defender, packet, &mut rng)
}


impl StatBlock {
    /// Generate a damage packet for one use of a skill, with a fresh
    /// operating-system-seeded generator.
    pub fn attack(&self, skill: &crate::generator::DamagePacketGenerator) -> (r: DamagePacket)
        ensures
            r.source_id@ == self.id@,
            r.skill_id@ == skill.id@,
            r.accuracy as int == self.accuracy.compute_spec(),
            r.hit_count == skill.hits_per_attack,
            r.wf_pending(),
    {
        let mut rng = entropy_rng();
        crate::calculation::calculate_damage(self, skill, self.id.clone(), &mut rng)
    }

    /// Receive a damage packet: the block becomes the resolved state
    /// and the combat result comes back.
    pub fn receive_damage(&mut self, packet: &DamagePacket) -> (r: CombatResult)
        requires
            old(self).wf_effects(),
            packet.wf_pending(),
        ensures
            final(self).wf_effects(),
            r.es_before == old(self).current_energy_shield,
            r.life_before == old(self).current_life,
            r.life_after < r.life_before ==> r.es_after <= 0,
            final(self).current_life == r.life_after,
            final(self).current_energy_shield == r.es_after,
            crate::stat_block::block_stats_eq(*final(self), *old(self)),
    {
        let (nb, res) = resolve_damage(&*self, packet);
        *self = nb;
        res
    }
}

} // verus!
