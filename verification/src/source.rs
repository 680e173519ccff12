//! Stat sources: the contributors a rebuild draws from. The set is
//! closed — base stats, gear, passive tree, buffs — and each source
//! writes its contributions into the accumulator. Sources apply in
//! stable priority order: base stats first, then gear, passives, buffs.

use vstd::prelude::*;
use crate::accumulator::{apply_stat_model, AccModel, StatAccumulator};
use crate::fixed::{clamp_amount, divc_floor, sat_add, sat_mul};
use crate::item::{Item, Modifier};
use crate::strings::str_eq;
use crate::types::{AffixScope, DamageType, EquipmentSlot, SkillNodeId, StatType};

verus! {

/// Priority of the base-stats source.
pub const PRIORITY_BASE: i32 = -100;

/// Priority of gear sources.
pub const PRIORITY_GEAR: i32 = 0;

/// Priority of the passive-tree source.
pub const PRIORITY_TREE: i32 = 100;

/// Priority of buff sources.
pub const PRIORITY_BUFF: i32 = 200;

// ---------------------------------------------------------------------
// Base stats
// ---------------------------------------------------------------------

/// Stats granted by character level alone.
pub struct BaseStatsSource {
    /// Character level.
    pub level: u32,
}

/// The model after the base-stats source: 12 life and 6 mana per level
/// past the first, and 10 in every attribute.
pub open spec fn base_apply_model(m: AccModel, level: u32) -> AccModel {
    AccModel {
        life_flat: clamp_amount(m.life_flat + clamp_amount((level - 1) * 12_000)),
        mana_flat: clamp_amount(m.mana_flat + clamp_amount((level - 1) * 6_000)),
        strength_flat: clamp_amount(m.strength_flat + 10_000),
        dexterity_flat: clamp_amount(m.dexterity_flat + 10_000),
        intelligence_flat: clamp_amount(m.intelligence_flat + 10_000),
        constitution_flat: clamp_amount(m.constitution_flat + 10_000),
        wisdom_flat: clamp_amount(m.wisdom_flat + 10_000),
        charisma_flat: clamp_amount(m.charisma_flat + 10_000),
        ..m
    }
}

impl BaseStatsSource {
    /// Create a new base stats source for a character level.
    pub fn new(level: u32) -> (r: BaseStatsSource)
        ensures
            r.level == level,
    {
        BaseStatsSource { level }
    }

    /// Write level-derived stats into the accumulator.
    pub fn apply(&self, stats: &mut StatAccumulator)
        ensures
            final(stats)@ =~= base_apply_model(old(stats)@, self.level),
    {
        let lvl: i64 = self.level as i64;
        stats.life_flat = sat_add(stats.life_flat, sat_mul(lvl - 1, 12_000));
        stats.mana_flat = sat_add(stats.mana_flat, sat_mul(lvl - 1, 6_000));
        stats.strength_flat = sat_add(stats.strength_flat, 10_000);
        stats.dexterity_flat = sat_add(stats.dexterity_flat, 10_000);
        stats.intelligence_flat = sat_add(stats.intelligence_flat, 10_000);
        stats.constitution_flat = sat_add(stats.constitution_flat, 10_000);
        stats.wisdom_flat = sat_add(stats.wisdom_flat, 10_000);
        stats.charisma_flat = sat_add(stats.charisma_flat, 10_000);
    }
}

// ---------------------------------------------------------------------
// Buffs
// ---------------------------------------------------------------------

/// A stat modifier carried by a buff.
#[derive(Clone, Copy)]
pub struct BuffModifier {
    /// The stat modified.
    pub stat: StatType,
    /// Contribution per stack, in the stat's milli-units.
    pub value_per_stack: i64,
    /// Whether this is a more multiplier.
    pub is_more: bool,
}

/// A temporary buff or debuff source.
pub struct BuffSource {
    /// Buff identifier.
    pub buff_id: String,
    /// Display name.
    pub name: String,
    /// Duration remaining, in milli-seconds.
    pub duration_remaining: i64,
    /// Current stack count.
    pub stacks: u32,
    /// Whether this is a debuff.
    pub is_debuff: bool,
    /// Stat modifiers per stack.
    pub modifiers: Vec<BuffModifier>,
}

/// One buff modifier routed into the model. A more multiplier on
/// physical damage pushes onto the more list; a more multiplier on
/// attack speed folds into the increased bucket; everything else routes
/// like an ordinary stat contribution.
pub open spec fn buff_mod_model(m: AccModel, bm: BuffModifier, stacks: u32) -> AccModel {
    let total = clamp_amount(bm.value_per_stack * stacks);
    if bm.is_more && bm.stat == StatType::IncreasedPhysicalDamage {
        AccModel {
            physical_damage_more: m.physical_damage_more.push((total / 100) as i64),
            ..m
        }
    } else if bm.is_more && bm.stat == StatType::IncreasedAttackSpeed {
        AccModel {
            attack_speed_increased: clamp_amount(m.attack_speed_increased + total / 100),
            ..m
        }
    } else {
        apply_stat_model(m, bm.stat, total as i64)
    }
}

/// All of a buff's modifiers folded into the model, first to last.
pub open spec fn buff_mods_model(m: AccModel, mods: Seq<BuffModifier>, stacks: u32) -> AccModel
    decreases mods.len(),
{
    if mods.len() == 0 {
        m
    } else {
        buff_mods_model(buff_mod_model(m, mods[0], stacks), mods.drop_first(), stacks)
    }
}

/// The model after a buff source: inactive buffs contribute nothing.
pub open spec fn buff_apply_model(m: AccModel, b: BuffSource) -> AccModel {
    if b.duration_remaining > 0 && b.stacks > 0 {
        buff_mods_model(m, b.modifiers@, b.stacks)
    } else {
        m
    }
}

impl BuffSource {
    /// Create a new buff source with one stack and no modifiers.
    pub fn new(buff_id: String, name: String, duration: i64, is_debuff: bool) -> (r: BuffSource)
        ensures
            r.buff_id@ == buff_id@,
            r.name@ == name@,
            r.duration_remaining == duration,
            r.stacks == 1,
            r.is_debuff == is_debuff,
            r.modifiers@ =~= Seq::<BuffModifier>::empty(),
    {
        BuffSource {
            buff_id,
            name,
            duration_remaining: duration,
            stacks: 1,
            is_debuff,
            modifiers: Vec::new(),
        }
    }

    /// Add a modifier to this buff.
    pub fn with_modifier(self, stat: StatType, value_per_stack: i64, is_more: bool) -> (r:
        BuffSource)
        ensures
            r.buff_id == self.buff_id,
            r.name == self.name,
            r.duration_remaining == self.duration_remaining,
            r.stacks == self.stacks,
            r.is_debuff == self.is_debuff,
            r.modifiers@ =~= self.modifiers@.push(
                BuffModifier { stat, value_per_stack, is_more },
            ),
    {
        let mut s = self;
        s.modifiers.push(BuffModifier { stat, value_per_stack, is_more });
        s
    }

    /// Set the stack count.
    pub fn with_stacks(self, stacks: u32) -> (r: BuffSource)
        ensures
            r == (BuffSource { stacks, ..self }),
    {
        let mut s = self;
        s.stacks = stacks;
        s
    }

    /// Add a stack.
    pub fn add_stack(&mut self)
        requires
            old(self).stacks < u32::MAX,
        ensures
            *final(self) == (BuffSource { stacks: (old(self).stacks + 1) as u32, ..*old(self) }),
    {
        self.stacks = self.stacks + 1;
    }

    /// Remove a stack, stopping at zero.
    pub fn remove_stack(&mut self)
        ensures
            *final(self) == (BuffSource {
                stacks: if old(self).stacks > 0 {
                    (old(self).stacks - 1) as u32
                } else {
                    0u32
                },
                ..*old(self)
            }),
    {
        if self.stacks > 0 {
            self.stacks = self.stacks - 1;
        }
    }

    /// Refresh the duration.
    pub fn refresh(&mut self, duration: i64)
        ensures
            *final(self) == (BuffSource { duration_remaining: duration, ..*old(self) }),
    {
        self.duration_remaining = duration;
    }

    /// Spend `delta` milli-seconds of duration; report whether the buff
    /// is still active afterwards.
    pub fn tick(&mut self, delta: i64) -> (r: bool)
        ensures
            final(self).duration_remaining as int == clamp_amount(
                old(self).duration_remaining - delta,
            ),
            *final(self) == (BuffSource {
                duration_remaining: final(self).duration_remaining,
                ..*old(self)
            }),
            r == (final(self).duration_remaining > 0 && final(self).stacks > 0),
    {
        self.duration_remaining = crate::fixed::sat_sub(self.duration_remaining, delta);
        self.duration_remaining > 0 && self.stacks > 0
    }

    /// Whether the buff is active.
    pub fn is_active(&self) -> (r: bool)
        ensures
            r == (self.duration_remaining > 0 && self.stacks > 0),
    {
        self.duration_remaining > 0 && self.stacks > 0
    }

    /// Write this buff's modifiers into the accumulator.
    pub fn apply(&self, stats: &mut StatAccumulator)
        ensures
            final(stats)@ =~= buff_apply_model(old(stats)@, *self),
    {
        if !(self.duration_remaining > 0 && self.stacks > 0) {
            return ;
        }
        let ghost m0 = stats@;
        proof {
            assert(self.modifiers@.skip(0) =~= self.modifiers@);
        }
        let mut i: usize = 0;
        while i < self.modifiers.len()
            invariant
                i <= self.modifiers.len(),
                buff_mods_model(stats@, self.modifiers@.skip(i as int), self.stacks)
                    =~= buff_mods_model(m0, self.modifiers@, self.stacks),
            decreases self.modifiers.len() - i,
        {
            let ghost pre = stats@;
            let ghost rest = self.modifiers@.skip(i as int);
            let bm = &self.modifiers[i];
            let total: i64 = sat_mul(bm.value_per_stack, self.stacks as i64);
            if bm.is_more && matches!(bm.stat, StatType::IncreasedPhysicalDamage) {
                stats.physical_damage_more.push(divc_floor(total, 100));
            } else if bm.is_more && matches!(bm.stat, StatType::IncreasedAttackSpeed) {
                stats.attack_speed_increased = sat_add(
                    stats.attack_speed_increased,
                    divc_floor(total, 100),
                );
            } else {
                stats.apply_stat_type(bm.stat, total);
            }
            proof {
                assert(rest[0] == self.modifiers@[i as int]);
                assert(stats@ =~= buff_mod_model(pre, self.modifiers@[i as int], self.stacks));
                assert(rest.drop_first() =~= self.modifiers@.skip(i as int + 1));
                assert(buff_mods_model(pre, rest, self.stacks) == buff_mods_model(
                    stats@,
                    self.modifiers@.skip(i as int + 1),
                    self.stacks,
                ));
            }
            i = i + 1;
        }
        proof {
            assert(self.modifiers@.skip(self.modifiers@.len() as int)
                =~= Seq::<BuffModifier>::empty());
        }
    }
}

// ---------------------------------------------------------------------
// Gear
// ---------------------------------------------------------------------

/// Stats from one equipped item.
pub struct GearSource {
    /// The slot the item sits in.
    pub slot: EquipmentSlot,
    /// The equipped item.
    pub item: Item,
}

/// The upper roll of a ranged modifier, falling back to its value.
pub open spec fn mod_value_max_spec(md: Modifier) -> i64 {
    match md.value_max {
        Some(v) => v,
        None => md.value,
    }
}

/// One item modifier routed into the model. Local-scope modifiers on a
/// main-hand weapon feed the weapon damage fields; everything else is an
/// ordinary stat contribution.
pub open spec fn gear_mod_model(m: AccModel, md: Modifier, is_weapon: bool) -> AccModel {
    if is_weapon && md.scope == AffixScope::Local {
        match md.stat {
            StatType::AddedPhysicalDamage => AccModel {
                weapon_physical_min: clamp_amount(m.weapon_physical_min + md.value),
                weapon_physical_max: clamp_amount(m.weapon_physical_max + mod_value_max_spec(md)),
                ..m
            },
            StatType::AddedFireDamage => AccModel {
                weapon_elemental_damages: m.weapon_elemental_damages.push(
                    (DamageType::Fire, md.value, mod_value_max_spec(md)),
                ),
                ..m
            },
            StatType::AddedColdDamage => AccModel {
                weapon_elemental_damages: m.weapon_elemental_damages.push(
                    (DamageType::Cold, md.value, mod_value_max_spec(md)),
                ),
                ..m
            },
            StatType::AddedLightningDamage => AccModel {
                weapon_elemental_damages: m.weapon_elemental_damages.push(
                    (DamageType::Lightning, md.value, mod_value_max_spec(md)),
                ),
                ..m
            },
            StatType::AddedChaosDamage => AccModel {
                weapon_elemental_damages: m.weapon_elemental_damages.push(
                    (DamageType::Chaos, md.value, mod_value_max_spec(md)),
                ),
                ..m
            },
            StatType::IncreasedPhysicalDamage => AccModel {
                weapon_physical_increased: clamp_amount(
                    m.weapon_physical_increased + (md.value as int) / 100,
                ),
                ..m
            },
            _ => apply_stat_model(m, md.stat, md.value),
        }
    } else {
        apply_stat_model(m, md.stat, md.value)
    }
}

/// A list of item modifiers folded into the model, first to last.
pub open spec fn gear_mods_model(m: AccModel, mods: Seq<Modifier>, is_weapon: bool) -> AccModel
    decreases mods.len(),
{
    if mods.len() == 0 {
        m
    } else {
        gear_mods_model(gear_mod_model(m, mods[0], is_weapon), mods.drop_first(), is_weapon)
    }
}

/// Base defenses added flat into the model.
pub open spec fn gear_defenses_model(m: AccModel, item: Item) -> AccModel {
    let m1 = match item.defenses.armour {
        Some(a) => AccModel { armour_flat: clamp_amount(m.armour_flat + a), ..m },
        None => m,
    };
    let m2 = match item.defenses.evasion {
        Some(e) => AccModel { evasion_flat: clamp_amount(m1.evasion_flat + e), ..m1 },
        None => m1,
    };
    match item.defenses.energy_shield {
        Some(es) => AccModel { energy_shield_flat: clamp_amount(m2.energy_shield_flat + es), ..m2 },
        None => m2,
    }
}

/// One weapon damage roll taken into the model: the physical roll sets
/// the weapon's physical range; elemental rolls are gathered.
pub open spec fn weapon_entry_model(m: AccModel, e: crate::item::WeaponDamageEntry) -> AccModel {
    match e.damage_type {
        DamageType::Physical => AccModel {
            weapon_physical_min: e.min as int,
            weapon_physical_max: e.max as int,
            ..m
        },
        _ => AccModel {
            weapon_elemental_damages: m.weapon_elemental_damages.push(
                (e.damage_type, e.min, e.max),
            ),
            ..m
        },
    }
}

/// All weapon damage rolls folded into the model, first to last.
pub open spec fn weapon_entries_model(
    m: AccModel,
    es: Seq<crate::item::WeaponDamageEntry>,
) -> AccModel
    decreases es.len(),
{
    if es.len() == 0 {
        m
    } else {
        weapon_entries_model(weapon_entry_model(m, es[0]), es.drop_first())
    }
}

/// A main-hand weapon's damage block taken into the model: its rolls,
/// then its attack speed and critical chance, which set their fields.
pub open spec fn weapon_block_model(m: AccModel, wd: crate::item::WeaponDamage) -> AccModel {
    AccModel {
        weapon_attack_speed: wd.attack_speed as int,
        weapon_crit_chance: wd.critical_chance as int,
        ..weapon_entries_model(m, wd.damages@)
    }
}

/// The model after a gear source: implicit, prefixes and suffixes in
/// order, then base defenses, then — for a main-hand weapon — the
/// weapon damage block.
pub open spec fn gear_apply_model(m: AccModel, slot: EquipmentSlot, item: Item) -> AccModel {
    let is_weapon = item.damage is Some && slot == EquipmentSlot::MainHand;
    let m1 = match item.implicit {
        Some(md) => gear_mod_model(m, md, is_weapon),
        None => m,
    };
    let m2 = gear_mods_model(m1, item.prefixes@, is_weapon);
    let m3 = gear_mods_model(m2, item.suffixes@, is_weapon);
    let m4 = gear_defenses_model(m3, item);
    match item.damage {
        Some(wd) => if slot == EquipmentSlot::MainHand {
            weapon_block_model(m4, wd)
        } else {
            m4
        },
        None => m4,
    }
}

impl GearSource {
    /// Create a new gear source.
    pub fn new(slot: EquipmentSlot, item: Item) -> (r: GearSource)
        ensures
            r.slot == slot,
            r.item == item,
    {
        GearSource { slot, item }
    }

    /// Route one modifier, honoring local weapon scope.
    fn apply_modifier(stats: &mut StatAccumulator, md: &Modifier, is_weapon: bool)
        ensures
            final(stats)@ =~= gear_mod_model(old(stats)@, *md, is_weapon),
    {
        let vmax: i64 = match md.value_max {
            Some(v) => v,
            None => md.value,
        };
        if is_weapon && matches!(md.scope, AffixScope::Local) {
            match md.stat {
                StatType::AddedPhysicalDamage => {
                    stats.weapon_physical_min = sat_add(stats.weapon_physical_min, md.value);
                    stats.weapon_physical_max = sat_add(stats.weapon_physical_max, vmax);
                },
                StatType::AddedFireDamage => {
                    stats.weapon_elemental_damages.push((DamageType::Fire, md.value, vmax));
                },
                StatType::AddedColdDamage => {
                    stats.weapon_elemental_damages.push((DamageType::Cold, md.value, vmax));
                },
                StatType::AddedLightningDamage => {
                    stats.weapon_elemental_damages.push((DamageType::Lightning, md.value, vmax));
                },
                StatType::AddedChaosDamage => {
                    stats.weapon_elemental_damages.push((DamageType::Chaos, md.value, vmax));
                },
                StatType::IncreasedPhysicalDamage => {
                    stats.weapon_physical_increased = sat_add(
                        stats.weapon_physical_increased,
                        divc_floor(md.value, 100),
                    );
                },
                _ => {
                    stats.apply_stat_type(md.stat, md.value);
                },
            }
        } else {
            stats.apply_stat_type(md.stat, md.value);
        }
    }

    /// Write an item's stats into the accumulator.
    pub fn apply_item(stats: &mut StatAccumulator, slot: EquipmentSlot, item: &Item)
        ensures
            final(stats)@ =~= gear_apply_model(old(stats)@, slot, *item),
    {
        let is_weapon = item.damage.is_some() && matches!(
            slot,
            EquipmentSlot::MainHand,
        );
        match &item.implicit {
            Some(md) => Self::apply_modifier(stats, md, is_weapon),
            None => {},
        }
        let ghost m1 = stats@;
        proof {
            assert(item.prefixes@.skip(0) =~= item.prefixes@);
        }
        let mut i: usize = 0;
        while i < item.prefixes.len()
            invariant
                i <= item.prefixes.len(),
                gear_mods_model(stats@, item.prefixes@.skip(i as int), is_weapon)
                    =~= gear_mods_model(m1, item.prefixes@, is_weapon),
            decreases item.prefixes.len() - i,
        {
            let ghost pre = stats@;
            let ghost rest = item.prefixes@.skip(i as int);
            Self::apply_modifier(stats, &item.prefixes[i], is_weapon);
            proof {
                assert(rest[0] == item.prefixes@[i as int]);
                assert(rest.drop_first() =~= item.prefixes@.skip(i as int + 1));
            }
            i = i + 1;
        }
        let ghost m2 = stats@;
        proof {
            assert(item.prefixes@.skip(item.prefixes@.len() as int)
                =~= Seq::<Modifier>::empty());
            assert(m2 =~= gear_mods_model(m1, item.prefixes@, is_weapon));
            assert(item.suffixes@.skip(0) =~= item.suffixes@);
        }
        let mut j: usize = 0;
        while j < item.suffixes.len()
            invariant
                j <= item.suffixes.len(),
                gear_mods_model(stats@, item.suffixes@.skip(j as int), is_weapon)
                    =~= gear_mods_model(m2, item.suffixes@, is_weapon),
            decreases item.suffixes.len() - j,
        {
            let ghost pre = stats@;
            let ghost rest = item.suffixes@.skip(j as int);
            Self::apply_modifier(stats, &item.suffixes[j], is_weapon);
            proof {
                assert(rest[0] == item.suffixes@[j as int]);
                assert(rest.drop_first() =~= item.suffixes@.skip(j as int + 1));
            }
            j = j + 1;
        }
        proof {
            assert(item.suffixes@.skip(item.suffixes@.len() as int)
                =~= Seq::<Modifier>::empty());
        }
        match item.defenses.armour {
            Some(a) => {
                stats.armour_flat = sat_add(stats.armour_flat, a);
            },
            None => {},
        }
        match item.defenses.evasion {
            Some(e) => {
                stats.evasion_flat = sat_add(stats.evasion_flat, e);
            },
            None => {},
        }
        match item.defenses.energy_shield {
            Some(es) => {
                stats.energy_shield_flat = sat_add(stats.energy_shield_flat, es);
            },
            None => {},
        }
        match &item.damage {
            Some(wd) => {
                if matches!(slot, EquipmentSlot::MainHand) {
                    let ghost m4 = stats@;
                    proof {
                        assert(wd.damages@.skip(0) =~= wd.damages@);
                    }
                    let mut k: usize = 0;
                    while k < wd.damages.len()
                        invariant
                            k <= wd.damages.len(),
                            weapon_entries_model(stats@, wd.damages@.skip(k as int))
                                =~= weapon_entries_model(m4, wd.damages@),
                        decreases wd.damages.len() - k,
                    {
                        let ghost rest = wd.damages@.skip(k as int);
                        let entry = &wd.damages[k];
                        match entry.damage_type {
                            DamageType::Physical => {
                                stats.weapon_physical_min = entry.min;
                                stats.weapon_physical_max = entry.max;
                            },
                            _ => {
                                stats.weapon_elemental_damages.push(
                                    (entry.damage_type, entry.min, entry.max),
                                );
                            },
                        }
                        proof {
                            assert(rest[0] == wd.damages@[k as int]);
                            assert(rest.drop_first() =~= wd.damages@.skip(k as int + 1));
                        }
                        k = k + 1;
                    }
                    proof {
                        assert(wd.damages@.skip(wd.damages@.len() as int)
                            =~= Seq::<crate::item::WeaponDamageEntry>::empty());
                    }
                    stats.weapon_attack_speed = wd.attack_speed;
                    stats.weapon_crit_chance = wd.critical_chance;
                }
            },
            None => {},
        }
    }
    /// Write this item's stats into the accumulator.
    pub fn apply(&self, stats: &mut StatAccumulator)
        ensures
            final(stats)@ =~= gear_apply_model(old(stats)@, self.slot, self.item),
    {
        Self::apply_item(stats, self.slot, &self.item);
    }
}

// ---------------------------------------------------------------------
// Passive tree
// ---------------------------------------------------------------------

/// A stat modifier granted by a passive tree node.
pub struct NodeModifier {
    /// The stat modified.
    pub stat: StatType,
    /// Contribution value, in the stat's milli-units.
    pub value: i64,
    /// Whether this is a more multiplier.
    pub is_more: bool,
}

/// Stats from allocated passive tree nodes. The tree's shape and path
/// rules live elsewhere; this source only maps node identifiers to the
/// stats they grant.
pub struct SkillTreeSource {
    /// Identifiers of the allocated nodes.
    pub allocated_nodes: Vec<SkillNodeId>,
    /// Registered stats per node identifier; the earliest entry for an
    /// identifier wins.
    pub node_stats: Vec<(String, Vec<NodeModifier>)>,
}

/// The modifiers registered for a node identifier: the earliest entry
/// with that identifier, if any.
pub open spec fn node_lookup(
    stats: Seq<(String, Vec<NodeModifier>)>,
    id: Seq<char>,
) -> Option<Seq<NodeModifier>>
    decreases stats.len(),
{
    if stats.len() == 0 {
        None
    } else if stats[0].0@ == id {
        Some(stats[0].1@)
    } else {
        node_lookup(stats.drop_first(), id)
    }
}

/// Whether a node identifier is among the allocated ones.
pub open spec fn node_allocated(nodes: Seq<SkillNodeId>, id: Seq<char>) -> bool {
    exists|i: int| 0 <= i < nodes.len() && nodes[i].0@ == id
}

/// One node modifier routed into the model. More multipliers on
/// physical damage and life push onto their more lists; everything else
/// routes like an ordinary stat contribution.
pub open spec fn node_mod_model(m: AccModel, nm: NodeModifier) -> AccModel {
    if nm.is_more && nm.stat == StatType::IncreasedPhysicalDamage {
        AccModel {
            physical_damage_more: m.physical_damage_more.push(((nm.value as int) / 100) as i64),
            ..m
        }
    } else if nm.is_more && nm.stat == StatType::IncreasedLife {
        AccModel { life_more: m.life_more.push(((nm.value as int) / 100) as i64), ..m }
    } else {
        apply_stat_model(m, nm.stat, nm.value)
    }
}

/// A node's modifiers folded into the model, first to last.
pub open spec fn node_mods_model(m: AccModel, mods: Seq<NodeModifier>) -> AccModel
    decreases mods.len(),
{
    if mods.len() == 0 {
        m
    } else {
        node_mods_model(node_mod_model(m, mods[0]), mods.drop_first())
    }
}

/// The allocated nodes folded into the model, first to last; a node
/// without registered stats contributes nothing.
pub open spec fn tree_nodes_model(
    m: AccModel,
    nodes: Seq<SkillNodeId>,
    stats: Seq<(String, Vec<NodeModifier>)>,
) -> AccModel
    decreases nodes.len(),
{
    if nodes.len() == 0 {
        m
    } else {
        let m1 = match node_lookup(stats, nodes[0].0@) {
            Some(mods) => node_mods_model(m, mods),
            None => m,
        };
        tree_nodes_model(m1, nodes.drop_first(), stats)
    }
}

impl SkillTreeSource {
    /// Create a tree source with no allocated nodes.
    pub fn new() -> (r: SkillTreeSource)
        ensures
            r.allocated_nodes@ =~= Seq::<SkillNodeId>::empty(),
            r.node_stats@ =~= Seq::<(String, Vec<NodeModifier>)>::empty(),
    {
        SkillTreeSource { allocated_nodes: Vec::new(), node_stats: Vec::new() }
    }

    /// Create a tree source with a pre-built node-stats table.
    pub fn with_node_stats(node_stats: Vec<(String, Vec<NodeModifier>)>) -> (r: SkillTreeSource)
        ensures
            r.allocated_nodes@ =~= Seq::<SkillNodeId>::empty(),
            r.node_stats == node_stats,
    {
        SkillTreeSource { allocated_nodes: Vec::new(), node_stats }
    }

    /// Allocate a node; allocating one twice changes nothing.
    pub fn allocate(&mut self, node_id: SkillNodeId)
        ensures
            final(self).node_stats == old(self).node_stats,
            node_allocated(old(self).allocated_nodes@, node_id.0@) ==> final(self).allocated_nodes
                == old(self).allocated_nodes,
            !node_allocated(old(self).allocated_nodes@, node_id.0@)
                ==> final(self).allocated_nodes@ =~= old(self).allocated_nodes@.push(node_id),
    {
        let mut found: bool = false;
        let mut i: usize = 0;
        while i < self.allocated_nodes.len()
            invariant
                i <= self.allocated_nodes.len(),
                found == exists|k: int|
                    0 <= k < i && self.allocated_nodes@[k].0@ == node_id.0@,
            decreases self.allocated_nodes.len() - i,
        {
            if self.allocated_nodes[i].0 == node_id.0 {
                found = true;
            }
            i = i + 1;
        }
        if !found {
            self.allocated_nodes.push(node_id);
        }
    }

    /// Deallocate a node: every allocated entry with that identifier is
    /// dropped and the others keep their order.
    pub fn deallocate(&mut self, node_id: &SkillNodeId)
        ensures
            final(self).node_stats == old(self).node_stats,
            final(self).allocated_nodes@ =~= old(self).allocated_nodes@.filter(
                |n: SkillNodeId| n.0@ != node_id.0@,
            ),
    {
        let mut kept: Vec<SkillNodeId> = Vec::new();
        let mut i: usize = 0;
        while i < self.allocated_nodes.len()
            invariant
                i <= self.allocated_nodes.len(),
                kept@ =~= old(self).allocated_nodes@.subrange(0, i as int).filter(
                    |n: SkillNodeId| n.0@ != node_id.0@,
                ),
                self.allocated_nodes == old(self).allocated_nodes,
                self.node_stats == old(self).node_stats,
            decreases self.allocated_nodes.len() - i,
        {
            let ghost prefix = old(self).allocated_nodes@.subrange(0, i as int);
            let keep = !(self.allocated_nodes[i].0 == node_id.0);
            if keep {
                let nd = SkillNodeId(self.allocated_nodes[i].0.clone());
                proof {
                    assert(nd.0@ == self.allocated_nodes@[i as int].0@);
                }
                kept.push(nd);
            }
            proof {
                reveal(Seq::filter);
                let ext = old(self).allocated_nodes@.subrange(0, i as int + 1);
                assert(ext =~= prefix.push(old(self).allocated_nodes@[i as int]));
                assert(ext.drop_last() =~= prefix);
                assert(ext.last() == old(self).allocated_nodes@[i as int]);
            }
            i = i + 1;
        }
        proof {
            assert(old(self).allocated_nodes@.subrange(0, old(self).allocated_nodes@.len() as int)
                =~= old(self).allocated_nodes@);
        }
        self.allocated_nodes = kept;
    }

    /// Register the stats a node grants; the new entry shadows any
    /// earlier one for the same identifier.
    pub fn register_node(&mut self, node_id: String, modifiers: Vec<NodeModifier>)
        ensures
            final(self).allocated_nodes == old(self).allocated_nodes,
            node_lookup(final(self).node_stats@, node_id@) == Some(modifiers@),
            forall|id2: Seq<char>|
                id2 != node_id@ ==> node_lookup(final(self).node_stats@, id2) == node_lookup(
                    old(self).node_stats@,
                    id2,
                ),
    {
        self.node_stats.insert(0, (node_id, modifiers));
        proof {
            let new_seq = self.node_stats@;
            assert(new_seq.drop_first() =~= old(self).node_stats@);
            assert forall|id2: Seq<char>| id2 != new_seq[0].0@ implies node_lookup(new_seq, id2)
                == node_lookup(old(self).node_stats@, id2) by {
                assert(node_lookup(new_seq, id2) == node_lookup(new_seq.drop_first(), id2));
            }
        }
    }

    /// The registered modifiers for a node identifier, if any.
    pub fn get_node_modifiers(&self, node_id: &str) -> (r: Option<&Vec<NodeModifier>>)
        ensures
            match r {
                Some(mods) => node_lookup(self.node_stats@, node_id@) == Some(mods@),
                None => node_lookup(self.node_stats@, node_id@) is None,
            },
    {
        proof {
            assert(self.node_stats@.skip(0) =~= self.node_stats@);
        }
        let mut i: usize = 0;
        while i < self.node_stats.len()
            invariant
                i <= self.node_stats.len(),
                node_lookup(self.node_stats@.skip(i as int), node_id@) == node_lookup(
                    self.node_stats@,
                    node_id@,
                ),
            decreases self.node_stats.len() - i,
        {
            let ghost rest = self.node_stats@.skip(i as int);
            if str_eq(self.node_stats[i].0.as_str(), node_id) {
                proof {
                    assert(rest[0] == self.node_stats@[i as int]);
                }
                return Some(&self.node_stats[i].1);
            }
            proof {
                assert(rest[0] == self.node_stats@[i as int]);
                assert(rest.drop_first() =~= self.node_stats@.skip(i as int + 1));
            }
            i = i + 1;
        }
        proof {
            assert(self.node_stats@.skip(self.node_stats@.len() as int) =~= Seq::<(
                String,
                Vec<NodeModifier>,
            )>::empty());
        }
        None
    }

    /// Write the allocated nodes' stats into the accumulator.
    pub fn apply(&self, stats: &mut StatAccumulator)
        ensures
            final(stats)@ =~= tree_nodes_model(
                old(stats)@,
                self.allocated_nodes@,
                self.node_stats@,
            ),
    {
        let ghost m0 = stats@;
        proof {
            assert(self.allocated_nodes@.skip(0) =~= self.allocated_nodes@);
        }
        let mut i: usize = 0;
        while i < self.allocated_nodes.len()
            invariant
                i <= self.allocated_nodes.len(),
                tree_nodes_model(stats@, self.allocated_nodes@.skip(i as int), self.node_stats@)
                    =~= tree_nodes_model(m0, self.allocated_nodes@, self.node_stats@),
            decreases self.allocated_nodes.len() - i,
        {
            let ghost rest = self.allocated_nodes@.skip(i as int);
            let node = &self.allocated_nodes[i];
            match self.get_node_modifiers(node.0.as_str()) {
                Some(mods) => {
                    let ghost pre = stats@;
                    proof {
                        assert(mods@.skip(0) =~= mods@);
                    }
                    let mut j: usize = 0;
                    while j < mods.len()
                        invariant
                            j <= mods.len(),
                            node_mods_model(stats@, mods@.skip(j as int)) =~= node_mods_model(
                                pre,
                                mods@,
                            ),
                        decreases mods.len() - j,
                    {
                        let ghost inner_rest = mods@.skip(j as int);
                        let nm = &mods[j];
                        if nm.is_more && matches!(nm.stat, StatType::IncreasedPhysicalDamage) {
                            stats.physical_damage_more.push(divc_floor(nm.value, 100));
                        } else if nm.is_more && matches!(nm.stat, StatType::IncreasedLife) {
                            stats.life_more.push(divc_floor(nm.value, 100));
                        } else {
                            stats.apply_stat_type(nm.stat, nm.value);
                        }
                        proof {
                            assert(inner_rest[0] == mods@[j as int]);
                            assert(inner_rest.drop_first() =~= mods@.skip(j as int + 1));
                        }
                        j = j + 1;
                    }
                    proof {
                        assert(mods@.skip(mods@.len() as int) =~= Seq::<NodeModifier>::empty());
                    }
                },
                None => {},
            }
            proof {
                assert(rest[0] == self.allocated_nodes@[i as int]);
                assert(rest.drop_first() =~= self.allocated_nodes@.skip(i as int + 1));
            }
            i = i + 1;
        }
        proof {
            assert(self.allocated_nodes@.skip(self.allocated_nodes@.len() as int)
                =~= Seq::<SkillNodeId>::empty());
        }
    }
}

// ---------------------------------------------------------------------
// The closed source set
// ---------------------------------------------------------------------

/// A stat contributor: the closed set of source kinds.
pub enum Source {
    /// Character base stats.
    Base(BaseStatsSource),
    /// An equipped item.
    Gear(GearSource),
    /// The passive tree.
    Tree(SkillTreeSource),
    /// A temporary buff or debuff.
    Buff(BuffSource),
}

/// The fixed priority of a source kind; sources apply in ascending
/// priority order.
pub open spec fn source_priority_spec(s: Source) -> int {
    match s {
        Source::Base(_) => PRIORITY_BASE as int,
        Source::Gear(_) => PRIORITY_GEAR as int,
        Source::Tree(_) => PRIORITY_TREE as int,
        Source::Buff(_) => PRIORITY_BUFF as int,
    }
}

/// The model after one source has written its contributions.
pub open spec fn source_apply_model(m: AccModel, s: Source) -> AccModel {
    match s {
        Source::Base(b) => base_apply_model(m, b.level),
        Source::Gear(g) => gear_apply_model(m, g.slot, g.item),
        Source::Tree(t) => tree_nodes_model(m, t.allocated_nodes@, t.node_stats@),
        Source::Buff(b) => buff_apply_model(m, b),
    }
}

/// A list of sources folded into the model, first to last.
pub open spec fn sources_model(m: AccModel, ss: Seq<Source>) -> AccModel
    decreases ss.len(),
{
    if ss.len() == 0 {
        m
    } else {
        sources_model(source_apply_model(m, ss[0]), ss.drop_first())
    }
}

/// The sources of one priority, in the order they were given.
pub open spec fn filter_priority(ss: Seq<Source>, p: int) -> Seq<Source>
    decreases ss.len(),
{
    if ss.len() == 0 {
        Seq::<Source>::empty()
    } else {
        let rest = filter_priority(ss.drop_last(), p);
        if source_priority_spec(ss.last()) == p {
            rest.push(ss.last())
        } else {
            rest
        }
    }
}

/// The sources rearranged into stable priority order: each priority
/// bucket keeps the order the sources were given in.
pub open spec fn sources_in_priority_order(ss: Seq<Source>) -> Seq<Source> {
    filter_priority(ss, PRIORITY_BASE as int) + filter_priority(ss, PRIORITY_GEAR as int)
        + filter_priority(ss, PRIORITY_TREE as int) + filter_priority(ss, PRIORITY_BUFF as int)
}

impl Source {
    /// The source's priority; lower priorities apply earlier.
    pub fn priority(&self) -> (r: i32)
        ensures
            r as int == source_priority_spec(*self),
    {
        match self {
            Source::Base(_) => PRIORITY_BASE,
            Source::Gear(_) => PRIORITY_GEAR,
            Source::Tree(_) => PRIORITY_TREE,
            Source::Buff(_) => PRIORITY_BUFF,
        }
    }

    /// The source's identifier.
    pub fn id(&self) -> (r: &str)
        ensures
            match self {
                Source::Gear(g) => r@ == g.item.base_type_id@,
                Source::Buff(b) => r@ == b.buff_id@,
                _ => true,
            },
    {
        match self {
            Source::Base(_) => "base_stats",
            Source::Gear(g) => g.item.base_type_id.as_str(),
            Source::Tree(_) => "skill_tree",
            Source::Buff(b) => b.buff_id.as_str(),
        }
    }

    /// Write this source's contributions into the accumulator.
    pub fn apply(&self, stats: &mut StatAccumulator)
        ensures
            final(stats)@ =~= source_apply_model(old(stats)@, *self),
    {
        match self {
            Source::Base(b) => b.apply(stats),
            Source::Gear(g) => g.apply(stats),
            Source::Tree(t) => t.apply(stats),
            Source::Buff(b) => b.apply(stats),
        }
    }
}

/// Common buff presets.
pub struct BuffPresets;

impl BuffPresets {
    /// A buff granting increased physical damage.
    pub fn damage_buff(name: &str, percent: i64, duration: i64) -> (r: BuffSource)
        ensures
            r.duration_remaining == duration,
            r.stacks == 1,
            !r.is_debuff,
            r.modifiers@.len() == 1,
            r.modifiers@[0] == (BuffModifier {
                stat: StatType::IncreasedPhysicalDamage,
                value_per_stack: percent,
                is_more: false,
            }),
    {
        BuffSource::new("buff_damage".to_owned(), name.to_owned(), duration, false).with_modifier(
            StatType::IncreasedPhysicalDamage,
            percent,
            false,
        )
    }

    /// A haste buff: increased attack speed for a while.
    pub fn haste(duration: i64) -> (r: BuffSource)
        ensures
            r.duration_remaining == duration,
            r.stacks == 1,
            !r.is_debuff,
            r.modifiers@.len() == 1,
            r.modifiers@[0] == (BuffModifier {
                stat: StatType::IncreasedAttackSpeed,
                value_per_stack: 20_000i64,
                is_more: false,
            }),
    {
        BuffSource::new("buff_haste".to_owned(), "Haste".to_owned(), duration, false)
            .with_modifier(StatType::IncreasedAttackSpeed, 20_000, false)
    }

    /// A weakness debuff: reduced physical damage.
    pub fn weakness(duration: i64) -> (r: BuffSource)
        ensures
            r.duration_remaining == duration,
            r.stacks == 1,
            r.is_debuff,
            r.modifiers@.len() == 1,
            r.modifiers@[0] == (BuffModifier {
                stat: StatType::IncreasedPhysicalDamage,
                value_per_stack: -20_000i64,
                is_more: false,
            }),
    {
        BuffSource::new("debuff_weakness".to_owned(), "Weakness".to_owned(), duration, true)
            .with_modifier(StatType::IncreasedPhysicalDamage, -20_000, false)
    }
}


/// Folding one more source onto the end applies it after the rest.
pub proof fn lemma_sources_model_push(m: AccModel, ss: Seq<Source>, x: Source)
    ensures
        sources_model(m, ss.push(x)) == source_apply_model(sources_model(m, ss), x),
    decreases ss.len(),
{
    if ss.len() == 0 {
        assert(ss.push(x).drop_first() =~= Seq::<Source>::empty());
        assert(ss.push(x)[0] == x);
        assert(sources_model(source_apply_model(m, x), Seq::<Source>::empty())
            == source_apply_model(m, x));
        assert(sources_model(m, ss.push(x)) == source_apply_model(m, x));
    } else {
        assert(ss.push(x)[0] == ss[0]);
        assert(ss.push(x).drop_first() =~= ss.drop_first().push(x));
        lemma_sources_model_push(source_apply_model(m, ss[0]), ss.drop_first(), x);
    }
}

/// Folding a concatenation folds the two halves in turn.
pub proof fn lemma_sources_model_concat(m: AccModel, a: Seq<Source>, b: Seq<Source>)
    ensures
        sources_model(m, a + b) == sources_model(sources_model(m, a), b),
    decreases a.len(),
{
    if a.len() == 0 {
        assert(a + b =~= b);
    } else {
        assert((a + b)[0] == a[0]);
        assert((a + b).drop_first() =~= a.drop_first() + b);
        lemma_sources_model_concat(source_apply_model(m, a[0]), a.drop_first(), b);
    }
}

} // verus!

