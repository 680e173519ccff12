//! Timed effects: stat-modifier buffs and ailments, with per-kind
//! stacking disciplines and damage-over-time ticking.
//!
//! Durations and tick rates are in milli-seconds, DoT rates in
//! milli-damage per second, magnitudes and effectiveness in milli
//! fractions (`1000` stands for `1.0`).

use vstd::prelude::*;
use crate::fixed::{
    muldiv, scaled, clamp_amount, clamp_spec, sat_scaled, sat_muldiv, sat_add, sat_sub, FULL_PERCENT,
    SCALE,
};
use crate::types::StatusEffect;
use crate::types::StatType;
use vstd::arithmetic::div_mod::lemma_div_plus_one;

verus! {

/// A stat modification carried by a buff or debuff.
#[derive(Clone, Copy)]
pub struct StatMod {
    /// The stat being modified.
    pub stat: StatType,
    /// Contribution per stack, in the stat's own milli-units.
    pub value_per_stack: i64,
    /// Whether this is a more multiplier rather than an increased bonus.
    pub is_more: bool,
}

/// How instances of one ailment kind stack.
#[derive(Clone, Copy)]
pub enum AilmentStacking {
    /// At most one instance; a new one replaces only a weaker incumbent.
    StrongestOnly,
    /// Every application adds a fresh instance.
    Unlimited,
    /// Up to the kind's stack cap; later instances are dampened.
    Limited {
        /// Effectiveness of stacked instances, as a milli fraction.
        stack_effectiveness: i64,
    },
}

/// What an effect does: shift stats, or inflict an ailment.
pub enum EffectType {
    /// Stat modifier effect (buff or debuff).
    StatModifier {
        /// The stat modifications applied while the effect is active.
        modifiers: Vec<StatMod>,
        /// Whether this is a negative effect.
        is_debuff: bool,
    },
    /// Ailment effect (poison, bleed, and so on).
    Ailment {
        /// The ailment kind.
        status: StatusEffect,
        /// Magnitude, as a milli fraction (a slow of 30% is `300`).
        magnitude: i64,
        /// Damage per second for DoT ailments, in milli-damage.
        dot_dps: i64,
        /// Time between damage ticks, in milli-seconds.
        tick_rate: i64,
        /// Time until the next tick, in milli-seconds.
        time_until_tick: i64,
        /// Stacking behavior of the kind.
        stacking: AilmentStacking,
        /// Effectiveness multiplier from stacking, as a milli fraction.
        effectiveness: i64,
    },
}

/// A timed effect owned by a stat block.
pub struct Effect {
    /// Identifier of this effect instance.
    pub id: String,
    /// Display name.
    pub name: String,
    /// The kind of effect.
    pub effect_type: EffectType,
    /// Time remaining, in milli-seconds.
    pub duration_remaining: i64,
    /// Total duration, in milli-seconds.
    pub total_duration: i64,
    /// Current stack count.
    pub stacks: u32,
    /// Maximum allowed stacks.
    pub max_stacks: u32,
    /// Entity that applied this effect.
    pub source_id: String,
}

/// Result of advancing all effects on a block by one tick.
pub struct TickResult {
    /// Total DoT damage dealt this tick, in milli-damage.
    pub dot_damage: i64,
    /// Identifiers of effects that expired.
    pub expired_effects: Vec<String>,
    /// Whether any stat-modifier effect expired (stats need a rebuild).
    pub stat_effects_expired: bool,
    /// Life remaining after DoT damage, in milli-units.
    pub life_remaining: i64,
    /// Whether the entity died of DoT damage this tick.
    pub is_dead: bool,
}

/// Damage emitted by one tick of an ailment:
/// `dot_dps * tick_rate * stacks * effectiveness`, saturated stepwise.
pub open spec fn per_tick_spec(dot_dps: int, tick_rate: int, stacks: int, effectiveness: int) -> int {
    scaled(muldiv(scaled(dot_dps, tick_rate), stacks, 1), effectiveness)
}

/// Termination measure for the tick loop: how far the timer sits below
/// its next positive value.
pub open spec fn tick_measure(ttt: int) -> int {
    if ttt > 0 {
        0
    } else {
        1 - ttt
    }
}

/// How many ticks fire in one advance: one per step of `rate` until the
/// timer climbs back above zero, and none once the duration is spent.
pub open spec fn ticks_fired(ttt: int, dur: int, rate: int) -> int
    decreases tick_measure(ttt),
        when rate >= 1
{
    if ttt > 0 || dur <= 0 {
        0
    } else {
        1 + ticks_fired(ttt + rate, dur, rate)
    }
}

/// The damage accumulated over one advance, mirroring the tick loop:
/// every fired tick adds `per_tick`, saturating.
pub open spec fn tick_total_spec(ttt: int, dur: int, rate: int, per_tick: int) -> int
    decreases tick_measure(ttt),
        when rate >= 1
{
    if ttt > 0 || dur <= 0 {
        0
    } else {
        clamp_amount(tick_total_spec(ttt + rate, dur, rate, per_tick) + per_tick)
    }
}

/// The timer after one advance: stepped up by `rate` until positive
/// (unless the duration is already spent).
pub open spec fn ttt_after_spec(ttt: int, dur: int, rate: int) -> int
    decreases tick_measure(ttt),
        when rate >= 1
{
    if ttt > 0 || dur <= 0 {
        ttt
    } else {
        ttt_after_spec(ttt + rate, dur, rate)
    }
}

impl Effect {
    /// Whether the ailment payload is well-formed: a positive tick rate
    /// and non-negative damage and effectiveness. Stat modifiers carry no
    /// numeric payload to constrain.
    pub open spec fn wf(self) -> bool {
        match self.effect_type {
            EffectType::Ailment { dot_dps, tick_rate, effectiveness, stacking, .. } => tick_rate
                >= 1 && dot_dps >= 0 && effectiveness >= 0 && match stacking {
                AilmentStacking::Limited { stack_effectiveness } => stack_effectiveness >= 0,
                _ => true,
            },
            EffectType::StatModifier { .. } => true,
        }
    }

    /// Whether the effect is still active: time left and stacks present.
    pub open spec fn is_active_spec(self) -> bool {
        self.duration_remaining > 0 && self.stacks > 0
    }

    /// Whether the effect is still active.
    pub fn is_active(&self) -> (r: bool)
        ensures
            r == self.is_active_spec(),
    {
        self.duration_remaining > 0 && self.stacks > 0
    }

    /// Whether this is a stat modifier effect.
    pub fn is_stat_modifier(&self) -> (r: bool)
        ensures
            r == (self.effect_type matches EffectType::StatModifier { .. }),
    {
        match self.effect_type {
            EffectType::StatModifier { .. } => true,
            _ => false,
        }
    }

    /// Whether this is an ailment effect.
    pub fn is_ailment(&self) -> (r: bool)
        ensures
            r == (self.effect_type matches EffectType::Ailment { .. }),
    {
        match self.effect_type {
            EffectType::Ailment { .. } => true,
            _ => false,
        }
    }

    /// Whether this ailment deals damage over time.
    pub fn is_damaging(&self) -> (r: bool)
        ensures
            r == (self.effect_type matches EffectType::Ailment { dot_dps, .. } && dot_dps > 0),
    {
        match &self.effect_type {
            EffectType::Ailment { dot_dps, .. } => *dot_dps > 0,
            _ => false,
        }
    }

    /// The ailment kind, if this is an ailment.
    pub fn status(&self) -> (r: Option<StatusEffect>)
        ensures
            match self.effect_type {
                EffectType::Ailment { status, .. } => r == Some(status),
                EffectType::StatModifier { .. } => r == None::<StatusEffect>,
            },
    {
        match &self.effect_type {
            EffectType::Ailment { status, .. } => Some(*status),
            _ => None,
        }
    }

    /// Damage per second of this effect:
    /// `dot_dps * stacks * effectiveness`, zero for stat modifiers.
    pub fn dps(&self) -> (r: i64)
        ensures
            r as int == match self.effect_type {
                EffectType::Ailment { dot_dps, effectiveness, .. } => scaled(
                    muldiv(dot_dps as int, self.stacks as int, 1),
                    effectiveness as int,
                ),
                EffectType::StatModifier { .. } => 0,
            },
    {
        match &self.effect_type {
            EffectType::Ailment { dot_dps, effectiveness, .. } => sat_scaled(
                sat_muldiv(*dot_dps, self.stacks as i64, 1),
                *effectiveness,
            ),
            _ => 0,
        }
    }

    /// Damage dealt over a span of `delta` milli-seconds at this effect's
    /// rate: `dot_dps * delta * stacks * effectiveness`.
    pub fn tick_damage(&self, delta: i64) -> (r: i64)
        ensures
            r as int == match self.effect_type {
                EffectType::Ailment { dot_dps, effectiveness, .. } => scaled(
                    muldiv(scaled(dot_dps as int, delta as int), self.stacks as int, 1),
                    effectiveness as int,
                ),
                EffectType::StatModifier { .. } => 0,
            },
    {
        match &self.effect_type {
            EffectType::Ailment { dot_dps, effectiveness, .. } => sat_scaled(
                sat_muldiv(sat_scaled(*dot_dps, delta), self.stacks as i64, 1),
                *effectiveness,
            ),
            _ => 0,
        }
    }

    /// Share of the duration still remaining, in milli-percent.
    pub fn duration_percent(&self) -> (r: i64)
        ensures
            r as int == if self.total_duration <= 0 {
                0
            } else {
                clamp_spec(
                    muldiv(
                        self.duration_remaining as int,
                        FULL_PERCENT as int,
                        self.total_duration as int,
                    ),
                    0,
                    FULL_PERCENT as int,
                )
            },
    {
        if self.total_duration <= 0 {
            return 0;
        }
        let v: i64 = sat_muldiv(self.duration_remaining, FULL_PERCENT, self.total_duration);
        if v < 0 {
            0
        } else if v > FULL_PERCENT {
            FULL_PERCENT
        } else {
            v
        }
    }

    /// Add a stack, capped at `max_stacks`.
    pub fn add_stack(&mut self)
        ensures
            final(self).stacks == if old(self).stacks < old(self).max_stacks {
                (old(self).stacks + 1) as u32
            } else {
                old(self).stacks
            },
            final(self).id == old(self).id,
            final(self).name == old(self).name,
            final(self).effect_type == old(self).effect_type,
            final(self).duration_remaining == old(self).duration_remaining,
            final(self).total_duration == old(self).total_duration,
            final(self).max_stacks == old(self).max_stacks,
            final(self).source_id == old(self).source_id,
    {
        if self.stacks < self.max_stacks {
            self.stacks = self.stacks + 1;
        }
    }

    /// Refresh the duration; a refresh never shortens what a fresh
    /// application of the same length would grant.
    pub fn refresh(&mut self, new_duration: i64)
        ensures
            final(self).duration_remaining == new_duration,
            final(self).total_duration == new_duration,
            final(self).id == old(self).id,
            final(self).name == old(self).name,
            final(self).effect_type == old(self).effect_type,
            final(self).stacks == old(self).stacks,
            final(self).max_stacks == old(self).max_stacks,
            final(self).source_id == old(self).source_id,
    {
        self.duration_remaining = new_duration;
        self.total_duration = new_duration;
    }
}

/// Base duration of an ailment kind, in milli-seconds.
pub open spec fn base_duration_spec(status: StatusEffect) -> int {
    match status {
        StatusEffect::Poison => 2000,
        StatusEffect::Bleed => 5000,
        StatusEffect::Burn => 4000,
        StatusEffect::Freeze => 500,
        StatusEffect::Chill => 2000,
        StatusEffect::Static => 1000,
        StatusEffect::Fear => 1500,
        StatusEffect::Slow => 3000,
    }
}

/// Share of status damage that becomes DoT DPS, as a milli fraction;
/// zero for the non-damaging kinds.
pub open spec fn base_dot_percent_spec(status: StatusEffect) -> int {
    match status {
        StatusEffect::Poison => 200,
        StatusEffect::Bleed => 200,
        StatusEffect::Burn => 250,
        _ => 0,
    }
}

impl Effect {
    /// Base duration for an ailment kind, in milli-seconds.
    pub fn base_duration_for(status: StatusEffect) -> (r: i64)
        ensures
            r as int == base_duration_spec(status),
    {
        match status {
            StatusEffect::Poison => 2000,
            StatusEffect::Bleed => 5000,
            StatusEffect::Burn => 4000,
            StatusEffect::Freeze => 500,
            StatusEffect::Chill => 2000,
            StatusEffect::Static => 1000,
            StatusEffect::Fear => 1500,
            StatusEffect::Slow => 3000,
        }
    }

    /// Base DoT percentage for an ailment kind, as a milli fraction.
    pub fn base_dot_percent_for(status: StatusEffect) -> (r: i64)
        ensures
            r as int == base_dot_percent_spec(status),
    {
        match status {
            StatusEffect::Poison => 200,
            StatusEffect::Bleed => 200,
            StatusEffect::Burn => 250,
            _ => 0,
        }
    }

    /// Create a stat-modifier effect (buff or debuff).
    pub fn new_stat_modifier(
        id: &str,
        name: &str,
        duration: i64,
        is_debuff: bool,
        modifiers: Vec<StatMod>,
        source_id: &str,
    ) -> (r: Effect)
        ensures
            r.id@ == id@,
            r.name@ == name@,
            r.effect_type == (EffectType::StatModifier { modifiers, is_debuff }),
            r.duration_remaining == duration,
            r.total_duration == duration,
            r.stacks == 1,
            r.max_stacks == 1,
            r.source_id@ == source_id@,
    {
        Effect {
            id: id.to_owned(),
            name: name.to_owned(),
            effect_type: EffectType::StatModifier { modifiers, is_debuff },
            duration_remaining: duration,
            total_duration: duration,
            stacks: 1,
            max_stacks: 1,
            source_id: source_id.to_owned(),
        }
    }

    /// Create an ailment effect with a fresh tick timer.
    pub fn new_ailment(
        id: &str,
        name: &str,
        status: StatusEffect,
        duration: i64,
        magnitude: i64,
        dot_dps: i64,
        tick_rate: i64,
        stacking: AilmentStacking,
        source_id: &str,
    ) -> (r: Effect)
        ensures
            r.id@ == id@,
            r.name@ == name@,
            r.effect_type == (EffectType::Ailment {
                status,
                magnitude,
                dot_dps,
                tick_rate,
                time_until_tick: tick_rate,
                stacking,
                effectiveness: SCALE,
            }),
            r.duration_remaining == duration,
            r.total_duration == duration,
            r.stacks == 1,
            r.max_stacks == 999,
            r.source_id@ == source_id@,
    {
        Effect {
            id: id.to_owned(),
            name: name.to_owned(),
            effect_type: EffectType::Ailment {
                status,
                magnitude,
                dot_dps,
                tick_rate,
                time_until_tick: tick_rate,
                stacking,
                effectiveness: SCALE,
            },
            duration_remaining: duration,
            total_duration: duration,
            stacks: 1,
            max_stacks: 999,
            source_id: source_id.to_owned(),
        }
    }

    /// A poison: chaos DoT over 2 s, ticking every 0.33 s, stacking
    /// without limit.
    pub fn poison(dot_dps: i64, source_id: &str) -> (r: Effect)
        ensures
            r.effect_type == (EffectType::Ailment {
                status: StatusEffect::Poison,
                magnitude: 0i64,
                dot_dps,
                tick_rate: 330i64,
                time_until_tick: 330i64,
                stacking: AilmentStacking::Unlimited,
                effectiveness: SCALE,
            }),
            r.duration_remaining == 2000 && r.total_duration == 2000,
            r.stacks == 1 && r.max_stacks == 999,
            r.source_id@ == source_id@,
            dot_dps >= 0 ==> r.wf(),
    {
        Self::new_ailment(
            "poison",
            "Poison",
            StatusEffect::Poison,
            2000,
            0,
            dot_dps,
            330,
            AilmentStacking::Unlimited,
            source_id,
        )
    }

    /// A bleed: physical DoT over 5 s, ticking every second, limited to 8
    /// stacks at half effectiveness beyond the first. Deals double damage
    /// while the target moves; the moving bit is the ticker's input.
    pub fn bleed(dot_dps: i64, source_id: &str) -> (r: Effect)
        ensures
            r.effect_type == (EffectType::Ailment {
                status: StatusEffect::Bleed,
                magnitude: 0i64,
                dot_dps,
                tick_rate: 1000i64,
                time_until_tick: 1000i64,
                stacking: AilmentStacking::Limited { stack_effectiveness: 500i64 },
                effectiveness: SCALE,
            }),
            r.duration_remaining == 5000 && r.total_duration == 5000,
            r.stacks == 1 && r.max_stacks == 8,
            r.source_id@ == source_id@,
            dot_dps >= 0 ==> r.wf(),
    {
        let mut e = Self::new_ailment(
            "bleed",
            "Bleed",
            StatusEffect::Bleed,
            5000,
            0,
            dot_dps,
            1000,
            AilmentStacking::Limited { stack_effectiveness: 500 },
            source_id,
        );
        e.max_stacks = 8;
        e
    }

    /// A burn: fire DoT over 4 s, ticking every 0.5 s, strongest only.
    pub fn burn(dot_dps: i64, source_id: &str) -> (r: Effect)
        ensures
            r.effect_type == (EffectType::Ailment {
                status: StatusEffect::Burn,
                magnitude: 0i64,
                dot_dps,
                tick_rate: 500i64,
                time_until_tick: 500i64,
                stacking: AilmentStacking::StrongestOnly,
                effectiveness: SCALE,
            }),
            r.duration_remaining == 4000 && r.total_duration == 4000,
            r.stacks == 1 && r.max_stacks == 999,
            r.source_id@ == source_id@,
            dot_dps >= 0 ==> r.wf(),
    {
        Self::new_ailment(
            "burn",
            "Burn",
            StatusEffect::Burn,
            4000,
            0,
            dot_dps,
            500,
            AilmentStacking::StrongestOnly,
            source_id,
        )
    }

    /// A freeze: a short cold immobilization, strongest only, no DoT.
    pub fn freeze(magnitude: i64, source_id: &str) -> (r: Effect)
        ensures
            r.effect_type == (EffectType::Ailment {
                status: StatusEffect::Freeze,
                magnitude,
                dot_dps: 0i64,
                tick_rate: 100i64,
                time_until_tick: 100i64,
                stacking: AilmentStacking::StrongestOnly,
                effectiveness: SCALE,
            }),
            r.duration_remaining == 500 && r.total_duration == 500,
            r.stacks == 1 && r.max_stacks == 999,
            r.source_id@ == source_id@,
            r.wf(),
    {
        Self::new_ailment(
            "freeze",
            "Freeze",
            StatusEffect::Freeze,
            500,
            magnitude,
            0,
            100,
            AilmentStacking::StrongestOnly,
            source_id,
        )
    }

    /// A chill: a cold slow over 2 s, strongest only, no DoT.
    pub fn chill(magnitude: i64, source_id: &str) -> (r: Effect)
        ensures
            r.effect_type == (EffectType::Ailment {
                status: StatusEffect::Chill,
                magnitude,
                dot_dps: 0i64,
                tick_rate: 500i64,
                time_until_tick: 500i64,
                stacking: AilmentStacking::StrongestOnly,
                effectiveness: SCALE,
            }),
            r.duration_remaining == 2000 && r.total_duration == 2000,
            r.stacks == 1 && r.max_stacks == 999,
            r.source_id@ == source_id@,
            r.wf(),
    {
        Self::new_ailment(
            "chill",
            "Chill",
            StatusEffect::Chill,
            2000,
            magnitude,
            0,
            500,
            AilmentStacking::StrongestOnly,
            source_id,
        )
    }

    /// A static shock: lightning, up to 3 stacks at full effectiveness,
    /// no DoT.
    pub fn shock(magnitude: i64, source_id: &str) -> (r: Effect)
        ensures
            r.effect_type == (EffectType::Ailment {
                status: StatusEffect::Static,
                magnitude,
                dot_dps: 0i64,
                tick_rate: 250i64,
                time_until_tick: 250i64,
                stacking: AilmentStacking::Limited { stack_effectiveness: 1000i64 },
                effectiveness: SCALE,
            }),
            r.duration_remaining == 1000 && r.total_duration == 1000,
            r.stacks == 1 && r.max_stacks == 3,
            r.source_id@ == source_id@,
            r.wf(),
    {
        let mut e = Self::new_ailment(
            "static",
            "Static",
            StatusEffect::Static,
            1000,
            magnitude,
            0,
            250,
            AilmentStacking::Limited { stack_effectiveness: 1000 },
            source_id,
        );
        e.max_stacks = 3;
        e
    }

    /// A fear: chaos, 1.5 s, strongest only, no DoT.
    pub fn fear(magnitude: i64, source_id: &str) -> (r: Effect)
        ensures
            r.effect_type == (EffectType::Ailment {
                status: StatusEffect::Fear,
                magnitude,
                dot_dps: 0i64,
                tick_rate: 500i64,
                time_until_tick: 500i64,
                stacking: AilmentStacking::StrongestOnly,
                effectiveness: SCALE,
            }),
            r.duration_remaining == 1500 && r.total_duration == 1500,
            r.stacks == 1 && r.max_stacks == 999,
            r.source_id@ == source_id@,
            r.wf(),
    {
        Self::new_ailment(
            "fear",
            "Fear",
            StatusEffect::Fear,
            1500,
            magnitude,
            0,
            500,
            AilmentStacking::StrongestOnly,
            source_id,
        )
    }

    /// A slow: physical, 3 s, strongest only, no DoT.
    pub fn slow(magnitude: i64, source_id: &str) -> (r: Effect)
        ensures
            r.effect_type == (EffectType::Ailment {
                status: StatusEffect::Slow,
                magnitude,
                dot_dps: 0i64,
                tick_rate: 500i64,
                time_until_tick: 500i64,
                stacking: AilmentStacking::StrongestOnly,
                effectiveness: SCALE,
            }),
            r.duration_remaining == 3000 && r.total_duration == 3000,
            r.stacks == 1 && r.max_stacks == 999,
            r.source_id@ == source_id@,
            r.wf(),
    {
        Self::new_ailment(
            "slow",
            "Slow",
            StatusEffect::Slow,
            3000,
            magnitude,
            0,
            500,
            AilmentStacking::StrongestOnly,
            source_id,
        )
    }
}

impl Effect {
    /// Advance this effect by `delta` milli-seconds: a damaging ailment
    /// runs its tick timer down and emits one damage packet per fired
    /// tick; then the remaining duration is spent. Expired effects never
    /// tick, and the damage dealt is never negative.
    pub fn tick(&mut self, delta: i64) -> (damage: i64)
        requires
            old(self).wf(),
        ensures
            final(self).wf(),
            final(self).id == old(self).id,
            final(self).name == old(self).name,
            final(self).stacks == old(self).stacks,
            final(self).max_stacks == old(self).max_stacks,
            final(self).total_duration == old(self).total_duration,
            final(self).source_id == old(self).source_id,
            final(self).duration_remaining as int == clamp_amount(
                old(self).duration_remaining - delta,
            ),
            damage >= 0,
            match old(self).effect_type {
                EffectType::Ailment {
                    status,
                    magnitude,
                    dot_dps,
                    tick_rate,
                    time_until_tick,
                    stacking,
                    effectiveness,
                } => if dot_dps > 0 {
                    damage as int == tick_total_spec(
                        clamp_amount(time_until_tick - delta),
                        old(self).duration_remaining as int,
                        tick_rate as int,
                        per_tick_spec(
                            dot_dps as int,
                            tick_rate as int,
                            old(self).stacks as int,
                            effectiveness as int,
                        ),
                    ) && final(self).effect_type == (EffectType::Ailment {
                        status,
                        magnitude,
                        dot_dps,
                        tick_rate,
                        time_until_tick: ttt_after_spec(
                            clamp_amount(time_until_tick - delta),
                            old(self).duration_remaining as int,
                            tick_rate as int,
                        ) as i64,
                        stacking,
                        effectiveness,
                    })
                } else {
                    damage == 0 && final(self).effect_type == old(self).effect_type
                },
                EffectType::StatModifier { .. } => damage == 0 && final(self).effect_type == old(
                    self,
                ).effect_type,
            },
    {
        let dur: i64 = self.duration_remaining;
        let mut dmg: i64 = 0;
        let mut fire: bool = false;
        let mut rate: i64 = 1;
        let mut t0: i64 = 0;
        let mut pt: i64 = 0;
        match &self.effect_type {
            EffectType::Ailment { dot_dps, tick_rate, time_until_tick, effectiveness, .. } => {
                if *dot_dps > 0 {
                    fire = true;
                    rate = *tick_rate;
                    pt = sat_scaled(
                        sat_muldiv(sat_scaled(*dot_dps, *tick_rate), self.stacks as i64, 1),
                        *effectiveness,
                    );
                    t0 = sat_sub(*time_until_tick, delta);
                    proof {
                        lemma_per_tick_nonneg(
                            *dot_dps as int,
                            *tick_rate as int,
                            self.stacks as int,
                            *effectiveness as int,
                        );
                    }
                }
            },
            EffectType::StatModifier { .. } => {},
        }
        if fire {
            let ghost n0 = ticks_fired(t0 as int, dur as int, rate as int);
            proof {
                lemma_ticks_fired_nonneg(t0 as int, dur as int, rate as int);
                lemma_tick_total_is_count(t0 as int, dur as int, rate as int, pt as int);
            }
            let mut ttt: i64 = t0;
            while ttt <= 0 && dur > 0
                invariant
                    rate >= 1,
                    pt >= 0,
                    n0 == ticks_fired(t0 as int, dur as int, rate as int),
                    0 <= ticks_fired(ttt as int, dur as int, rate as int) <= n0,
                    dmg as int == clamp_amount(
                        (n0 - ticks_fired(ttt as int, dur as int, rate as int)) * pt,
                    ),
                    ttt_after_spec(t0 as int, dur as int, rate as int) == ttt_after_spec(
                        ttt as int,
                        dur as int,
                        rate as int,
                    ),
                    i64::MIN as int <= ttt as int,
                decreases tick_measure(ttt as int),
            {
                proof {
                    let n_here = ticks_fired(ttt as int, dur as int, rate as int);
                    assert(n_here == 1 + ticks_fired(ttt + rate, dur as int, rate as int));
                    lemma_ticks_fired_nonneg(ttt + rate, dur as int, rate as int);
                    lemma_clamp_step(n0 - n_here, pt as int);
                }
                dmg = sat_add(dmg, pt);
                ttt = ttt + rate;
            }
            proof {
                assert(ticks_fired(ttt as int, dur as int, rate as int) == 0);
                assert(ttt_after_spec(ttt as int, dur as int, rate as int) == ttt as int);
                assert(n0 * (pt as int) >= 0) by (nonlinear_arith)
                    requires
                        n0 >= 0,
                        pt >= 0,
                ;
            }
            match &mut self.effect_type {
                EffectType::Ailment { time_until_tick, .. } => {
                    *time_until_tick = ttt;
                },
                EffectType::StatModifier { .. } => {},
            }
        }
        self.duration_remaining = sat_sub(self.duration_remaining, delta);
        dmg
    }
}

/// One more saturated emission folds into the running product:
/// `clamp(clamp(k*p) + p) == clamp((k+1)*p)` for non-negative `k` and `p`.
proof fn lemma_clamp_step(k: int, p: int)
    requires
        k >= 0,
        p >= 0,
    ensures
        clamp_amount(clamp_amount(k * p) + p) == clamp_amount((k + 1) * p),
{
    assert((k + 1) * p == k * p + p) by (nonlinear_arith);
    assert(k * p >= 0) by (nonlinear_arith)
        requires
            k >= 0,
            p >= 0,
    ;
}

/// The per-tick emission of a well-formed ailment is never negative.
pub proof fn lemma_per_tick_nonneg(dps: int, rate: int, stacks: int, eff: int)
    requires
        dps >= 0,
        rate >= 0,
        stacks >= 0,
        eff >= 0,
    ensures
        per_tick_spec(dps, rate, stacks, eff) >= 0,
{
    assert(dps * rate >= 0) by (nonlinear_arith)
        requires
            dps >= 0,
            rate >= 0,
    ;
    vstd::arithmetic::div_mod::lemma_div_is_ordered(0, dps * rate, SCALE as int);
    let a = scaled(dps, rate);
    assert(a >= 0);
    assert(a * stacks >= 0) by (nonlinear_arith)
        requires
            a >= 0,
            stacks >= 0,
    ;
    vstd::arithmetic::div_mod::lemma_div_is_ordered(0, a * stacks, 1);
    let b = muldiv(a, stacks, 1);
    assert(b >= 0);
    assert(b * eff >= 0) by (nonlinear_arith)
        requires
            b >= 0,
            eff >= 0,
    ;
    vstd::arithmetic::div_mod::lemma_div_is_ordered(0, b * eff, SCALE as int);
}

/// Exactly `ticks_fired` emissions accumulate: the total is the per-tick
/// damage times the number of fired ticks, saturated.
pub proof fn lemma_tick_total_is_count(ttt: int, dur: int, rate: int, per_tick: int)
    requires
        rate >= 1,
        per_tick >= 0,
    ensures
        tick_total_spec(ttt, dur, rate, per_tick) == clamp_amount(
            ticks_fired(ttt, dur, rate) * per_tick,
        ),
    decreases tick_measure(ttt),
{
    if ttt > 0 || dur <= 0 {
        assert(ticks_fired(ttt, dur, rate) * per_tick == 0) by (nonlinear_arith)
            requires
                ticks_fired(ttt, dur, rate) == 0,
        ;
    } else {
        lemma_tick_total_is_count(ttt + rate, dur, rate, per_tick);
        let n = ticks_fired(ttt + rate, dur, rate);
        assert(n >= 0) by {
            lemma_ticks_fired_nonneg(ttt + rate, dur, rate);
        }
        assert((n + 1) * per_tick == n * per_tick + per_tick) by (nonlinear_arith);
        assert(n * per_tick >= 0) by (nonlinear_arith)
            requires
                n >= 0,
                per_tick >= 0,
        ;
        assert(clamp_amount(clamp_amount(n * per_tick) + per_tick) == clamp_amount((n + 1)
            * per_tick));
    }
}

/// The tick count is never negative.
pub proof fn lemma_ticks_fired_nonneg(ttt: int, dur: int, rate: int)
    requires
        rate >= 1,
    ensures
        ticks_fired(ttt, dur, rate) >= 0,
    decreases tick_measure(ttt),
{
    if !(ttt > 0 || dur <= 0) {
        lemma_ticks_fired_nonneg(ttt + rate, dur, rate);
    }
}

/// Tick conservation: advancing a fresh timer by the whole remaining
/// duration at once fires exactly `duration / rate` ticks, so the damage
/// dealt over a lifetime is the per-tick emission times that count —
/// `dot_dps * duration` to within one tick's worth.
pub proof fn lemma_tick_conservation(dur: int, rate: int, per_tick: int)
    requires
        rate >= 1,
        dur >= 1,
        per_tick >= 0,
    ensures
        ticks_fired(rate - dur, dur, rate) == dur / rate,
        tick_total_spec(rate - dur, dur, rate, per_tick) == clamp_amount((dur / rate) * per_tick),
{
    lemma_ticks_count_elapsed(dur, dur, rate);
    lemma_tick_total_is_count(rate - dur, dur, rate, per_tick);
}

/// Stepping a timer that lags `m` behind one full rate fires `m / rate`
/// ticks while the duration holds out.
proof fn lemma_ticks_count_elapsed(m: int, dur: int, rate: int)
    requires
        rate >= 1,
        m >= 0,
        dur >= 1,
    ensures
        ticks_fired(rate - m, dur, rate) == m / rate,
    decreases m,
{
    if m < rate {
        assert(rate - m > 0);
        assert(m / rate == 0) by {
            vstd::arithmetic::div_mod::lemma_basic_div(m, rate);
        }
    } else {
        lemma_ticks_count_elapsed(m - rate, dur, rate);
        assert(rate - m <= 0);
        assert(ticks_fired(rate - m, dur, rate) == 1 + ticks_fired(rate - (m - rate), dur, rate));
        lemma_div_plus_one(m - rate, rate);
    }
}

} // verus!
