//! The ailment configuration registry: per-kind durations, tick rates,
//! DoT shares and stacking disciplines, either the built-in defaults or
//! an externally loaded table.

use vstd::prelude::*;
use crate::strings::str_eq;
use crate::types::{DamageType, StatusEffect};

verus! {

/// How instances of one configured DoT kind stack.
#[derive(Clone, Copy)]
pub enum DotStacking {
    /// Only the strongest instance applies.
    StrongestOnly,
    /// All instances stack freely.
    Unlimited,
    /// Up to a cap, with dampened extra stacks.
    Limited {
        /// The stack cap.
        max_stacks: u32,
        /// Effectiveness of additional stacks, as a milli fraction.
        stack_effectiveness: i64,
    },
}

/// Configuration of one DoT or status kind.
pub struct DotConfig {
    /// Identifier of the kind.
    pub id: String,
    /// Display name.
    pub name: String,
    /// The damage type the kind deals.
    pub damage_type: DamageType,
    /// The stacking discipline.
    pub stacking: DotStacking,
    /// Base duration, in milli-seconds.
    pub base_duration: i64,
    /// Time between ticks, in milli-seconds.
    pub tick_rate: i64,
    /// Share of status damage that becomes DPS, as a milli fraction.
    pub base_damage_percent: i64,
    /// Maximum stacks.
    pub max_stacks: u32,
    /// Effectiveness of additional stacks, as a milli fraction.
    pub stack_effectiveness: i64,
    /// Damage multiplier while the target moves, as a milli factor.
    pub moving_multiplier: i64,
}

impl DotConfig {
    /// How many ticks the base duration holds, rounded up.
    pub fn base_tick_count(&self) -> (r: u32)
        requires
            1 <= self.tick_rate <= 1_000_000_000,
            0 <= self.base_duration <= 1_000_000_000,
        ensures
            r as int == (self.base_duration + self.tick_rate - 1) / (self.tick_rate as int),
    {
        let c = (self.base_duration + (self.tick_rate - 1)) / self.tick_rate;
        proof {
            vstd::arithmetic::div_mod::lemma_div_is_ordered(
                0,
                self.base_duration + self.tick_rate - 1,
                self.tick_rate as int,
            );
            vstd::arithmetic::div_mod::lemma_div_is_ordered(
                self.base_duration + self.tick_rate - 1,
                2_000_000_000,
                self.tick_rate as int,
            );
            vstd::arithmetic::div_mod::lemma_div_is_ordered_by_denominator(
                2_000_000_000,
                1,
                self.tick_rate as int,
            );
        }
        c as u32
    }

    /// The duration aligned to whole ticks.
    pub fn actual_duration(&self) -> (r: i64)
        requires
            1 <= self.tick_rate <= 1_000_000_000,
            0 <= self.base_duration <= 1_000_000_000,
        ensures
            r as int == ((self.base_duration + self.tick_rate - 1) / (self.tick_rate as int))
                * self.tick_rate,
    {
        let n = self.base_tick_count();
        proof {
            let q = (self.base_duration + self.tick_rate - 1) / (self.tick_rate as int);
            assert(0 <= q * self.tick_rate && q * self.tick_rate <= 2_000_000_000
                * 1_000_000_000) by (nonlinear_arith)
                requires
                    0 <= q <= 2_000_000_000,
                    1 <= self.tick_rate as int <= 1_000_000_000,
            ;
        }
        (n as i64) * self.tick_rate
    }
}

/// The configuration registered for an identifier: the earliest entry.
pub open spec fn dot_lookup(configs: Seq<DotConfig>, id: Seq<char>) -> Option<int>
    decreases configs.len(),
{
    if configs.len() == 0 {
        None
    } else if configs[0].id@ == id {
        Some(0int)
    } else {
        match dot_lookup(configs.drop_first(), id) {
            Some(i) => Some(i + 1),
            None => None,
        }
    }
}

/// The registry of DoT kinds.
pub struct DotRegistry {
    /// Registered configurations; the earliest entry for an identifier
    /// wins.
    pub configs: Vec<DotConfig>,
}

impl DotRegistry {
    /// An empty registry.
    pub fn new() -> (r: DotRegistry)
        ensures
            r.configs@ =~= Seq::<DotConfig>::empty(),
    {
        DotRegistry { configs: Vec::new() }
    }

    /// Register a configuration; it shadows earlier ones with the same
    /// identifier.
    pub fn register(&mut self, config: DotConfig)
        ensures
            final(self).configs@ =~= seq![config] + old(self).configs@,
    {
        self.configs.insert(0, config);
        proof {
            assert(self.configs@ =~= seq![config] + old(self).configs@);
        }
    }

    /// Look a configuration up by identifier.
    pub fn get(&self, id: &str) -> (r: Option<&DotConfig>)
        ensures
            match r {
                None => dot_lookup(self.configs@, id@) is None,
                Some(c) => exists|ix: int|
                    {
                        &&& dot_lookup(self.configs@, id@) == Some(ix)
                        &&& 0 <= ix < self.configs@.len()
                        &&& *c == self.configs@[ix]
                    },
            },
    {
        proof {
            assert(self.configs@.skip(0) =~= self.configs@);
        }
        let mut i: usize = 0;
        while i < self.configs.len()
            invariant
                i <= self.configs.len(),
                forall|k: int| 0 <= k < i ==> (#[trigger] self.configs@[k]).id@ != id@,
                match dot_lookup(self.configs@.skip(i as int), id@) {
                    Some(ix) => dot_lookup(self.configs@, id@) == Some(ix + i),
                    None => dot_lookup(self.configs@, id@) is None,
                },
            decreases self.configs.len() - i,
        {
            let ghost rest = self.configs@.skip(i as int);
            proof {
                assert(rest[0] == self.configs@[i as int]);
                assert(rest.drop_first() =~= self.configs@.skip(i as int + 1));
            }
            if str_eq(self.configs[i].id.as_str(), id) {
                return Some(&self.configs[i]);
            }
            i = i + 1;
        }
        proof {
            assert(self.configs@.skip(self.configs@.len() as int) =~= Seq::<DotConfig>::empty());
        }
        None
    }

    /// The built-in default table: the eight ailment kinds with their
    /// documented durations, tick rates, DoT shares and disciplines.
    pub fn with_defaults() -> (r: DotRegistry)
        ensures
            r.configs@.len() == 8,
            r.configs@[7].id@ == "burn"@ && r.configs@[7].base_duration == 4_000
                && r.configs@[7].tick_rate == 500 && r.configs@[7].base_damage_percent == 250
                && r.configs@[7].max_stacks == 1 && r.configs@[7].moving_multiplier == 1_000,
            r.configs@[6].id@ == "poison"@ && r.configs@[6].base_duration == 2_000
                && r.configs@[6].tick_rate == 330 && r.configs@[6].base_damage_percent == 200
                && r.configs@[6].max_stacks == 999 && r.configs@[6].moving_multiplier == 1_000,
            r.configs@[5].id@ == "bleed"@ && r.configs@[5].base_duration == 5_000
                && r.configs@[5].tick_rate == 1_000 && r.configs@[5].base_damage_percent == 200
                && r.configs@[5].max_stacks == 8 && r.configs@[5].moving_multiplier == 2_000
                && r.configs@[5].stack_effectiveness == 500,
            r.configs@[4].id@ == "freeze"@ && r.configs@[4].base_duration == 500
                && r.configs@[4].tick_rate == 100 && r.configs@[4].base_damage_percent == 0,
            r.configs@[3].id@ == "chill"@ && r.configs@[3].base_duration == 2_000
                && r.configs@[3].tick_rate == 500 && r.configs@[3].base_damage_percent == 0,
            r.configs@[2].id@ == "static"@ && r.configs@[2].base_duration == 1_000
                && r.configs@[2].tick_rate == 250 && r.configs@[2].base_damage_percent == 0
                && r.configs@[2].max_stacks == 3,
            r.configs@[1].id@ == "fear"@ && r.configs@[1].base_duration == 1_500
                && r.configs@[1].tick_rate == 500 && r.configs@[1].base_damage_percent == 0,
            r.configs@[0].id@ == "slow"@ && r.configs@[0].base_duration == 3_000
                && r.configs@[0].tick_rate == 500 && r.configs@[0].base_damage_percent == 0,
    {
        let mut registry = DotRegistry::new();
        registry.register(
            DotConfig {
                id: "burn".to_owned(),
                name: "Burn".to_owned(),
                damage_type: DamageType::Fire,
                stacking: DotStacking::StrongestOnly,
                base_duration: 4_000,
                tick_rate: 500,
                base_damage_percent: 250,
                max_stacks: 1,
                stack_effectiveness: 1_000,
                moving_multiplier: 1_000,
            },
        );
        registry.register(
            DotConfig {
                id: "poison".to_owned(),
                name: "Poison".to_owned(),
                damage_type: DamageType::Chaos,
                stacking: DotStacking::Unlimited,
                base_duration: 2_000,
                tick_rate: 330,
                base_damage_percent: 200,
                max_stacks: 999,
                stack_effectiveness: 1_000,
                moving_multiplier: 1_000,
            },
        );
        registry.register(
            DotConfig {
                id: "bleed".to_owned(),
                name: "Bleed".to_owned(),
                damage_type: DamageType::Physical,
                stacking: DotStacking::Limited { max_stacks: 8, stack_effectiveness: 500 },
                base_duration: 5_000,
                tick_rate: 1_000,
                base_damage_percent: 200,
                max_stacks: 8,
                stack_effectiveness: 500,
                moving_multiplier: 2_000,
            },
        );
        registry.register(
            DotConfig {
                id: "freeze".to_owned(),
                name: "Freeze".to_owned(),
                damage_type: DamageType::Cold,
                stacking: DotStacking::StrongestOnly,
                base_duration: 500,
                tick_rate: 100,
                base_damage_percent: 0,
                max_stacks: 1,
                stack_effectiveness: 1_000,
                moving_multiplier: 1_000,
            },
        );
        registry.register(
            DotConfig {
                id: "chill".to_owned(),
                name: "Chill".to_owned(),
                damage_type: DamageType::Cold,
                stacking: DotStacking::StrongestOnly,
                base_duration: 2_000,
                tick_rate: 500,
                base_damage_percent: 0,
                max_stacks: 1,
                stack_effectiveness: 1_000,
                moving_multiplier: 1_000,
            },
        );
        registry.register(
            DotConfig {
                id: "static".to_owned(),
                name: "Static".to_owned(),
                damage_type: DamageType::Lightning,
                stacking: DotStacking::Limited { max_stacks: 3, stack_effectiveness: 1_000 },
                base_duration: 1_000,
                tick_rate: 250,
                base_damage_percent: 0,
                max_stacks: 3,
                stack_effectiveness: 1_000,
                moving_multiplier: 1_000,
            },
        );
        registry.register(
            DotConfig {
                id: "fear".to_owned(),
                name: "Fear".to_owned(),
                damage_type: DamageType::Chaos,
                stacking: DotStacking::StrongestOnly,
                base_duration: 1_500,
                tick_rate: 500,
                base_damage_percent: 0,
                max_stacks: 1,
                stack_effectiveness: 1_000,
                moving_multiplier: 1_000,
            },
        );
        registry.register(
            DotConfig {
                id: "slow".to_owned(),
                name: "Slow".to_owned(),
                damage_type: DamageType::Physical,
                stacking: DotStacking::StrongestOnly,
                base_duration: 3_000,
                tick_rate: 500,
                base_damage_percent: 0,
                max_stacks: 1,
                stack_effectiveness: 1_000,
                moving_multiplier: 1_000,
            },
        );
        registry
    }

    /// The identifier an ailment kind is registered under.
    pub fn status_id(status: StatusEffect) -> (r: &'static str)
        ensures
            match status {
                StatusEffect::Poison => r@ == "poison"@,
                StatusEffect::Bleed => r@ == "bleed"@,
                StatusEffect::Burn => r@ == "burn"@,
                StatusEffect::Freeze => r@ == "freeze"@,
                StatusEffect::Chill => r@ == "chill"@,
                StatusEffect::Static => r@ == "static"@,
                StatusEffect::Fear => r@ == "fear"@,
                StatusEffect::Slow => r@ == "slow"@,
            },
    {
        match status {
            StatusEffect::Poison => "poison",
            StatusEffect::Bleed => "bleed",
            StatusEffect::Burn => "burn",
            StatusEffect::Freeze => "freeze",
            StatusEffect::Chill => "chill",
            StatusEffect::Static => "static",
            StatusEffect::Fear => "fear",
            StatusEffect::Slow => "slow",
        }
    }

    /// The DoT share of one ailment kind, or zero when unregistered.
    pub fn get_base_damage_percent(&self, status: StatusEffect) -> (r: i64)
        ensures
            match dot_lookup(self.configs@, match status {
                StatusEffect::Poison => "poison"@,
                StatusEffect::Bleed => "bleed"@,
                StatusEffect::Burn => "burn"@,
                StatusEffect::Freeze => "freeze"@,
                StatusEffect::Chill => "chill"@,
                StatusEffect::Static => "static"@,
                StatusEffect::Fear => "fear"@,
                StatusEffect::Slow => "slow"@,
            }) {
                Some(ix) => r == self.configs@[ix].base_damage_percent,
                None => r == 0,
            },
    {
        match self.get(Self::status_id(status)) {
            Some(c) => c.base_damage_percent,
            None => 0,
        }
    }

    /// The base duration of one ailment kind, or the common default
    /// when unregistered.
    pub fn get_base_duration(&self, status: StatusEffect) -> (r: i64)
        ensures
            match dot_lookup(self.configs@, match status {
                StatusEffect::Poison => "poison"@,
                StatusEffect::Bleed => "bleed"@,
                StatusEffect::Burn => "burn"@,
                StatusEffect::Freeze => "freeze"@,
                StatusEffect::Chill => "chill"@,
                StatusEffect::Static => "static"@,
                StatusEffect::Fear => "fear"@,
                StatusEffect::Slow => "slow"@,
            }) {
                Some(ix) => r == self.configs@[ix].base_duration,
                None => r == 2_000,
            },
    {
        match self.get(Self::status_id(status)) {
            Some(c) => c.base_duration,
            None => 2_000,
        }
    }
}

} // verus!
