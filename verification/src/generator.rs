//! Health of a generator: in service, out of service, or under repair.

use vstd::prelude::*;
use crate::damage::Damage;
use crate::game_variables::GameVariables;
use crate::quantity::{clamp_u64, lemma_scaled_toward_zero, Ratio, Time, RATIO_ONE};
use crate::tick_context::TickContext;

verus! {

/// The health of a generator. Exactly one of the three states holds at any
/// time.
#[derive(Debug, Clone, Copy, PartialEq, Eq)]
pub enum GeneratorState {
    /// In service, at the share `1 - damage` of its capacity.
    Online { damage: Damage },
    /// Out of service. It stays so until it is repaired.
    Offline,
    /// Out of service and under repair until mission time `event_end`.
    Repairing { event_end: Time },
}

impl GeneratorState {
    /// The damage of a generator in service lies between 0 and 1.
    pub open spec fn wf(self) -> bool {
        self matches GeneratorState::Online { damage } ==> damage.wf()
    }

    /// The state after a tick that has reached `mission_time`: a repair that
    /// has run its time puts the generator back in service, as new.
    pub open spec fn ticked(self, mission_time: Time) -> GeneratorState {
        match self {
            GeneratorState::Repairing { event_end } if mission_time.millis >= event_end.millis =>
                GeneratorState::Online { damage: Damage::with_ratio(0) },
            _ => self,
        }
    }

    /// The state after `amount` of damage: a generator in service takes it,
    /// and goes out of service once its damage is total.
    pub open spec fn damaged(self, amount: Ratio) -> GeneratorState {
        match self {
            GeneratorState::Online { damage } => if damage.ratio() + amount.ppb >= RATIO_ONE {
                GeneratorState::Offline
            } else {
                GeneratorState::Online { damage: Damage::with_ratio(damage.ratio() + amount.ppb) }
            },
            _ => self,
        }
    }

    /// The mission time at which a repair ends that starts at `now` and has
    /// the share `damage` of the full repair time to run.
    pub open spec fn repair_end(now: Time, damage: Damage, game_vars: GameVariables) -> Time {
        Time {
            millis: clamp_u64(now.millis + damage.inverse_applied(game_vars.repair_time.millis as int)) as u64,
        }
    }

    /// The state after a repair is ordered at `now`: a damaged generator
    /// goes under repair for a time in proportion to its damage, one out of
    /// service for the full repair time.
    pub open spec fn repaired(self, now: Time, game_vars: GameVariables) -> GeneratorState {
        match self {
            GeneratorState::Repairing { .. } => self,
            GeneratorState::Online { damage } => if damage.ratio() == 0 {
                self
            } else {
                GeneratorState::Repairing {
                    event_end: GeneratorState::repair_end(now, damage, game_vars),
                }
            },
            GeneratorState::Offline => GeneratorState::Repairing {
                event_end: Time { millis: clamp_u64(now.millis + game_vars.repair_time.millis) as u64 },
            },
        }
    }

    /// Orders a repair at `current_mission_time` and returns the state that
    /// results; the caller assigns it. Nothing changes for a generator that
    /// is under repair already or in service without damage.
    pub fn repair(self, current_mission_time: Time, game_vars: &GameVariables) -> (r: GeneratorState)
        ensures
            r == self.repaired(current_mission_time, *game_vars),
    {
        match self {
            GeneratorState::Repairing { .. } => self,
            GeneratorState::Online { damage } => {
                if damage.is_undamaged() {
                    self
                } else {
                    GeneratorState::Repairing {
                        event_end: current_mission_time.saturating_add(
                            damage.inverse_apply(game_vars.repair_time),
                        ),
                    }
                }
            },
            GeneratorState::Offline => {
                let damage = Damage::offline();
                proof {
                    lemma_scaled_toward_zero(game_vars.repair_time.millis as int, RATIO_ONE as int);
                }
                GeneratorState::Repairing {
                    event_end: current_mission_time.saturating_add(
                        damage.inverse_apply(game_vars.repair_time),
                    ),
                }
            },
        }
    }

    /// Damages the generator by `amount`. Only a generator in service takes
    /// damage; once its damage is total it goes out of service.
    pub fn damage(&mut self, amount: Ratio)
        ensures
            *final(self) == old(self).damaged(amount),
    {
        match *self {
            GeneratorState::Online { damage } => {
                let mut damage = damage;
                damage.damage(amount);
                if damage.is_offline() {
                    *self = GeneratorState::Offline;
                } else {
                    *self = GeneratorState::Online { damage };
                }
            },
            GeneratorState::Offline | GeneratorState::Repairing { .. } => {},
        }
    }

    /// Advances the health to the mission time of `context`: a repair that
    /// has run its time puts the generator back in service without damage.
    pub fn tick(&mut self, context: &TickContext)
        ensures
            *final(self) == old(self).ticked(context.mission_time),
    {
        match *self {
            GeneratorState::Repairing { event_end } => {
                if context.mission_time.millis >= event_end.millis {
                    *self = GeneratorState::Online { damage: Damage::default() };
                }
            },
            _ => {},
        }
    }

    /// A second tick at the same mission time changes nothing more.
    pub proof fn lemma_tick_idempotent(self, mission_time: Time)
        ensures
            self.ticked(mission_time).ticked(mission_time) == self.ticked(mission_time),
    {
    }

    /// A generator in service goes out of service when its damage reaches 1,
    /// a repair ordered then takes the full repair time, and the first tick
    /// at or after its end puts the generator back in service without
    /// damage.
    pub proof fn lemma_lifecycle(
        damage: Damage,
        amount: Ratio,
        now: Time,
        later: Time,
        game_vars: GameVariables,
    )
        requires
            damage.wf(),
            damage.ratio() + amount.ppb >= RATIO_ONE,
            now.millis + game_vars.repair_time.millis <= u64::MAX,
            later.millis >= now.millis + game_vars.repair_time.millis,
        ensures
            (GeneratorState::Online { damage }).damaged(amount) == GeneratorState::Offline,
            GeneratorState::Offline.repaired(now, game_vars) == (GeneratorState::Repairing {
                event_end: Time { millis: (now.millis + game_vars.repair_time.millis) as u64 },
            }),
            GeneratorState::Offline.repaired(now, game_vars).ticked(later) == (
            GeneratorState::Online { damage: Damage::with_ratio(0) }),
            forall|earlier: Time| earlier.millis < now.millis + game_vars.repair_time.millis
                ==> GeneratorState::Offline.repaired(now, game_vars).ticked(earlier)
                    == GeneratorState::Offline.repaired(now, game_vars),
    {
    }
}

impl Default for GeneratorState {
    /// In service, without damage.
    fn default() -> (r: GeneratorState)
        ensures
            r == (GeneratorState::Online { damage: Damage::with_ratio(0) }),
    {
        GeneratorState::Online { damage: Damage::default() }
    }
}

} // verus!
