//! The fission reactor: a source that follows a commanded output at a
//! bounded rate.

use vstd::prelude::*;
use crate::damage::Damage;
use crate::game_variables::GameVariables;
use crate::generator::GeneratorState;
use crate::power::Power;
use crate::quantity::{lemma_scaled_toward_zero, max_int, min_int, RATIO_ONE};
use crate::tick_context::TickContext;

verus! {

/// The reactor: its health, the power it puts out, and the power it has been
/// told to put out.
#[derive(Debug, Clone, Copy, PartialEq, Eq)]
pub struct Reactor {
    /// Health of the reactor.
    pub generator_state: GeneratorState,
    /// Power that the reactor puts out.
    pub power_output: Power,
    /// Power that the reactor has been told to put out.
    pub target_power_output: Power,
}

/// The value that `current` reaches when it moves toward `target` by at most
/// `ramp`.
pub open spec fn approach(current: int, target: int, ramp: int) -> int {
    if current < target {
        min_int(current + ramp, target)
    } else if current > target {
        max_int(current - ramp, target)
    } else {
        current
    }
}

/// Moves `current` toward `target` by at most `ramp`.
fn move_toward(current: i64, target: i64, ramp: u128) -> (r: i64)
    ensures
        r == approach(current as int, target as int, ramp as int),
{
    if current < target {
        let gap: u128 = (target as i128 - current as i128) as u128;
        if ramp >= gap {
            target
        } else {
            (current as i128 + ramp as i128) as i64
        }
    } else if current > target {
        let gap: u128 = (current as i128 - target as i128) as u128;
        if ramp >= gap {
            target
        } else {
            (current as i128 - ramp as i128) as i64
        }
    } else {
        current
    }
}

impl Reactor {
    /// The most, in microwatts, that the output may change in the tick of
    /// `context`.
    pub open spec fn ramp(context: &TickContext) -> int {
        context.game_vars.reactor_power_ramp_rate.microwatts_per_milli * context.tick_delta.millis
    }

    /// The output, in microwatts, that the reactor can sustain under
    /// `damage`.
    pub open spec fn effective_nominal(damage: Damage, game_vars: GameVariables) -> int {
        damage.applied(game_vars.reactor_nominal_output.microwatts as int)
    }

    /// The output after one tick, in microwatts. In service the output moves
    /// toward the commanded output, or toward what the damage leaves of the
    /// nominal output if that is less, and is then held between zero and
    /// that bound. Out of service it falls toward zero, whatever was
    /// commanded.
    pub open spec fn next_output(self, context: &TickContext) -> int {
        let output = self.power_output.microwatts as int;
        match self.generator_state.ticked(context.mission_time) {
            GeneratorState::Online { damage } => {
                let effective_nominal = Reactor::effective_nominal(damage, *context.game_vars);
                let current_target = min_int(
                    self.target_power_output.microwatts as int,
                    effective_nominal,
                );
                min_int(
                    max_int(approach(output, current_target, Reactor::ramp(context)), 0),
                    effective_nominal,
                )
            },
            _ => if output > 0 {
                max_int(output - Reactor::ramp(context), 0)
            } else {
                0
            },
        }
    }

    /// The reactor after one tick.
    pub open spec fn ticked(self, context: &TickContext) -> Reactor {
        Reactor {
            generator_state: self.generator_state.ticked(context.mission_time),
            power_output: Power { microwatts: self.next_output(context) as i64 },
            target_power_output: self.target_power_output,
        }
    }

    /// Commands the output `target_power`, held between zero and the nominal
    /// output. The command is taken in every state of health; it takes
    /// effect while the reactor is in service.
    pub fn set_target_power_output(&mut self, target_power: Power, game_vars: &GameVariables)
        ensures
            final(self).target_power_output.microwatts == max_int(
                min_int(
                    target_power.microwatts as int,
                    game_vars.reactor_nominal_output.microwatts as int,
                ),
                0,
            ),
            final(self).generator_state == old(self).generator_state,
            final(self).power_output == old(self).power_output,
    {
        let nominal: i64 = game_vars.reactor_nominal_output.microwatts;
        let capped: i64 = if target_power.microwatts <= nominal {
            target_power.microwatts
        } else {
            nominal
        };
        let floored: i64 = if capped >= 0 {
            capped
        } else {
            0
        };
        self.target_power_output = Power { microwatts: floored };
    }

    /// Advances the reactor by one tick and returns the power it puts out.
    pub fn tick(&mut self, context: &TickContext) -> (r: Power)
        ensures
            *final(self) == old(self).ticked(context),
            r == final(self).power_output,
    {
        self.generator_state.tick(context);

        let rate: u64 = context.game_vars.reactor_power_ramp_rate.microwatts_per_milli;
        let tick_millis: u64 = context.tick_delta.millis;
        assert(0 <= rate * tick_millis <= 0xffff_ffff_ffff_ffff * 0xffff_ffff_ffff_ffff)
            by (nonlinear_arith)
            requires
                0 <= rate <= 0xffff_ffff_ffff_ffff,
                0 <= tick_millis <= 0xffff_ffff_ffff_ffff,
        ;
        let ramp_amount: u128 = (rate as u128) * (tick_millis as u128);

        match self.generator_state {
            GeneratorState::Online { damage } => {
                let effective_nominal_power: Power = damage.apply(
                    context.game_vars.reactor_nominal_output,
                );
                let current_target: i64 = if self.target_power_output.microwatts
                    <= effective_nominal_power.microwatts {
                    self.target_power_output.microwatts
                } else {
                    effective_nominal_power.microwatts
                };
                let moved: i64 = move_toward(
                    self.power_output.microwatts,
                    current_target,
                    ramp_amount,
                );
                let floored: i64 = if moved >= 0 {
                    moved
                } else {
                    0
                };
                let held: i64 = if floored <= effective_nominal_power.microwatts {
                    floored
                } else {
                    effective_nominal_power.microwatts
                };
                self.power_output = Power { microwatts: held };
            },
            GeneratorState::Offline | GeneratorState::Repairing { .. } => {
                if self.power_output.microwatts > 0 {
                    self.power_output = Power {
                        microwatts: move_toward(self.power_output.microwatts, 0, ramp_amount),
                    };
                } else {
                    self.power_output = Power::zero();
                }
            },
        }
        self.power_output
    }

    /// After a tick the output is not negative, unless the nominal output
    /// is; in service it is within what the damage leaves of the nominal
    /// output, and out of service it has not risen.
    pub proof fn lemma_output_within_bounds(self, context: &TickContext)
        requires
            self.generator_state.ticked(context.mission_time).wf(),
        ensures
            context.game_vars.reactor_nominal_output.microwatts >= 0 ==> 0 <= self.next_output(
                context,
            ),
            self.generator_state.ticked(context.mission_time) matches GeneratorState::Online {
                damage,
            } ==> self.next_output(context) <= Reactor::effective_nominal(
                damage,
                *context.game_vars,
            ),
            !(self.generator_state.ticked(context.mission_time) is Online) ==> 0
                <= self.next_output(context) <= max_int(self.power_output.microwatts as int, 0),
            i64::MIN <= self.next_output(context) <= i64::MAX,
    {
        let rate = context.game_vars.reactor_power_ramp_rate.microwatts_per_milli as int;
        let tick_millis = context.tick_delta.millis as int;
        assert(0 <= rate * tick_millis) by (nonlinear_arith)
            requires
                0 <= rate,
                0 <= tick_millis,
        ;
        match self.generator_state.ticked(context.mission_time) {
            GeneratorState::Online { damage } => {
                lemma_scaled_toward_zero(
                    context.game_vars.reactor_nominal_output.microwatts as int,
                    RATIO_ONE - damage.ratio(),
                );
            },
            _ => {},
        }
    }

    /// In service, an output between zero and what the damage leaves of the
    /// nominal output stays there, changes by no more than the ramp of the
    /// tick, and, where the commanded output is not negative, is the old
    /// output moved toward the lesser of the commanded output and that
    /// bound. Out of service, an output that is not negative falls by no
    /// more than the ramp and not below zero.
    pub proof fn lemma_output_ramps(self, context: &TickContext)
        requires
            self.generator_state.ticked(context.mission_time).wf(),
        ensures
            self.generator_state.ticked(context.mission_time) matches GeneratorState::Online {
                damage,
            } ==> {
                let effective_nominal = Reactor::effective_nominal(damage, *context.game_vars);
                0 <= self.power_output.microwatts <= effective_nominal ==> {
                    &&& 0 <= self.next_output(context) <= effective_nominal
                    &&& self.next_output(context) - self.power_output.microwatts <= Reactor::ramp(
                        context,
                    )
                    &&& self.power_output.microwatts - self.next_output(context) <= Reactor::ramp(
                        context,
                    )
                    &&& self.target_power_output.microwatts >= 0 ==> self.next_output(context)
                        == approach(
                        self.power_output.microwatts as int,
                        min_int(self.target_power_output.microwatts as int, effective_nominal),
                        Reactor::ramp(context),
                    )
                }
            },
            !(self.generator_state.ticked(context.mission_time) is Online)
                && self.power_output.microwatts >= 0 ==> {
                &&& 0 <= self.next_output(context) <= self.power_output.microwatts
                &&& self.power_output.microwatts - self.next_output(context) <= Reactor::ramp(
                    context,
                )
            },
    {
        let rate = context.game_vars.reactor_power_ramp_rate.microwatts_per_milli as int;
        let tick_millis = context.tick_delta.millis as int;
        assert(0 <= rate * tick_millis) by (nonlinear_arith)
            requires
                0 <= rate,
                0 <= tick_millis,
        ;
    }
}

impl Default for Reactor {
    /// A reactor in service, without damage, that puts out nothing and has
    /// been told to put out nothing.
    fn default() -> (r: Reactor)
        ensures
            r.generator_state == (GeneratorState::Online { damage: Damage::with_ratio(0) }),
            r.power_output.microwatts == 0,
            r.target_power_output.microwatts == 0,
    {
        Reactor {
            generator_state: GeneratorState::default(),
            power_output: Power { microwatts: 0 },
            target_power_output: Power { microwatts: 0 },
        }
    }
}

} // verus!
