//! The solar array.

use vstd::prelude::*;
use crate::damage::Damage;
use crate::generator::GeneratorState;
use crate::lunar_phase::{phase_at, LunarPhase};
use crate::power::Power;
use crate::quantity::{clamp_i64, lemma_scaled_toward_zero, scaled, Quantity, Ratio, RATIO_ONE};
use crate::tick_context::TickContext;

verus! {

/// The solar array: its health, and whether its shields are up.
#[derive(Debug, Clone, Copy, PartialEq, Eq)]
pub struct SolarState {
    /// Health of the array.
    pub generator_state: GeneratorState,
    /// Whether the shields are up. They keep hazards off the array, and the
    /// sun as well.
    pub shields_active: bool,
}

impl SolarState {
    /// The power, in microwatts, that the array puts out in the tick of
    /// `context` under the insolation `insolation`. An array that is not in
    /// service puts out nothing, and neither does one at night or behind its
    /// shields. Otherwise the array puts out what its damage leaves of the
    /// nominal output times the insolation. That product is rounded toward
    /// zero and held in the range of the powers that can be represented,
    /// which it cannot leave under an insolation of at most 1.
    pub open spec fn output(self, context: &TickContext, insolation: Ratio) -> int {
        match self.generator_state.ticked(context.mission_time) {
            GeneratorState::Online { damage } => {
                if phase_at(context.mission_time, context.game_vars.mission_time_per_lunar_time)
                    is Day && !self.shields_active {
                    damage.applied(
                        clamp_i64(
                            scaled(
                                context.game_vars.solar_nominal_output.microwatts as int,
                                insolation.ppb as int,
                            ),
                        ),
                    )
                } else {
                    0
                }
            },
            _ => 0,
        }
    }

    /// The array after one tick: its health has been advanced, its shields
    /// are as they were.
    pub open spec fn ticked(self, context: &TickContext) -> SolarState {
        SolarState {
            generator_state: self.generator_state.ticked(context.mission_time),
            shields_active: self.shields_active,
        }
    }

    /// Under an insolation of at most the full sun, the output lies between
    /// nothing and the nominal output, where that is not negative.
    pub proof fn lemma_output_within_nominal(self, context: &TickContext, insolation: Ratio)
        requires
            self.generator_state.ticked(context.mission_time).wf(),
            insolation.ppb <= RATIO_ONE,
            context.game_vars.solar_nominal_output.microwatts >= 0,
        ensures
            0 <= self.output(context, insolation)
                <= context.game_vars.solar_nominal_output.microwatts,
    {
        let nominal = context.game_vars.solar_nominal_output.microwatts as int;
        lemma_scaled_toward_zero(nominal, insolation.ppb as int);
        match self.generator_state.ticked(context.mission_time) {
            GeneratorState::Online { damage } => {
                lemma_scaled_toward_zero(
                    scaled(nominal, insolation.ppb as int),
                    RATIO_ONE - damage.ratio(),
                );
            },
            _ => {},
        }
    }

    /// Under the full sun an array in service without damage, by day and
    /// with its shields down, puts out its nominal output; without sun it
    /// puts out nothing, and behind its shields neither.
    pub proof fn lemma_output_at_the_extremes(self, context: &TickContext, insolation: Ratio)
        requires
            self.generator_state.ticked(context.mission_time).wf(),
        ensures
            self.shields_active ==> self.output(context, insolation) == 0,
            insolation.ppb == 0 ==> self.output(context, insolation) == 0,
            ({
                &&& insolation.ppb == RATIO_ONE
                &&& !self.shields_active
                &&& phase_at(context.mission_time, context.game_vars.mission_time_per_lunar_time)
                    is Day
                &&& self.generator_state.ticked(context.mission_time) matches GeneratorState::Online {
                    damage,
                }
                &&& damage.ratio() == 0
            }) ==> self.output(context, insolation)
                == context.game_vars.solar_nominal_output.microwatts,
    {
        let nominal = context.game_vars.solar_nominal_output.microwatts as int;
        lemma_scaled_toward_zero(nominal, 0);
        match self.generator_state.ticked(context.mission_time) {
            GeneratorState::Online { damage } => {
                lemma_scaled_toward_zero(0, RATIO_ONE - damage.ratio());
                lemma_scaled_toward_zero(nominal, RATIO_ONE - damage.ratio());
            },
            _ => {},
        }
    }

    /// Advances the array by one tick and returns the power it generates.
    ///
    /// `insolation` is the intensity of the sun on the array at the mission
    /// time of `context`, as a ratio of the full sun at local noon. Over the
    /// lunar day it follows half a sine wave: the sine of the elapsed ratio
    /// of the day phase times pi. The caller works it out; this function
    /// reads it on a day without shields only.
    pub fn tick(&mut self, context: &TickContext, insolation: Ratio) -> (r: Power)
        ensures
            *final(self) == old(self).ticked(context),
            r.microwatts == old(self).output(context, insolation),
            old(self).shields_active ==> r.microwatts == 0,
            insolation.ppb == 0 ==> r.microwatts == 0,
    {
        self.generator_state.tick(context);

        let damage: Damage = match self.generator_state {
            GeneratorState::Online { damage } => damage,
            _ => {
                return Power::zero();
            },
        };

        let lunar_phase: LunarPhase = LunarPhase::from_tick_context(context);

        match lunar_phase {
            LunarPhase::Day { .. } => {
                if !self.shields_active {
                    let current_potential_power: Power =
                        context.game_vars.solar_nominal_output.scaled_by(insolation);
                    proof {
                        use_type_invariant(&damage);
                        old(self).lemma_output_at_the_extremes(context, insolation);
                    }
                    damage.apply(current_potential_power)
                } else {
                    Power::zero()
                }
            },
            LunarPhase::Night { .. } => Power::zero(),
        }
    }
}

impl Default for SolarState {
    /// An array in service, without damage, with its shields down.
    fn default() -> (r: SolarState)
        ensures
            r.generator_state == (GeneratorState::Online { damage: Damage::with_ratio(0) }),
            !r.shields_active,
    {
        SolarState { generator_state: GeneratorState::default(), shields_active: false }
    }
}

} // verus!
