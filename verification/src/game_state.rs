//! The grid as a whole: the mission clock, every subsystem, and the
//! frequency that their balance drives.

use vstd::prelude::*;
use crate::battery::{Battery, BatteryMode};
use crate::damage::Damage;
use crate::event_state::EventState;
use crate::game_variables::GameVariables;
use crate::generator::GeneratorState;
use crate::lunar_phase::{phase_at, LunarPhase};
use crate::operations::OperationsState;
use crate::power::Power;
use crate::quantity::{
    abs_int, clamp_i64, clamp_u64, lemma_scaled_toward_zero, lemma_trunc_div_exact,
    lemma_trunc_div_remainder, lemma_trunc_div_toward_zero, saturate_i64, trunc_div, Frequency,
    Ratio, Time, RATIO_ONE,
};
use crate::reactor::Reactor;
use crate::solar::SolarState;
use crate::tick_context::TickContext;

verus! {

/// The mission time that one tick of the grid covers, in milliseconds.
pub const TICK_MILLIS: u64 = 1_000;

/// How far the grid frequency may stray from the nominal frequency before
/// the grid fails, in microhertz.
pub const FREQUENCY_TOLERANCE_MICROHERTZ: i64 = 500_000;

/// The whole state of a game.
pub struct GameState<'a> {
    /// The constants of this game.
    pub game_vars: &'a GameVariables,
    /// Mission time that the last tick has reached.
    pub mission_time: Time,
    /// Mission time at the end of the last tick.
    pub last_tick_time: Time,
    /// Power fed into the grid in the last tick.
    pub total_grid_supply: Power,
    /// Power drawn from the grid in the last tick.
    pub total_grid_demand: Power,
    /// Grid frequency.
    pub frequency_hz: Frequency,
    /// Damage to the colony; the game is lost when it is total.
    pub colony_damage: Ratio,
    /// Whether communications are up.
    pub comms_online: bool,
    /// Whether colony operations are up. While they are down they draw no
    /// power.
    pub operations_online: bool,
    /// Whether life support is in a state of emergency.
    pub life_support_emergency: bool,
    /// The solar array.
    pub solar: SolarState,
    /// The battery.
    pub battery: Battery,
    /// The reactor.
    pub reactor: Reactor,
    /// Life support boosts in store.
    pub boost_life_support: u32,
    /// Battery boosts in store.
    pub boost_battery: u32,
    /// Coolant boosts in store.
    pub boost_coolant: u32,
    /// Repair boosts in store.
    pub boost_repair: u32,
    /// The next micrometeorite shower.
    pub micrometeorite_event: EventState,
    /// The next lunar quake.
    pub lunar_quake_event: EventState,
    /// The next solar flare.
    pub solar_flare_event: EventState,
    /// Where the supply drop stands.
    pub supply_drop_flow_state: OperationsState,
}

/// The change of the grid frequency, in microhertz, over a tick of
/// `tick_millis` milliseconds in which demand exceeds supply by
/// `power_imbalance` microwatts. This is the swing equation: the rate of
/// change is the imbalance over `2 * H * Pnom / f0`.
///
/// The imbalance is first taken per unit of the nominal power and weighted
/// with the nominal frequency. That quotient is a frequency, and is held in
/// the range of the frequencies that can be represented. It is then
/// multiplied by the duration of the tick and divided by twice the inertia
/// constant. Both quotients are rounded toward zero.
///
/// Where the nominal power, the inertia constant or the nominal frequency is
/// zero, the frequency does not change.
pub open spec fn swing_step(power_imbalance: int, tick_millis: int, game_vars: GameVariables) -> int {
    let inertia = game_vars.system_inertia_h.millis as int;
    let nominal_power = game_vars.system_nominal_power_pnom.microwatts as int;
    let nominal_frequency = game_vars.nominal_frequency.microhertz as int;
    if nominal_power == 0 || inertia == 0 || nominal_frequency == 0 {
        0
    } else {
        let per_unit = clamp_i64(trunc_div(power_imbalance * nominal_frequency, nominal_power));
        trunc_div(per_unit * tick_millis, 2 * inertia)
    }
}

/// The grid frequency, in microhertz, after `ticks` ticks of `tick_millis`
/// milliseconds each, from the frequency `start` and under the same
/// imbalance throughout.
pub open spec fn frequency_after(
    start: int,
    power_imbalance: int,
    tick_millis: int,
    game_vars: GameVariables,
    ticks: nat,
) -> int
    decreases ticks,
{
    if ticks == 0 {
        start
    } else {
        clamp_i64(
            frequency_after(start, power_imbalance, tick_millis, game_vars, (ticks - 1) as nat)
                + swing_step(power_imbalance, tick_millis, game_vars),
        )
    }
}

/// The power, in microwatts, that colony operations draw: nothing while they
/// are offline, else their base demand, and the docking spike on top of it
/// while a supply drop docks.
pub open spec fn operations_demand(
    operations: OperationsState,
    operations_online: bool,
    game_vars: GameVariables,
) -> int {
    if !operations_online {
        0
    } else if operations is DockingInProgress {
        clamp_i64(
            game_vars.operations_base_power_demand.microwatts
                + game_vars.operations_docking_spike_power.microwatts,
        )
    } else {
        game_vars.operations_base_power_demand.microwatts as int
    }
}

/// On a grid in balance the swing equation leaves the frequency alone.
pub proof fn lemma_swing_step_of_balance(tick_millis: int, game_vars: GameVariables)
    ensures
        swing_step(0, tick_millis, game_vars) == 0,
{
    let inertia = game_vars.system_inertia_h.millis as int;
    let nominal_power = game_vars.system_nominal_power_pnom.microwatts as int;
    let nominal_frequency = game_vars.nominal_frequency.microhertz as int;
    if !(nominal_power == 0 || inertia == 0 || nominal_frequency == 0) {
        assert(0 * nominal_frequency == 0 && 0 * tick_millis == 0) by (nonlinear_arith);
        if nominal_power > 0 {
            lemma_trunc_div_toward_zero(0, nominal_power);
        } else {
            lemma_trunc_div_toward_zero(0, -nominal_power);
        }
        lemma_trunc_div_toward_zero(0, 2 * inertia);
    }
}

/// Where both quotients of the swing equation come out even, the step is the
/// closed form `power_imbalance * f0 * tick_millis / (2 * H * Pnom)` exactly:
/// `per_unit` stands for `power_imbalance * f0 / Pnom` and `step` for
/// `per_unit * tick_millis / (2 * H)`.
pub proof fn lemma_swing_step_closed_form(
    power_imbalance: int,
    tick_millis: int,
    game_vars: GameVariables,
    per_unit: int,
    step: int,
)
    requires
        game_vars.system_nominal_power_pnom.microwatts != 0,
        game_vars.system_inertia_h.millis != 0,
        game_vars.nominal_frequency.microhertz != 0,
        i64::MIN <= per_unit <= i64::MAX,
        power_imbalance * game_vars.nominal_frequency.microhertz == per_unit
            * game_vars.system_nominal_power_pnom.microwatts,
        per_unit * tick_millis == step * (2 * game_vars.system_inertia_h.millis),
    ensures
        swing_step(power_imbalance, tick_millis, game_vars) == step,
        step * (2 * game_vars.system_inertia_h.millis * game_vars.system_nominal_power_pnom.microwatts)
            == power_imbalance * game_vars.nominal_frequency.microhertz * tick_millis,
{
    let inertia = game_vars.system_inertia_h.millis as int;
    let nominal_power = game_vars.system_nominal_power_pnom.microwatts as int;
    let nominal_frequency = game_vars.nominal_frequency.microhertz as int;
    lemma_trunc_div_exact(per_unit, nominal_power);
    lemma_trunc_div_exact(step, 2 * inertia);
    assert(step * (2 * inertia * nominal_power) == power_imbalance * nominal_frequency
        * tick_millis) by (nonlinear_arith)
        requires
            power_imbalance * nominal_frequency == per_unit * nominal_power,
            per_unit * tick_millis == step * (2 * inertia),
    ;
}

/// The step of the swing equation is the closed form
/// `power_imbalance * f0 * tick_millis / (2 * H * Pnom)` but for the
/// rounding of its two quotients: as long as the first stays a frequency
/// that can be represented, the step is off by less than
/// `1 + tick_millis / (2 * H)` microhertz.
pub proof fn lemma_swing_step_accuracy(
    power_imbalance: int,
    tick_millis: int,
    game_vars: GameVariables,
)
    requires
        game_vars.system_nominal_power_pnom.microwatts != 0,
        game_vars.system_inertia_h.millis != 0,
        game_vars.nominal_frequency.microhertz != 0,
        tick_millis >= 0,
        i64::MIN <= trunc_div(
            power_imbalance * game_vars.nominal_frequency.microhertz,
            game_vars.system_nominal_power_pnom.microwatts as int,
        ) <= i64::MAX,
    ensures
        abs_int(
            swing_step(power_imbalance, tick_millis, game_vars) * (2
                * game_vars.system_inertia_h.millis
                * game_vars.system_nominal_power_pnom.microwatts) - power_imbalance
                * game_vars.nominal_frequency.microhertz * tick_millis,
        ) < abs_int(game_vars.system_nominal_power_pnom.microwatts as int) * (tick_millis + 2
            * game_vars.system_inertia_h.millis),
{
    let inertia = game_vars.system_inertia_h.millis as int;
    let nominal_power = game_vars.system_nominal_power_pnom.microwatts as int;
    let nominal_frequency = game_vars.nominal_frequency.microhertz as int;
    let weighted = power_imbalance * nominal_frequency;
    let per_unit = trunc_div(weighted, nominal_power);
    let step = trunc_div(per_unit * tick_millis, 2 * inertia);
    lemma_trunc_div_remainder(weighted, nominal_power);
    lemma_trunc_div_remainder(per_unit * tick_millis, 2 * inertia);
    let first_loss = weighted - per_unit * nominal_power;
    let second_loss = per_unit * tick_millis - step * (2 * inertia);
    let size = abs_int(nominal_power);
    assert(step * (2 * inertia * nominal_power) - weighted * tick_millis == -(first_loss
        * tick_millis) - second_loss * nominal_power) by (nonlinear_arith)
        requires
            first_loss == weighted - per_unit * nominal_power,
            second_loss == per_unit * tick_millis - step * (2 * inertia),
    ;
    assert(abs_int(first_loss * tick_millis) <= size * tick_millis) by (nonlinear_arith)
        requires
            abs_int(first_loss) < size,
            tick_millis >= 0,
    ;
    assert(abs_int(second_loss * nominal_power) < size * (2 * inertia)) by (nonlinear_arith)
        requires
            abs_int(second_loss) < 2 * inertia,
            size == abs_int(nominal_power),
            nominal_power != 0,
    ;
    assert(size * (tick_millis + 2 * inertia) == size * tick_millis + size * (2 * inertia))
        by (nonlinear_arith);
}

/// However many ticks pass on a grid in balance, the frequency stays where
/// it was.
pub proof fn lemma_balanced_grid_holds_frequency(
    start: int,
    tick_millis: int,
    game_vars: GameVariables,
    ticks: nat,
)
    requires
        i64::MIN <= start <= i64::MAX,
    ensures
        frequency_after(start, 0, tick_millis, game_vars, ticks) == start,
    decreases ticks,
{
    lemma_swing_step_of_balance(tick_millis, game_vars);
    if ticks > 0 {
        lemma_balanced_grid_holds_frequency(start, tick_millis, game_vars, (ticks - 1) as nat);
    }
}

/// Under a sustained imbalance the frequency changes by the same step in
/// every tick: after `ticks` ticks it has moved by `ticks` times the step,
/// as long as that is a frequency that can be represented.
pub proof fn lemma_sustained_imbalance(
    start: int,
    power_imbalance: int,
    tick_millis: int,
    game_vars: GameVariables,
    ticks: nat,
)
    requires
        i64::MIN <= start <= i64::MAX,
        i64::MIN <= start + ticks * swing_step(power_imbalance, tick_millis, game_vars) <= i64::MAX,
    ensures
        frequency_after(start, power_imbalance, tick_millis, game_vars, ticks) == start + ticks
            * swing_step(power_imbalance, tick_millis, game_vars),
    decreases ticks,
{
    let step = swing_step(power_imbalance, tick_millis, game_vars);
    if ticks > 0 {
        let before = (ticks - 1) as nat;
        assert(ticks * step == before * step + step) by (nonlinear_arith)
            requires
                before == ticks - 1,
        ;
        assert((step >= 0 ==> 0 <= before * step <= ticks * step) && (step <= 0 ==> ticks * step
            <= before * step <= 0)) by (nonlinear_arith)
            requires
                0 <= before <= ticks,
        ;
        lemma_sustained_imbalance(start, power_imbalance, tick_millis, game_vars, before);
    } else {
        assert(0 * step == 0) by (nonlinear_arith);
    }
}

impl<'a> GameState<'a> {
    /// The mission time that has passed since the end of the last tick; none
    /// if the clock stands behind it.
    pub open spec fn tick_duration(self) -> int {
        if self.mission_time.millis > self.last_tick_time.millis {
            self.mission_time.millis - self.last_tick_time.millis
        } else {
            0
        }
    }

    /// By how much demand exceeds supply, in microwatts.
    pub open spec fn power_imbalance(self) -> int {
        self.total_grid_demand.microwatts - self.total_grid_supply.microwatts
    }

    /// The grid frequency that the swing equation gives from the present
    /// frequency, the present imbalance and the time since the last tick.
    pub open spec fn next_frequency(self) -> Frequency {
        Frequency {
            microhertz: clamp_i64(
                self.frequency_hz.microhertz + swing_step(
                    self.power_imbalance(),
                    self.tick_duration(),
                    *self.game_vars,
                ),
            ) as i64,
        }
    }

    /// What the next tick hands to every subsystem: the clock moved on by
    /// one tick, and the time since the last tick.
    pub open spec fn next_context(self) -> TickContext<'a> {
        let mission_time = Time { millis: clamp_u64(self.mission_time.millis + TICK_MILLIS) as u64 };
        TickContext {
            game_vars: self.game_vars,
            mission_time,
            tick_delta: Time {
                millis: clamp_u64(mission_time.millis - self.last_tick_time.millis) as u64,
            },
        }
    }

    /// The state after the operations step of a tick: the supply drop has
    /// moved on and the demand is what operations draw.
    pub open spec fn operations_ticked(self, context: &TickContext) -> GameState<'a> {
        let operations = self.supply_drop_flow_state.ticked(context.mission_time);
        GameState {
            supply_drop_flow_state: operations,
            total_grid_demand: Power {
                microwatts: operations_demand(operations, self.operations_online, *self.game_vars) as i64,
            },
            ..self
        }
    }

    /// The state after one tick under the insolation `insolation`. The
    /// subsystems are advanced in a fixed order, each in the same context:
    /// the hazards, then demand, then supply, then the battery against the
    /// imbalance of the two, and last the frequency.
    pub open spec fn ticked(self, insolation: Ratio) -> GameState<'a> {
        let context = self.next_context();
        let demand_side = self.operations_ticked(&context);
        let solar_power = self.solar.output(&context, insolation);
        let reactor = self.reactor.ticked(&context);
        let supply = Power { microwatts: clamp_i64(solar_power + reactor.power_output.microwatts) as i64 };
        let demand = demand_side.total_grid_demand;
        let imbalance = Power { microwatts: clamp_i64(demand.microwatts - supply.microwatts) as i64 };
        let battery_power = self.battery.tick_power(&context, imbalance);
        let balanced = GameState {
            mission_time: context.mission_time,
            micrometeorite_event: self.micrometeorite_event.ticked(context.mission_time),
            lunar_quake_event: self.lunar_quake_event.ticked(context.mission_time),
            solar_flare_event: self.solar_flare_event.ticked(context.mission_time),
            solar: self.solar.ticked(&context),
            reactor,
            battery: self.battery.ticked(&context, imbalance),
            total_grid_demand: if battery_power.microwatts > 0 {
                Power { microwatts: clamp_i64(demand.microwatts + battery_power.microwatts) as i64 }
            } else {
                demand
            },
            total_grid_supply: if battery_power.microwatts < 0 {
                Power {
                    microwatts: clamp_i64(supply.microwatts + clamp_i64(-battery_power.microwatts)) as i64,
                }
            } else {
                supply
            },
            ..demand_side
        };
        GameState {
            frequency_hz: balanced.next_frequency(),
            last_tick_time: context.mission_time,
            ..balanced
        }
    }

    /// The frequency update of a tick is one step of the swing equation, and
    /// leaves the frequency alone on a grid in balance.
    pub proof fn lemma_next_frequency(self)
        ensures
            self.next_frequency().microhertz == frequency_after(
                self.frequency_hz.microhertz as int,
                self.power_imbalance(),
                self.tick_duration(),
                *self.game_vars,
                1,
            ),
            self.total_grid_demand == self.total_grid_supply ==> self.next_frequency()
                == self.frequency_hz,
    {
        reveal_with_fuel(frequency_after, 2);
        lemma_swing_step_of_balance(self.tick_duration(), *self.game_vars);
    }

    /// The state at the start of a game: the clock at zero, the grid at its
    /// nominal frequency with nothing flowing, the colony unharmed, every
    /// generator in service without damage, the battery full, the reactor
    /// idle, no hazard due and no supply drop under way.
    pub fn new(game_vars: &'a GameVariables) -> (r: GameState<'a>)
        ensures
            r.game_vars == game_vars,
            r.mission_time.millis == 0,
            r.last_tick_time.millis == 0,
            r.total_grid_supply.microwatts == 0,
            r.total_grid_demand.microwatts == 0,
            r.frequency_hz == game_vars.nominal_frequency,
            r.colony_damage.ppb == 0,
            r.comms_online && r.operations_online && !r.life_support_emergency,
            r.solar.generator_state == (GeneratorState::Online { damage: Damage::with_ratio(0) }),
            !r.solar.shields_active,
            r.battery.generator_state == (GeneratorState::Online { damage: Damage::with_ratio(0) }),
            r.battery.charge == game_vars.battery_capacity,
            r.battery.mode == BatteryMode::Auto,
            game_vars.battery_capacity.nanojoules >= 0 ==> r.battery.wf(*game_vars),
            r.reactor.generator_state == (GeneratorState::Online { damage: Damage::with_ratio(0) }),
            r.reactor.power_output.microwatts == 0,
            r.reactor.target_power_output.microwatts == 0,
            r.boost_life_support == 0 && r.boost_battery == 0 && r.boost_coolant == 0
                && r.boost_repair == 0,
            r.micrometeorite_event == EventState::Dormant,
            r.lunar_quake_event == EventState::Dormant,
            r.solar_flare_event == EventState::Dormant,
            r.supply_drop_flow_state == OperationsState::Dormant,
    {
        proof {
            Damage::lemma_with_ratio(0);
            lemma_scaled_toward_zero(game_vars.battery_capacity.nanojoules as int, RATIO_ONE as int);
        }
        GameState {
            game_vars,
            mission_time: Time { millis: 0 },
            last_tick_time: Time { millis: 0 },
            total_grid_supply: Power::zero(),
            total_grid_demand: Power::zero(),
            frequency_hz: game_vars.nominal_frequency,
            colony_damage: Ratio { ppb: 0 },
            comms_online: true,
            operations_online: true,
            life_support_emergency: false,
            solar: SolarState::default(),
            battery: Battery {
                generator_state: GeneratorState::default(),
                charge: game_vars.battery_capacity,
                mode: BatteryMode::Auto,
            },
            reactor: Reactor::default(),
            boost_life_support: 0,
            boost_battery: 0,
            boost_coolant: 0,
            boost_repair: 0,
            micrometeorite_event: EventState::Dormant,
            lunar_quake_event: EventState::Dormant,
            solar_flare_event: EventState::Dormant,
            supply_drop_flow_state: OperationsState::new(),
        }
    }

    /// What the next tick will hand to every subsystem. It gives the mission
    /// time for which that tick wants the insolation.
    pub fn next_tick_context(&self) -> (r: TickContext<'a>)
        ensures
            r == self.next_context(),
    {
        let mission_time = self.mission_time.saturating_add(Time::new(TICK_MILLIS));
        TickContext {
            game_vars: self.game_vars,
            mission_time,
            tick_delta: mission_time.saturating_sub(self.last_tick_time),
        }
    }

    /// The phase of the lunar day at the present mission time.
    pub fn lunar_phase_and_time(&self) -> (r: LunarPhase)
        ensures
            r == phase_at(self.mission_time, self.game_vars.mission_time_per_lunar_time),
            r.wf(),
    {
        let context = TickContext {
            game_vars: self.game_vars,
            mission_time: self.mission_time,
            tick_delta: Time { millis: 0 },
        };
        LunarPhase::from_tick_context(&context)
    }

    /// Whether the game is lost: the damage to the colony is total, or the
    /// grid frequency is more than half a hertz off the nominal frequency.
    pub fn is_game_over(&self) -> (r: bool)
        ensures
            r == (self.colony_damage.ppb >= RATIO_ONE || abs_int(
                self.frequency_hz.microhertz - self.game_vars.nominal_frequency.microhertz,
            ) > FREQUENCY_TOLERANCE_MICROHERTZ),
    {
        let deviation: i128 = self.frequency_hz.microhertz as i128
            - self.game_vars.nominal_frequency.microhertz as i128;
        let magnitude: i128 = if deviation < 0 {
            -deviation
        } else {
            deviation
        };
        self.colony_damage.ppb >= RATIO_ONE || magnitude > FREQUENCY_TOLERANCE_MICROHERTZ as i128
    }

    /// The grid frequency that follows from the present one by the swing
    /// equation. A clock that stands behind the end of the last tick counts
    /// as a tick of no duration.
    pub fn tick_frequency_hz(&self) -> (r: Frequency)
        ensures
            r == self.next_frequency(),
    {
        let delta_p: i128 = self.total_grid_demand.microwatts as i128
            - self.total_grid_supply.microwatts as i128;
        let h: u64 = self.game_vars.system_inertia_h.millis;
        let pnom: i64 = self.game_vars.system_nominal_power_pnom.microwatts;
        let f0: i64 = self.game_vars.nominal_frequency.microhertz;

        let tick_duration: u64 = if self.mission_time.millis > self.last_tick_time.millis {
            self.mission_time.millis - self.last_tick_time.millis
        } else {
            0
        };

        let step: i128 = if pnom == 0 || h == 0 || f0 == 0 {
            0
        } else {
            assert(-0xffff_ffff_ffff_ffff * 0x8000_0000_0000_0000 <= delta_p * f0
                <= 0xffff_ffff_ffff_ffff * 0x8000_0000_0000_0000) by (nonlinear_arith)
                requires
                    -0xffff_ffff_ffff_ffff <= delta_p <= 0xffff_ffff_ffff_ffff,
                    -0x8000_0000_0000_0000 <= f0 <= 0x8000_0000_0000_0000,
            ;
            let weighted: i128 = delta_p * (f0 as i128);
            let quotient: i128 = if pnom > 0 {
                weighted / (pnom as i128)
            } else {
                proof {
                    lemma_trunc_div_toward_zero(weighted as int, -(pnom as int));
                }
                -(weighted / (-(pnom as i128)))
            };
            let per_unit: i64 = saturate_i64(quotient);
            assert(-0x8000_0000_0000_0000 * 0xffff_ffff_ffff_ffff <= per_unit * tick_duration
                <= 0x8000_0000_0000_0000 * 0xffff_ffff_ffff_ffff) by (nonlinear_arith)
                requires
                    -0x8000_0000_0000_0000 <= per_unit <= 0x8000_0000_0000_0000,
                    0 <= tick_duration <= 0xffff_ffff_ffff_ffff,
            ;
            let spread: i128 = (per_unit as i128) * (tick_duration as i128);
            proof {
                lemma_trunc_div_toward_zero(spread as int, 2 * (h as int));
            }
            spread / (2 * (h as i128))
        };
        Frequency { microhertz: saturate_i64(self.frequency_hz.microhertz as i128 + step) }
    }

    /// The operations step of a tick: moves the supply drop on, sets the
    /// demand on the grid to what operations draw, and returns whether a
    /// docking has just been completed. What the colony gains from a
    /// completed docking is for the caller to award.
    pub fn tick_operations(&mut self, context: &TickContext) -> (docking_completed: bool)
        ensures
            *final(self) == old(self).operations_ticked(context),
            docking_completed == old(self).supply_drop_flow_state.docking_completes(
                context.mission_time,
            ),
    {
        let docking_completed = self.supply_drop_flow_state.tick(context);
        let demand: Power = if !self.operations_online {
            Power::zero()
        } else {
            match self.supply_drop_flow_state {
                OperationsState::DockingInProgress { .. } =>
                    self.game_vars.operations_base_power_demand.saturating_add(
                        self.game_vars.operations_docking_spike_power,
                    ),
                _ => self.game_vars.operations_base_power_demand,
            }
        };
        self.total_grid_demand = demand;
        docking_completed
    }

    /// Advances the whole grid by one tick of one second of mission time,
    /// and returns whether a docking has just been completed.
    ///
    /// `insolation` is the intensity of the sun on the solar array at the
    /// mission time that this tick reaches, as a ratio of the full sun; see
    /// `SolarState::tick`.
    ///
    /// The tick never ends the game by itself: ask `is_game_over` after it.
    pub fn tick(&mut self, insolation: Ratio) -> (docking_completed: bool)
        ensures
            *final(self) == old(self).ticked(insolation),
            docking_completed == old(self).supply_drop_flow_state.docking_completes(
                old(self).next_context().mission_time,
            ),
            final(self).mission_time.millis >= old(self).mission_time.millis,
            final(self).last_tick_time == final(self).mission_time,
            old(self).battery.wf(*old(self).game_vars) ==> final(self).battery.wf(
                *final(self).game_vars,
            ),
    {
        let context = self.next_tick_context();
        self.mission_time = context.mission_time;

        self.micrometeorite_event.tick(&context);
        self.lunar_quake_event.tick(&context);
        self.solar_flare_event.tick(&context);

        let docking_completed = self.tick_operations(&context);

        let solar_power = self.solar.tick(&context, insolation);
        let reactor_power = self.reactor.tick(&context);
        self.total_grid_supply = solar_power.saturating_add(reactor_power);

        let power_imbalance = self.total_grid_demand.saturating_sub(self.total_grid_supply);
        let power_consumed_by_battery = self.battery.tick(&context, power_imbalance);
        if power_consumed_by_battery.microwatts > 0 {
            self.total_grid_demand = self.total_grid_demand.saturating_add(
                power_consumed_by_battery,
            );
        } else if power_consumed_by_battery.microwatts < 0 {
            self.total_grid_supply = self.total_grid_supply.saturating_add(
                power_consumed_by_battery.saturating_neg(),
            );
        }
        self.frequency_hz = self.tick_frequency_hz();

        self.last_tick_time = self.mission_time;
        docking_completed
    }
}

} // verus!
