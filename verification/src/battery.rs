//! The battery: the grid's energy buffer.

use vstd::prelude::*;
use crate::damage::Damage;
use crate::game_variables::GameVariables;
use crate::generator::GeneratorState;
use crate::power::Power;
use crate::quantity::{
    abs_int, clamp_i64, lemma_scaled_toward_zero, lemma_trunc_div_remainder,
    lemma_trunc_div_toward_zero, min_int, saturate_i64, trunc_div, Energy, RATIO_ONE,
};
use crate::tick_context::TickContext;

verus! {

/// What the operator has set the battery to do.
#[derive(Debug, Clone, Copy, PartialEq, Eq, Structural)]
pub enum BatteryMode {
    /// Charge from a surplus, discharge into a deficit.
    Auto,
    /// Charge from a surplus, and do nothing else.
    Charge,
    /// Discharge into a deficit, and do nothing else.
    Discharge,
}

/// What the battery does in one tick.
#[derive(Debug, Clone, Copy, PartialEq, Eq, Structural)]
pub enum BatteryOperation {
    /// Take energy from the grid.
    Charge,
    /// Give energy to the grid.
    Discharge,
}

/// The battery: its health, the energy it holds, and its mode.
#[derive(Debug, Clone, Copy, PartialEq, Eq)]
pub struct Battery {
    /// Health of the battery.
    pub generator_state: GeneratorState,
    /// Energy that the battery holds.
    pub charge: Energy,
    /// What the operator has set the battery to do.
    pub mode: BatteryMode,
}

/// What a battery in mode `mode` sets out to do on a grid whose demand
/// exceeds its supply by `power_imbalance`: it charges from a surplus and
/// discharges into a deficit, as far as its mode lets it.
pub open spec fn intended_operation(mode: BatteryMode, power_imbalance: Power) -> Option<
    BatteryOperation,
> {
    if mode != BatteryMode::Discharge && power_imbalance.microwatts < 0 {
        Some(BatteryOperation::Charge)
    } else if mode != BatteryMode::Charge && power_imbalance.microwatts > 0 {
        Some(BatteryOperation::Discharge)
    } else {
        None
    }
}

/// The energy, in nanojoules, that flows into the battery in one tick
/// (negative: out of it). A charge takes what the tick can move, up to the
/// room that is left; a discharge gives what the tick can move, up to what
/// is stored.
pub open spec fn transferred_energy(
    operation: Option<BatteryOperation>,
    effective_capacity: int,
    charge: int,
    max_transferable: int,
) -> int {
    match operation {
        Some(BatteryOperation::Charge) => min_int(effective_capacity - charge, max_transferable),
        Some(BatteryOperation::Discharge) => -min_int(charge, max_transferable),
        None => 0,
    }
}

impl Battery {
    /// The energy, in nanojoules, that the battery can hold under `damage`.
    pub open spec fn effective_capacity(damage: Damage, game_vars: GameVariables) -> int {
        damage.applied(game_vars.battery_capacity.nanojoules as int)
    }

    /// The charge is not negative and within the capacity, and while the
    /// battery is in service within what its damage leaves of the capacity.
    pub open spec fn wf(self, game_vars: GameVariables) -> bool {
        &&& 0 <= self.charge.nanojoules <= game_vars.battery_capacity.nanojoules
        &&& self.generator_state.wf()
        &&& self.generator_state matches GeneratorState::Online { damage }
            ==> self.charge.nanojoules <= Battery::effective_capacity(damage, game_vars)
    }

    /// The energy, in nanojoules, that one tick moves into the battery
    /// (negative: out of it). Nothing moves unless the battery is in service
    /// once its health has been advanced.
    pub open spec fn tick_transfer(self, context: &TickContext, power_imbalance: Power) -> int {
        match self.generator_state.ticked(context.mission_time) {
            GeneratorState::Online { damage } => transferred_energy(
                intended_operation(self.mode, power_imbalance),
                Battery::effective_capacity(damage, *context.game_vars),
                self.charge.nanojoules as int,
                context.tick_delta.millis * abs_int(power_imbalance.microwatts as int),
            ),
            _ => 0,
        }
    }

    /// The battery after one tick.
    pub open spec fn ticked(self, context: &TickContext, power_imbalance: Power) -> Battery {
        Battery {
            generator_state: self.generator_state.ticked(context.mission_time),
            charge: Energy {
                nanojoules: (self.charge.nanojoules + self.tick_transfer(context, power_imbalance)) as i64,
            },
            mode: self.mode,
        }
    }

    /// The power that the battery takes from the grid over one tick
    /// (negative: feeds into it): the energy moved, spread over the tick and
    /// rounded toward zero. A tick of no duration takes no power.
    pub open spec fn tick_power(self, context: &TickContext, power_imbalance: Power) -> Power {
        if context.tick_delta.millis == 0 {
            Power { microwatts: 0 }
        } else {
            Power {
                microwatts: clamp_i64(
                    trunc_div(
                        self.tick_transfer(context, power_imbalance),
                        context.tick_delta.millis as int,
                    ),
                ) as i64,
            }
        }
    }

    /// Sets what the battery is to do from the next tick on.
    pub fn set_mode(&mut self, new_mode: BatteryMode)
        ensures
            final(self).mode == new_mode,
            final(self).generator_state == old(self).generator_state,
            final(self).charge == old(self).charge,
    {
        self.mode = new_mode;
    }

    /// Advances the battery by one tick on a grid whose demand exceeds its
    /// supply by `power_imbalance` before the battery acts (negative: a
    /// surplus). Returns the power that the battery takes from the grid:
    /// positive while it charges, negative while it discharges.
    ///
    /// The transfer is cut to size before it is made, so the charge never
    /// leaves the range from empty to the effective capacity. Damage shrinks
    /// that capacity and nothing else: in every mode a damaged battery in
    /// service moves energy at the full rate of the imbalance.
    pub fn tick(&mut self, context: &TickContext, power_imbalance: Power) -> (r: Power)
        ensures
            *final(self) == old(self).ticked(context, power_imbalance),
            r == old(self).tick_power(context, power_imbalance),
            old(self).wf(*context.game_vars) ==> final(self).wf(*context.game_vars),
    {
        proof {
            if old(self).wf(*context.game_vars) {
                old(self).lemma_charge_within_bounds(context, power_imbalance);
            }
        }
        self.generator_state.tick(context);

        let operation: Option<BatteryOperation> = if power_imbalance.microwatts < 0 {
            match self.mode {
                BatteryMode::Charge | BatteryMode::Auto => Some(BatteryOperation::Charge),
                BatteryMode::Discharge => None,
            }
        } else if power_imbalance.microwatts > 0 {
            match self.mode {
                BatteryMode::Discharge | BatteryMode::Auto => Some(BatteryOperation::Discharge),
                BatteryMode::Charge => None,
            }
        } else {
            None
        };

        let damage: Damage = match self.generator_state {
            GeneratorState::Online { damage } => damage,
            _ => {
                return Power::zero();
            },
        };

        proof {
            use_type_invariant(&damage);
            // The new charge is an energy: it is cast without loss below.
            old(self).lemma_charge_fits(context, power_imbalance);
        }
        let effective_capacity: Energy = damage.apply(context.game_vars.battery_capacity);
        let magnitude: i128 = if power_imbalance.microwatts < 0 {
            -(power_imbalance.microwatts as i128)
        } else {
            power_imbalance.microwatts as i128
        };
        let tick_millis: i128 = context.tick_delta.millis as i128;
        assert(0 <= tick_millis * magnitude <= 0xffff_ffff_ffff_ffff * 0x8000_0000_0000_0000)
            by (nonlinear_arith)
            requires
                0 <= tick_millis <= 0xffff_ffff_ffff_ffff,
                0 <= magnitude <= 0x8000_0000_0000_0000,
        ;
        let max_transferable: i128 = tick_millis * magnitude;

        let transferred: i128 = match operation {
            Some(BatteryOperation::Charge) => {
                let remaining_capacity: i128 = effective_capacity.nanojoules as i128
                    - self.charge.nanojoules as i128;
                if remaining_capacity <= max_transferable {
                    remaining_capacity
                } else {
                    max_transferable
                }
            },
            Some(BatteryOperation::Discharge) => {
                if self.charge.nanojoules as i128 <= max_transferable {
                    -(self.charge.nanojoules as i128)
                } else {
                    -max_transferable
                }
            },
            None => 0,
        };
        let new_charge: i128 = self.charge.nanojoules as i128 + transferred;
        assert(i64::MIN <= new_charge <= i64::MAX);
        self.charge = Energy { nanojoules: new_charge as i64 };

        if context.tick_delta.millis == 0 {
            Power::zero()
        } else {
            Power { microwatts: saturate_i64(transferred / tick_millis) }
        }
    }

    /// The charge after a tick lies between the charge before it and the
    /// bound that the transfer was cut to, so it is representable.
    pub proof fn lemma_charge_fits(self, context: &TickContext, power_imbalance: Power)
        requires
            self.generator_state.ticked(context.mission_time).wf(),
        ensures
            i64::MIN <= self.charge.nanojoules + self.tick_transfer(context, power_imbalance)
                <= i64::MAX,
    {
        let max_transferable = context.tick_delta.millis * abs_int(power_imbalance.microwatts as int);
        assert(0 <= max_transferable) by (nonlinear_arith)
            requires
                max_transferable == context.tick_delta.millis * abs_int(
                    power_imbalance.microwatts as int,
                ),
                0 <= context.tick_delta.millis,
                0 <= abs_int(power_imbalance.microwatts as int),
        ;
        match self.generator_state.ticked(context.mission_time) {
            GeneratorState::Online { damage } => {
                lemma_scaled_toward_zero(
                    context.game_vars.battery_capacity.nanojoules as int,
                    RATIO_ONE - damage.ratio(),
                );
            },
            _ => {},
        }
    }

    /// A charge within its bounds stays within them over a tick: charging
    /// never goes past the effective capacity, however large the surplus,
    /// and discharging never goes below empty, however large the deficit.
    pub proof fn lemma_charge_within_bounds(self, context: &TickContext, power_imbalance: Power)
        requires
            self.wf(*context.game_vars),
        ensures
            self.ticked(context, power_imbalance).wf(*context.game_vars),
    {
        let max_transferable = context.tick_delta.millis * abs_int(power_imbalance.microwatts as int);
        assert(0 <= max_transferable) by (nonlinear_arith)
            requires
                max_transferable == context.tick_delta.millis * abs_int(
                    power_imbalance.microwatts as int,
                ),
                0 <= context.tick_delta.millis,
                0 <= abs_int(power_imbalance.microwatts as int),
        ;
        Damage::lemma_with_ratio(0);
        match self.generator_state.ticked(context.mission_time) {
            GeneratorState::Online { damage } => {
                lemma_scaled_toward_zero(
                    context.game_vars.battery_capacity.nanojoules as int,
                    RATIO_ONE - damage.ratio(),
                );
            },
            _ => {},
        }
    }

    /// The battery after the ticks `ticks`, one after the other: each is a
    /// context with the imbalance that the grid had in it.
    pub open spec fn run(self, ticks: Seq<(TickContext, Power)>) -> Battery
        decreases ticks.len(),
    {
        if ticks.len() == 0 {
            self
        } else {
            self.run(ticks.drop_last()).ticked(&ticks.last().0, ticks.last().1)
        }
    }

    /// Whatever ticks a game consists of, a charge that starts within its
    /// bounds is within them after every one of the ticks.
    pub proof fn lemma_charge_always_within_bounds(
        self,
        game_vars: GameVariables,
        ticks: Seq<(TickContext, Power)>,
    )
        requires
            self.wf(game_vars),
            forall|i: int| 0 <= i < ticks.len() ==> *(#[trigger] ticks[i]).0.game_vars == game_vars,
        ensures
            forall|n: int| 0 <= n <= ticks.len() ==> (#[trigger] self.run(ticks.take(n))).wf(game_vars),
        decreases ticks.len(),
    {
        assert forall|n: int| 0 <= n <= ticks.len() implies (#[trigger] self.run(ticks.take(n))).wf(
            game_vars,
        ) by {
            if n == ticks.len() {
                assert(ticks.take(n) == ticks);
                if n > 0 {
                    let before = ticks.drop_last();
                    self.lemma_charge_always_within_bounds(game_vars, before);
                    assert(before.take(n - 1) == before);
                    assert(*ticks.last().0.game_vars == game_vars);
                    self.run(before).lemma_charge_within_bounds(&ticks.last().0, ticks.last().1);
                }
            } else {
                let before = ticks.drop_last();
                self.lemma_charge_always_within_bounds(game_vars, before);
                assert(before.take(n) == ticks.take(n));
            }
        }
    }

    /// The battery works against the imbalance and never past it. A battery
    /// whose charge is within its bounds takes no more power than the
    /// surplus and feeds in no more than the deficit, and the energy that
    /// this power carries over the tick is what the charge changed by, less
    /// what the rounding of the power lost: that is less than one nanojoule
    /// for each millisecond of the tick.
    pub proof fn lemma_power_follows_transfer(self, context: &TickContext, power_imbalance: Power)
        requires
            self.wf(*context.game_vars),
        ensures
            power_imbalance.microwatts >= 0 ==> -power_imbalance.microwatts <= self.tick_power(
                context,
                power_imbalance,
            ).microwatts <= 0,
            power_imbalance.microwatts <= 0 ==> 0 <= self.tick_power(
                context,
                power_imbalance,
            ).microwatts <= -power_imbalance.microwatts,
            self.ticked(context, power_imbalance).charge.nanojoules - self.charge.nanojoules
                == self.tick_transfer(context, power_imbalance),
            context.tick_delta.millis > 0 ==> abs_int(
                self.tick_transfer(context, power_imbalance) - self.tick_power(
                    context,
                    power_imbalance,
                ).microwatts * context.tick_delta.millis,
            ) < context.tick_delta.millis,
    {
        let dt = context.tick_delta.millis as int;
        let magnitude = abs_int(power_imbalance.microwatts as int);
        let transfer = self.tick_transfer(context, power_imbalance);
        Damage::lemma_with_ratio(0);
        self.lemma_charge_fits(context, power_imbalance);
        self.lemma_charge_within_bounds(context, power_imbalance);
        assert(0 <= dt * magnitude) by (nonlinear_arith)
            requires
                0 <= dt,
                0 <= magnitude,
        ;
        match self.generator_state.ticked(context.mission_time) {
            GeneratorState::Online { damage } => {
                lemma_scaled_toward_zero(
                    context.game_vars.battery_capacity.nanojoules as int,
                    RATIO_ONE - damage.ratio(),
                );
            },
            _ => {},
        }
        assert(abs_int(transfer) <= dt * magnitude);
        if dt > 0 {
            lemma_trunc_div_toward_zero(transfer, dt);
            lemma_trunc_div_remainder(transfer, dt);
            let quotient = trunc_div(transfer, dt);
            assert(abs_int(quotient) <= magnitude) by (nonlinear_arith)
                requires
                    dt > 0,
                    abs_int(transfer - quotient * dt) < dt,
                    abs_int(transfer) <= dt * magnitude,
                    transfer >= 0 ==> 0 <= quotient <= transfer,
                    transfer <= 0 ==> transfer <= quotient <= 0,
            ;
        }
    }

    /// Energy is conserved where the tick is not cut short. A battery in
    /// service that charges from a surplus `-power_imbalance`, with room for
    /// all that the surplus delivers in the tick, stores exactly the surplus
    /// times the duration of the tick and takes exactly the surplus from the
    /// grid. One that discharges into a deficit which it can cover for the
    /// whole tick gives up exactly the deficit times the duration and feeds
    /// exactly the deficit into the grid.
    pub proof fn lemma_full_transfer(self, context: &TickContext, power_imbalance: Power)
        requires
            self.wf(*context.game_vars),
            context.tick_delta.millis > 0,
            self.generator_state.ticked(context.mission_time) is Online,
        ensures
            ({
                let damage = self.generator_state.ticked(context.mission_time)->damage;
                let surplus = -power_imbalance.microwatts;
                let room = Battery::effective_capacity(damage, *context.game_vars)
                    - self.charge.nanojoules;
                intended_operation(self.mode, power_imbalance) == Some(BatteryOperation::Charge)
                    && surplus * context.tick_delta.millis <= room ==> {
                    &&& self.ticked(context, power_imbalance).charge.nanojoules
                        == self.charge.nanojoules + surplus * context.tick_delta.millis
                    &&& self.tick_power(context, power_imbalance).microwatts == surplus
                }
            }),
            ({
                let deficit = power_imbalance.microwatts;
                intended_operation(self.mode, power_imbalance) == Some(BatteryOperation::Discharge)
                    && deficit * context.tick_delta.millis <= self.charge.nanojoules ==> {
                    &&& self.ticked(context, power_imbalance).charge.nanojoules
                        == self.charge.nanojoules - deficit * context.tick_delta.millis
                    &&& self.tick_power(context, power_imbalance).microwatts == -deficit
                }
            }),
    {
        let dt = context.tick_delta.millis as int;
        let magnitude = abs_int(power_imbalance.microwatts as int);
        assert((magnitude * dt) / dt == magnitude && dt * magnitude == magnitude * dt
            && magnitude * dt >= magnitude) by (nonlinear_arith)
            requires
                dt > 0,
                magnitude >= 0,
        ;
        Damage::lemma_with_ratio(0);
        self.lemma_charge_fits(context, power_imbalance);
    }
}

impl Default for BatteryMode {
    /// The battery decides by itself.
    fn default() -> (r: BatteryMode)
        ensures
            r == BatteryMode::Auto,
    {
        BatteryMode::Auto
    }
}

impl Default for Battery {
    /// An empty battery in service, without damage, that decides by itself.
    fn default() -> (r: Battery)
        ensures
            r.generator_state == (GeneratorState::Online { damage: Damage::with_ratio(0) }),
            r.charge.nanojoules == 0,
            r.mode == BatteryMode::Auto,
    {
        Battery {
            generator_state: GeneratorState::default(),
            charge: Energy { nanojoules: 0 },
            mode: BatteryMode::Auto,
        }
    }
}

} // verus!
