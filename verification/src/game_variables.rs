//! The balancing constants of a game.

use vstd::prelude::*;
use crate::power::{Power, PowerRate};
use crate::quantity::{Energy, Frequency, Ratio, Time};

verus! {

/// The constants that balance a game. They are set once, before the first
/// tick, and every subsystem reads them through the tick context.
#[derive(Debug, Clone, Copy, PartialEq, Eq, Structural)]
pub struct GameVariables {
    /// System inertia constant H.
    pub system_inertia_h: Time,
    /// Nominal power capacity of the whole system.
    pub system_nominal_power_pnom: Power,
    /// Nominal grid frequency.
    pub nominal_frequency: Frequency,
    /// Mission time that passes per unit of lunar time.
    pub mission_time_per_lunar_time: Ratio,
    /// Time that the repair of a generator from total damage takes.
    pub repair_time: Time,
    /// Output of the undamaged solar array under full sun.
    pub solar_nominal_output: Power,
    /// Capacity of the undamaged battery.
    pub battery_capacity: Energy,
    /// Output of the undamaged reactor at full power.
    pub reactor_nominal_output: Power,
    /// Fastest change of the reactor's output.
    pub reactor_power_ramp_rate: PowerRate,
    /// Highest coolant level of the reactor.
    pub reactor_max_coolant_percentage: Ratio,
    /// Coolant refilled per second.
    pub reactor_coolant_refill_rate: Ratio,
    /// Coolant effectiveness lost per unit of reactor damage.
    pub coolant_effectiveness_reduction_rate: Ratio,
    /// Colony damage that life support repairs per second.
    pub colony_damage_repair_rate: Ratio,
    /// Colony damage that a life support emergency adds per second.
    pub colony_damage_rate_emergency: Ratio,
    /// Power that life support draws at the start.
    pub life_support_base_power_demand: Power,
    /// Growth of life support's draw per in-game day.
    pub life_support_power_demand_increase: Power,
    /// Power that communications draw.
    pub comms_power_demand: Power,
    /// Damage of a micrometeorite strike to the unshielded solar array.
    pub micrometeorite_damage_solar: Ratio,
    /// Damage of a lunar quake to the reactor.
    pub lunar_quake_damage_reactor: Ratio,
    /// Damage of a lunar quake to the battery.
    pub lunar_quake_damage_battery: Ratio,
    /// Damage of a solar flare to the unshielded solar array.
    pub solar_flare_damage_solar_array: Ratio,
    /// Damage of a solar flare's power spike to the battery.
    pub solar_flare_spike_damage_battery: Ratio,
    /// Power that operations draw while nothing docks.
    pub operations_base_power_demand: Power,
    /// Power that operations draw on top of that while a supply drop docks.
    pub operations_docking_spike_power: Power,
    /// Length of the docking power spike.
    pub operations_docking_spike_duration: Time,
    /// Time between two supply drops.
    pub supply_drop_interval: Time,
    /// Time that docking takes.
    pub supply_drop_docking_duration: Time,
    /// Colony damage that a life support boost repairs.
    pub boost_life_support_amount: Ratio,
    /// Charge that a battery boost adds.
    pub boost_battery_amount: Ratio,
    /// Coolant that a coolant boost adds.
    pub boost_coolant_amount: Ratio,
    /// Damage that a repair boost removes.
    pub boost_repair_amount: Ratio,
}

impl GameVariables {
    /// The constants of the standard game.
    pub open spec fn standard() -> GameVariables {
        GameVariables {
            system_inertia_h: Time { millis: 10_000 },
            system_nominal_power_pnom: Power { microwatts: 1_000_000_000 },
            nominal_frequency: Frequency { microhertz: 50_000_000 },
            mission_time_per_lunar_time: Ratio { ppb: 23_540 },
            repair_time: Time { millis: 2_000 },
            solar_nominal_output: Power { microwatts: 100_000_000 },
            battery_capacity: Energy { nanojoules: 720_000_000_000_000_000 },
            reactor_nominal_output: Power { microwatts: 500_000_000 },
            reactor_power_ramp_rate: PowerRate { microwatts_per_milli: 50_000 },
            reactor_max_coolant_percentage: Ratio { ppb: 1_000_000_000 },
            reactor_coolant_refill_rate: Ratio { ppb: 10_000_000 },
            coolant_effectiveness_reduction_rate: Ratio { ppb: 5_000_000 },
            colony_damage_repair_rate: Ratio { ppb: 1_000_000 },
            colony_damage_rate_emergency: Ratio { ppb: 5_000_000 },
            life_support_base_power_demand: Power { microwatts: 100_000_000 },
            life_support_power_demand_increase: Power { microwatts: 5_000_000 },
            comms_power_demand: Power { microwatts: 20_000_000 },
            micrometeorite_damage_solar: Ratio { ppb: 100_000_000 },
            lunar_quake_damage_reactor: Ratio { ppb: 150_000_000 },
            lunar_quake_damage_battery: Ratio { ppb: 100_000_000 },
            solar_flare_damage_solar_array: Ratio { ppb: 200_000_000 },
            solar_flare_spike_damage_battery: Ratio { ppb: 100_000_000 },
            operations_base_power_demand: Power { microwatts: 30_000_000 },
            operations_docking_spike_power: Power { microwatts: 100_000_000 },
            operations_docking_spike_duration: Time { millis: 5_000 },
            supply_drop_interval: Time { millis: 60_000 },
            supply_drop_docking_duration: Time { millis: 10_000 },
            boost_life_support_amount: Ratio { ppb: 100_000_000 },
            boost_battery_amount: Ratio { ppb: 200_000_000 },
            boost_coolant_amount: Ratio { ppb: 200_000_000 },
            boost_repair_amount: Ratio { ppb: 100_000_000 },
        }
    }
}

impl Default for GameVariables {
    /// The constants of the standard game: one mission minute to the lunar
    /// day, a 50 Hz grid of 1 kW with 10 s of inertia, a 100 W solar array,
    /// a 500 W reactor and a 200 kWh battery.
    fn default() -> (r: GameVariables)
        ensures
            r == GameVariables::standard(),
    {
        GameVariables {
            system_inertia_h: Time { millis: 10_000 },
            system_nominal_power_pnom: Power { microwatts: 1_000_000_000 },
            nominal_frequency: Frequency { microhertz: 50_000_000 },
            mission_time_per_lunar_time: Ratio { ppb: 23_540 },
            repair_time: Time { millis: 2_000 },
            solar_nominal_output: Power { microwatts: 100_000_000 },
            battery_capacity: Energy { nanojoules: 720_000_000_000_000_000 },
            reactor_nominal_output: Power { microwatts: 500_000_000 },
            reactor_power_ramp_rate: PowerRate { microwatts_per_milli: 50_000 },
            reactor_max_coolant_percentage: Ratio { ppb: 1_000_000_000 },
            reactor_coolant_refill_rate: Ratio { ppb: 10_000_000 },
            coolant_effectiveness_reduction_rate: Ratio { ppb: 5_000_000 },
            colony_damage_repair_rate: Ratio { ppb: 1_000_000 },
            colony_damage_rate_emergency: Ratio { ppb: 5_000_000 },
            life_support_base_power_demand: Power { microwatts: 100_000_000 },
            life_support_power_demand_increase: Power { microwatts: 5_000_000 },
            comms_power_demand: Power { microwatts: 20_000_000 },
            micrometeorite_damage_solar: Ratio { ppb: 100_000_000 },
            lunar_quake_damage_reactor: Ratio { ppb: 150_000_000 },
            lunar_quake_damage_battery: Ratio { ppb: 100_000_000 },
            solar_flare_damage_solar_array: Ratio { ppb: 200_000_000 },
            solar_flare_spike_damage_battery: Ratio { ppb: 100_000_000 },
            operations_base_power_demand: Power { microwatts: 30_000_000 },
            operations_docking_spike_power: Power { microwatts: 100_000_000 },
            operations_docking_spike_duration: Time { millis: 5_000 },
            supply_drop_interval: Time { millis: 60_000 },
            supply_drop_docking_duration: Time { millis: 10_000 },
            boost_life_support_amount: Ratio { ppb: 100_000_000 },
            boost_battery_amount: Ratio { ppb: 200_000_000 },
            boost_coolant_amount: Ratio { ppb: 200_000_000 },
            boost_repair_amount: Ratio { ppb: 100_000_000 },
        }
    }
}

} // verus!
