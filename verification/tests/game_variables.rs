use lunar_microgrid::game_variables::GameVariables;
use lunar_microgrid::power::{Power, PowerRate};
use lunar_microgrid::quantity::{Energy, Frequency, Ratio, Time};

#[test]
fn standard_game_grid_constants() {
    let game_vars = GameVariables::default();
    assert_eq!(game_vars.system_inertia_h, Time::new(10_000));
    assert_eq!(game_vars.system_nominal_power_pnom, Power::new(1_000_000_000));
    assert_eq!(game_vars.nominal_frequency, Frequency::new(50_000_000));
    assert_eq!(game_vars.mission_time_per_lunar_time, Ratio::new(23_540));
    assert_eq!(game_vars.repair_time, Time::new(2_000));
}

#[test]
fn standard_game_generator_constants() {
    let game_vars = GameVariables::default();
    assert_eq!(game_vars.solar_nominal_output, Power::new(100_000_000));
    assert_eq!(game_vars.battery_capacity, Energy::new(720_000_000_000_000_000));
    assert_eq!(game_vars.reactor_nominal_output, Power::new(500_000_000));
    assert_eq!(game_vars.reactor_power_ramp_rate, PowerRate::new(50_000));
    assert_eq!(game_vars.reactor_max_coolant_percentage, Ratio::one());
    assert_eq!(game_vars.reactor_coolant_refill_rate, Ratio::new(10_000_000));
    assert_eq!(game_vars.coolant_effectiveness_reduction_rate, Ratio::new(5_000_000));
}

#[test]
fn standard_game_colony_constants() {
    let game_vars = GameVariables::default();
    assert_eq!(game_vars.colony_damage_repair_rate, Ratio::new(1_000_000));
    assert_eq!(game_vars.colony_damage_rate_emergency, Ratio::new(5_000_000));
    assert_eq!(game_vars.life_support_base_power_demand, Power::new(100_000_000));
    assert_eq!(game_vars.life_support_power_demand_increase, Power::new(5_000_000));
    assert_eq!(game_vars.comms_power_demand, Power::new(20_000_000));
    assert_eq!(game_vars.operations_base_power_demand, Power::new(30_000_000));
    assert_eq!(game_vars.operations_docking_spike_power, Power::new(100_000_000));
    assert_eq!(game_vars.operations_docking_spike_duration, Time::new(5_000));
    assert_eq!(game_vars.supply_drop_interval, Time::new(60_000));
    assert_eq!(game_vars.supply_drop_docking_duration, Time::new(10_000));
}

#[test]
fn standard_game_hazard_and_boost_constants() {
    let game_vars = GameVariables::default();
    assert_eq!(game_vars.micrometeorite_damage_solar, Ratio::new(100_000_000));
    assert_eq!(game_vars.lunar_quake_damage_reactor, Ratio::new(150_000_000));
    assert_eq!(game_vars.lunar_quake_damage_battery, Ratio::new(100_000_000));
    assert_eq!(game_vars.solar_flare_damage_solar_array, Ratio::new(200_000_000));
    assert_eq!(game_vars.solar_flare_spike_damage_battery, Ratio::new(100_000_000));
    assert_eq!(game_vars.boost_life_support_amount, Ratio::new(100_000_000));
    assert_eq!(game_vars.boost_battery_amount, Ratio::new(200_000_000));
    assert_eq!(game_vars.boost_coolant_amount, Ratio::new(200_000_000));
    assert_eq!(game_vars.boost_repair_amount, Ratio::new(100_000_000));
}
