use lunar_microgrid::damage::Damage;
use lunar_microgrid::game_variables::GameVariables;
use lunar_microgrid::generator::GeneratorState;
use lunar_microgrid::lunar_phase::{LunarPhase, LUNAR_PHASE_MILLIS};
use lunar_microgrid::power::Power;
use lunar_microgrid::quantity::{Ratio, Time, RATIO_ONE};
use lunar_microgrid::solar::SolarState;
use lunar_microgrid::tick_context::TickContext;
use std::f32::consts::PI;

const LUNAR_PHASE_DURATION_SECONDS: f32 = LUNAR_PHASE_MILLIS as f32 / 1000.0;

fn watts(value: f32) -> Power {
    Power::new((value as f64 * 1e6).round() as i64)
}

fn in_watts(power: Power) -> f32 {
    (power.microwatts as f64 / 1e6) as f32
}

fn seconds(value: f32) -> Time {
    Time::new((value as f64 * 1e3).round() as u64)
}

fn ratio(value: f32) -> Ratio {
    Ratio::new((value as f64 * RATIO_ONE as f64).round() as u64)
}

fn in_ratio(value: Ratio) -> f32 {
    (value.ppb as f64 / RATIO_ONE as f64) as f32
}

/// The half-sine insolation at the mission time of `context`.
fn insolation(context: &TickContext) -> Ratio {
    let lunar_phase = LunarPhase::from_tick_context(context);
    let intensity_factor = (in_ratio(lunar_phase.elapsed_ratio()) * PI).sin();
    ratio(intensity_factor.max(0.0))
}

fn solar_state_online(damage_value: f32, shields_active: bool) -> SolarState {
    SolarState {
        generator_state: GeneratorState::Online {
            damage: Damage::new(ratio(damage_value)),
        },
        shields_active,
    }
}

fn solar_state_default_online_shields_off() -> SolarState {
    solar_state_online(0.0, false)
}

fn assert_power_approx_eq(
    actual_power: Power,
    expected_watts: f32,
    tolerance: f32,
    context_message: &str,
) {
    let actual_watts = in_watts(actual_power);
    assert!(
        (actual_watts - expected_watts).abs() < tolerance,
        "{}: Expected power ~{:.6} W, but got {:.6} W",
        context_message,
        expected_watts,
        actual_watts
    );
}

fn default_game_vars(
    solar_nominal_output_watts: f32,
    mission_time_lunar_time_ratio_val: f32,
) -> GameVariables {
    let mut gv = GameVariables::default();
    gv.solar_nominal_output = watts(solar_nominal_output_watts);
    gv.mission_time_per_lunar_time = ratio(mission_time_lunar_time_ratio_val);
    gv
}

fn create_day_tick_context<'a>(
    game_vars: &'a GameVariables,
    elapsed_ratio_target: f32,
) -> TickContext<'a> {
    let lunar_elapsed_target_secs = elapsed_ratio_target * LUNAR_PHASE_DURATION_SECONDS;
    let mission_time_secs =
        lunar_elapsed_target_secs * in_ratio(game_vars.mission_time_per_lunar_time);

    TickContext {
        mission_time: seconds(mission_time_secs),
        game_vars,
        tick_delta: seconds(1.0),
    }
}

fn create_night_tick_context<'a>(
    game_vars: &'a GameVariables,
    elapsed_ratio_in_night_target: f32,
) -> TickContext<'a> {
    let lunar_time_into_night_phase_secs =
        elapsed_ratio_in_night_target * LUNAR_PHASE_DURATION_SECONDS;
    let total_lunar_elapsed_secs =
        LUNAR_PHASE_DURATION_SECONDS + lunar_time_into_night_phase_secs;
    let mission_time_secs =
        total_lunar_elapsed_secs * in_ratio(game_vars.mission_time_per_lunar_time);

    TickContext {
        mission_time: seconds(mission_time_secs),
        game_vars,
        tick_delta: seconds(1.0),
    }
}

const NOMINAL_SOLAR_OUTPUT: f32 = 1000.0;
const MISSION_TIME_PER_LUNAR_TIME_RATIO: f32 = 1.0;

#[test]
fn test_solar_power_at_sunrise() {
    let game_vars = default_game_vars(NOMINAL_SOLAR_OUTPUT, MISSION_TIME_PER_LUNAR_TIME_RATIO);
    let context = create_day_tick_context(&game_vars, 0.0);
    let mut solar_state = solar_state_default_online_shields_off();
    let power = solar_state.tick(&context, insolation(&context));
    assert_power_approx_eq(power, 0.0, 1e-6, "Power at sunrise");
}

#[test]
fn test_solar_power_at_midday() {
    let game_vars = default_game_vars(NOMINAL_SOLAR_OUTPUT, MISSION_TIME_PER_LUNAR_TIME_RATIO);
    let context = create_day_tick_context(&game_vars, 0.5);
    let mut solar_state = solar_state_default_online_shields_off();
    let power = solar_state.tick(&context, insolation(&context));
    let expected_power = NOMINAL_SOLAR_OUTPUT * (0.5 * PI).sin();
    assert_power_approx_eq(power, expected_power, 1e-6, "Power at midday");
}

#[test]
fn test_solar_power_at_sunset() {
    let game_vars = default_game_vars(NOMINAL_SOLAR_OUTPUT, MISSION_TIME_PER_LUNAR_TIME_RATIO);
    let context = create_day_tick_context(&game_vars, 1.0);
    let mut solar_state = solar_state_default_online_shields_off();
    let power = solar_state.tick(&context, insolation(&context));
    assert_power_approx_eq(power, 0.0, 1e-6, "Power at sunset");
}

#[test]
fn test_solar_power_just_before_sunset() {
    let game_vars = default_game_vars(NOMINAL_SOLAR_OUTPUT, MISSION_TIME_PER_LUNAR_TIME_RATIO);
    let context = create_day_tick_context(&game_vars, 0.999);
    let mut solar_state = solar_state_default_online_shields_off();
    let power = solar_state.tick(&context, insolation(&context));
    let expected_intensity = (0.999 * PI).sin();
    let expected_power = NOMINAL_SOLAR_OUTPUT * expected_intensity;
    assert_power_approx_eq(power, expected_power, 1e-3, "Power just before sunset");
}

#[test]
fn test_solar_power_at_quarter_day() {
    let game_vars = default_game_vars(NOMINAL_SOLAR_OUTPUT, MISSION_TIME_PER_LUNAR_TIME_RATIO);
    let context = create_day_tick_context(&game_vars, 0.25);
    let mut solar_state = solar_state_default_online_shields_off();
    let power = solar_state.tick(&context, insolation(&context));
    let expected_intensity = (0.25 * PI).sin();
    let expected_power = NOMINAL_SOLAR_OUTPUT * expected_intensity;
    assert_power_approx_eq(power, expected_power, 1e-6, "Power at quarter day");
}

#[test]
fn test_solar_power_at_three_quarter_day() {
    let game_vars = default_game_vars(NOMINAL_SOLAR_OUTPUT, MISSION_TIME_PER_LUNAR_TIME_RATIO);
    let context = create_day_tick_context(&game_vars, 0.75);
    let mut solar_state = solar_state_default_online_shields_off();
    let power = solar_state.tick(&context, insolation(&context));
    let expected_intensity = (0.75 * PI).sin();
    let expected_power = NOMINAL_SOLAR_OUTPUT * expected_intensity;
    assert_power_approx_eq(power, expected_power, 1e-6, "Power at three quarter day");
}

#[test]
fn test_solar_power_during_night() {
    let game_vars = default_game_vars(NOMINAL_SOLAR_OUTPUT, MISSION_TIME_PER_LUNAR_TIME_RATIO);
    let context = create_night_tick_context(&game_vars, 0.5);
    let mut solar_state = solar_state_default_online_shields_off();
    let power = solar_state.tick(&context, insolation(&context));
    assert_power_approx_eq(power, 0.0, 1e-6, "Power during night");
}

#[test]
fn test_solar_power_with_shields_active_during_day() {
    let game_vars = default_game_vars(NOMINAL_SOLAR_OUTPUT, MISSION_TIME_PER_LUNAR_TIME_RATIO);
    let context = create_day_tick_context(&game_vars, 0.5);
    let mut solar_state = solar_state_online(0.0, true);
    let power = solar_state.tick(&context, insolation(&context));
    assert_power_approx_eq(power, 0.0, 1e-6, "Power with shields active during day");
}

#[test]
fn test_solar_power_generator_offline() {
    let game_vars = default_game_vars(NOMINAL_SOLAR_OUTPUT, MISSION_TIME_PER_LUNAR_TIME_RATIO);
    let context = create_day_tick_context(&game_vars, 0.5);
    let mut solar_state = SolarState {
        generator_state: GeneratorState::Offline,
        shields_active: false,
    };
    let power = solar_state.tick(&context, insolation(&context));
    assert_power_approx_eq(power, 0.0, 1e-6, "Power with generator offline");
}

#[test]
fn test_solar_power_with_damage() {
    let game_vars = default_game_vars(NOMINAL_SOLAR_OUTPUT, MISSION_TIME_PER_LUNAR_TIME_RATIO);
    let context = create_day_tick_context(&game_vars, 0.5);
    let damage_percentage = 0.25;
    let mut solar_state = solar_state_online(damage_percentage, false);
    let power = solar_state.tick(&context, insolation(&context));
    let intensity_factor = (0.5 * PI).sin();
    let expected_power_before_damage = NOMINAL_SOLAR_OUTPUT * intensity_factor;
    let expected_power_after_damage = expected_power_before_damage * (1.0 - damage_percentage);
    assert_power_approx_eq(
        power,
        expected_power_after_damage,
        1e-6,
        "Power with damage",
    );
}

// Exact values, and the edges.

#[test]
fn output_is_nominal_times_insolation_less_the_damage() {
    let game_vars = default_game_vars(NOMINAL_SOLAR_OUTPUT, MISSION_TIME_PER_LUNAR_TIME_RATIO);
    let context = create_day_tick_context(&game_vars, 0.3);
    let mut solar_state = solar_state_online(0.1, false);
    let power = solar_state.tick(&context, Ratio::new(333_333_333));
    // 1000 W * 0.333333333 = 333.333333 W; nine tenths of it, rounded down.
    assert_eq!(power, Power::new(299_999_999));
}

#[test]
fn shields_block_the_array_whatever_the_insolation() {
    let game_vars = default_game_vars(NOMINAL_SOLAR_OUTPUT, MISSION_TIME_PER_LUNAR_TIME_RATIO);
    for step in 0..100u32 {
        let context = create_day_tick_context(&game_vars, step as f32 / 100.0);
        let mut solar_state = solar_state_online(0.0, true);
        assert_eq!(solar_state.tick(&context, Ratio::one()), Power::new(0));
        assert!(solar_state.shields_active);
    }
}

#[test]
fn night_gives_nothing_whatever_the_insolation() {
    let game_vars = default_game_vars(NOMINAL_SOLAR_OUTPUT, MISSION_TIME_PER_LUNAR_TIME_RATIO);
    let context = create_night_tick_context(&game_vars, 0.0);
    let mut solar_state = solar_state_default_online_shields_off();
    assert_eq!(solar_state.tick(&context, Ratio::one()), Power::new(0));
}

#[test]
fn scale_of_zero_leaves_the_array_in_the_dark() {
    let game_vars = default_game_vars(NOMINAL_SOLAR_OUTPUT, 0.0);
    let context = TickContext {
        mission_time: seconds(1000.0),
        game_vars: &game_vars,
        tick_delta: seconds(1.0),
    };
    let mut solar_state = solar_state_default_online_shields_off();
    assert_eq!(solar_state.tick(&context, Ratio::one()), Power::new(0));
}

#[test]
fn repaired_array_generates_again() {
    let game_vars = default_game_vars(NOMINAL_SOLAR_OUTPUT, MISSION_TIME_PER_LUNAR_TIME_RATIO);
    let context = create_day_tick_context(&game_vars, 0.5);
    let mut solar_state = SolarState {
        generator_state: GeneratorState::Repairing { event_end: context.mission_time },
        shields_active: false,
    };
    assert_eq!(solar_state.tick(&context, Ratio::one()), watts(1000.0));
    assert_eq!(
        solar_state.generator_state,
        GeneratorState::Online { damage: Damage::default() }
    );
    let mut waiting = SolarState {
        generator_state: GeneratorState::Repairing {
            event_end: Time::new(context.mission_time.millis + 1),
        },
        shields_active: false,
    };
    assert_eq!(waiting.tick(&context, Ratio::one()), Power::new(0));
}

#[test]
fn default_array_is_in_service_with_shields_down() {
    let solar_state = SolarState::default();
    assert_eq!(solar_state.generator_state, GeneratorState::Online { damage: Damage::default() });
    assert!(!solar_state.shields_active);
}
