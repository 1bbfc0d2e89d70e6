use lunar_microgrid::damage::Damage;
use lunar_microgrid::game_variables::GameVariables;
use lunar_microgrid::generator::GeneratorState;
use lunar_microgrid::quantity::{Ratio, Time};
use lunar_microgrid::tick_context::TickContext;

fn percent_ratio(value: u64) -> Ratio {
    Ratio::new(value * 10_000_000)
}

fn seconds(value: u64) -> Time {
    Time::new(value * 1_000)
}

fn game_vars_with_repair_time(repair_time: Time) -> GameVariables {
    GameVariables { repair_time, ..Default::default() }
}

fn context_at<'a>(game_vars: &'a GameVariables, mission_time: Time) -> TickContext<'a> {
    TickContext { game_vars, mission_time, tick_delta: seconds(1) }
}

fn online(damage_percent: u64) -> GeneratorState {
    GeneratorState::Online { damage: Damage::new(percent_ratio(damage_percent)) }
}

#[test]
fn default_generator_is_in_service_without_damage() {
    assert_eq!(GeneratorState::default(), online(0));
}

#[test]
fn generator_lifecycle_from_damage_to_repair() {
    let game_vars = game_vars_with_repair_time(seconds(10));
    let mut generator = online(90);
    generator.damage(percent_ratio(20));
    assert_eq!(generator, GeneratorState::Offline);

    let generator = generator.repair(seconds(100), &game_vars);
    assert_eq!(generator, GeneratorState::Repairing { event_end: seconds(110) });

    let mut generator = generator;
    generator.tick(&context_at(&game_vars, seconds(109)));
    assert_eq!(generator, GeneratorState::Repairing { event_end: seconds(110) });
    generator.tick(&context_at(&game_vars, Time::new(109_999)));
    assert_eq!(generator, GeneratorState::Repairing { event_end: seconds(110) });
    generator.tick(&context_at(&game_vars, seconds(110)));
    assert_eq!(generator, online(0));
}

#[test]
fn tick_long_after_the_repair_ended_puts_back_in_service() {
    let game_vars = GameVariables::default();
    let mut generator = GeneratorState::Repairing { event_end: seconds(5) };
    generator.tick(&context_at(&game_vars, Time::new(u64::MAX)));
    assert_eq!(generator, online(0));
}

#[test]
fn second_tick_at_the_same_time_changes_nothing() {
    let game_vars = GameVariables::default();
    let states = [
        online(0),
        online(40),
        GeneratorState::Offline,
        GeneratorState::Repairing { event_end: seconds(4) },
        GeneratorState::Repairing { event_end: seconds(5) },
        GeneratorState::Repairing { event_end: seconds(6) },
    ];
    for state in states {
        let context = context_at(&game_vars, seconds(5));
        let mut once = state;
        once.tick(&context);
        let mut twice = once;
        twice.tick(&context);
        assert_eq!(once, twice);
    }
}

#[test]
fn tick_leaves_a_generator_that_is_not_under_repair() {
    let game_vars = GameVariables::default();
    let context = context_at(&game_vars, Time::new(u64::MAX));
    let mut in_service = online(35);
    in_service.tick(&context);
    assert_eq!(in_service, online(35));
    let mut out_of_service = GeneratorState::Offline;
    out_of_service.tick(&context);
    assert_eq!(out_of_service, GeneratorState::Offline);
}

#[test]
fn damage_below_one_keeps_the_generator_in_service() {
    let mut generator = online(10);
    generator.damage(percent_ratio(15));
    assert_eq!(generator, online(25));
    generator.damage(Ratio::new(749_999_999));
    assert_eq!(
        generator,
        GeneratorState::Online { damage: Damage::new(Ratio::new(999_999_999)) }
    );
    generator.damage(Ratio::new(1));
    assert_eq!(generator, GeneratorState::Offline);
}

#[test]
fn damage_does_nothing_out_of_service() {
    let mut out_of_service = GeneratorState::Offline;
    out_of_service.damage(percent_ratio(50));
    assert_eq!(out_of_service, GeneratorState::Offline);
    let mut under_repair = GeneratorState::Repairing { event_end: seconds(3) };
    under_repair.damage(percent_ratio(50));
    assert_eq!(under_repair, GeneratorState::Repairing { event_end: seconds(3) });
}

#[test]
fn repair_time_is_in_proportion_to_the_damage() {
    let game_vars = game_vars_with_repair_time(seconds(10));
    assert_eq!(
        online(25).repair(seconds(5), &game_vars),
        GeneratorState::Repairing { event_end: Time::new(7_500) }
    );
    assert_eq!(
        GeneratorState::Online { damage: Damage::new(Ratio::new(1)) }.repair(seconds(5), &game_vars),
        GeneratorState::Repairing { event_end: seconds(5) }
    );
    assert_eq!(
        GeneratorState::Offline.repair(seconds(5), &game_vars),
        GeneratorState::Repairing { event_end: seconds(15) }
    );
}

#[test]
fn repair_does_nothing_where_none_is_due() {
    let game_vars = game_vars_with_repair_time(seconds(10));
    assert_eq!(online(0).repair(seconds(5), &game_vars), online(0));
    let under_repair = GeneratorState::Repairing { event_end: seconds(3) };
    assert_eq!(under_repair.repair(seconds(5), &game_vars), under_repair);
}

#[test]
fn repair_end_stops_at_the_end_of_the_clock() {
    let game_vars = game_vars_with_repair_time(seconds(10));
    assert_eq!(
        GeneratorState::Offline.repair(Time::new(u64::MAX - 5), &game_vars),
        GeneratorState::Repairing { event_end: Time::new(u64::MAX) }
    );
}
