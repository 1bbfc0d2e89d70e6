use lunar_microgrid::game_variables::GameVariables;
use lunar_microgrid::lunar_phase::{LunarPhase, LUNAR_DAY_MILLIS, LUNAR_PHASE_MILLIS};
use lunar_microgrid::quantity::{Ratio, Time};
use lunar_microgrid::tick_context::TickContext;

fn phase_at(mission_millis: u64, scale_ppb: u64) -> LunarPhase {
    let game_vars = GameVariables {
        mission_time_per_lunar_time: Ratio::new(scale_ppb),
        ..Default::default()
    };
    let context = TickContext {
        game_vars: &game_vars,
        mission_time: Time::new(mission_millis),
        tick_delta: Time::new(1_000),
    };
    LunarPhase::from_tick_context(&context)
}

#[test]
fn lunar_day_is_twenty_nine_and_a_half_days() {
    assert_eq!(LUNAR_DAY_MILLIS, 29 * 24 * 3_600_000 + 12 * 3_600_000);
    assert_eq!(LUNAR_PHASE_MILLIS * 2, LUNAR_DAY_MILLIS);
}

#[test]
fn day_is_the_first_half_of_the_cycle() {
    let one: u64 = 1_000_000_000;
    assert_eq!(phase_at(0, one), LunarPhase::Day { elapsed: Time::new(0) });
    assert_eq!(phase_at(12_345, one), LunarPhase::Day { elapsed: Time::new(12_345) });
    assert_eq!(
        phase_at(LUNAR_PHASE_MILLIS - 1, one),
        LunarPhase::Day { elapsed: Time::new(LUNAR_PHASE_MILLIS - 1) }
    );
}

#[test]
fn night_counts_from_sunset() {
    let one: u64 = 1_000_000_000;
    assert_eq!(phase_at(LUNAR_PHASE_MILLIS, one), LunarPhase::Night { elapsed: Time::new(0) });
    assert_eq!(
        phase_at(LUNAR_PHASE_MILLIS + 777, one),
        LunarPhase::Night { elapsed: Time::new(777) }
    );
    assert_eq!(
        phase_at(LUNAR_DAY_MILLIS - 1, one),
        LunarPhase::Night { elapsed: Time::new(LUNAR_PHASE_MILLIS - 1) }
    );
}

#[test]
fn cycle_repeats_every_lunar_day() {
    let one: u64 = 1_000_000_000;
    assert_eq!(phase_at(LUNAR_DAY_MILLIS, one), LunarPhase::Day { elapsed: Time::new(0) });
    assert_eq!(
        phase_at(7 * LUNAR_DAY_MILLIS + 5, one),
        LunarPhase::Day { elapsed: Time::new(5) }
    );
    assert_eq!(
        phase_at(7 * LUNAR_DAY_MILLIS + LUNAR_PHASE_MILLIS + 5, one),
        LunarPhase::Night { elapsed: Time::new(5) }
    );
}

#[test]
fn mission_time_is_scaled_to_lunar_time() {
    // Half a unit of mission time per unit of lunar time: the Moon runs twice as fast.
    assert_eq!(phase_at(1_000, 500_000_000), LunarPhase::Day { elapsed: Time::new(2_000) });
    assert_eq!(
        phase_at(LUNAR_PHASE_MILLIS / 2, 500_000_000),
        LunarPhase::Night { elapsed: Time::new(0) }
    );
    // Three units of mission time per unit of lunar time, rounded down.
    assert_eq!(phase_at(1_000, 3_000_000_000), LunarPhase::Day { elapsed: Time::new(333) });
}

#[test]
fn standard_game_has_a_lunar_day_per_mission_minute() {
    let scale = GameVariables::default().mission_time_per_lunar_time.ppb;
    assert_eq!(scale, 23_540);
    assert_eq!(phase_at(1_000, scale), LunarPhase::Day { elapsed: Time::new(42_480_883) });
    assert_eq!(phase_at(29_999, scale), LunarPhase::Day { elapsed: Time::new(1_274_384_027) });
    assert_eq!(phase_at(30_000, scale), LunarPhase::Night { elapsed: Time::new(26_508) });
    assert_eq!(phase_at(u64::MAX, 1), LunarPhase::Day { elapsed: Time::new(412_800_000) });
}

#[test]
fn scale_of_zero_counts_as_nightfall() {
    assert_eq!(phase_at(0, 0), LunarPhase::Night { elapsed: Time::new(0) });
    assert_eq!(phase_at(12_345, 0), LunarPhase::Night { elapsed: Time::new(0) });
    assert_eq!(phase_at(u64::MAX, 0), LunarPhase::Night { elapsed: Time::new(0) });
}

#[test]
fn remaining_time_runs_down_to_the_phase_change() {
    assert_eq!(
        LunarPhase::Day { elapsed: Time::new(0) }.remaining_time(),
        Time::new(LUNAR_PHASE_MILLIS)
    );
    assert_eq!(
        LunarPhase::Night { elapsed: Time::new(400_000) }.remaining_time(),
        Time::new(1_274_000_000)
    );
    assert_eq!(
        LunarPhase::Day { elapsed: Time::new(LUNAR_PHASE_MILLIS - 1) }.remaining_time(),
        Time::new(1)
    );
    assert_eq!(
        LunarPhase::Day { elapsed: Time::new(LUNAR_PHASE_MILLIS + 5) }.remaining_time(),
        Time::new(0)
    );
}

#[test]
fn elapsed_ratio_is_the_share_of_the_phase() {
    assert_eq!(LunarPhase::Day { elapsed: Time::new(0) }.elapsed_ratio(), Ratio::new(0));
    assert_eq!(
        LunarPhase::Day { elapsed: Time::new(318_600_000) }.elapsed_ratio(),
        Ratio::new(250_000_000)
    );
    assert_eq!(
        LunarPhase::Night { elapsed: Time::new(637_200_000) }.elapsed_ratio(),
        Ratio::new(500_000_000)
    );
    assert_eq!(
        LunarPhase::Night { elapsed: Time::new(LUNAR_PHASE_MILLIS - 1) }.elapsed_ratio(),
        Ratio::new(999_999_999)
    );
    assert_eq!(LunarPhase::Day { elapsed: Time::new(1) }.elapsed_ratio(), Ratio::new(0));
    assert_eq!(
        LunarPhase::Day { elapsed: Time::new(u64::MAX) }.elapsed_ratio(),
        Ratio::new(14_474_846_259_972_968_938)
    );
}
