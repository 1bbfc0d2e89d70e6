//! Day and night on the Moon, as a function of mission time.

use vstd::prelude::*;
use crate::quantity::{max_int, Ratio, Time, RATIO_ONE};
use crate::tick_context::TickContext;

verus! {

/// Length of the lunar day, from one sunrise to the next, in milliseconds of
/// lunar time: 29.5 Earth days.
pub const LUNAR_DAY_MILLIS: u64 = 2_548_800_000;

/// Length of each of the two phases, daylight and night: half a lunar day.
pub const LUNAR_PHASE_MILLIS: u64 = 1_274_400_000;

/// The phase of the lunar day, with the lunar time that has passed since the
/// phase began.
#[derive(Debug, Clone, Copy, PartialEq, Eq, Structural)]
pub enum LunarPhase {
    /// Daylight, since `elapsed` of lunar time.
    Day { elapsed: Time },
    /// Night, since `elapsed` of lunar time.
    Night { elapsed: Time },
}

/// The lunar time, in milliseconds, that has passed when the mission clock
/// shows `mission_time`, where `scale` mission time passes per lunar time
/// (`scale` is not zero).
pub open spec fn lunar_millis(mission_time: Time, scale: Ratio) -> int {
    (mission_time.millis * RATIO_ONE) / (scale.ppb as int)
}

/// The phase of the lunar day when the mission clock shows `mission_time`.
/// The first half of each lunar day is daylight, the second half is night.
///
/// Under a scale of zero no lunar time can be told from the mission time;
/// the Moon then counts as standing at nightfall.
pub open spec fn phase_at(mission_time: Time, scale: Ratio) -> LunarPhase {
    if scale.ppb == 0 {
        LunarPhase::Night { elapsed: Time { millis: 0 } }
    } else {
        let in_cycle = lunar_millis(mission_time, scale) % (LUNAR_DAY_MILLIS as int);
        if in_cycle < LUNAR_PHASE_MILLIS {
            LunarPhase::Day { elapsed: Time { millis: in_cycle as u64 } }
        } else {
            LunarPhase::Night { elapsed: Time { millis: (in_cycle - LUNAR_PHASE_MILLIS) as u64 } }
        }
    }
}

impl LunarPhase {
    /// The lunar time that has passed since the phase began.
    pub open spec fn elapsed(self) -> Time {
        match self {
            LunarPhase::Day { elapsed } => elapsed,
            LunarPhase::Night { elapsed } => elapsed,
        }
    }

    /// The phase has not outlasted its length.
    pub open spec fn wf(self) -> bool {
        self.elapsed().millis < LUNAR_PHASE_MILLIS
    }

    /// The phase at the mission time of `tick_context`.
    pub fn from_tick_context(tick_context: &TickContext) -> (r: LunarPhase)
        ensures
            r == phase_at(
                tick_context.mission_time,
                tick_context.game_vars.mission_time_per_lunar_time,
            ),
            r.wf(),
    {
        let mission: u64 = tick_context.mission_time.millis;
        let scale: u64 = tick_context.game_vars.mission_time_per_lunar_time.ppb;
        if scale == 0 {
            return LunarPhase::Night { elapsed: Time { millis: 0 } };
        }
        assert(0 <= mission * RATIO_ONE <= 0xffff_ffff_ffff_ffff * 1_000_000_000) by (nonlinear_arith)
            requires
                0 <= mission <= 0xffff_ffff_ffff_ffff,
                RATIO_ONE == 1_000_000_000,
        ;
        let lunar: u128 = (mission as u128) * (RATIO_ONE as u128) / (scale as u128);
        let in_cycle: u64 = (lunar % (LUNAR_DAY_MILLIS as u128)) as u64;
        if in_cycle < LUNAR_PHASE_MILLIS {
            LunarPhase::Day { elapsed: Time { millis: in_cycle } }
        } else {
            LunarPhase::Night { elapsed: Time { millis: in_cycle - LUNAR_PHASE_MILLIS } }
        }
    }

    /// The lunar time until the phase changes, at sunset or at sunrise.
    pub fn remaining_time(&self) -> (r: Time)
        ensures
            r.millis == max_int(LUNAR_PHASE_MILLIS - self.elapsed().millis, 0),
    {
        match self {
            LunarPhase::Day { elapsed } | LunarPhase::Night { elapsed } => {
                Time::new(LUNAR_PHASE_MILLIS).saturating_sub(*elapsed)
            },
        }
    }

    /// The part of the phase that has passed, as a ratio of its length,
    /// rounded down.
    pub fn elapsed_ratio(&self) -> (r: Ratio)
        ensures
            r.ppb == (self.elapsed().millis * RATIO_ONE) / (LUNAR_PHASE_MILLIS as int),
            self.wf() ==> r.ppb < RATIO_ONE,
    {
        let elapsed: u64 = match self {
            LunarPhase::Day { elapsed } | LunarPhase::Night { elapsed } => elapsed.millis,
        };
        assert(0 <= elapsed * RATIO_ONE <= 0xffff_ffff_ffff_ffff * 1_000_000_000) by (nonlinear_arith)
            requires
                0 <= elapsed <= 0xffff_ffff_ffff_ffff,
                RATIO_ONE == 1_000_000_000,
        ;
        let wide: u128 = (elapsed as u128) * (RATIO_ONE as u128) / (LUNAR_PHASE_MILLIS as u128);
        Ratio { ppb: wide as u64 }
    }
}

} // verus!
