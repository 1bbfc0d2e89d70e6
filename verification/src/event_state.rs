//! Life cycle of a hazard: a micrometeorite shower, a quake, a solar flare.

use vstd::prelude::*;
use crate::quantity::{clamp_u64, Time};
use crate::tick_context::TickContext;

verus! {

/// How long a hazard strikes, in milliseconds.
pub const EVENT_DURATION_MILLIS: u64 = 3_000;

/// The state of a hazard. Scheduling a hazard and acknowledging it are
/// assignments made from outside; the tick only lets time pass.
#[derive(Debug, Clone, Copy, PartialEq, Eq, Structural)]
pub enum EventState {
    /// Nothing is due.
    Dormant,
    /// The hazard will strike at mission time `event_start`.
    Scheduled { event_start: Time },
    /// As `Scheduled`, and the player has taken note.
    Acknowledged { event_start: Time },
    /// The hazard is striking, until mission time `event_end`.
    Impacting { event_end: Time },
}

impl EventState {
    /// The mission time at which a hazard ends that began at `event_start`.
    pub open spec fn impact_end(event_start: Time) -> Time {
        Time { millis: clamp_u64(event_start.millis + EVENT_DURATION_MILLIS) as u64 }
    }

    /// The state after a tick that has reached `mission_time`. A hazard that
    /// is due begins to strike, one that has struck for its whole duration
    /// goes dormant; no tick takes both steps.
    pub open spec fn ticked(self, mission_time: Time) -> EventState {
        match self {
            EventState::Scheduled { event_start } | EventState::Acknowledged { event_start } =>
                if mission_time.millis >= event_start.millis {
                    EventState::Impacting { event_end: EventState::impact_end(event_start) }
                } else {
                    self
                },
            EventState::Impacting { event_end } => if mission_time.millis >= event_end.millis {
                EventState::Dormant
            } else {
                self
            },
            EventState::Dormant => self,
        }
    }

    /// No tick takes a hazard from due to dormant: however late the tick, a
    /// hazard that was due strikes first, and for its whole duration.
    pub proof fn lemma_one_step_per_tick(self, mission_time: Time)
        ensures
            self is Scheduled || self is Acknowledged ==> !(self.ticked(mission_time) is Dormant),
            self.ticked(mission_time) is Dormant ==> self is Dormant || self is Impacting,
            self.ticked(mission_time) is Impacting ==> !(self is Dormant),
    {
    }

    /// Advances the hazard to the mission time of `context`.
    pub fn tick(&mut self, context: &TickContext)
        ensures
            *final(self) == old(self).ticked(context.mission_time),
    {
        match *self {
            EventState::Scheduled { event_start } | EventState::Acknowledged { event_start } => {
                if context.mission_time.millis >= event_start.millis {
                    *self = EventState::Impacting {
                        event_end: event_start.saturating_add(Time::new(EVENT_DURATION_MILLIS)),
                    };
                }
            },
            EventState::Impacting { event_end } => {
                if context.mission_time.millis >= event_end.millis {
                    *self = EventState::Dormant;
                }
            },
            EventState::Dormant => {},
        }
    }
}

} // verus!
