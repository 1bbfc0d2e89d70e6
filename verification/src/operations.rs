//! Colony operations: the supply drop and its docking.

use vstd::prelude::*;
use crate::game_variables::GameVariables;
use crate::quantity::{clamp_u64, Time};
use crate::tick_context::TickContext;

verus! {

/// Where the supply drop stands.
#[derive(Debug, Clone, Copy, PartialEq, Eq, Structural)]
pub enum OperationsState {
    /// No supply drop is under way.
    Dormant,
    /// A supply drop will arrive at mission time `event_start`.
    Scheduled { event_start: Time },
    /// A supply drop has arrived and waits for leave to dock.
    AwaitingAuthorization,
    /// A supply drop is docking, until mission time `event_end`.
    DockingInProgress { event_end: Time },
}

impl OperationsState {
    /// The state after a tick that has reached `mission_time`.
    pub open spec fn ticked(self, mission_time: Time) -> OperationsState {
        match self {
            OperationsState::Scheduled { event_start } => if mission_time.millis
                >= event_start.millis {
                OperationsState::AwaitingAuthorization
            } else {
                self
            },
            OperationsState::DockingInProgress { event_end } => if mission_time.millis
                >= event_end.millis {
                OperationsState::Dormant
            } else {
                self
            },
            _ => self,
        }
    }

    /// Whether a tick that has reached `mission_time` completes a docking.
    pub open spec fn docking_completes(self, mission_time: Time) -> bool {
        self matches OperationsState::DockingInProgress { event_end } && mission_time.millis
            >= event_end.millis
    }

    /// The state after the ticks that reach the mission times `times`, one
    /// after the other.
    pub open spec fn run(self, times: Seq<Time>) -> OperationsState
        decreases times.len(),
    {
        if times.len() == 0 {
            self
        } else {
            self.run(times.drop_last()).ticked(times.last())
        }
    }

    /// The state in which docking has been authorized at `mission_time`.
    pub open spec fn docking_from(mission_time: Time, game_vars: GameVariables) -> OperationsState {
        OperationsState::DockingInProgress {
            event_end: Time {
                millis: clamp_u64(mission_time.millis + game_vars.supply_drop_docking_duration.millis) as u64,
            },
        }
    }

    /// No supply drop under way.
    pub fn new() -> (r: OperationsState)
        ensures
            r == OperationsState::Dormant,
    {
        OperationsState::Dormant
    }

    /// Advances operations to the mission time of `context`: a supply drop
    /// that is due arrives, a docking that has run its time ends. Returns
    /// whether this tick has completed a docking.
    pub fn tick(&mut self, context: &TickContext) -> (docking_completed: bool)
        ensures
            *final(self) == old(self).ticked(context.mission_time),
            docking_completed == old(self).docking_completes(context.mission_time),
    {
        let mut docking_completed = false;
        match *self {
            OperationsState::Scheduled { event_start } => {
                if context.mission_time.millis >= event_start.millis {
                    *self = OperationsState::AwaitingAuthorization;
                }
            },
            OperationsState::DockingInProgress { event_end } => {
                if context.mission_time.millis >= event_end.millis {
                    docking_completed = true;
                    *self = OperationsState::Dormant;
                }
            },
            OperationsState::AwaitingAuthorization | OperationsState::Dormant => {},
        }
        docking_completed
    }

    /// Gives a waiting supply drop leave to dock. Docking then lasts the
    /// configured docking time from the mission time of `context`. Returns
    /// whether leave was given: it is only where a supply drop waits for it,
    /// and nothing changes otherwise.
    pub fn authorize_docking(&mut self, context: &TickContext) -> (authorized: bool)
        ensures
            authorized == (*old(self) == OperationsState::AwaitingAuthorization),
            authorized ==> *final(self) == OperationsState::docking_from(
                context.mission_time,
                *context.game_vars,
            ),
            !authorized ==> *final(self) == *old(self),
    {
        match *self {
            OperationsState::AwaitingAuthorization => {
                *self = OperationsState::DockingInProgress {
                    event_end: context.mission_time.saturating_add(
                        context.game_vars.supply_drop_docking_duration,
                    ),
                };
                true
            },
            _ => false,
        }
    }

    /// While no tick has reached the end of a docking, the docking goes on.
    pub proof fn lemma_docking_goes_on(event_end: Time, times: Seq<Time>)
        requires
            forall|j: int| 0 <= j < times.len() ==> times[j].millis < event_end.millis,
        ensures
            (OperationsState::DockingInProgress { event_end }).run(times)
                == (OperationsState::DockingInProgress { event_end }),
        decreases times.len(),
    {
        if times.len() > 0 {
            OperationsState::lemma_docking_goes_on(event_end, times.drop_last());
        }
    }

    /// Once a tick has reached the end of a docking, operations are dormant,
    /// whatever ticks follow.
    pub proof fn lemma_docking_is_over(event_end: Time, times: Seq<Time>)
        requires
            exists|j: int| 0 <= j < times.len() && times[j].millis >= event_end.millis,
        ensures
            (OperationsState::DockingInProgress { event_end }).run(times)
                == OperationsState::Dormant,
        decreases times.len(),
    {
        let start = OperationsState::DockingInProgress { event_end };
        let j = choose|j: int| 0 <= j < times.len() && times[j].millis >= event_end.millis;
        let before = times.drop_last();
        if j < before.len() {
            assert(before[j] == times[j]);
            OperationsState::lemma_docking_is_over(event_end, before);
        } else {
            if exists|i: int| 0 <= i < before.len() && before[i].millis >= event_end.millis {
                OperationsState::lemma_docking_is_over(event_end, before);
            } else {
                OperationsState::lemma_docking_goes_on(event_end, before);
            }
        }
    }

    /// Of the ticks that follow the start of a docking which ends at
    /// `event_end`, exactly the first that reaches `event_end` reports the
    /// docking as completed, and it leaves operations dormant.
    pub proof fn lemma_docking_completes_once(event_end: Time, times: Seq<Time>, i: int)
        requires
            0 <= i < times.len(),
        ensures
            (OperationsState::DockingInProgress { event_end }).run(times.take(i)).docking_completes(
                times[i],
            ) <==> (times[i].millis >= event_end.millis && forall|j: int|
                0 <= j < i ==> times[j].millis < event_end.millis),
            (OperationsState::DockingInProgress { event_end }).run(times.take(i)).docking_completes(
                times[i],
            ) ==> (OperationsState::DockingInProgress { event_end }).run(times.take(i)).ticked(
                times[i],
            ) == OperationsState::Dormant,
    {
        let before = times.take(i);
        assert(forall|j: int| 0 <= j < i ==> before[j] == times[j]);
        if forall|j: int| 0 <= j < i ==> times[j].millis < event_end.millis {
            OperationsState::lemma_docking_goes_on(event_end, before);
        } else {
            let j = choose|j: int| 0 <= j < i && !(times[j].millis < event_end.millis);
            assert(before[j].millis >= event_end.millis);
            OperationsState::lemma_docking_is_over(event_end, before);
        }
    }
}

impl Default for OperationsState {
    /// No supply drop under way.
    fn default() -> (r: OperationsState)
        ensures
            r == OperationsState::Dormant,
    {
        OperationsState::Dormant
    }
}

} // verus!
