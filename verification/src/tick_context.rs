//! What every subsystem is handed on a tick.

use vstd::prelude::*;
use crate::game_variables::GameVariables;
use crate::quantity::Time;

verus! {

/// The read-only bundle that one tick hands to every subsystem: the
/// constants of the game, the mission time that the tick has reached, and
/// the mission time that has passed since the tick before.
pub struct TickContext<'a> {
    /// The constants of the game.
    pub game_vars: &'a GameVariables,
    /// Mission time that the tick has reached.
    pub mission_time: Time,
    /// Mission time that has passed since the tick before.
    pub tick_delta: Time,
}

} // verus!
