//! Tick-driven simulation of a lunar colony's electrical micro-grid.
//!
//! A solar array and a fission reactor feed the grid, colony operations draw
//! from it, and a battery buffers the difference. Hazards damage equipment,
//! which is then out of service until it is repaired. Every tick the
//! imbalance of demand and supply moves the grid frequency by the swing
//! equation; the game is lost when the frequency strays too far or the
//! colony is destroyed.
//!
//! Every physical value is a fixed-point quantity with a type of its own
//! (see [`quantity`] and [`power`]), so the whole engine is exact integer
//! arithmetic: the same sequence of ticks gives the same grid, bit for bit,
//! on every machine. The one thing the engine asks of its host is the
//! insolation of the solar array, which is the sine of an angle.
//!
//! Each subsystem is a small state machine with a function `ticked` (or a
//! few of its kind) that says in mathematical integers what a tick does to
//! it, and an executable `tick` that is proved to do exactly that. What
//! holds of the subsystems over time (the charge of the battery stays within
//! its bounds, a docking is reported once, the frequency moves by the same
//! step under the same imbalance) is proved as lemmas beside them.

pub mod quantity;
pub mod power;
pub mod damage;
pub mod game_variables;
pub mod tick_context;
pub mod generator;
pub mod event_state;
pub mod operations;
pub mod lunar_phase;
pub mod battery;
pub mod reactor;
pub mod solar;
pub mod game_state;

pub use crate::damage::Damage;
