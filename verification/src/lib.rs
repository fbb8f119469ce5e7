//! Deterministic simulation core of a 2-4 player, one-hit-kill arena fighter.
//!
//! Every quantity of the simulation is an integer: positions and velocities
//! are fixed-point numbers with [`fixed::UNIT`] steps per world unit, timers
//! are tick counts.  One call of [`update`] advances the whole simulation by
//! one tick as a function of the previous state and of the sampled input, so
//! that equal input sequences give equal states on every machine.
//!
//! The simulation never draws or plays anything: what sound and graphics
//! should do is left as [`Cue`]s in the simulation for the caller to perform.
//! General properties of the rules are proved in [`laws`]; that nothing
//! kept for sound and picture flows back into play is proved in
//! [`separation`].

pub mod bot;
pub mod combat;
pub mod fixed;
pub mod flow;
pub mod game_state;
pub mod hud;
pub mod laws;
pub mod player;
pub mod separation;
pub mod stage;
pub mod world;

pub use crate::flow::{init, update};
pub use crate::world::{Cue, Pad, Simulation, TickInput, World};
