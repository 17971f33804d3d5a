//! Authoritative character-movement core.
//!
//! Raw input becomes a sequence of movement intents; the one process with
//! authority folds the intents of a tick into the movement state of a
//! character and commands a velocity from it; every peer picks the
//! animation that fits the state it sees.
//!
//! All quantities are fixed-point integers counted in thousandths
//! ([`fixed::UNIT`] stands for one), so that every rule of the movement
//! state machine is stated and proved over mathematical integers. Turning
//! the engine's numbers into thousandths, casting rays and playing clips
//! is left to the program around this library.
//!
//! - [`fixed`], [`vector`]: fixed-point scalars, vectors and facings.
//! - [`state`]: the movement state and the intents that change it.
//! - [`input`]: from key edges, sticks and mouse motion to intents.
//! - [`authority`]: which process may apply intents.
//! - [`ground`]: the ray below a character and what its answer means.
//! - [`movement`]: the fold of a tick and the velocity command.
//! - [`schedule`]: the order of the stages and the tick of one character.
//! - [`animation`], [`hierarchy`]: the animation of a state, and the state
//!   that drives an animated entity.
//! - [`controller`]: what a controller is made of, and damping.
//! - [`laws`]: what holds of the integrator on every input.

pub mod animation;
pub mod authority;
pub mod controller;
pub mod fixed;
pub mod ground;
pub mod hierarchy;
pub mod input;
pub mod laws;
pub mod movement;
pub mod schedule;
pub mod state;
pub mod vector;
