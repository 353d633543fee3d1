//! A side-scrolling arcade simulation: a player falls under gravity, flaps
//! upwards on demand, and has to pass through the gaps of scrolling obstacles.
//!
//! The library holds the whole simulation: physics, obstacle generation,
//! collision, scoring and the mode state machine. Each frame the host calls
//! `State::advance` with the elapsed time and the key pressed, and replays the
//! returned draw commands on its own screen.
pub mod config;
pub mod draw;
pub mod obstacle;
pub mod player;
mod rng;
pub mod state;
pub mod laws;
