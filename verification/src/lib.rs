//! A verified engine for the pebbles subtraction game.
//!
//! Two players, the user and the automated program, take pebbles in turns
//! from a shared pile; whoever removes the last pebble wins. The automated
//! opponent plays randomly on easy difficulty and optimally on hard
//! difficulty.
//!
//! The engine is pure: every operation is a function from the current
//! [`types::GameState`], the request, and any random draws it consumes, to
//! the next state and an event. The host that surrounds the engine owns the
//! single live state value, supplies entropy, and carries requests and
//! replies; it hands the engine plain values and stores what comes back.

pub mod engine;
pub mod laws;
pub mod strategy;
pub mod types;
