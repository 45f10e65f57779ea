//! A two-player Pong simulation with verified physics, collision response,
//! paddle control and scoring.
//!
//! Lengths are held as integers in sixtieths of a world unit. The simulation
//! advances in fixed ticks of 1/60 s, so a body whose velocity is `v` world
//! units per second moves by exactly `v` of these sub-units in one tick.
pub mod ball;
pub mod field;
pub mod game;
pub mod geometry;
pub mod laws;
pub mod scoreboard;
