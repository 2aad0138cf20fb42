//! A bouncing-particle simulation core: particles with randomised initial
//! state move inside a rectangular viewport and reflect off its four walls.
//!
//! Lengths are integers in the simulation's length unit, time is counted in
//! ticks, and velocities are in length units per tick.
pub mod particle;
pub mod random;
pub mod sim;
pub mod spawn;
