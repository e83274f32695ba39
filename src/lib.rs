//! Simulation core of a small orbital arcade game: a ship circles a planet,
//! asteroids drift in, bullets fracture them, and the planet grows by what it
//! swallows until it collapses.
//!
//! All quantities are fixed-point integers: distances in thousandths of a
//! unit, time in milliseconds, angles in thousandths of a degree, masses in
//! thousandths of a mass unit.
use vstd::prelude::*;

pub mod fixed;
pub mod trig;
pub mod config;
pub mod world;
pub mod shatter;
pub mod random;
pub mod strike;
pub mod planet;
pub mod physics;
pub mod ship;
pub mod lifecycle;
pub mod spawner;
pub mod game;
pub mod display;

verus! {

} // verus!
