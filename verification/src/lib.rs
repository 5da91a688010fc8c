//! The simulation core of a small asteroids-style arcade game.
//!
//! A ship turns and thrusts inside an arena whose edges wrap around, among
//! drifting asteroids. Touching an asteroid destroys the ship, leaves an
//! explosion behind and, one second later, brings the menu back.
//!
//! Everything here works on integers: lengths in thousandths of a world unit,
//! angles in nanoradians, time in nanoseconds. Drawing, windows, keyboards and
//! trigonometry belong to the host program, which hands in plain values and
//! reads plain values back.

pub mod angle;
pub mod arena;
pub mod chance;
pub mod entity;
pub mod laws;
pub mod motion;
pub mod simulation;
pub mod store;
pub mod timer;
pub mod vector;
