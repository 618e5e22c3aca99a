//! A verified fixed-point model of a 2D spaceship simulation.
//!
//! A single ship rotates, thrusts, consumes fuel, and wraps around the
//! screen edges. Every quantity is an integer in the caller's fixed-point
//! scale, so all three per-tick update rules are exact arithmetic with
//! proved contracts: the orientation rule turns the heading by
//! `rotation_speed * dt`, the position rule advances by `velocity * dt`
//! and wraps once against the screen's half-extents, and the propulsion
//! rule accelerates along the forward direction while fuel lasts.

pub mod laws;
pub mod ship;
