//! A verified rigid-body trajectory simulator core.
//!
//! The library integrates the motion of point-mass vehicles (a
//! thrust-propelled rocket and a coasting body) through a simplified
//! atmosphere under altitude-dependent gravity and quadratic drag.  All
//! quantities are held in saturating fixed-point arithmetic (see [`fp`]),
//! so every step of the simulation is an exactly specified, total
//! function of the previous state.  Window creation, drawing and event
//! delivery are left to an unverified shell that calls into this core
//! once per frame and once per physics tick.

pub mod engine;
pub mod formulas;
pub mod fp;
pub mod ifo;
pub mod integrator;
pub mod laws;
pub mod rocket;
