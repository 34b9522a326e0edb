//! A physics-server binding core: rigid bodies and override areas whose
//! combined gravity, damping, force and kinematic state are reconciled each
//! simulation step before being handed to an external physics engine.
//!
//! All quantities are fixed-point integers: a scalar is an `i64` holding
//! `SCALE` units per 1.0. The host converts its floating-point values at the
//! boundary; everything inside is exact integer arithmetic that saturates at
//! the `i64` range instead of overflowing.

pub mod area;
pub mod body;
pub mod laws;
pub mod math;
pub mod shape;
pub mod space;
pub mod types;
