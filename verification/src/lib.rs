//! Core of a small 2D arena simulation: a player-controlled body whose
//! acceleration is set by discrete input events and whose velocity and
//! position are integrated once per frame, with friction and clamping.
//!
//! All coordinates, magnitudes and angles are fixed-point values: an `i64`
//! counts thousandths of a unit (respectively thousandths of a radian), so
//! the scale factor [`scalar::SCALE`] plays the role that `1.0` plays for
//! a floating-point representation.

pub mod action;
pub mod entity;
pub mod game_state;
pub mod scalar;
pub mod system;
pub mod transform;
pub mod utils;
pub mod vec;
pub mod vectors;

pub use vec::Vec2;
