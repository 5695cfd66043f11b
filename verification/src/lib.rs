//! State keeping for a simulation of independent double pendulums.
//!
//! The numbers of the simulation are single-precision IEEE 754 values. This
//! crate never computes with them: it stores each one by its 32-bit
//! representation, decides from its bits whether it is finite, positive or
//! equal to another, and keeps the bounded history of tip positions. The
//! arithmetic of the motion itself is the caller's.

pub mod config;
pub mod input;
pub mod mainstate;
pub mod pendulum;
pub mod point;
pub mod scalar;
pub mod trail;
