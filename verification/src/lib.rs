//! Simulation kernel for an N-body gravity simulator.
//!
//! The kernel is generic over a numeric capability trait, so the same physics
//! code runs over any scalar representation that provides zero, one, square
//! root and the four arithmetic operations.  Two deterministic fixed-point
//! representations are provided, with their arithmetic verified down to the
//! bit width.  The kernel itself consists of a small 3-vector algebra, a per-step
//! state container of index-aligned body records, an explicit-Euler
//! integrator, and an N-body system that owns a fixed-capacity ring of past
//! states and advances the simulation one step at a time.

pub mod arith;
pub mod types;
pub mod vec3;
pub mod state;
pub mod integrator;
pub mod nbody_system;
pub mod defaults;
pub mod functional;
