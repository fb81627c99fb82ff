//! Arithmetic of the curve and of the graduation planner.

pub mod arith;
pub mod bonding_curve;
pub mod curve_laws;
pub mod fixed_point;
pub mod orbit_math;
