//! Keplerian orbit calculator: orbital periods and circular orbital
//! velocities for satellites around a celestial body, computed with exact
//! integer arithmetic.
//!
//! Physical constants are carried as exact rationals: the gravitational
//! constant as 66743 / 10^15 N*m^2*kg^-2 and pi as 314159 / 10^5, so every
//! result is characterized precisely by integer inequalities.
pub mod arith;
pub mod model;
pub mod physics;
pub mod report;
pub mod text;
