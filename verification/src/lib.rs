//! Numerical integration of the Lorenz system of ordinary differential
//! equations with the classical fourth-order Runge-Kutta method.
//!
//! All arithmetic is carried out on a Q32.32 fixed-point scalar held in an
//! `i64`, so that every operation has an exact mathematical specification.

pub mod fixed;
pub mod state;
pub mod field;
pub mod integrator;
pub mod driver;
pub mod laws;
