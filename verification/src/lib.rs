//! A gravitational N-body engine: a generic fourth-order Runge-Kutta stepper,
//! the pairwise force kernel, the energy functional with its gradient, and the
//! superstep that corrects the energy after every substep.

pub mod drift;
pub mod energy;
pub mod fixed;
pub mod force;
pub mod lanes;
pub mod rk4;
pub mod scalar;
pub mod sim;
pub mod step;
pub mod symmetry;
