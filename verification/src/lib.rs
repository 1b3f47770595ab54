//! Spacecraft orbit propagation: a fixed-step integration skeleton with an
//! error taxonomy, vector algebra, an atmospheric layer model, and a
//! propagator that drives a caller-supplied stepper over a verified time grid.

pub mod atmosphere;
pub mod errors;
pub mod integrator;
pub mod math_funcs;
pub mod propagator;
