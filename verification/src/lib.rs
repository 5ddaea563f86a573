//! Discrete decisions of sign-based ternary optimization.
//!
//! The optimizers of this project work on `f64` parameters; what they decide
//! beyond floating-point arithmetic lives here, verified: the ternary level a
//! comparison outcome selects, the count of zero entries of a ternarized
//! vector, and the plateau logic of the discrete learning-rate schedule.

pub mod schedule;
pub mod ternary;
