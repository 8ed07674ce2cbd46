//! Placement of equal circular biscuits in a rectangular pan.
//!
//! The optimisation itself works on floating-point coordinates; this library
//! holds its discrete, verified core: the value type of a point, the problem
//! errors, the validation of the requested biscuit counts, the random trimming
//! and retry logic of the initial blue-noise layout, and the choice of moves
//! made by one perturbation step.
pub mod commands;
pub mod error;
pub mod layout;
pub mod perturb;
pub mod point;
mod random;
