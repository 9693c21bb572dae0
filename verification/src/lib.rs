//! Discrete-time model of a loaded string: a chain of point masses between
//! two fixed ends, advanced by an explicit two-phase finite-difference step.
//!
//! - `scalar`: what the engine needs of a number type, and the mathematical
//!   counterparts of its operations.
//! - `mass`: one node and its two updates.
//! - `system`: the chain, its time step and its initial conditions.
//! - `laws`: what holds of every chain and every step.
//! - `error`: the refusal of an index that is out of range.
pub mod error;
pub mod laws;
pub mod mass;
pub mod scalar;
pub mod system;

pub use error::SysError;
pub use mass::Mass;
pub use scalar::{round, square, Scalar};
pub use system::Sys;
