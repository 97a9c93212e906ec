//! A stateful arithmetic calculator verified with Verus.
//!
//! Verified code cannot hold floating-point values, so every number crosses
//! this library's boundary as the bit pattern of an IEEE-754 double
//! (a `u64`).  The guard logic — division by zero, square root of a negative
//! number — is decided here, in verified bit-level code, and the arithmetic
//! itself is carried out by a software floating-point implementation behind
//! trusted wrappers.

pub mod arith;
pub mod calculator;
pub mod errors;
pub mod float_bits;
pub mod laws;

pub use calculator::Calculator;
pub use errors::CalcError;
