//! The calculator's two failure kinds.

use vstd::prelude::*;

verus! {

/// The only two error conditions the calculator defines: a divisor that
/// compares equal to 0.0, and a square root requested while the memory is
/// strictly below 0.0.  Every other numeric edge case (overflow to infinity,
/// NaN propagation) is an ordinary value, not an error.
#[derive(Clone, Copy, PartialEq, Eq, Structural, Debug)]
pub enum CalcError {
    DivisionByZero,
    NegativeSqrt,
}

impl CalcError {
    /// The human-readable message each kind carries across the host boundary.
    pub fn message(&self) -> (r: &'static str)
        ensures
            *self == CalcError::DivisionByZero ==> r@ == "Division by zero"@,
            *self == CalcError::NegativeSqrt ==> r@ == "Cannot take square root of negative number"@,
    {
        match self {
            CalcError::DivisionByZero => "Division by zero",
            CalcError::NegativeSqrt => "Cannot take square root of negative number",
        }
    }
}

} // verus!
