//! Double-precision arithmetic on bit patterns.
//!
//! The four basic operations are carried out by `rustc_apfloat`, a software
//! implementation of IEEE-754 arithmetic that works directly on bit patterns,
//! so no floating-point value ever enters verified code.  Each operation is
//! deterministic in its operands, so its result is named by an
//! uninterpreted spec function, and every contract above it speaks of that
//! name.

use vstd::prelude::*;
use rustc_apfloat::Float;
use crate::errors::CalcError;
use crate::float_bits::is_zero;
use crate::float_bits::spec_is_zero;

verus! {

/// The bit pattern of the IEEE-754 double sum `a + b`, round to nearest,
/// ties to even.
pub uninterp spec fn add_bits(a: u64, b: u64) -> u64;

/// The bit pattern of the IEEE-754 double difference `a - b`.
pub uninterp spec fn sub_bits(a: u64, b: u64) -> u64;

/// The bit pattern of the IEEE-754 double product `a * b`.
pub uninterp spec fn mul_bits(a: u64, b: u64) -> u64;

/// The bit pattern of the IEEE-754 double quotient `a / b`.
pub uninterp spec fn div_bits(a: u64, b: u64) -> u64;

/// Relies on `rustc_apfloat::ieee::Double::add_r`: IEEE-754 double addition,
/// round to nearest, ties to even; the result depends on the operands alone.
#[verifier::external_body]
pub(crate) fn soft_add(a: u64, b: u64) -> (r: u64)
    ensures
        r == add_bits(a, b),
{
    let x = rustc_apfloat::ieee::Double::from_bits(a as u128);
    let y = rustc_apfloat::ieee::Double::from_bits(b as u128);
    x.add_r(y, rustc_apfloat::Round::NearestTiesToEven).value.to_bits() as u64
}

/// Relies on `rustc_apfloat::ieee::Double::sub_r`: IEEE-754 double
/// subtraction, round to nearest, ties to even; the result depends on the
/// operands alone.
#[verifier::external_body]
pub(crate) fn soft_sub(a: u64, b: u64) -> (r: u64)
    ensures
        r == sub_bits(a, b),
{
    let x = rustc_apfloat::ieee::Double::from_bits(a as u128);
    let y = rustc_apfloat::ieee::Double::from_bits(b as u128);
    x.sub_r(y, rustc_apfloat::Round::NearestTiesToEven).value.to_bits() as u64
}

/// Relies on `rustc_apfloat::ieee::Double::mul_r`: IEEE-754 double
/// multiplication, round to nearest, ties to even; the result depends on the
/// operands alone.
#[verifier::external_body]
pub(crate) fn soft_mul(a: u64, b: u64) -> (r: u64)
    ensures
        r == mul_bits(a, b),
{
    let x = rustc_apfloat::ieee::Double::from_bits(a as u128);
    let y = rustc_apfloat::ieee::Double::from_bits(b as u128);
    x.mul_r(y, rustc_apfloat::Round::NearestTiesToEven).value.to_bits() as u64
}

/// Relies on `rustc_apfloat::ieee::Double::div_r`: IEEE-754 double division,
/// round to nearest, ties to even; the result depends on the operands alone.
#[verifier::external_body]
pub(crate) fn soft_div(a: u64, b: u64) -> (r: u64)
    ensures
        r == div_bits(a, b),
{
    let x = rustc_apfloat::ieee::Double::from_bits(a as u128);
    let y = rustc_apfloat::ieee::Double::from_bits(b as u128);
    x.div_r(y, rustc_apfloat::Round::NearestTiesToEven).value.to_bits() as u64
}

/// The sum `a + b`.
pub fn add(a: u64, b: u64) -> (r: u64)
    ensures
        r == add_bits(a, b),
{
    soft_add(a, b)
}

/// The difference `a - b`.
pub fn subtract(a: u64, b: u64) -> (r: u64)
    ensures
        r == sub_bits(a, b),
{
    soft_sub(a, b)
}

/// The product `a * b`.
pub fn multiply(a: u64, b: u64) -> (r: u64)
    ensures
        r == mul_bits(a, b),
{
    soft_mul(a, b)
}

/// The quotient `a / b`, or `DivisionByZero` exactly when `b` compares equal
/// to 0.0 (that is, when `b` is +0.0 or -0.0; a NaN divisor is not an error).
pub fn divide(a: u64, b: u64) -> (r: Result<u64, CalcError>)
    ensures
        spec_is_zero(b) ==> r == Result::<u64, CalcError>::Err(CalcError::DivisionByZero),
        !spec_is_zero(b) ==> r == Result::<u64, CalcError>::Ok(div_bits(a, b)),
{
    if is_zero(b) {
        Err(CalcError::DivisionByZero)
    } else {
        Ok(soft_div(a, b))
    }
}

} // verus!
