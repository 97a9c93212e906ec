//! Bit-level predicates on IEEE-754 double-precision values.
//!
//! A double is carried as its bit pattern, a `u64`.  The two comparisons the
//! calculator's guards need — "equals 0.0" and "is strictly below 0.0" — are
//! exact functions of that pattern, so they can be decided in verified code.

use vstd::prelude::*;

verus! {

/// Mask of the sign bit.
pub const F64_SIGN_MASK: u64 = 0x8000_0000_0000_0000;

/// Mask of the eleven exponent bits.
pub const F64_EXP_MASK: u64 = 0x7ff0_0000_0000_0000;

/// Mask of the fifty-two fraction bits.
pub const F64_FRAC_MASK: u64 = 0x000f_ffff_ffff_ffff;

/// Mask of everything but the sign bit: the magnitude of the value.
pub const F64_ABS_MASK: u64 = 0x7fff_ffff_ffff_ffff;

/// The bit pattern of +0.0.
pub const F64_POS_ZERO: u64 = 0;

/// The bit pattern of negative infinity.
pub const F64_NEG_INF: u64 = 0xfff0_0000_0000_0000;

/// A double compares equal to 0.0 exactly when its magnitude bits are all
/// clear: +0.0 and -0.0 both do, and no other value does (NaN compares
/// unequal to everything).
pub open spec fn spec_is_zero(bits: u64) -> bool {
    bits & F64_ABS_MASK == 0
}

/// A double is NaN when its exponent bits are all set and its fraction is
/// non-zero.
pub open spec fn spec_is_nan(bits: u64) -> bool {
    bits & F64_EXP_MASK == F64_EXP_MASK && bits & F64_FRAC_MASK != 0
}

/// A double compares strictly below 0.0 exactly when its sign bit is set and
/// it is neither a zero nor a NaN: -0.0 is not below 0.0, and an ordered
/// comparison with a NaN is always false.
pub open spec fn spec_is_negative(bits: u64) -> bool {
    bits & F64_SIGN_MASK != 0 && !spec_is_zero(bits) && !spec_is_nan(bits)
}

/// Decides `spec_is_zero`.
pub fn is_zero(bits: u64) -> (r: bool)
    ensures
        r == spec_is_zero(bits),
{
    bits & F64_ABS_MASK == 0
}

/// Decides `spec_is_nan`.
pub fn is_nan(bits: u64) -> (r: bool)
    ensures
        r == spec_is_nan(bits),
{
    bits & F64_EXP_MASK == F64_EXP_MASK && bits & F64_FRAC_MASK != 0
}

/// Decides `spec_is_negative`.
pub fn is_negative(bits: u64) -> (r: bool)
    ensures
        r == spec_is_negative(bits),
{
    bits & F64_SIGN_MASK != 0 && !is_zero(bits) && !is_nan(bits)
}

} // verus!
