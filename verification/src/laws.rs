//! Facts the library guarantees about its bit-level model, proved once and
//! for all.  The contracts of the operations speak of `spec_is_zero` and
//! `spec_is_negative`; the lemmas here pin down which bit patterns those
//! predicates admit, so a reader can check them against IEEE-754 by hand.

use vstd::prelude::*;
use crate::float_bits::F64_ABS_MASK;
use crate::float_bits::F64_EXP_MASK;
use crate::float_bits::F64_FRAC_MASK;
use crate::float_bits::F64_NEG_INF;
use crate::float_bits::F64_POS_ZERO;
use crate::float_bits::F64_SIGN_MASK;
use crate::float_bits::spec_is_nan;
use crate::float_bits::spec_is_negative;
use crate::float_bits::spec_is_zero;

verus! {

/// Exactly two bit patterns compare equal to 0.0: +0.0 and -0.0.  In
/// particular a divisor of -0.0 trips the division guard just as +0.0 does.
pub proof fn lemma_zero_patterns(bits: u64)
    ensures
        spec_is_zero(bits) <==> (bits == F64_POS_ZERO || bits == F64_SIGN_MASK),
{
    assert(bits & F64_ABS_MASK == 0 <==> (bits == 0 || bits == F64_SIGN_MASK))
        by (bit_vector);
}

/// The patterns strictly below 0.0 are exactly those from just past -0.0 up
/// to negative infinity: -0.0 itself and the NaN patterns beyond negative
/// infinity are excluded, as an IEEE-754 ordered comparison demands.
pub proof fn lemma_negative_patterns(bits: u64)
    ensures
        spec_is_negative(bits) <==> (F64_SIGN_MASK < bits && bits <= F64_NEG_INF),
{
    assert((bits & F64_SIGN_MASK != 0 && !(bits & F64_ABS_MASK == 0)
        && !(bits & F64_EXP_MASK == F64_EXP_MASK && bits & F64_FRAC_MASK != 0))
        <==> (F64_SIGN_MASK < bits && bits <= F64_NEG_INF)) by (bit_vector);
}

/// No bit pattern satisfies two of the guard predicates at once: a zero is
/// never a NaN, and a value strictly below 0.0 is neither.
pub proof fn lemma_guards_exclusive(bits: u64)
    ensures
        !(spec_is_zero(bits) && spec_is_nan(bits)),
        spec_is_negative(bits) ==> !spec_is_zero(bits) && !spec_is_nan(bits),
{
    assert(!(bits & F64_ABS_MASK == 0
        && (bits & F64_EXP_MASK == F64_EXP_MASK && bits & F64_FRAC_MASK != 0)))
        by (bit_vector);
}

/// A cleared (or fresh) register compares equal to 0.0 and is not strictly
/// below it: reading the value after `clear` yields a pattern that equals
/// 0.0, and `sqrt` cannot fail on a cleared calculator.
pub proof fn lemma_cleared_register()
    ensures
        spec_is_zero(F64_POS_ZERO),
        !spec_is_negative(F64_POS_ZERO),
{
    assert(0u64 & F64_ABS_MASK == 0) by (bit_vector);
}

} // verus!
