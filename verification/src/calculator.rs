//! The calculator state machine: one mutable register.

use vstd::prelude::*;
use crate::arith::add_bits;
use crate::arith::sub_bits;
use crate::arith::mul_bits;
use crate::arith::div_bits;
use crate::arith::soft_add;
use crate::arith::soft_sub;
use crate::arith::soft_mul;
use crate::arith::soft_div;
use crate::errors::CalcError;
use crate::float_bits::F64_POS_ZERO;
use crate::float_bits::is_negative;
use crate::float_bits::is_zero;
use crate::float_bits::spec_is_negative;
use crate::float_bits::spec_is_zero;

verus! {

/// A calculator with a single memory register, held as the bit pattern of an
/// IEEE-754 double.  Every operation replaces the register with its result
/// and returns the new value; the two guarded operations (`divide`, `sqrt`)
/// leave the register exactly as it was when they fail.
pub struct Calculator {
    memory: u64,
}

impl Calculator {
    /// The bit pattern currently held in the memory register.
    pub closed spec fn spec_memory(&self) -> u64 {
        self.memory
    }

    /// A fresh calculator holds +0.0.
    pub fn new() -> (c: Calculator)
        ensures
            c.spec_memory() == F64_POS_ZERO,
    {
        Calculator { memory: F64_POS_ZERO }
    }

    /// `memory := memory + value`; returns the new memory.  Never fails:
    /// infinities and NaNs propagate as ordinary values.
    pub fn add(&mut self, value: u64) -> (r: u64)
        ensures
            final(self).spec_memory() == add_bits(old(self).spec_memory(), value),
            r == final(self).spec_memory(),
    {
        self.memory = soft_add(self.memory, value);
        self.memory
    }

    /// `memory := memory - value`; returns the new memory.  Never fails.
    pub fn subtract(&mut self, value: u64) -> (r: u64)
        ensures
            final(self).spec_memory() == sub_bits(old(self).spec_memory(), value),
            r == final(self).spec_memory(),
    {
        self.memory = soft_sub(self.memory, value);
        self.memory
    }

    /// `memory := memory * value`; returns the new memory.  Never fails.
    pub fn multiply(&mut self, value: u64) -> (r: u64)
        ensures
            final(self).spec_memory() == mul_bits(old(self).spec_memory(), value),
            r == final(self).spec_memory(),
    {
        self.memory = soft_mul(self.memory, value);
        self.memory
    }

    /// `memory := memory / value`; returns the new memory.  Fails with
    /// `DivisionByZero` exactly when `value` compares equal to 0.0 (+0.0 or
    /// -0.0), leaving the memory unchanged.
    pub fn divide(&mut self, value: u64) -> (r: Result<u64, CalcError>)
        ensures
            spec_is_zero(value) ==> *final(self) == *old(self)
                && r == Result::<u64, CalcError>::Err(CalcError::DivisionByZero),
            !spec_is_zero(value) ==> final(self).spec_memory()
                == div_bits(old(self).spec_memory(), value)
                && r == Result::<u64, CalcError>::Ok(final(self).spec_memory()),
    {
        if is_zero(value) {
            Err(CalcError::DivisionByZero)
        } else {
            self.memory = soft_div(self.memory, value);
            Ok(self.memory)
        }
    }

    /// `memory := memory ** exponent`; returns the new memory.  Never fails:
    /// a negative base with a fractional exponent yields NaN, not an error.
    ///
    /// Exponentiation is not one of the IEEE-754 basic operations and no
    /// bit-level implementation of it is available to verified code, so the
    /// host computes `memory ** exponent` natively and passes the resulting
    /// bit pattern as `powered`; this method commits it to the register.
    pub fn power(&mut self, powered: u64) -> (r: u64)
        ensures
            final(self).spec_memory() == powered,
            r == powered,
    {
        self.memory = powered;
        self.memory
    }

    /// `memory := sqrt(memory)`; returns the new memory.  Fails with
    /// `NegativeSqrt` exactly when the memory compares strictly below 0.0,
    /// leaving it unchanged (-0.0 and NaN do not trip the guard).
    ///
    /// As with `power`, the root itself is computed by the host: `root` is
    /// the bit pattern of `sqrt(memory)`, committed only when the guard
    /// passes.
    pub fn sqrt(&mut self, root: u64) -> (r: Result<u64, CalcError>)
        ensures
            spec_is_negative(old(self).spec_memory()) ==> *final(self) == *old(self)
                && r == Result::<u64, CalcError>::Err(CalcError::NegativeSqrt),
            !spec_is_negative(old(self).spec_memory()) ==> final(self).spec_memory() == root
                && r == Result::<u64, CalcError>::Ok(root),
    {
        if is_negative(self.memory) {
            Err(CalcError::NegativeSqrt)
        } else {
            self.memory = root;
            Ok(self.memory)
        }
    }

    /// The current memory, with no mutation.  Never fails.
    pub fn get_value(&self) -> (r: u64)
        ensures
            r == self.spec_memory(),
    {
        self.memory
    }

    /// Resets the memory to +0.0 unconditionally and returns it.  Never
    /// fails.
    pub fn clear(&mut self) -> (r: u64)
        ensures
            final(self).spec_memory() == F64_POS_ZERO,
            r == F64_POS_ZERO,
    {
        self.memory = F64_POS_ZERO;
        self.memory
    }
}

} // verus!
