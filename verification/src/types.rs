//! The numeric capability contract of the simulation kernel.
//!
//! Every scalar representation used by the kernel provides an additive
//! identity, a multiplicative identity, a square root and the four
//! arithmetic operations, each as a total executable operation pinned to a
//! specification-level counterpart.  The kernel is written once against this
//! trait and instantiated per representation.

use vstd::prelude::*;

use crate::arith::add_sat;
use crate::arith::div_scaled_sat;
use crate::arith::isqrt_spec;
use crate::arith::mul_scaled_sat;
use crate::arith::sat_i64;
use crate::arith::sqrt_scaled;
use crate::arith::sub_sat;
use crate::arith::trunc_div;

verus! {

/// Capability set of a simulation scalar.  Every operation is total: no
/// operation signals a recoverable error, and what each one returns is fixed
/// by the representation's own specification functions.
pub trait Numeric: Sized + Copy {
    /// The additive identity, as a specification value.
    spec fn zero_spec() -> Self;

    /// The multiplicative identity, as a specification value.
    spec fn one_spec() -> Self;

    /// Whether the value is strictly greater than the additive identity.
    spec fn positive_spec(self) -> bool;

    /// What addition returns.
    spec fn plus_spec(self, rhs: Self) -> Self;

    /// What subtraction returns.
    spec fn minus_spec(self, rhs: Self) -> Self;

    /// What multiplication returns.
    spec fn times_spec(self, rhs: Self) -> Self;

    /// What division returns; total, with a representation-defined result
    /// for a zero divisor.
    spec fn divide_spec(self, rhs: Self) -> Self;

    /// What the square root returns; total, with a representation-defined
    /// result for a negative operand.
    spec fn sqrt_spec(self) -> Self;

    /// Law: subtracting a value from itself gives the additive identity.
    proof fn self_difference_vanishes(self)
        ensures
            self.minus_spec(self) == Self::zero_spec(),
    ;

    /// Law: the additive identity annihilates under multiplication.
    proof fn zero_annihilates(self)
        ensures
            Self::zero_spec().times_spec(self) == Self::zero_spec(),
    ;

    /// The additive identity.
    fn zero() -> (r: Self)
        ensures
            r == Self::zero_spec(),
    ;

    /// The multiplicative identity.
    fn identity() -> (r: Self)
        ensures
            r == Self::one_spec(),
    ;

    /// Addition.
    fn plus(self, rhs: Self) -> (r: Self)
        ensures
            r == self.plus_spec(rhs),
    ;

    /// Subtraction.
    fn minus(self, rhs: Self) -> (r: Self)
        ensures
            r == self.minus_spec(rhs),
    ;

    /// Multiplication.
    fn times(self, rhs: Self) -> (r: Self)
        ensures
            r == self.times_spec(rhs),
    ;

    /// Division.
    fn divide(self, rhs: Self) -> (r: Self)
        ensures
            r == self.divide_spec(rhs),
    ;

    /// Square root.
    fn sq_root(self) -> (r: Self)
        ensures
            r == self.sqrt_spec(),
    ;
}

/// Scale of [`Fix48`]: 2 to the 48th power.
pub const FIX48_SCALE: i64 = 0x1000000000000;

/// A deterministic fixed-point scalar: 16 integer bits, 48 fractional bits,
/// stored as raw `i64` bits so that the stored value is `bits / 2^48`.
/// Arithmetic saturates at the representation's range bounds, division by
/// zero yields zero and the square root of a negative value is zero.
#[derive(Clone, Copy, PartialEq, Eq, Structural, Debug)]
pub struct Fix48 {
    pub bits: i64,
}

impl Numeric for Fix48 {
    open spec fn zero_spec() -> Self {
        Fix48 { bits: 0 }
    }

    open spec fn one_spec() -> Self {
        Fix48 { bits: FIX48_SCALE }
    }

    open spec fn positive_spec(self) -> bool {
        self.bits > 0
    }

    open spec fn plus_spec(self, rhs: Self) -> Self {
        Fix48 { bits: sat_i64(self.bits + rhs.bits) as i64 }
    }

    open spec fn minus_spec(self, rhs: Self) -> Self {
        Fix48 { bits: sat_i64(self.bits - rhs.bits) as i64 }
    }

    open spec fn times_spec(self, rhs: Self) -> Self {
        Fix48 { bits: sat_i64(trunc_div(self.bits * rhs.bits, FIX48_SCALE as int)) as i64 }
    }

    open spec fn divide_spec(self, rhs: Self) -> Self {
        if rhs.bits == 0 {
            Fix48 { bits: 0 }
        } else {
            Fix48 { bits: sat_i64(trunc_div(self.bits * FIX48_SCALE, rhs.bits as int)) as i64 }
        }
    }

    open spec fn sqrt_spec(self) -> Self {
        if self.bits < 0 {
            Fix48 { bits: 0 }
        } else {
            Fix48 { bits: isqrt_spec((self.bits * FIX48_SCALE) as nat) as i64 }
        }
    }

    proof fn self_difference_vanishes(self) {
    }

    proof fn zero_annihilates(self) {
        assert(0 * self.bits == 0);
        assert(trunc_div(0, FIX48_SCALE as int) == 0);
    }

    fn zero() -> (r: Self) {
        Fix48 { bits: 0 }
    }

    fn identity() -> (r: Self) {
        Fix48 { bits: FIX48_SCALE }
    }

    fn plus(self, rhs: Self) -> (r: Self) {
        Fix48 { bits: add_sat(self.bits, rhs.bits) }
    }

    fn minus(self, rhs: Self) -> (r: Self) {
        Fix48 { bits: sub_sat(self.bits, rhs.bits) }
    }

    fn times(self, rhs: Self) -> (r: Self) {
        Fix48 { bits: mul_scaled_sat(self.bits, rhs.bits, FIX48_SCALE) }
    }

    fn divide(self, rhs: Self) -> (r: Self) {
        Fix48 { bits: div_scaled_sat(self.bits, rhs.bits, FIX48_SCALE) }
    }

    fn sq_root(self) -> (r: Self) {
        Fix48 { bits: sqrt_scaled(self.bits, FIX48_SCALE) }
    }
}

/// Scale of [`Fix32`]: 2 to the 32nd power.
pub const FIX32_SCALE: i64 = 0x100000000;

/// A coarser, wider-range fixed-point scalar: 32 integer bits, 32
/// fractional bits, stored as raw `i64` bits so that the stored value is
/// `bits / 2^32`.  Arithmetic behaves as for [`Fix48`]: saturating, with
/// total division and square root.
#[derive(Clone, Copy, PartialEq, Eq, Structural, Debug)]
pub struct Fix32 {
    pub bits: i64,
}

impl Numeric for Fix32 {
    open spec fn zero_spec() -> Self {
        Fix32 { bits: 0 }
    }

    open spec fn one_spec() -> Self {
        Fix32 { bits: FIX32_SCALE }
    }

    open spec fn positive_spec(self) -> bool {
        self.bits > 0
    }

    open spec fn plus_spec(self, rhs: Self) -> Self {
        Fix32 { bits: sat_i64(self.bits + rhs.bits) as i64 }
    }

    open spec fn minus_spec(self, rhs: Self) -> Self {
        Fix32 { bits: sat_i64(self.bits - rhs.bits) as i64 }
    }

    open spec fn times_spec(self, rhs: Self) -> Self {
        Fix32 { bits: sat_i64(trunc_div(self.bits * rhs.bits, FIX32_SCALE as int)) as i64 }
    }

    open spec fn divide_spec(self, rhs: Self) -> Self {
        if rhs.bits == 0 {
            Fix32 { bits: 0 }
        } else {
            Fix32 { bits: sat_i64(trunc_div(self.bits * FIX32_SCALE, rhs.bits as int)) as i64 }
        }
    }

    open spec fn sqrt_spec(self) -> Self {
        if self.bits < 0 {
            Fix32 { bits: 0 }
        } else {
            Fix32 { bits: isqrt_spec((self.bits * FIX32_SCALE) as nat) as i64 }
        }
    }

    proof fn self_difference_vanishes(self) {
    }

    proof fn zero_annihilates(self) {
        assert(0 * self.bits == 0);
        assert(trunc_div(0, FIX32_SCALE as int) == 0);
    }

    fn zero() -> (r: Self) {
        Fix32 { bits: 0 }
    }

    fn identity() -> (r: Self) {
        Fix32 { bits: FIX32_SCALE }
    }

    fn plus(self, rhs: Self) -> (r: Self) {
        Fix32 { bits: add_sat(self.bits, rhs.bits) }
    }

    fn minus(self, rhs: Self) -> (r: Self) {
        Fix32 { bits: sub_sat(self.bits, rhs.bits) }
    }

    fn times(self, rhs: Self) -> (r: Self) {
        Fix32 { bits: mul_scaled_sat(self.bits, rhs.bits, FIX32_SCALE) }
    }

    fn divide(self, rhs: Self) -> (r: Self) {
        Fix32 { bits: div_scaled_sat(self.bits, rhs.bits, FIX32_SCALE) }
    }

    fn sq_root(self) -> (r: Self) {
        Fix32 { bits: sqrt_scaled(self.bits, FIX32_SCALE) }
    }
}

} // verus!
