//! The numeric capability traits: absolute value, powers, small constants,
//! and the full [`Scalar`] bundle that vector math is built on.

use crate::abs_int;
use crate::max_int;
use crate::min_int;
use crate::tdiv;
use vstd::prelude::*;

verus! {

broadcast use vstd::array::group_array_axioms;

/// Trait for retrieving an absolute value of a number.
pub trait Abs: Copy + Sized {
    /// Whether the absolute value of this number is representable.
    spec fn abs_ok(self) -> bool;

    /// The absolute value at the specification level.
    spec fn spec_abs(self) -> Self;

    /// Get the absolute value of the number.
    fn abs(self) -> (r: Self)
        requires
            self.abs_ok(),
        ensures
            r == self.spec_abs(),
    ;
}

/// Trait for raising numbers to a power.
///
/// No scalar type of this crate implements it: it is the hook through which
/// a user-defined scalar type can offer exponentiation.
pub trait Pow<P>: Sized {
    /// The output type.
    type Output;

    /// Raise this number to a power.
    fn pow(self, power: P) -> Self::Output;
}

/// Trait for defining small-number constants.
pub trait ZeroOneTwo: Copy + Sized {
    /// This type's value for zero, i.e. `0`, at the specification level.
    spec fn spec_zero() -> Self;

    /// This type's value for one, i.e. `1`, at the specification level.
    spec fn spec_one() -> Self;

    /// This type's value for two, i.e. `2`, at the specification level.
    spec fn spec_two() -> Self;

    /// This type's value for zero, i.e. `0`.
    fn zero() -> (r: Self)
        ensures
            r == Self::spec_zero(),
    ;

    /// This type's value for one, i.e. `1`.
    fn one() -> (r: Self)
        ensures
            r == Self::spec_one(),
    ;

    /// This type's value for two, i.e. `2`.
    fn two() -> (r: Self)
        ensures
            r == Self::spec_two(),
    ;
}

/// Trait for math with scalar numbers.
///
/// A scalar is modelled by its mathematical value ([`Scalar::val`]) together
/// with the set of mathematical values the type can represent
/// ([`Scalar::in_bounds`]). Every arithmetic operation is exact: it requires
/// the mathematical result to be representable and ensures the result carries
/// exactly that value. Division truncates toward zero, as Rust's primitive
/// integer division does.
pub trait Scalar: Abs + ZeroOneTwo + Copy + Sized {
    /// The mathematical value of this scalar.
    spec fn val(self) -> int;

    /// Whether a mathematical value is representable in this type.
    spec fn in_bounds(x: int) -> bool;

    /// Two scalars with the same mathematical value are equal.
    proof fn lemma_val_injective(a: Self, b: Self)
        ensures
            a.val() == b.val() ==> a == b,
    ;

    /// The mathematical value of every scalar is representable.
    proof fn lemma_val_in_bounds(a: Self)
        ensures
            Self::in_bounds(a.val()),
    ;

    /// The named constants carry the values their names promise.
    proof fn lemma_constants()
        ensures
            Self::spec_zero().val() == 0,
            Self::spec_one().val() == 1,
            Self::spec_two().val() == 2,
    ;

    /// The absolute value operation computes the mathematical absolute value.
    proof fn lemma_abs_val(a: Self)
        ensures
            a.abs_ok() <==> Self::in_bounds(abs_int(a.val())),
            a.abs_ok() ==> a.spec_abs().val() == abs_int(a.val()),
    ;

    /// Add another scalar to this one.
    fn add(self, other: Self) -> (r: Self)
        requires
            Self::in_bounds(self.val() + other.val()),
        ensures
            r.val() == self.val() + other.val(),
    ;

    /// Subtract another scalar from this one.
    fn sub(self, other: Self) -> (r: Self)
        requires
            Self::in_bounds(self.val() - other.val()),
        ensures
            r.val() == self.val() - other.val(),
    ;

    /// Multiply this scalar by another.
    fn mul(self, other: Self) -> (r: Self)
        requires
            Self::in_bounds(self.val() * other.val()),
        ensures
            r.val() == self.val() * other.val(),
    ;

    /// Divide this scalar by another, truncating toward zero.
    fn div(self, other: Self) -> (r: Self)
        requires
            other.val() != 0,
            Self::in_bounds(tdiv(self.val(), other.val())),
        ensures
            r.val() == tdiv(self.val(), other.val()),
    ;

    /// Negate this scalar.
    fn neg(self) -> (r: Self)
        requires
            Self::in_bounds(-self.val()),
        ensures
            r.val() == -self.val(),
    ;

    /// Whether this scalar is strictly less than another.
    fn lt(self, other: Self) -> (r: bool)
        ensures
            r == (self.val() < other.val()),
    ;

    /// Get the max of this `Scalar` and another.
    ///
    /// Two equal scalars yield the second operand.
    ///
    /// This function is named to not conflict with the
    /// scalar type's own `max` function.
    fn maxx(self, other: Self) -> (r: Self)
        ensures
            r.val() == max_int(self.val(), other.val()),
            r == (if other.val() < self.val() {
                self
            } else {
                other
            }),
    {
        if other.lt(self) {
            self
        } else {
            other
        }
    }

    /// Get the min of this `Scalar` and another.
    ///
    /// Two equal scalars yield the second operand.
    ///
    /// This function is named to not conflict with the
    /// scalar type's own `min` function.
    fn minn(self, other: Self) -> (r: Self)
        ensures
            r.val() == min_int(self.val(), other.val()),
            r == (if self.val() < other.val() {
                self
            } else {
                other
            }),
    {
        if self.lt(other) {
            self
        } else {
            other
        }
    }

    /// Create a square `Vector` from this `Scalar`.
    fn square(self) -> (r: [Self; 2])
        ensures
            r[0] == self,
            r[1] == self,
    {
        [self, self]
    }
}

} // verus!
