//! The 2D vector capability: two primitive accessors and a constructor,
//! with the whole derived operation set verified once, generically.

use crate::abs_int;
use crate::pair::Pair;
use crate::scalar::Abs;
use crate::scalar::Scalar;
use crate::tdiv;
use vstd::prelude::*;

verus! {

/// Trait for manipulating 2D vectors.
///
/// A vector is an ordered pair of scalars of one scalar type. Only `x`, `y`
/// and `new` are primitive; every other operation is derived from them, and
/// its contract is stated over the mathematical values of the components.
/// The operations that accept a second vector of *any* type with the same
/// scalar type live in the companion trait [`Vector2Ext`].
pub trait Vector2: Copy + Sized {
    /// The scalar type.
    type Scalar: Scalar;

    /// The x component at the specification level.
    spec fn spec_x(self) -> Self::Scalar;

    /// The y component at the specification level.
    spec fn spec_y(self) -> Self::Scalar;

    /// Two vectors with equal components are equal.
    proof fn lemma_vector_ext(a: Self, b: Self)
        ensures
            a.spec_x() == b.spec_x() && a.spec_y() == b.spec_y() ==> a == b,
    ;

    /// Get the x component.
    fn x(self) -> (r: Self::Scalar)
        ensures
            r == self.spec_x(),
    ;

    /// Get the y component.
    fn y(self) -> (r: Self::Scalar)
        ensures
            r == self.spec_y(),
    ;

    /// Create a new vector from an x and y component.
    fn new(x: Self::Scalar, y: Self::Scalar) -> (r: Self)
        ensures
            r.spec_x() == x,
            r.spec_y() == y,
    ;

    /// Set the x component.
    fn set_x(&mut self, x: Self::Scalar)
        ensures
            final(self).spec_x() == x,
            final(self).spec_y() == old(self).spec_y(),
    {
        let y = (*self).y();
        *self = Self::new(x, y);
    }

    /// Set the y component.
    fn set_y(&mut self, y: Self::Scalar)
        ensures
            final(self).spec_x() == old(self).spec_x(),
            final(self).spec_y() == y,
    {
        let x = (*self).x();
        *self = Self::new(x, y);
    }

    /// Get this vector with a different x component.
    fn with_x(self, x: Self::Scalar) -> (r: Self)
        ensures
            r.spec_x() == x,
            r.spec_y() == self.spec_y(),
    {
        Self::new(x, self.y())
    }

    /// Get this vector with a different y component.
    fn with_y(self, y: Self::Scalar) -> (r: Self)
        ensures
            r.spec_x() == self.spec_x(),
            r.spec_y() == y,
    {
        Self::new(self.x(), y)
    }

    /// Create a new square vector: both components carry the same scalar.
    fn square(s: Self::Scalar) -> (r: Self)
        ensures
            r.spec_x() == s,
            r.spec_y() == s,
    {
        Self::new(s, s)
    }

    /// Negate the vector.
    fn neg(self) -> (r: Self)
        requires
            Self::Scalar::in_bounds(-self.spec_x().val()),
            Self::Scalar::in_bounds(-self.spec_y().val()),
        ensures
            r.spec_x().val() == -self.spec_x().val(),
            r.spec_y().val() == -self.spec_y().val(),
    {
        Self::new(self.x().neg(), self.y().neg())
    }

    /// Multiply this vector by a scalar.
    fn mul(self, by: Self::Scalar) -> (r: Self)
        requires
            Self::Scalar::in_bounds(self.spec_x().val() * by.val()),
            Self::Scalar::in_bounds(self.spec_y().val() * by.val()),
        ensures
            r.spec_x().val() == self.spec_x().val() * by.val(),
            r.spec_y().val() == self.spec_y().val() * by.val(),
    {
        Self::new(self.x().mul(by), self.y().mul(by))
    }

    /// Divide this vector by a scalar, truncating toward zero.
    fn div(self, by: Self::Scalar) -> (r: Self)
        requires
            by.val() != 0,
            Self::Scalar::in_bounds(tdiv(self.spec_x().val(), by.val())),
            Self::Scalar::in_bounds(tdiv(self.spec_y().val(), by.val())),
        ensures
            r.spec_x().val() == tdiv(self.spec_x().val(), by.val()),
            r.spec_y().val() == tdiv(self.spec_y().val(), by.val()),
    {
        Self::new(self.x().div(by), self.y().div(by))
    }

    /// Get the value of the dimension with the higher magnitude.
    ///
    /// When the magnitudes are equal, the y component is returned.
    fn max_dim(self) -> (r: Self::Scalar)
        requires
            self.spec_x().abs_ok(),
            self.spec_y().abs_ok(),
        ensures
            r == (if abs_int(self.spec_x().val()) > abs_int(self.spec_y().val()) {
                self.spec_x()
            } else {
                self.spec_y()
            }),
    {
        proof {
            Self::Scalar::lemma_abs_val(self.spec_x());
            Self::Scalar::lemma_abs_val(self.spec_y());
        }
        let ax = self.x().abs();
        let ay = self.y().abs();
        if ay.lt(ax) {
            self.x()
        } else {
            self.y()
        }
    }

    /// Get the value of the dimension with the lower magnitude.
    ///
    /// When the magnitudes are equal, the y component is returned.
    fn min_dim(self) -> (r: Self::Scalar)
        requires
            self.spec_x().abs_ok(),
            self.spec_y().abs_ok(),
        ensures
            r == (if abs_int(self.spec_x().val()) < abs_int(self.spec_y().val()) {
                self.spec_x()
            } else {
                self.spec_y()
            }),
    {
        proof {
            Self::Scalar::lemma_abs_val(self.spec_x());
            Self::Scalar::lemma_abs_val(self.spec_y());
        }
        let ax = self.x().abs();
        let ay = self.y().abs();
        if ax.lt(ay) {
            self.x()
        } else {
            self.y()
        }
    }
}

/// Operations of a [`Vector2`] that involve a second vector type.
///
/// The second operand may be *any* vector type sharing the same scalar type;
/// the result type is the type of the first operand. The trait is
/// blanket-implemented for every [`Vector2`], so these operations come for
/// free with the three primitive ones.
pub trait Vector2Ext: Vector2 {
    /// Map this vector to a vector of another type with the same scalar type.
    fn map<V: Vector2<Scalar = Self::Scalar>>(self) -> (r: V)
        ensures
            r.spec_x() == self.spec_x(),
            r.spec_y() == self.spec_y(),
    ;

    /// Map this vector to a vector of another type using a function.
    fn map_with<V: Vector2, F: Fn(Self::Scalar) -> V::Scalar>(self, f: F) -> (r: V)
        requires
            call_requires(f, (self.spec_x(),)),
            call_requires(f, (self.spec_y(),)),
        ensures
            call_ensures(f, (self.spec_x(),), r.spec_x()),
            call_ensures(f, (self.spec_y(),), r.spec_y()),
    ;

    /// Add the vector to another.
    fn add<V: Vector2<Scalar = Self::Scalar>>(self, other: V) -> (r: Self)
        requires
            Self::Scalar::in_bounds(self.spec_x().val() + other.spec_x().val()),
            Self::Scalar::in_bounds(self.spec_y().val() + other.spec_y().val()),
        ensures
            r.spec_x().val() == self.spec_x().val() + other.spec_x().val(),
            r.spec_y().val() == self.spec_y().val() + other.spec_y().val(),
    ;

    /// Subtract another vector from this one.
    fn sub<V: Vector2<Scalar = Self::Scalar>>(self, other: V) -> (r: Self)
        requires
            Self::Scalar::in_bounds(self.spec_x().val() - other.spec_x().val()),
            Self::Scalar::in_bounds(self.spec_y().val() - other.spec_y().val()),
        ensures
            r.spec_x().val() == self.spec_x().val() - other.spec_x().val(),
            r.spec_y().val() == self.spec_y().val() - other.spec_y().val(),
    ;

    /// Multiply this vector component-wise by another.
    fn mul2<V: Vector2<Scalar = Self::Scalar>>(self, other: V) -> (r: Self)
        requires
            Self::Scalar::in_bounds(self.spec_x().val() * other.spec_x().val()),
            Self::Scalar::in_bounds(self.spec_y().val() * other.spec_y().val()),
        ensures
            r.spec_x().val() == self.spec_x().val() * other.spec_x().val(),
            r.spec_y().val() == self.spec_y().val() * other.spec_y().val(),
    ;

    /// Divide this vector component-wise by another, truncating toward zero.
    fn div2<V: Vector2<Scalar = Self::Scalar>>(self, other: V) -> (r: Self)
        requires
            other.spec_x().val() != 0,
            other.spec_y().val() != 0,
            Self::Scalar::in_bounds(tdiv(self.spec_x().val(), other.spec_x().val())),
            Self::Scalar::in_bounds(tdiv(self.spec_y().val(), other.spec_y().val())),
        ensures
            r.spec_x().val() == tdiv(self.spec_x().val(), other.spec_x().val()),
            r.spec_y().val() == tdiv(self.spec_y().val(), other.spec_y().val()),
    ;

    /// Get the dot product of this vector and another.
    fn dot<V: Vector2<Scalar = Self::Scalar>>(self, other: V) -> (r: Self::Scalar)
        requires
            Self::Scalar::in_bounds(self.spec_x().val() * other.spec_x().val()),
            Self::Scalar::in_bounds(self.spec_y().val() * other.spec_y().val()),
            Self::Scalar::in_bounds(
                self.spec_x().val() * other.spec_x().val() + self.spec_y().val()
                    * other.spec_y().val(),
            ),
        ensures
            r.val() == self.spec_x().val() * other.spec_x().val() + self.spec_y().val()
                * other.spec_y().val(),
    ;
}

impl<P> Vector2 for P where P: Pair, P::Item: Scalar {
    type Scalar = P::Item;

    open spec fn spec_x(self) -> P::Item {
        self.spec_first()
    }

    open spec fn spec_y(self) -> P::Item {
        self.spec_second()
    }

    proof fn lemma_vector_ext(a: Self, b: Self) {
        P::lemma_pair_ext(a, b);
    }

    fn x(self) -> P::Item {
        self.first()
    }

    fn y(self) -> P::Item {
        self.second()
    }

    fn new(x: P::Item, y: P::Item) -> Self {
        P::from_items(x, y)
    }
}

impl<T: Vector2> Vector2Ext for T {
    fn map<V: Vector2<Scalar = Self::Scalar>>(self) -> (r: V) {
        V::new(self.x(), self.y())
    }

    fn map_with<V: Vector2, F: Fn(Self::Scalar) -> V::Scalar>(self, f: F) -> (r: V) {
        let fx = f(self.x());
        let fy = f(self.y());
        V::new(fx, fy)
    }

    fn add<V: Vector2<Scalar = Self::Scalar>>(self, other: V) -> (r: Self) {
        Self::new(self.x().add(other.x()), self.y().add(other.y()))
    }

    fn sub<V: Vector2<Scalar = Self::Scalar>>(self, other: V) -> (r: Self) {
        Self::new(self.x().sub(other.x()), self.y().sub(other.y()))
    }

    fn mul2<V: Vector2<Scalar = Self::Scalar>>(self, other: V) -> (r: Self) {
        Self::new(self.x().mul(other.x()), self.y().mul(other.y()))
    }

    fn div2<V: Vector2<Scalar = Self::Scalar>>(self, other: V) -> (r: Self) {
        Self::new(self.x().div(other.x()), self.y().div(other.y()))
    }

    fn dot<V: Vector2<Scalar = Self::Scalar>>(self, other: V) -> (r: Self::Scalar) {
        self.x().mul(other.x()).add(self.y().mul(other.y()))
    }
}

} // verus!
