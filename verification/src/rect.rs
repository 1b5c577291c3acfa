//! The axis-aligned rectangle capability: a top-left anchor and a size,
//! with the derived accessors, transforms and queries verified generically.
//!
//! Because the primary expected use for this crate is in 2D graphics and
//! alignment implementations, a coordinate system where the positive Y
//! direction is "down" is assumed.
//!
//! The size may carry either sign. Methods of the form `abs_*` account for
//! the case where the size is negative: they normalize the rectangle so that
//! its effective left edge never exceeds its right edge, nor its top edge its
//! bottom edge. If the size is not negative, they are identical to their
//! non-`abs_*` counterparts.

use crate::abs_int;
use crate::max_int;
use crate::min_int;
use crate::pair::Pair;
use crate::scalar::Abs;
use crate::scalar::Scalar;
use crate::scalar::ZeroOneTwo;
use crate::tdiv;
use crate::vector::Vector2;
use crate::vector::Vector2Ext;
use vstd::prelude::*;

verus! {

/// Whether the point `(px, py)` lies in the rectangle with top-left
/// `(l, t)` and size `(w, h)`, edges included, whatever the sign of the
/// size components.
pub open spec fn rect_contains(l: int, t: int, w: int, h: int, px: int, py: int) -> bool {
    &&& min_int(l, l + w) <= px <= max_int(l, l + w)
    &&& min_int(t, t + h) <= py <= max_int(t, t + h)
}

/// The least x component over a non-empty sequence of vectors.
pub open spec fn min_x_seq<V: Vector2>(s: Seq<V>) -> int
    recommends
        s.len() > 0,
    decreases s.len(),
{
    if s.len() <= 1 {
        s[0].spec_x().val()
    } else {
        min_int(min_x_seq(s.drop_last()), s.last().spec_x().val())
    }
}

/// The greatest x component over a non-empty sequence of vectors.
pub open spec fn max_x_seq<V: Vector2>(s: Seq<V>) -> int
    recommends
        s.len() > 0,
    decreases s.len(),
{
    if s.len() <= 1 {
        s[0].spec_x().val()
    } else {
        max_int(max_x_seq(s.drop_last()), s.last().spec_x().val())
    }
}

/// The least y component over a non-empty sequence of vectors.
pub open spec fn min_y_seq<V: Vector2>(s: Seq<V>) -> int
    recommends
        s.len() > 0,
    decreases s.len(),
{
    if s.len() <= 1 {
        s[0].spec_y().val()
    } else {
        min_int(min_y_seq(s.drop_last()), s.last().spec_y().val())
    }
}

/// The greatest y component over a non-empty sequence of vectors.
pub open spec fn max_y_seq<V: Vector2>(s: Seq<V>) -> int
    recommends
        s.len() > 0,
    decreases s.len(),
{
    if s.len() <= 1 {
        s[0].spec_y().val()
    } else {
        max_int(max_y_seq(s.drop_last()), s.last().spec_y().val())
    }
}

/// Trait for manipulating axis-aligned rectangles.
///
/// Only `top_left`, `size` and `new` are primitive; everything else is
/// derived from them, with a contract over the mathematical values of the
/// anchor and size components. The operations that convert to another
/// rectangle type live in the companion trait [`RectangleExt`].
pub trait Rectangle: Copy + Sized {
    /// The scalar type.
    type Scalar: Scalar;

    /// The vector type.
    type Vector: Vector2<Scalar = Self::Scalar>;

    /// The top-left corner at the specification level.
    spec fn spec_top_left(self) -> Self::Vector;

    /// The size at the specification level.
    spec fn spec_size(self) -> Self::Vector;

    /// Two rectangles with equal anchor and size are equal.
    proof fn lemma_rectangle_ext(a: Self, b: Self)
        ensures
            a.spec_top_left() == b.spec_top_left() && a.spec_size() == b.spec_size() ==> a == b,
    ;

    /// Create a new rectangle from a top-left corner position and a size.
    fn new(top_left: Self::Vector, size: Self::Vector) -> (r: Self)
        ensures
            r.spec_top_left() == top_left,
            r.spec_size() == size,
    ;

    /// Get the top-left corner position.
    fn top_left(self) -> (r: Self::Vector)
        ensures
            r == self.spec_top_left(),
    ;

    /// Get the size.
    fn size(self) -> (r: Self::Vector)
        ensures
            r == self.spec_size(),
    ;

    /// Create a new square from a top-left corner position and a side length.
    fn square(top_left: Self::Vector, side_length: Self::Scalar) -> (r: Self)
        ensures
            r.spec_top_left() == top_left,
            r.spec_size().spec_x() == side_length,
            r.spec_size().spec_y() == side_length,
    {
        Self::new(top_left, Self::Vector::square(side_length))
    }

    /// Create a new rectangle from a center position and a size.
    ///
    /// The anchor is placed half the size away from the center, with the
    /// halving truncating toward zero as scalar division does.
    fn centered(center: Self::Vector, size: Self::Vector) -> (r: Self)
        requires
            Self::Scalar::in_bounds(tdiv(size.spec_x().val(), 2)),
            Self::Scalar::in_bounds(tdiv(size.spec_y().val(), 2)),
            Self::Scalar::in_bounds(center.spec_x().val() - tdiv(size.spec_x().val(), 2)),
            Self::Scalar::in_bounds(center.spec_y().val() - tdiv(size.spec_y().val(), 2)),
        ensures
            r.spec_top_left().spec_x().val() == center.spec_x().val() - tdiv(
                size.spec_x().val(),
                2,
            ),
            r.spec_top_left().spec_y().val() == center.spec_y().val() - tdiv(
                size.spec_y().val(),
                2,
            ),
            r.spec_size() == size,
    {
        proof {
            Self::Scalar::lemma_constants();
        }
        Self::new(center.sub(size.div(Self::Scalar::two())), size)
    }

    /// Create a new square from a center position and a side length.
    fn square_centered(center: Self::Vector, side_length: Self::Scalar) -> (r: Self)
        requires
            Self::Scalar::in_bounds(tdiv(side_length.val(), 2)),
            Self::Scalar::in_bounds(center.spec_x().val() - tdiv(side_length.val(), 2)),
            Self::Scalar::in_bounds(center.spec_y().val() - tdiv(side_length.val(), 2)),
        ensures
            r.spec_top_left().spec_x().val() == center.spec_x().val() - tdiv(
                side_length.val(),
                2,
            ),
            r.spec_top_left().spec_y().val() == center.spec_y().val() - tdiv(
                side_length.val(),
                2,
            ),
            r.spec_size().spec_x() == side_length,
            r.spec_size().spec_y() == side_length,
    {
        Self::centered(center, Self::Vector::square(side_length))
    }

    /// Get the absolute size: both components made non-negative.
    fn abs_size(self) -> (r: Self::Vector)
        requires
            self.spec_size().spec_x().abs_ok(),
            self.spec_size().spec_y().abs_ok(),
        ensures
            r.spec_x().val() == abs_int(self.spec_size().spec_x().val()),
            r.spec_y().val() == abs_int(self.spec_size().spec_y().val()),
    {
        proof {
            Self::Scalar::lemma_abs_val(self.spec_size().spec_x());
            Self::Scalar::lemma_abs_val(self.spec_size().spec_y());
        }
        Self::Vector::new(self.size().x().abs(), self.size().y().abs())
    }

    /// Get the top-right corner position.
    fn top_right(self) -> (r: Self::Vector)
        requires
            Self::Scalar::in_bounds(
                self.spec_top_left().spec_x().val() + self.spec_size().spec_x().val(),
            ),
        ensures
            r.spec_x().val() == self.spec_top_left().spec_x().val()
                + self.spec_size().spec_x().val(),
            r.spec_y() == self.spec_top_left().spec_y(),
    {
        Self::Vector::new(self.top_left().x().add(self.size().x()), self.top_left().y())
    }

    /// Get the bottom-left corner position.
    fn bottom_left(self) -> (r: Self::Vector)
        requires
            Self::Scalar::in_bounds(
                self.spec_top_left().spec_y().val() + self.spec_size().spec_y().val(),
            ),
        ensures
            r.spec_x() == self.spec_top_left().spec_x(),
            r.spec_y().val() == self.spec_top_left().spec_y().val()
                + self.spec_size().spec_y().val(),
    {
        Self::Vector::new(self.top_left().x(), self.top_left().y().add(self.size().y()))
    }

    /// Get the bottom-right corner position.
    fn bottom_right(self) -> (r: Self::Vector)
        requires
            Self::Scalar::in_bounds(
                self.spec_top_left().spec_x().val() + self.spec_size().spec_x().val(),
            ),
            Self::Scalar::in_bounds(
                self.spec_top_left().spec_y().val() + self.spec_size().spec_y().val(),
            ),
        ensures
            r.spec_x().val() == self.spec_top_left().spec_x().val()
                + self.spec_size().spec_x().val(),
            r.spec_y().val() == self.spec_top_left().spec_y().val()
                + self.spec_size().spec_y().val(),
    {
        self.top_left().add(self.size())
    }

    /// Get the absolute top-left corner position: the true minimum corner,
    /// whatever the sign of the size.
    fn abs_top_left(self) -> (r: Self::Vector)
        requires
            Self::Scalar::in_bounds(
                self.spec_top_left().spec_x().val() + self.spec_size().spec_x().val(),
            ),
            Self::Scalar::in_bounds(
                self.spec_top_left().spec_y().val() + self.spec_size().spec_y().val(),
            ),
        ensures
            r.spec_x().val() == min_int(
                self.spec_top_left().spec_x().val(),
                self.spec_top_left().spec_x().val() + self.spec_size().spec_x().val(),
            ),
            r.spec_y().val() == min_int(
                self.spec_top_left().spec_y().val(),
                self.spec_top_left().spec_y().val() + self.spec_size().spec_y().val(),
            ),
    {
        let tl = self.top_left();
        let size = self.size();
        Self::Vector::new(
            tl.x().minn(tl.x().add(size.x())),
            tl.y().minn(tl.y().add(size.y())),
        )
    }

    /// Get the absolute top-right corner position.
    fn abs_top_right(self) -> (r: Self::Vector)
        requires
            Self::Scalar::in_bounds(
                self.spec_top_left().spec_x().val() + self.spec_size().spec_x().val(),
            ),
            Self::Scalar::in_bounds(
                self.spec_top_left().spec_y().val() + self.spec_size().spec_y().val(),
            ),
            self.spec_size().spec_x().abs_ok(),
            self.spec_size().spec_y().abs_ok(),
        ensures
            r.spec_x().val() == max_int(
                self.spec_top_left().spec_x().val(),
                self.spec_top_left().spec_x().val() + self.spec_size().spec_x().val(),
            ),
            r.spec_y().val() == min_int(
                self.spec_top_left().spec_y().val(),
                self.spec_top_left().spec_y().val() + self.spec_size().spec_y().val(),
            ),
    {
        proof {
            Self::Scalar::lemma_val_in_bounds(self.spec_top_left().spec_x());
        }
        Self::Vector::new(
            self.abs_top_left().x().add(self.abs_size().x()),
            self.abs_top_left().y(),
        )
    }

    /// Get the absolute bottom-left corner position.
    fn abs_bottom_left(self) -> (r: Self::Vector)
        requires
            Self::Scalar::in_bounds(
                self.spec_top_left().spec_x().val() + self.spec_size().spec_x().val(),
            ),
            Self::Scalar::in_bounds(
                self.spec_top_left().spec_y().val() + self.spec_size().spec_y().val(),
            ),
            self.spec_size().spec_x().abs_ok(),
            self.spec_size().spec_y().abs_ok(),
        ensures
            r.spec_x().val() == min_int(
                self.spec_top_left().spec_x().val(),
                self.spec_top_left().spec_x().val() + self.spec_size().spec_x().val(),
            ),
            r.spec_y().val() == max_int(
                self.spec_top_left().spec_y().val(),
                self.spec_top_left().spec_y().val() + self.spec_size().spec_y().val(),
            ),
    {
        proof {
            Self::Scalar::lemma_val_in_bounds(self.spec_top_left().spec_y());
        }
        Self::Vector::new(
            self.abs_top_left().x(),
            self.abs_top_left().y().add(self.abs_size().y()),
        )
    }

    /// Get the absolute bottom-right corner position.
    fn abs_bottom_right(self) -> (r: Self::Vector)
        requires
            Self::Scalar::in_bounds(
                self.spec_top_left().spec_x().val() + self.spec_size().spec_x().val(),
            ),
            Self::Scalar::in_bounds(
                self.spec_top_left().spec_y().val() + self.spec_size().spec_y().val(),
            ),
            self.spec_size().spec_x().abs_ok(),
            self.spec_size().spec_y().abs_ok(),
        ensures
            r.spec_x().val() == max_int(
                self.spec_top_left().spec_x().val(),
                self.spec_top_left().spec_x().val() + self.spec_size().spec_x().val(),
            ),
            r.spec_y().val() == max_int(
                self.spec_top_left().spec_y().val(),
                self.spec_top_left().spec_y().val() + self.spec_size().spec_y().val(),
            ),
    {
        proof {
            Self::Scalar::lemma_val_in_bounds(self.spec_top_left().spec_x());
            Self::Scalar::lemma_val_in_bounds(self.spec_top_left().spec_y());
        }
        self.abs_top_left().add(self.abs_size())
    }

    /// Get the top y.
    fn top(self) -> (r: Self::Scalar)
        ensures
            r == self.spec_top_left().spec_y(),
    {
        self.top_left().y()
    }

    /// Get the bottom y.
    fn bottom(self) -> (r: Self::Scalar)
        requires
            Self::Scalar::in_bounds(
                self.spec_top_left().spec_y().val() + self.spec_size().spec_y().val(),
            ),
        ensures
            r.val() == self.spec_top_left().spec_y().val() + self.spec_size().spec_y().val(),
    {
        self.top_left().y().add(self.size().y())
    }

    /// Get the left x.
    fn left(self) -> (r: Self::Scalar)
        ensures
            r == self.spec_top_left().spec_x(),
    {
        self.top_left().x()
    }

    /// Get the right x.
    fn right(self) -> (r: Self::Scalar)
        requires
            Self::Scalar::in_bounds(
                self.spec_top_left().spec_x().val() + self.spec_size().spec_x().val(),
            ),
        ensures
            r.val() == self.spec_top_left().spec_x().val() + self.spec_size().spec_x().val(),
    {
        self.top_left().x().add(self.size().x())
    }

    /// Get the absolute top y.
    fn abs_top(self) -> (r: Self::Scalar)
        requires
            Self::Scalar::in_bounds(
                self.spec_top_left().spec_x().val() + self.spec_size().spec_x().val(),
            ),
            Self::Scalar::in_bounds(
                self.spec_top_left().spec_y().val() + self.spec_size().spec_y().val(),
            ),
        ensures
            r.val() == min_int(
                self.spec_top_left().spec_y().val(),
                self.spec_top_left().spec_y().val() + self.spec_size().spec_y().val(),
            ),
    {
        self.abs_top_left().y()
    }

    /// Get the absolute bottom y.
    fn abs_bottom(self) -> (r: Self::Scalar)
        requires
            Self::Scalar::in_bounds(
                self.spec_top_left().spec_x().val() + self.spec_size().spec_x().val(),
            ),
            Self::Scalar::in_bounds(
                self.spec_top_left().spec_y().val() + self.spec_size().spec_y().val(),
            ),
            self.spec_size().spec_x().abs_ok(),
            self.spec_size().spec_y().abs_ok(),
        ensures
            r.val() == max_int(
                self.spec_top_left().spec_y().val(),
                self.spec_top_left().spec_y().val() + self.spec_size().spec_y().val(),
            ),
    {
        proof {
            Self::Scalar::lemma_val_in_bounds(self.spec_top_left().spec_y());
        }
        self.abs_top_left().y().add(self.abs_size().y())
    }

    /// Get the absolute left x.
    fn abs_left(self) -> (r: Self::Scalar)
        requires
            Self::Scalar::in_bounds(
                self.spec_top_left().spec_x().val() + self.spec_size().spec_x().val(),
            ),
            Self::Scalar::in_bounds(
                self.spec_top_left().spec_y().val() + self.spec_size().spec_y().val(),
            ),
        ensures
            r.val() == min_int(
                self.spec_top_left().spec_x().val(),
                self.spec_top_left().spec_x().val() + self.spec_size().spec_x().val(),
            ),
    {
        self.abs_top_left().x()
    }

    /// Get the absolute right x.
    fn abs_right(self) -> (r: Self::Scalar)
        requires
            Self::Scalar::in_bounds(
                self.spec_top_left().spec_x().val() + self.spec_size().spec_x().val(),
            ),
            Self::Scalar::in_bounds(
                self.spec_top_left().spec_y().val() + self.spec_size().spec_y().val(),
            ),
            self.spec_size().spec_x().abs_ok(),
            self.spec_size().spec_y().abs_ok(),
        ensures
            r.val() == max_int(
                self.spec_top_left().spec_x().val(),
                self.spec_top_left().spec_x().val() + self.spec_size().spec_x().val(),
            ),
    {
        proof {
            Self::Scalar::lemma_val_in_bounds(self.spec_top_left().spec_x());
        }
        self.abs_top_left().x().add(self.abs_size().x())
    }

    /// Get the width.
    fn width(self) -> (r: Self::Scalar)
        ensures
            r == self.spec_size().spec_x(),
    {
        self.size().x()
    }

    /// Get the height.
    fn height(self) -> (r: Self::Scalar)
        ensures
            r == self.spec_size().spec_y(),
    {
        self.size().y()
    }

    /// Get the absolute width.
    fn abs_width(self) -> (r: Self::Scalar)
        requires
            self.spec_size().spec_x().abs_ok(),
            self.spec_size().spec_y().abs_ok(),
        ensures
            r.val() == abs_int(self.spec_size().spec_x().val()),
    {
        self.abs_size().x()
    }

    /// Get the absolute height.
    fn abs_height(self) -> (r: Self::Scalar)
        requires
            self.spec_size().spec_x().abs_ok(),
            self.spec_size().spec_y().abs_ok(),
        ensures
            r.val() == abs_int(self.spec_size().spec_y().val()),
    {
        self.abs_size().y()
    }

    /// Get the position of the center.
    ///
    /// The raw size is used, not the absolute one, and the halving truncates
    /// toward zero as scalar division does.
    fn center(self) -> (r: Self::Vector)
        requires
            Self::Scalar::in_bounds(tdiv(self.spec_size().spec_x().val(), 2)),
            Self::Scalar::in_bounds(tdiv(self.spec_size().spec_y().val(), 2)),
            Self::Scalar::in_bounds(
                self.spec_top_left().spec_x().val() + tdiv(self.spec_size().spec_x().val(), 2),
            ),
            Self::Scalar::in_bounds(
                self.spec_top_left().spec_y().val() + tdiv(self.spec_size().spec_y().val(), 2),
            ),
        ensures
            r.spec_x().val() == self.spec_top_left().spec_x().val() + tdiv(
                self.spec_size().spec_x().val(),
                2,
            ),
            r.spec_y().val() == self.spec_top_left().spec_y().val() + tdiv(
                self.spec_size().spec_y().val(),
                2,
            ),
    {
        proof {
            Self::Scalar::lemma_constants();
        }
        self.top_left().add(self.size().div(Self::Scalar::two()))
    }

    /// Transform the rectangle into one with a different top-left corner
    /// position.
    fn with_top_left(self, top_left: Self::Vector) -> (r: Self)
        ensures
            r.spec_top_left() == top_left,
            r.spec_size() == self.spec_size(),
    {
        Self::new(top_left, self.size())
    }

    /// Transform the rectangle into one with a different center position.
    fn with_center(self, center: Self::Vector) -> (r: Self)
        requires
            Self::Scalar::in_bounds(tdiv(self.spec_size().spec_x().val(), 2)),
            Self::Scalar::in_bounds(tdiv(self.spec_size().spec_y().val(), 2)),
            Self::Scalar::in_bounds(
                center.spec_x().val() - tdiv(self.spec_size().spec_x().val(), 2),
            ),
            Self::Scalar::in_bounds(
                center.spec_y().val() - tdiv(self.spec_size().spec_y().val(), 2),
            ),
        ensures
            r.spec_top_left().spec_x().val() == center.spec_x().val() - tdiv(
                self.spec_size().spec_x().val(),
                2,
            ),
            r.spec_top_left().spec_y().val() == center.spec_y().val() - tdiv(
                self.spec_size().spec_y().val(),
                2,
            ),
            r.spec_size() == self.spec_size(),
    {
        Self::centered(center, self.size())
    }

    /// Transform the rectangle into one with a different size.
    fn with_size(self, size: Self::Vector) -> (r: Self)
        ensures
            r.spec_top_left() == self.spec_top_left(),
            r.spec_size() == size,
    {
        Self::new(self.top_left(), size)
    }

    /// Get the perimeter: twice the raw width plus twice the raw height.
    fn perimeter(self) -> (r: Self::Scalar)
        requires
            Self::Scalar::in_bounds(2 * self.spec_size().spec_x().val()),
            Self::Scalar::in_bounds(2 * self.spec_size().spec_y().val()),
            Self::Scalar::in_bounds(
                2 * self.spec_size().spec_x().val() + 2 * self.spec_size().spec_y().val(),
            ),
        ensures
            r.val() == 2 * self.spec_size().spec_x().val() + 2 * self.spec_size().spec_y().val(),
    {
        proof {
            Self::Scalar::lemma_constants();
        }
        let two = Self::Scalar::two();
        self.width().mul(two).add(self.height().mul(two))
    }

    /// Get the area: raw width times raw height, with its sign.
    fn area(self) -> (r: Self::Scalar)
        requires
            Self::Scalar::in_bounds(
                self.spec_size().spec_x().val() * self.spec_size().spec_y().val(),
            ),
        ensures
            r.val() == self.spec_size().spec_x().val() * self.spec_size().spec_y().val(),
    {
        self.width().mul(self.height())
    }

    /// Get the rectangle that is this one translated by some vector.
    fn translated(self, offset: Self::Vector) -> (r: Self)
        requires
            Self::Scalar::in_bounds(self.spec_top_left().spec_x().val() + offset.spec_x().val()),
            Self::Scalar::in_bounds(self.spec_top_left().spec_y().val() + offset.spec_y().val()),
        ensures
            r.spec_top_left().spec_x().val() == self.spec_top_left().spec_x().val()
                + offset.spec_x().val(),
            r.spec_top_left().spec_y().val() == self.spec_top_left().spec_y().val()
                + offset.spec_y().val(),
            r.spec_size() == self.spec_size(),
    {
        self.with_top_left(self.top_left().add(offset))
    }

    /// Get the rectangle that is this one with a scalar-scaled size.
    fn scaled(self, scale: Self::Scalar) -> (r: Self)
        requires
            Self::Scalar::in_bounds(self.spec_size().spec_x().val() * scale.val()),
            Self::Scalar::in_bounds(self.spec_size().spec_y().val() * scale.val()),
        ensures
            r.spec_top_left() == self.spec_top_left(),
            r.spec_size().spec_x().val() == self.spec_size().spec_x().val() * scale.val(),
            r.spec_size().spec_y().val() == self.spec_size().spec_y().val() * scale.val(),
    {
        self.with_size(self.size().mul(scale))
    }

    /// Get the rectangle that is this one with a vector-scaled size.
    fn scaled2(self, scale: Self::Vector) -> (r: Self)
        requires
            Self::Scalar::in_bounds(self.spec_size().spec_x().val() * scale.spec_x().val()),
            Self::Scalar::in_bounds(self.spec_size().spec_y().val() * scale.spec_y().val()),
        ensures
            r.spec_top_left() == self.spec_top_left(),
            r.spec_size().spec_x().val() == self.spec_size().spec_x().val()
                * scale.spec_x().val(),
            r.spec_size().spec_y().val() == self.spec_size().spec_y().val()
                * scale.spec_y().val(),
    {
        self.with_size(self.size().mul2(scale))
    }

    /// Get the rectangle's four corners, in the order top-left, top-right,
    /// bottom-right, bottom-left: clockwise in screen coordinates with the
    /// positive Y direction "down".
    fn corners(self) -> (r: Vec<Self::Vector>)
        requires
            Self::Scalar::in_bounds(
                self.spec_top_left().spec_x().val() + self.spec_size().spec_x().val(),
            ),
            Self::Scalar::in_bounds(
                self.spec_top_left().spec_y().val() + self.spec_size().spec_y().val(),
            ),
        ensures
            r@.len() == 4,
            r@[0] == self.spec_top_left(),
            r@[1].spec_x().val() == self.spec_top_left().spec_x().val()
                + self.spec_size().spec_x().val(),
            r@[1].spec_y() == self.spec_top_left().spec_y(),
            r@[2].spec_x().val() == self.spec_top_left().spec_x().val()
                + self.spec_size().spec_x().val(),
            r@[2].spec_y().val() == self.spec_top_left().spec_y().val()
                + self.spec_size().spec_y().val(),
            r@[3].spec_x() == self.spec_top_left().spec_x(),
            r@[3].spec_y().val() == self.spec_top_left().spec_y().val()
                + self.spec_size().spec_y().val(),
    {
        let mut v: Vec<Self::Vector> = Vec::new();
        v.push(self.top_left());
        v.push(self.top_right());
        v.push(self.bottom_right());
        v.push(self.bottom_left());
        v
    }

    /// Check that the rectangle contains the given point. Includes edges.
    ///
    /// The absolute edges are used, so containment is sign-safe even when
    /// the raw representation has a negative size component.
    fn contains(self, point: Self::Vector) -> (r: bool)
        requires
            Self::Scalar::in_bounds(
                self.spec_top_left().spec_x().val() + self.spec_size().spec_x().val(),
            ),
            Self::Scalar::in_bounds(
                self.spec_top_left().spec_y().val() + self.spec_size().spec_y().val(),
            ),
            self.spec_size().spec_x().abs_ok(),
            self.spec_size().spec_y().abs_ok(),
        ensures
            r == rect_contains(
                self.spec_top_left().spec_x().val(),
                self.spec_top_left().spec_y().val(),
                self.spec_size().spec_x().val(),
                self.spec_size().spec_y().val(),
                point.spec_x().val(),
                point.spec_y().val(),
            ),
    {
        let in_x_bounds = !point.x().lt(self.abs_left()) && !self.abs_right().lt(point.x());
        if in_x_bounds {
            !point.y().lt(self.abs_top()) && !self.abs_bottom().lt(point.y())
        } else {
            false
        }
    }

    /// Check that the rectangle contains all the points.
    fn contains_all(self, points: &Vec<Self::Vector>) -> (r: bool)
        requires
            Self::Scalar::in_bounds(
                self.spec_top_left().spec_x().val() + self.spec_size().spec_x().val(),
            ),
            Self::Scalar::in_bounds(
                self.spec_top_left().spec_y().val() + self.spec_size().spec_y().val(),
            ),
            self.spec_size().spec_x().abs_ok(),
            self.spec_size().spec_y().abs_ok(),
        ensures
            r == (forall|i: int|
                0 <= i < points@.len() ==> rect_contains(
                    self.spec_top_left().spec_x().val(),
                    self.spec_top_left().spec_y().val(),
                    self.spec_size().spec_x().val(),
                    self.spec_size().spec_y().val(),
                    points@[i].spec_x().val(),
                    points@[i].spec_y().val(),
                )),
    {
        let mut i: usize = 0;
        while i < points.len()
            invariant
                0 <= i <= points@.len(),
                Self::Scalar::in_bounds(
                    self.spec_top_left().spec_x().val() + self.spec_size().spec_x().val(),
                ),
                Self::Scalar::in_bounds(
                    self.spec_top_left().spec_y().val() + self.spec_size().spec_y().val(),
                ),
                self.spec_size().spec_x().abs_ok(),
                self.spec_size().spec_y().abs_ok(),
                forall|j: int|
                    0 <= j < i ==> rect_contains(
                        self.spec_top_left().spec_x().val(),
                        self.spec_top_left().spec_y().val(),
                        self.spec_size().spec_x().val(),
                        self.spec_size().spec_y().val(),
                        points@[j].spec_x().val(),
                        points@[j].spec_y().val(),
                    ),
            decreases points@.len() - i,
        {
            if !self.contains(points[i]) {
                return false;
            }
            i += 1;
        }
        true
    }

    /// Check that the rectangle contains at least one of the points.
    fn contains_any(self, points: &Vec<Self::Vector>) -> (r: bool)
        requires
            Self::Scalar::in_bounds(
                self.spec_top_left().spec_x().val() + self.spec_size().spec_x().val(),
            ),
            Self::Scalar::in_bounds(
                self.spec_top_left().spec_y().val() + self.spec_size().spec_y().val(),
            ),
            self.spec_size().spec_x().abs_ok(),
            self.spec_size().spec_y().abs_ok(),
        ensures
            r == (exists|i: int|
                0 <= i < points@.len() && rect_contains(
                    self.spec_top_left().spec_x().val(),
                    self.spec_top_left().spec_y().val(),
                    self.spec_size().spec_x().val(),
                    self.spec_size().spec_y().val(),
                    points@[i].spec_x().val(),
                    points@[i].spec_y().val(),
                )),
    {
        let mut i: usize = 0;
        while i < points.len()
            invariant
                0 <= i <= points@.len(),
                Self::Scalar::in_bounds(
                    self.spec_top_left().spec_x().val() + self.spec_size().spec_x().val(),
                ),
                Self::Scalar::in_bounds(
                    self.spec_top_left().spec_y().val() + self.spec_size().spec_y().val(),
                ),
                self.spec_size().spec_x().abs_ok(),
                self.spec_size().spec_y().abs_ok(),
                forall|j: int|
                    0 <= j < i ==> !rect_contains(
                        self.spec_top_left().spec_x().val(),
                        self.spec_top_left().spec_y().val(),
                        self.spec_size().spec_x().val(),
                        self.spec_size().spec_y().val(),
                        points@[j].spec_x().val(),
                        points@[j].spec_y().val(),
                    ),
            decreases points@.len() - i,
        {
            if self.contains(points[i]) {
                return true;
            }
            i += 1;
        }
        false
    }

    /// Get the smallest rectangle that contains all the points.
    ///
    /// Returns `None` if the slice of points is empty; otherwise the
    /// top-left corner is the component-wise minimum of the points and the
    /// size is the component-wise maximum minus that minimum, so the size is
    /// never negative.
    fn bounding(points: &Vec<Self::Vector>) -> (r: Option<Self>)
        requires
            points@.len() > 0 ==> Self::Scalar::in_bounds(
                max_x_seq(points@) - min_x_seq(points@),
            ),
            points@.len() > 0 ==> Self::Scalar::in_bounds(
                max_y_seq(points@) - min_y_seq(points@),
            ),
        ensures
            points@.len() == 0 <==> r is None,
            points@.len() > 0 ==> {
                &&& r is Some
                &&& r->Some_0.spec_top_left().spec_x().val() == min_x_seq(points@)
                &&& r->Some_0.spec_top_left().spec_y().val() == min_y_seq(points@)
                &&& r->Some_0.spec_size().spec_x().val() == max_x_seq(points@) - min_x_seq(
                    points@,
                )
                &&& r->Some_0.spec_size().spec_y().val() == max_y_seq(points@) - min_y_seq(
                    points@,
                )
            },
    {
        if points.len() == 0 {
            None
        } else {
            let first = points[0];
            let mut tl = first;
            let mut br = first;
            let mut i: usize = 1;
            proof {
                assert(points@.take(1)[0] == points@[0]);
            }
            while i < points.len()
                invariant
                    1 <= i <= points@.len(),
                    tl.spec_x().val() == min_x_seq(points@.take(i as int)),
                    tl.spec_y().val() == min_y_seq(points@.take(i as int)),
                    br.spec_x().val() == max_x_seq(points@.take(i as int)),
                    br.spec_y().val() == max_y_seq(points@.take(i as int)),
                decreases points@.len() - i,
            {
                let point = points[i];
                proof {
                    assert(points@.take(i + 1).drop_last() =~= points@.take(i as int));
                    assert(points@.take(i + 1).last() == points@[i as int]);
                }
                tl = Self::Vector::new(tl.x().minn(point.x()), tl.y().minn(point.y()));
                br = Self::Vector::new(br.x().maxx(point.x()), br.y().maxx(point.y()));
                i += 1;
            }
            proof {
                assert(points@.take(points@.len() as int) =~= points@);
            }
            Some(Self::new(tl, br.sub(tl)))
        }
    }

    /// Get the rectangle that is inside this one with the given margin on
    /// all sides.
    ///
    /// The margin is applied to the absolute anchor and size. No clamping is
    /// performed: a margin larger than half the rectangle produces a
    /// negative-size rectangle.
    fn inner_margin(self, margin: Self::Scalar) -> (r: Self)
        requires
            Self::Scalar::in_bounds(
                self.spec_top_left().spec_x().val() + self.spec_size().spec_x().val(),
            ),
            Self::Scalar::in_bounds(
                self.spec_top_left().spec_y().val() + self.spec_size().spec_y().val(),
            ),
            self.spec_size().spec_x().abs_ok(),
            self.spec_size().spec_y().abs_ok(),
            Self::Scalar::in_bounds(margin.val() + margin.val()),
            Self::Scalar::in_bounds(
                min_int(
                    self.spec_top_left().spec_x().val(),
                    self.spec_top_left().spec_x().val() + self.spec_size().spec_x().val(),
                ) + margin.val(),
            ),
            Self::Scalar::in_bounds(
                min_int(
                    self.spec_top_left().spec_y().val(),
                    self.spec_top_left().spec_y().val() + self.spec_size().spec_y().val(),
                ) + margin.val(),
            ),
            Self::Scalar::in_bounds(
                abs_int(self.spec_size().spec_x().val()) - (margin.val() + margin.val()),
            ),
            Self::Scalar::in_bounds(
                abs_int(self.spec_size().spec_y().val()) - (margin.val() + margin.val()),
            ),
        ensures
            r.spec_top_left().spec_x().val() == min_int(
                self.spec_top_left().spec_x().val(),
                self.spec_top_left().spec_x().val() + self.spec_size().spec_x().val(),
            ) + margin.val(),
            r.spec_top_left().spec_y().val() == min_int(
                self.spec_top_left().spec_y().val(),
                self.spec_top_left().spec_y().val() + self.spec_size().spec_y().val(),
            ) + margin.val(),
            r.spec_size().spec_x().val() == abs_int(self.spec_size().spec_x().val()) - (
            margin.val() + margin.val()),
            r.spec_size().spec_y().val() == abs_int(self.spec_size().spec_y().val()) - (
            margin.val() + margin.val()),
    {
        self.inner_margins([margin, margin, margin, margin])
    }

    /// Get the rectangle that is inside this one with the given margins.
    ///
    /// Margins are ordered `[left, right, top, bottom]` and are applied to
    /// the absolute anchor and size. No clamping is performed.
    fn inner_margins(self, margins: [Self::Scalar; 4]) -> (r: Self)
        requires
            Self::Scalar::in_bounds(
                self.spec_top_left().spec_x().val() + self.spec_size().spec_x().val(),
            ),
            Self::Scalar::in_bounds(
                self.spec_top_left().spec_y().val() + self.spec_size().spec_y().val(),
            ),
            self.spec_size().spec_x().abs_ok(),
            self.spec_size().spec_y().abs_ok(),
            Self::Scalar::in_bounds(margins[0].val() + margins[1].val()),
            Self::Scalar::in_bounds(margins[2].val() + margins[3].val()),
            Self::Scalar::in_bounds(
                min_int(
                    self.spec_top_left().spec_x().val(),
                    self.spec_top_left().spec_x().val() + self.spec_size().spec_x().val(),
                ) + margins[0].val(),
            ),
            Self::Scalar::in_bounds(
                min_int(
                    self.spec_top_left().spec_y().val(),
                    self.spec_top_left().spec_y().val() + self.spec_size().spec_y().val(),
                ) + margins[2].val(),
            ),
            Self::Scalar::in_bounds(
                abs_int(self.spec_size().spec_x().val()) - (margins[0].val() + margins[1].val()),
            ),
            Self::Scalar::in_bounds(
                abs_int(self.spec_size().spec_y().val()) - (margins[2].val() + margins[3].val()),
            ),
        ensures
            r.spec_top_left().spec_x().val() == min_int(
                self.spec_top_left().spec_x().val(),
                self.spec_top_left().spec_x().val() + self.spec_size().spec_x().val(),
            ) + margins[0].val(),
            r.spec_top_left().spec_y().val() == min_int(
                self.spec_top_left().spec_y().val(),
                self.spec_top_left().spec_y().val() + self.spec_size().spec_y().val(),
            ) + margins[2].val(),
            r.spec_size().spec_x().val() == abs_int(self.spec_size().spec_x().val()) - (
            margins[0].val() + margins[1].val()),
            r.spec_size().spec_y().val() == abs_int(self.spec_size().spec_y().val()) - (
            margins[2].val() + margins[3].val()),
    {
        let left = margins[0];
        let right = margins[1];
        let top = margins[2];
        let bottom = margins[3];
        Self::new(
            self.abs_top_left().add(Self::Vector::new(left, top)),
            self.abs_size().sub(Self::Vector::new(left.add(right), top.add(bottom))),
        )
    }

    /// Get the rectangle that is outside this one with the given margin on
    /// all sides.
    ///
    /// The margin is applied to the absolute anchor and size.
    fn outer_margin(self, margin: Self::Scalar) -> (r: Self)
        requires
            Self::Scalar::in_bounds(
                self.spec_top_left().spec_x().val() + self.spec_size().spec_x().val(),
            ),
            Self::Scalar::in_bounds(
                self.spec_top_left().spec_y().val() + self.spec_size().spec_y().val(),
            ),
            self.spec_size().spec_x().abs_ok(),
            self.spec_size().spec_y().abs_ok(),
            Self::Scalar::in_bounds(margin.val() + margin.val()),
            Self::Scalar::in_bounds(
                min_int(
                    self.spec_top_left().spec_x().val(),
                    self.spec_top_left().spec_x().val() + self.spec_size().spec_x().val(),
                ) - margin.val(),
            ),
            Self::Scalar::in_bounds(
                min_int(
                    self.spec_top_left().spec_y().val(),
                    self.spec_top_left().spec_y().val() + self.spec_size().spec_y().val(),
                ) - margin.val(),
            ),
            Self::Scalar::in_bounds(
                abs_int(self.spec_size().spec_x().val()) + margin.val() + margin.val(),
            ),
            Self::Scalar::in_bounds(
                abs_int(self.spec_size().spec_y().val()) + margin.val() + margin.val(),
            ),
        ensures
            r.spec_top_left().spec_x().val() == min_int(
                self.spec_top_left().spec_x().val(),
                self.spec_top_left().spec_x().val() + self.spec_size().spec_x().val(),
            ) - margin.val(),
            r.spec_top_left().spec_y().val() == min_int(
                self.spec_top_left().spec_y().val(),
                self.spec_top_left().spec_y().val() + self.spec_size().spec_y().val(),
            ) - margin.val(),
            r.spec_size().spec_x().val() == abs_int(self.spec_size().spec_x().val())
                + margin.val() + margin.val(),
            r.spec_size().spec_y().val() == abs_int(self.spec_size().spec_y().val())
                + margin.val() + margin.val(),
    {
        self.outer_margins([margin, margin, margin, margin])
    }

    /// Get the rectangle that is outside this one with the given margins.
    ///
    /// Margins are ordered `[left, right, top, bottom]` and are applied to
    /// the absolute anchor and size.
    fn outer_margins(self, margins: [Self::Scalar; 4]) -> (r: Self)
        requires
            Self::Scalar::in_bounds(
                self.spec_top_left().spec_x().val() + self.spec_size().spec_x().val(),
            ),
            Self::Scalar::in_bounds(
                self.spec_top_left().spec_y().val() + self.spec_size().spec_y().val(),
            ),
            self.spec_size().spec_x().abs_ok(),
            self.spec_size().spec_y().abs_ok(),
            Self::Scalar::in_bounds(margins[0].val() + margins[1].val()),
            Self::Scalar::in_bounds(margins[2].val() + margins[3].val()),
            Self::Scalar::in_bounds(
                min_int(
                    self.spec_top_left().spec_x().val(),
                    self.spec_top_left().spec_x().val() + self.spec_size().spec_x().val(),
                ) - margins[0].val(),
            ),
            Self::Scalar::in_bounds(
                min_int(
                    self.spec_top_left().spec_y().val(),
                    self.spec_top_left().spec_y().val() + self.spec_size().spec_y().val(),
                ) - margins[2].val(),
            ),
            Self::Scalar::in_bounds(
                abs_int(self.spec_size().spec_x().val()) + (margins[0].val() + margins[1].val()),
            ),
            Self::Scalar::in_bounds(
                abs_int(self.spec_size().spec_y().val()) + (margins[2].val() + margins[3].val()),
            ),
        ensures
            r.spec_top_left().spec_x().val() == min_int(
                self.spec_top_left().spec_x().val(),
                self.spec_top_left().spec_x().val() + self.spec_size().spec_x().val(),
            ) - margins[0].val(),
            r.spec_top_left().spec_y().val() == min_int(
                self.spec_top_left().spec_y().val(),
                self.spec_top_left().spec_y().val() + self.spec_size().spec_y().val(),
            ) - margins[2].val(),
            r.spec_size().spec_x().val() == abs_int(self.spec_size().spec_x().val()) + (
            margins[0].val() + margins[1].val()),
            r.spec_size().spec_y().val() == abs_int(self.spec_size().spec_y().val()) + (
            margins[2].val() + margins[3].val()),
    {
        let left = margins[0];
        let right = margins[1];
        let top = margins[2];
        let bottom = margins[3];
        Self::new(
            self.abs_top_left().sub(Self::Vector::new(left, top)),
            self.abs_size().add(Self::Vector::new(left.add(right), top.add(bottom))),
        )
    }
}

/// Operations of a [`Rectangle`] that involve a second rectangle type.
///
/// The trait is blanket-implemented for every [`Rectangle`].
pub trait RectangleExt: Rectangle {
    /// Map this rectangle to a rectangle of another type with the same
    /// scalar type.
    ///
    /// The raw anchor and size are carried over, so the sign of the size is
    /// preserved across the mapping.
    fn map<R: Rectangle<Scalar = Self::Scalar>>(self) -> (r: R)
        ensures
            r.spec_top_left().spec_x() == self.spec_top_left().spec_x(),
            r.spec_top_left().spec_y() == self.spec_top_left().spec_y(),
            r.spec_size().spec_x() == self.spec_size().spec_x(),
            r.spec_size().spec_y() == self.spec_size().spec_y(),
    ;

    /// Map this rectangle to a rectangle of another type using a function.
    ///
    /// The function is applied to the raw left, top, width and height, in
    /// that order.
    fn map_with<R: Rectangle, F: Fn(Self::Scalar) -> R::Scalar>(self, f: F) -> (r: R)
        requires
            call_requires(f, (self.spec_top_left().spec_x(),)),
            call_requires(f, (self.spec_top_left().spec_y(),)),
            call_requires(f, (self.spec_size().spec_x(),)),
            call_requires(f, (self.spec_size().spec_y(),)),
        ensures
            call_ensures(f, (self.spec_top_left().spec_x(),), r.spec_top_left().spec_x()),
            call_ensures(f, (self.spec_top_left().spec_y(),), r.spec_top_left().spec_y()),
            call_ensures(f, (self.spec_size().spec_x(),), r.spec_size().spec_x()),
            call_ensures(f, (self.spec_size().spec_y(),), r.spec_size().spec_y()),
    ;
}

impl<T: Rectangle> RectangleExt for T {
    fn map<R: Rectangle<Scalar = Self::Scalar>>(self) -> (r: R) {
        R::new(
            R::Vector::new(self.left(), self.top()),
            R::Vector::new(self.width(), self.height()),
        )
    }

    fn map_with<R: Rectangle, F: Fn(Self::Scalar) -> R::Scalar>(self, f: F) -> (r: R) {
        let fl = f(self.left());
        let ft = f(self.top());
        let fw = f(self.width());
        let fh = f(self.height());
        R::new(R::Vector::new(fl, ft), R::Vector::new(fw, fh))
    }
}

impl<P> Rectangle for P where P: Pair, P::Item: Vector2 {
    type Scalar = <P::Item as Vector2>::Scalar;

    type Vector = P::Item;

    open spec fn spec_top_left(self) -> P::Item {
        self.spec_first()
    }

    open spec fn spec_size(self) -> P::Item {
        self.spec_second()
    }

    proof fn lemma_rectangle_ext(a: Self, b: Self) {
        P::lemma_pair_ext(a, b);
    }

    fn new(top_left: Self::Vector, size: Self::Vector) -> Self {
        P::from_items(top_left, size)
    }

    fn top_left(self) -> Self::Vector {
        self.first()
    }

    fn size(self) -> Self::Vector {
        self.second()
    }
}

} // verus!
