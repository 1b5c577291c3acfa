//! General laws of the vector and rectangle operations, each proved from the
//! contracts alone: they hold for every type combination the traits admit.

use crate::abs_int;
use crate::max_int;
use crate::min_int;
use crate::rect::max_x_seq;
use crate::rect::max_y_seq;
use crate::rect::min_x_seq;
use crate::rect::min_y_seq;
use crate::rect::rect_contains;
use crate::rect::Rectangle;
use crate::scalar::Scalar;
use crate::scalar::ZeroOneTwo;
use crate::tdiv;
use crate::vector::Vector2;
use vstd::prelude::*;

verus! {

/// Truncating division undoes multiplication: for any `s != 0`,
/// `tdiv(x * s, s) == x`.
pub proof fn lemma_tdiv_mul_cancel(x: int, s: int)
    requires
        s != 0,
    ensures
        tdiv(x * s, s) == x,
{
    if x == 0 {
        assert(x * s == 0) by (nonlinear_arith)
            requires
                x == 0,
        ;
    } else if x > 0 && s > 0 {
        assert(x * s > 0 && x * s == s * x) by (nonlinear_arith)
            requires
                x > 0 && s > 0,
        ;
        vstd::arithmetic::div_mod::lemma_div_multiples_vanish(x, s);
    } else if x < 0 && s > 0 {
        assert(x * s < 0 && -(x * s) == s * (-x)) by (nonlinear_arith)
            requires
                x < 0 && s > 0,
        ;
        vstd::arithmetic::div_mod::lemma_div_multiples_vanish(-x, s);
    } else if x > 0 && s < 0 {
        assert(x * s < 0 && -(x * s) == (-s) * x) by (nonlinear_arith)
            requires
                x > 0 && s < 0,
        ;
        vstd::arithmetic::div_mod::lemma_div_multiples_vanish(x, -s);
    } else {
        assert(x * s > 0 && x * s == (-s) * (-x)) by (nonlinear_arith)
            requires
                x < 0 && s < 0,
        ;
        vstd::arithmetic::div_mod::lemma_div_multiples_vanish(-x, -s);
    }
}

/// Law: adding a vector's negation yields the zero vector.
///
/// For any vector `v`, if `n` is what `neg` returns for `v`, `s` is what
/// `add` returns for `v` and `n`, and `z` is the vector with both components
/// zero, then `s` is `z`.
pub proof fn lemma_add_neg_is_zero<V: Vector2>(v: V, n: V, s: V, z: V)
    requires
        n.spec_x().val() == -v.spec_x().val(),
        n.spec_y().val() == -v.spec_y().val(),
        s.spec_x().val() == v.spec_x().val() + n.spec_x().val(),
        s.spec_y().val() == v.spec_y().val() + n.spec_y().val(),
        z.spec_x() == V::Scalar::spec_zero(),
        z.spec_y() == V::Scalar::spec_zero(),
    ensures
        s == z,
{
    V::Scalar::lemma_constants();
    V::Scalar::lemma_val_injective(s.spec_x(), z.spec_x());
    V::Scalar::lemma_val_injective(s.spec_y(), z.spec_y());
    V::lemma_vector_ext(s, z);
}

/// Law: subtracting a vector from itself yields the zero vector.
///
/// If `s` is what `sub` returns for `v` and `v`, and `z` is the vector with
/// both components zero, then `s` is `z`.
pub proof fn lemma_sub_self_is_zero<V: Vector2>(v: V, s: V, z: V)
    requires
        s.spec_x().val() == v.spec_x().val() - v.spec_x().val(),
        s.spec_y().val() == v.spec_y().val() - v.spec_y().val(),
        z.spec_x() == V::Scalar::spec_zero(),
        z.spec_y() == V::Scalar::spec_zero(),
    ensures
        s == z,
{
    V::Scalar::lemma_constants();
    V::Scalar::lemma_val_injective(s.spec_x(), z.spec_x());
    V::Scalar::lemma_val_injective(s.spec_y(), z.spec_y());
    V::lemma_vector_ext(s, z);
}

/// Law: multiplying a vector by a non-zero scalar and dividing by the same
/// scalar yields the original vector exactly.
///
/// If `m` is what `mul` returns for `v` and `s`, and `q` is what `div`
/// returns for `m` and `s`, then `q` is `v`.
pub proof fn lemma_mul_div_cancel<V: Vector2>(v: V, s: V::Scalar, m: V, q: V)
    requires
        s.val() != 0,
        m.spec_x().val() == v.spec_x().val() * s.val(),
        m.spec_y().val() == v.spec_y().val() * s.val(),
        q.spec_x().val() == tdiv(m.spec_x().val(), s.val()),
        q.spec_y().val() == tdiv(m.spec_y().val(), s.val()),
    ensures
        q == v,
{
    lemma_tdiv_mul_cancel(v.spec_x().val(), s.val());
    lemma_tdiv_mul_cancel(v.spec_y().val(), s.val());
    V::Scalar::lemma_val_injective(q.spec_x(), v.spec_x());
    V::Scalar::lemma_val_injective(q.spec_y(), v.spec_y());
    V::lemma_vector_ext(q, v);
}

/// Law: the dot product is commutative.
///
/// If `d1` is what `dot` returns for `a` and `b`, and `d2` is what `dot`
/// returns for `b` and `a`, then `d1` is `d2`, whatever the two vector types.
pub proof fn lemma_dot_commutative<V: Vector2, W: Vector2<Scalar = V::Scalar>>(
    a: V,
    b: W,
    d1: V::Scalar,
    d2: V::Scalar,
)
    requires
        d1.val() == a.spec_x().val() * b.spec_x().val() + a.spec_y().val() * b.spec_y().val(),
        d2.val() == b.spec_x().val() * a.spec_x().val() + b.spec_y().val() * a.spec_y().val(),
    ensures
        d1 == d2,
{
    assert(a.spec_x().val() * b.spec_x().val() == b.spec_x().val() * a.spec_x().val())
        by (nonlinear_arith);
    assert(a.spec_y().val() * b.spec_y().val() == b.spec_y().val() * a.spec_y().val())
        by (nonlinear_arith);
    V::Scalar::lemma_val_injective(d1, d2);
}

/// Law: the absolute edges of a rectangle are ordered, whatever the sign of
/// the size components: the absolute left edge never exceeds the absolute
/// right edge, nor the absolute top edge the absolute bottom edge.
///
/// The four arguments are what `abs_left`, `abs_right`, `abs_top` and
/// `abs_bottom` return for `r`.
pub proof fn lemma_abs_edges_ordered<R: Rectangle>(
    r: R,
    left: R::Scalar,
    right: R::Scalar,
    top: R::Scalar,
    bottom: R::Scalar,
)
    requires
        left.val() == min_int(
            r.spec_top_left().spec_x().val(),
            r.spec_top_left().spec_x().val() + r.spec_size().spec_x().val(),
        ),
        right.val() == max_int(
            r.spec_top_left().spec_x().val(),
            r.spec_top_left().spec_x().val() + r.spec_size().spec_x().val(),
        ),
        top.val() == min_int(
            r.spec_top_left().spec_y().val(),
            r.spec_top_left().spec_y().val() + r.spec_size().spec_y().val(),
        ),
        bottom.val() == max_int(
            r.spec_top_left().spec_y().val(),
            r.spec_top_left().spec_y().val() + r.spec_size().spec_y().val(),
        ),
    ensures
        left.val() <= right.val(),
        top.val() <= bottom.val(),
{
}

/// Law: containment is monotonic in the margin. A point contained in the
/// rectangle shrunk inward by a uniform margin `m` is contained in the
/// original rectangle, for any margin from zero up to the absolute width and
/// height.
///
/// `(l, t)` is the top-left corner, `(w, h)` the size of either sign, and
/// the inner rectangle's anchor and size are exactly what `inner_margin`
/// returns. A margin larger than the absolute width or height can move an
/// edge of the shrunk rectangle outside the original, so such margins are
/// excluded.
pub proof fn lemma_inner_margin_monotonic(
    l: int,
    t: int,
    w: int,
    h: int,
    m: int,
    px: int,
    py: int,
)
    requires
        0 <= m,
        m <= abs_int(w),
        m <= abs_int(h),
        rect_contains(
            min_int(l, l + w) + m,
            min_int(t, t + h) + m,
            abs_int(w) - (m + m),
            abs_int(h) - (m + m),
            px,
            py,
        ),
    ensures
        rect_contains(l, t, w, h, px, py),
{
}

/// Over a non-empty sequence of vectors, the least x component never exceeds
/// the greatest, and likewise for y.
pub proof fn lemma_component_folds_ordered<V: Vector2>(s: Seq<V>)
    requires
        0 < s.len(),
    ensures
        min_x_seq(s) <= max_x_seq(s),
        min_y_seq(s) <= max_y_seq(s),
    decreases s.len(),
{
    if s.len() > 1 {
        lemma_component_folds_ordered(s.drop_last());
    }
}

/// Every component of a vector of a non-empty sequence lies between the
/// least and the greatest component of the sequence.
pub proof fn lemma_component_folds_bound<V: Vector2>(s: Seq<V>, i: int)
    requires
        0 <= i < s.len(),
    ensures
        min_x_seq(s) <= s[i].spec_x().val() <= max_x_seq(s),
        min_y_seq(s) <= s[i].spec_y().val() <= max_y_seq(s),
    decreases s.len(),
{
    if s.len() > 1 && i < s.len() - 1 {
        lemma_component_folds_bound(s.drop_last(), i);
        assert(s.drop_last()[i] == s[i]);
    }
}

/// Law: the rectangle that `bounding` returns contains every point it was
/// built from: its anchor is the component-wise minimum of the points and
/// its size the maximum minus the minimum, and each point lies within those
/// edges.
pub proof fn lemma_bounding_contains_points<V: Vector2>(s: Seq<V>, i: int)
    requires
        0 <= i < s.len(),
    ensures
        rect_contains(
            min_x_seq(s),
            min_y_seq(s),
            max_x_seq(s) - min_x_seq(s),
            max_y_seq(s) - min_y_seq(s),
            s[i].spec_x().val(),
            s[i].spec_y().val(),
        ),
{
    lemma_component_folds_ordered(s);
    lemma_component_folds_bound(s, i);
}

/// Law: the rectangle that `bounding` returns is the smallest containing
/// rectangle. Any rectangle, of either size sign, that contains all the
/// points encloses the bounding rectangle's edges.
pub proof fn lemma_bounding_minimal<V: Vector2>(s: Seq<V>, l: int, t: int, w: int, h: int)
    requires
        0 < s.len(),
        forall|i: int|
            0 <= i < s.len() ==> rect_contains(
                l,
                t,
                w,
                h,
                s[i].spec_x().val(),
                s[i].spec_y().val(),
            ),
    ensures
        min_int(l, l + w) <= min_x_seq(s),
        max_x_seq(s) <= max_int(l, l + w),
        min_int(t, t + h) <= min_y_seq(s),
        max_y_seq(s) <= max_int(t, t + h),
    decreases s.len(),
{
    assert(rect_contains(l, t, w, h, s[0].spec_x().val(), s[0].spec_y().val()));
    if s.len() > 1 {
        assert forall|i: int| 0 <= i < s.drop_last().len() implies rect_contains(
            l,
            t,
            w,
            h,
            s.drop_last()[i].spec_x().val(),
            s.drop_last()[i].spec_y().val(),
        ) by {
            assert(s.drop_last()[i] == s[i]);
        }
        lemma_bounding_minimal(s.drop_last(), l, t, w, h);
        assert(rect_contains(
            l,
            t,
            w,
            h,
            s.last().spec_x().val(),
            s.last().spec_y().val(),
        ));
    }
}

/// Law: a bounding rectangle of a single point is the zero-size rectangle
/// anchored at that point: over the one-point sequence, all four component
/// folds collapse to the point's components, so `bounding` returns a
/// rectangle with that anchor and zero size.
pub proof fn lemma_bounding_single<V: Vector2>(p: V)
    ensures
        min_x_seq(seq![p]) == p.spec_x().val(),
        max_x_seq(seq![p]) == p.spec_x().val(),
        min_y_seq(seq![p]) == p.spec_y().val(),
        max_y_seq(seq![p]) == p.spec_y().val(),
{
}

/// Law: mapping a vector to another representation with the same scalar type
/// and back yields the original vector exactly.
///
/// If `b` is what `map` returns for `a`, and `a2` is what `map` returns for
/// `b`, then `a2` is `a`.
pub proof fn lemma_vector_map_round_trip<A: Vector2, B: Vector2<Scalar = A::Scalar>>(
    a: A,
    b: B,
    a2: A,
)
    requires
        b.spec_x() == a.spec_x(),
        b.spec_y() == a.spec_y(),
        a2.spec_x() == b.spec_x(),
        a2.spec_y() == b.spec_y(),
    ensures
        a2 == a,
{
    A::lemma_vector_ext(a2, a);
}

/// Law: mapping a rectangle to another representation with the same scalar
/// type and back yields the original rectangle exactly.
///
/// If `b` is what `map` returns for `a`, and `a2` is what `map` returns for
/// `b`, then `a2` is `a`.
pub proof fn lemma_rectangle_map_round_trip<A: Rectangle, B: Rectangle<Scalar = A::Scalar>>(
    a: A,
    b: B,
    a2: A,
)
    requires
        b.spec_top_left().spec_x() == a.spec_top_left().spec_x(),
        b.spec_top_left().spec_y() == a.spec_top_left().spec_y(),
        b.spec_size().spec_x() == a.spec_size().spec_x(),
        b.spec_size().spec_y() == a.spec_size().spec_y(),
        a2.spec_top_left().spec_x() == b.spec_top_left().spec_x(),
        a2.spec_top_left().spec_y() == b.spec_top_left().spec_y(),
        a2.spec_size().spec_x() == b.spec_size().spec_x(),
        a2.spec_size().spec_y() == b.spec_size().spec_y(),
    ensures
        a2 == a,
{
    A::Vector::lemma_vector_ext(a2.spec_top_left(), a.spec_top_left());
    A::Vector::lemma_vector_ext(a2.spec_size(), a.spec_size());
    A::lemma_rectangle_ext(a2, a);
}

} // verus!
