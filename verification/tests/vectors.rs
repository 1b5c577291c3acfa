use vector2math::pair::Pair;
use vector2math::scalar::Abs;
use vector2math::scalar::Scalar;
use vector2math::scalar::ZeroOneTwo;
use vector2math::vector::Vector2;
use vector2math::vector::Vector2Ext;

#[test]
fn integer_vector_operations() {
    let a: [i32; 2] = [2, 6];
    let b: (i32, i32) = (4, -1);
    assert_eq!(2, a.x());
    assert_eq!(-1, b.y());
    assert_eq!([-2, -6], a.neg());
    assert_eq!([6, 5], a.add(b));
    assert_eq!([-2, 7], a.sub(b));
    assert_eq!((12, -3), b.mul(3));
    assert_eq!((8, -6), b.mul2(a));
    assert_eq!([1, 3], a.div(2));
    assert_eq!([0, -6], a.div2(b));
    assert_eq!(2, a.dot(b));
}

#[test]
fn add_neg_is_zero_vector() {
    let v: [i32; 2] = [17, -4];
    assert_eq!([0, 0], v.add(v.neg()));
    let w: (i16, i16) = (300, -7);
    assert_eq!((0, 0), w.add(w.neg()));
}

#[test]
fn sub_self_is_zero_vector() {
    let v: [i64; 2] = [123456789, -987654321];
    assert_eq!([0, 0], v.sub(v));
    let w: (u8, u8) = (200, 3);
    assert_eq!((0, 0), w.sub(w));
}

#[test]
fn mul_then_div_returns_original() {
    let v: [i32; 2] = [7, -9];
    assert_eq!(v, v.mul(3).div(3));
    assert_eq!(v, v.mul(-5).div(-5));
    let w: (u16, u16) = (11, 42);
    assert_eq!(w, w.mul(6).div(6));
}

#[test]
fn dot_is_commutative() {
    let a: [i32; 2] = [3, -4];
    let b: [i32; 2] = [5, 7];
    assert_eq!(a.dot(b), b.dot(a));
    let c: (i8, i8) = (2, 3);
    let d: [i8; 2] = [4, -5];
    assert_eq!(c.dot(d), d.dot(c));
}

#[test]
fn division_truncates_toward_zero() {
    let v: [i32; 2] = [-7, 7];
    assert_eq!([-3, 3], v.div(2));
    assert_eq!([3, -3], v.div(-2));
}

#[test]
fn component_accessors_and_updates() {
    let mut v: [i32; 2] = [1, 2];
    v.set_x(10);
    assert_eq!([10, 2], v);
    v.set_y(20);
    assert_eq!([10, 20], v);
    assert_eq!([7, 20], v.with_x(7));
    assert_eq!([10, 9], v.with_y(9));
    let sq: [i32; 2] = Vector2::square(5);
    assert_eq!([5, 5], sq);
    assert_eq!([5, 5], 5i32.square());
}

#[test]
fn max_and_min_dim_favor_y_on_ties() {
    let v: [i32; 2] = [3, -5];
    assert_eq!(-5, v.max_dim());
    assert_eq!(3, v.min_dim());
    let tie: [i32; 2] = [3, -3];
    assert_eq!(-3, tie.max_dim());
    assert_eq!(-3, tie.min_dim());
}

#[test]
fn vector_map_round_trip() {
    let a: [i32; 2] = [1, -2];
    let b: (i32, i32) = Vector2Ext::map(a);
    assert_eq!((1, -2), b);
    let back: [i32; 2] = Vector2Ext::map(b);
    assert_eq!(a, back);
}

#[test]
fn vector_map_with_converts_scalars() {
    let a: [u8; 2] = [3, 250];
    let wide: (u32, u32) = a.map_with(|s| s as u32);
    assert_eq!((3, 250), wide);
    let doubled: [i64; 2] = a.map_with(|s| s as i64 * 2);
    assert_eq!([6, 500], doubled);
}

#[test]
fn scalar_max_min_and_constants() {
    assert_eq!(7, 3i32.maxx(7));
    assert_eq!(3, 3i32.minn(7));
    assert_eq!(7, 7i32.maxx(-7));
    assert_eq!(-7, 7i32.minn(-7));
    assert_eq!(0, <i32 as ZeroOneTwo>::zero());
    assert_eq!(1, <i32 as ZeroOneTwo>::one());
    assert_eq!(2, <i32 as ZeroOneTwo>::two());
    assert_eq!(<u64 as ZeroOneTwo>::one() + <u64 as ZeroOneTwo>::one(), <u64 as ZeroOneTwo>::two());
}

#[test]
fn abs_on_signed_and_unsigned() {
    assert_eq!(5, Abs::abs(-5i32));
    assert_eq!(5, Abs::abs(5i32));
    assert_eq!(9u32, Abs::abs(9u32));
    assert_eq!(128i16, Abs::abs(-128i16));
}

#[test]
fn pairs_split_and_rebuild() {
    let t: (i32, i32, i32, i32) = (1, 2, 3, 4);
    assert_eq!((1, 2), t.first());
    assert_eq!((3, 4), t.second());
    let rebuilt: (i32, i32, i32, i32) = Pair::from_items((1, 2), (3, 4));
    assert_eq!(t, rebuilt);
    let a: [u8; 4] = [9, 8, 7, 6];
    assert_eq!([9, 8], Pair::first(a));
    assert_eq!([7, 6], Pair::second(a));
    let rebuilt2: [u8; 4] = Pair::from_items([9, 8], [7, 6]);
    assert_eq!(a, rebuilt2);
}

#[test]
fn many_scalar_widths() {
    let a: [u8; 2] = [1, 2];
    assert_eq!([4, 6], a.add([3u8, 4]));
    let b: (usize, usize) = (10, 20);
    assert_eq!((13, 24), b.add((3usize, 4)));
    let c: [i128; 2] = [-(1i128 << 100), 1i128 << 100];
    assert_eq!([0, 0], c.add(c.neg()));
    let d: (isize, isize) = (-3, 9);
    assert_eq!((-1, 3), d.div(3));
}

#[test]
fn boundary_values() {
    let top: [u8; 2] = [255, 255];
    assert_eq!([0, 0], top.sub(top));
    assert_eq!([255, 255], top.mul(1));
    assert_eq!([255, 255], top.div(1));
    let big: (i64, i64) = (i64::MAX, i64::MIN + 1);
    assert_eq!((0, 0), big.sub(big));
    assert_eq!((i64::MAX, i64::MIN + 1), big.div(1));
    assert_eq!(i64::MAX, Abs::abs(i64::MIN + 1));
}
