use vector2math::rect::Rectangle;
use vector2math::rect::RectangleExt;
use vector2math::vector::Vector2;

#[test]
fn margins() {
    let rect = [0, 0, 8, 8];
    assert!(rect.contains([1, 1]));
    assert!(!rect.inner_margin(2).contains([1, 1]));
}

#[test]
fn rectangle_accessors() {
    let rect: [i32; 4] = [1, 2, 4, 6];
    assert_eq!([1, 2], rect.top_left());
    assert_eq!([4, 6], rect.size());
    assert_eq!([3, 5], rect.center());
    assert_eq!(20, rect.perimeter());
    assert_eq!(24, rect.area());
    assert!(rect.contains([3, 5]));
    assert_eq!(1, rect.left());
    assert_eq!(5, rect.right());
    assert_eq!(2, rect.top());
    assert_eq!(8, rect.bottom());
    assert_eq!(4, rect.width());
    assert_eq!(6, rect.height());
    assert_eq!([5, 2], rect.top_right());
    assert_eq!([1, 8], rect.bottom_left());
    assert_eq!([5, 8], rect.bottom_right());
}

#[test]
fn negative_size_abs_accessors() {
    let neg: [i32; 4] = [1, 2, -3, -4];
    assert_ne!(neg.right(), neg.abs_right());
    assert_eq!([-2, -2], neg.abs_top_left());
    assert_eq!([1, -2], neg.abs_top_right());
    assert_eq!([-2, 2], neg.abs_bottom_left());
    assert_eq!([1, 2], neg.abs_bottom_right());
    assert_eq!([3, 4], neg.abs_size());
    assert_eq!(3, neg.abs_width());
    assert_eq!(4, neg.abs_height());
    assert!(neg.abs_left() <= neg.abs_right());
    assert!(neg.abs_top() <= neg.abs_bottom());
    let pos: [i32; 4] = [1, 2, 3, 4];
    assert_eq!(pos.right(), pos.abs_right());
}

#[test]
fn contains_is_sign_safe_and_inclusive() {
    let rect: [i32; 4] = [0, 0, 4, 4];
    assert!(rect.contains([0, 0]));
    assert!(rect.contains([4, 4]));
    assert!(!rect.contains([5, 4]));
    assert!(!rect.contains([-1, 0]));
    let neg: [i32; 4] = [1, 2, -3, -4];
    assert!(neg.contains([0, 0]));
    assert!(!neg.contains([2, 0]));
}

#[test]
fn inner_margin_monotonic_containment() {
    let rect: [i32; 4] = [0, 0, 10, 10];
    let inner = rect.inner_margin(3);
    assert_eq!([3, 3, 4, 4], inner);
    assert!(inner.contains([4, 4]));
    assert!(rect.contains([4, 4]));
    assert!(rect.contains([1, 1]));
    assert!(!inner.contains([1, 1]));
}

#[test]
fn four_sided_margins() {
    let rect: [i32; 4] = [0, 0, 10, 10];
    assert_eq!([1, 3, 7, 3], rect.inner_margins([1, 2, 3, 4]));
    assert_eq!([-1, -3, 13, 17], rect.outer_margins([1, 2, 3, 4]));
    assert_eq!([-1, -1, 6, 6], [0, 0, 4, 4].outer_margin(1));
    let neg: [i32; 4] = [1, 2, -3, -4];
    assert_eq!([-1, 1, 0, -3], neg.inner_margins([1, 2, 3, 4]));
}

#[test]
fn bounding_rectangles() {
    let points: Vec<[i32; 2]> = vec![[-1, 0], [1, 5], [3, 2]];
    let bounding: Option<[i32; 4]> = Rectangle::bounding(&points);
    assert_eq!(Some([-1, 0, 4, 5]), bounding);

    let empty: Vec<[i32; 2]> = Vec::new();
    let none: Option<[i32; 4]> = Rectangle::bounding(&empty);
    assert_eq!(None, none);

    let single: Vec<[i32; 2]> = vec![[7, -2]];
    let one: Option<[i32; 4]> = Rectangle::bounding(&single);
    assert_eq!(Some([7, -2, 0, 0]), one);
}

#[test]
fn contains_all_and_any() {
    let rect: [i32; 4] = [0, 0, 5, 5];
    let inside: Vec<[i32; 2]> = vec![[0, 0], [2, 3], [5, 5]];
    assert!(rect.contains_all(&inside));
    let mixed: Vec<[i32; 2]> = vec![[9, 9], [2, 3]];
    assert!(!rect.contains_all(&mixed));
    assert!(rect.contains_any(&mixed));
    let outside: Vec<[i32; 2]> = vec![[9, 9], [-1, 0]];
    assert!(!rect.contains_any(&outside));
    let empty: Vec<[i32; 2]> = Vec::new();
    assert!(rect.contains_all(&empty));
    assert!(!rect.contains_any(&empty));
}

#[test]
fn corners_in_clockwise_order() {
    let rect: [i32; 4] = [1, 2, 3, 4];
    let corners = rect.corners();
    assert_eq!(vec![[1, 2], [4, 2], [4, 6], [1, 6]], corners);
}

#[test]
fn constructors_and_transforms() {
    let sq: [i32; 4] = Rectangle::square([1, 2], 5);
    assert_eq!([1, 2, 5, 5], sq);
    let centered: [i32; 4] = Rectangle::centered([5, 5], [4, 6]);
    assert_eq!([3, 2, 4, 6], centered);
    let sq_centered: [i32; 4] = Rectangle::square_centered([5, 5], 4);
    assert_eq!([3, 3, 4, 4], sq_centered);

    let rect: [i32; 4] = [1, 2, 3, 4];
    assert_eq!([9, 9, 3, 4], rect.with_top_left([9, 9]));
    assert_eq!([1, 2, 8, 8], rect.with_size([8, 8]));
    assert_eq!([4, 4, 3, 4], rect.with_center([5, 6]));
    assert_eq!([2, 4, 3, 4], rect.translated([1, 2]));
    assert_eq!([1, 2, 6, 8], rect.scaled(2));
    assert_eq!([1, 2, 9, 8], rect.scaled2([3, 2]));
}

#[test]
fn rectangle_shapes_interoperate() {
    let tuple_rect: (i32, i32, i32, i32) = (1, 2, 4, 6);
    assert_eq!(24, tuple_rect.area());
    let nested: [[i32; 2]; 2] = [[1, 2], [4, 6]];
    assert_eq!(24, nested.area());
    let pair_of_tuples: ((i32, i32), (i32, i32)) = ((1, 2), (4, 6));
    assert_eq!(24, pair_of_tuples.area());
    let mixed: ([i32; 2], [i32; 2]) = ([1, 2], [4, 6]);
    assert_eq!(24, mixed.area());
}

#[test]
fn rectangle_map_round_trip() {
    let rect: [i32; 4] = [1, 2, -3, 4];
    let tuple_rect: ((i32, i32), (i32, i32)) = RectangleExt::map(rect);
    assert_eq!(((1, 2), (-3, 4)), tuple_rect);
    let back: [i32; 4] = RectangleExt::map(tuple_rect);
    assert_eq!(rect, back);
}

#[test]
fn rectangle_map_with_converts_scalars() {
    let rect: [u8; 4] = [0, 1, 2, 5];
    let wide: [i32; 4] = rect.map_with(|s| s as i32);
    assert_eq!([0, 1, 2, 5], wide);
}

#[test]
fn bounding_contains_its_points() {
    let points: Vec<[i32; 2]> = vec![[4, -1], [-6, 2], [0, 9], [3, 3]];
    let bounding: Option<[i32; 4]> = Rectangle::bounding(&points);
    let rect = bounding.unwrap();
    assert_eq!([-6, -1, 10, 10], rect);
    assert!(rect.contains_all(&points));
}
