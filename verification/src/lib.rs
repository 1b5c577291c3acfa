//! Traits for doing 2D vector geometry operations using standard types.
//!
//! Simple vector math is implemented for vectors with integer scalar types
//! (`u8` through `u128`, `usize`, `i8` through `i128`, `isize`), and for any
//! type that implements this crate's [`Scalar`](scalar::Scalar) trait.
//!
//! Vectors can be `[T; 2]`, `(T, T)`, or any type that implements
//! [`Vector2`](vector::Vector2). Rectangles can be `[T; 4]`, `(T, T, T, T)`,
//! `[[T; 2]; 2]`, `((T, T), (T, T))`, or any type that implements
//! [`Rectangle`](rect::Rectangle). Two vectors need not be of the same type
//! to allow an operation: they need only share the same scalar type, and the
//! output type is the type of the first operand.
//!
//! Every operation carries a contract over the mathematical (`int`) values of
//! the scalars involved, and the derived operations are verified once,
//! generically, against the contracts of the few primitive accessors.

use vstd::prelude::*;

pub mod ints;
pub mod laws;
pub mod pair;
pub mod rect;
pub mod scalar;
pub mod vector;

verus! {

/// Absolute value of a mathematical integer.
pub open spec fn abs_int(a: int) -> int {
    if a < 0 {
        -a
    } else {
        a
    }
}

/// Minimum of two mathematical integers.
pub open spec fn min_int(a: int, b: int) -> int {
    if a < b {
        a
    } else {
        b
    }
}

/// Maximum of two mathematical integers.
pub open spec fn max_int(a: int, b: int) -> int {
    if a > b {
        a
    } else {
        b
    }
}

/// Truncating division on mathematical integers: the quotient is rounded
/// toward zero, as Rust's `/` does on its primitive integer types.
pub open spec fn tdiv(a: int, b: int) -> int
    recommends
        b != 0,
{
    if a == 0 {
        0
    } else if a > 0 && b > 0 {
        a / b
    } else if a < 0 && b < 0 {
        (-a) / (-b)
    } else if a < 0 {
        -((-a) / b)
    } else {
        -(a / (-b))
    }
}

} // verus!
