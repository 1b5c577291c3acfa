//! Implementations of the scalar capability traits for the primitive
//! integer types.

use crate::scalar::Abs;
use crate::scalar::Scalar;
use crate::scalar::ZeroOneTwo;
use vstd::prelude::*;

verus! {

impl Abs for u8 {
    open spec fn abs_ok(self) -> bool {
        true
    }

    open spec fn spec_abs(self) -> Self {
        self
    }

    fn abs(self) -> Self {
        self
    }
}

impl ZeroOneTwo for u8 {
    open spec fn spec_zero() -> Self {
        0
    }

    open spec fn spec_one() -> Self {
        1
    }

    open spec fn spec_two() -> Self {
        2
    }

    fn zero() -> Self {
        0
    }

    fn one() -> Self {
        1
    }

    fn two() -> Self {
        2
    }
}

impl Scalar for u8 {
    open spec fn val(self) -> int {
        self as int
    }

    open spec fn in_bounds(x: int) -> bool {
        0 <= x && x <= u8::MAX
    }

    proof fn lemma_val_injective(a: Self, b: Self) {
    }

    proof fn lemma_val_in_bounds(a: Self) {
    }

    proof fn lemma_constants() {
    }

    proof fn lemma_abs_val(a: Self) {
    }

    fn add(self, other: Self) -> Self {
        self + other
    }

    fn sub(self, other: Self) -> Self {
        self - other
    }

    fn mul(self, other: Self) -> Self {
        self * other
    }

    fn div(self, other: Self) -> Self {
        self / other
    }

    fn neg(self) -> Self {
        self
    }

    fn lt(self, other: Self) -> bool {
        self < other
    }
}

impl Abs for u16 {
    open spec fn abs_ok(self) -> bool {
        true
    }

    open spec fn spec_abs(self) -> Self {
        self
    }

    fn abs(self) -> Self {
        self
    }
}

impl ZeroOneTwo for u16 {
    open spec fn spec_zero() -> Self {
        0
    }

    open spec fn spec_one() -> Self {
        1
    }

    open spec fn spec_two() -> Self {
        2
    }

    fn zero() -> Self {
        0
    }

    fn one() -> Self {
        1
    }

    fn two() -> Self {
        2
    }
}

impl Scalar for u16 {
    open spec fn val(self) -> int {
        self as int
    }

    open spec fn in_bounds(x: int) -> bool {
        0 <= x && x <= u16::MAX
    }

    proof fn lemma_val_injective(a: Self, b: Self) {
    }

    proof fn lemma_val_in_bounds(a: Self) {
    }

    proof fn lemma_constants() {
    }

    proof fn lemma_abs_val(a: Self) {
    }

    fn add(self, other: Self) -> Self {
        self + other
    }

    fn sub(self, other: Self) -> Self {
        self - other
    }

    fn mul(self, other: Self) -> Self {
        self * other
    }

    fn div(self, other: Self) -> Self {
        self / other
    }

    fn neg(self) -> Self {
        self
    }

    fn lt(self, other: Self) -> bool {
        self < other
    }
}

impl Abs for u32 {
    open spec fn abs_ok(self) -> bool {
        true
    }

    open spec fn spec_abs(self) -> Self {
        self
    }

    fn abs(self) -> Self {
        self
    }
}

impl ZeroOneTwo for u32 {
    open spec fn spec_zero() -> Self {
        0
    }

    open spec fn spec_one() -> Self {
        1
    }

    open spec fn spec_two() -> Self {
        2
    }

    fn zero() -> Self {
        0
    }

    fn one() -> Self {
        1
    }

    fn two() -> Self {
        2
    }
}

impl Scalar for u32 {
    open spec fn val(self) -> int {
        self as int
    }

    open spec fn in_bounds(x: int) -> bool {
        0 <= x && x <= u32::MAX
    }

    proof fn lemma_val_injective(a: Self, b: Self) {
    }

    proof fn lemma_val_in_bounds(a: Self) {
    }

    proof fn lemma_constants() {
    }

    proof fn lemma_abs_val(a: Self) {
    }

    fn add(self, other: Self) -> Self {
        self + other
    }

    fn sub(self, other: Self) -> Self {
        self - other
    }

    fn mul(self, other: Self) -> Self {
        self * other
    }

    fn div(self, other: Self) -> Self {
        self / other
    }

    fn neg(self) -> Self {
        self
    }

    fn lt(self, other: Self) -> bool {
        self < other
    }
}

impl Abs for u64 {
    open spec fn abs_ok(self) -> bool {
        true
    }

    open spec fn spec_abs(self) -> Self {
        self
    }

    fn abs(self) -> Self {
        self
    }
}

impl ZeroOneTwo for u64 {
    open spec fn spec_zero() -> Self {
        0
    }

    open spec fn spec_one() -> Self {
        1
    }

    open spec fn spec_two() -> Self {
        2
    }

    fn zero() -> Self {
        0
    }

    fn one() -> Self {
        1
    }

    fn two() -> Self {
        2
    }
}

impl Scalar for u64 {
    open spec fn val(self) -> int {
        self as int
    }

    open spec fn in_bounds(x: int) -> bool {
        0 <= x && x <= u64::MAX
    }

    proof fn lemma_val_injective(a: Self, b: Self) {
    }

    proof fn lemma_val_in_bounds(a: Self) {
    }

    proof fn lemma_constants() {
    }

    proof fn lemma_abs_val(a: Self) {
    }

    fn add(self, other: Self) -> Self {
        self + other
    }

    fn sub(self, other: Self) -> Self {
        self - other
    }

    fn mul(self, other: Self) -> Self {
        self * other
    }

    fn div(self, other: Self) -> Self {
        self / other
    }

    fn neg(self) -> Self {
        self
    }

    fn lt(self, other: Self) -> bool {
        self < other
    }
}

impl Abs for u128 {
    open spec fn abs_ok(self) -> bool {
        true
    }

    open spec fn spec_abs(self) -> Self {
        self
    }

    fn abs(self) -> Self {
        self
    }
}

impl ZeroOneTwo for u128 {
    open spec fn spec_zero() -> Self {
        0
    }

    open spec fn spec_one() -> Self {
        1
    }

    open spec fn spec_two() -> Self {
        2
    }

    fn zero() -> Self {
        0
    }

    fn one() -> Self {
        1
    }

    fn two() -> Self {
        2
    }
}

impl Scalar for u128 {
    open spec fn val(self) -> int {
        self as int
    }

    open spec fn in_bounds(x: int) -> bool {
        0 <= x && x <= u128::MAX
    }

    proof fn lemma_val_injective(a: Self, b: Self) {
    }

    proof fn lemma_val_in_bounds(a: Self) {
    }

    proof fn lemma_constants() {
    }

    proof fn lemma_abs_val(a: Self) {
    }

    fn add(self, other: Self) -> Self {
        self + other
    }

    fn sub(self, other: Self) -> Self {
        self - other
    }

    fn mul(self, other: Self) -> Self {
        self * other
    }

    fn div(self, other: Self) -> Self {
        self / other
    }

    fn neg(self) -> Self {
        self
    }

    fn lt(self, other: Self) -> bool {
        self < other
    }
}

impl Abs for usize {
    open spec fn abs_ok(self) -> bool {
        true
    }

    open spec fn spec_abs(self) -> Self {
        self
    }

    fn abs(self) -> Self {
        self
    }
}

impl ZeroOneTwo for usize {
    open spec fn spec_zero() -> Self {
        0
    }

    open spec fn spec_one() -> Self {
        1
    }

    open spec fn spec_two() -> Self {
        2
    }

    fn zero() -> Self {
        0
    }

    fn one() -> Self {
        1
    }

    fn two() -> Self {
        2
    }
}

impl Scalar for usize {
    open spec fn val(self) -> int {
        self as int
    }

    open spec fn in_bounds(x: int) -> bool {
        0 <= x && x <= usize::MAX
    }

    proof fn lemma_val_injective(a: Self, b: Self) {
    }

    proof fn lemma_val_in_bounds(a: Self) {
    }

    proof fn lemma_constants() {
    }

    proof fn lemma_abs_val(a: Self) {
    }

    fn add(self, other: Self) -> Self {
        self + other
    }

    fn sub(self, other: Self) -> Self {
        self - other
    }

    fn mul(self, other: Self) -> Self {
        self * other
    }

    fn div(self, other: Self) -> Self {
        self / other
    }

    fn neg(self) -> Self {
        self
    }

    fn lt(self, other: Self) -> bool {
        self < other
    }
}

impl Abs for i8 {
    open spec fn abs_ok(self) -> bool {
        self != i8::MIN
    }

    open spec fn spec_abs(self) -> Self {
        if self < 0 {
            (-self) as i8
        } else {
            self
        }
    }

    fn abs(self) -> Self {
        if self < 0 {
            -self
        } else {
            self
        }
    }
}

impl ZeroOneTwo for i8 {
    open spec fn spec_zero() -> Self {
        0
    }

    open spec fn spec_one() -> Self {
        1
    }

    open spec fn spec_two() -> Self {
        2
    }

    fn zero() -> Self {
        0
    }

    fn one() -> Self {
        1
    }

    fn two() -> Self {
        2
    }
}

impl Scalar for i8 {
    open spec fn val(self) -> int {
        self as int
    }

    open spec fn in_bounds(x: int) -> bool {
        i8::MIN <= x && x <= i8::MAX
    }

    proof fn lemma_val_injective(a: Self, b: Self) {
    }

    proof fn lemma_val_in_bounds(a: Self) {
    }

    proof fn lemma_constants() {
    }

    proof fn lemma_abs_val(a: Self) {
    }

    fn add(self, other: Self) -> Self {
        self + other
    }

    fn sub(self, other: Self) -> Self {
        self - other
    }

    fn mul(self, other: Self) -> Self {
        self * other
    }

    fn div(self, other: Self) -> Self {
        self.checked_div(other).unwrap()
    }

    fn neg(self) -> Self {
        -self
    }

    fn lt(self, other: Self) -> bool {
        self < other
    }
}

impl Abs for i16 {
    open spec fn abs_ok(self) -> bool {
        self != i16::MIN
    }

    open spec fn spec_abs(self) -> Self {
        if self < 0 {
            (-self) as i16
        } else {
            self
        }
    }

    fn abs(self) -> Self {
        if self < 0 {
            -self
        } else {
            self
        }
    }
}

impl ZeroOneTwo for i16 {
    open spec fn spec_zero() -> Self {
        0
    }

    open spec fn spec_one() -> Self {
        1
    }

    open spec fn spec_two() -> Self {
        2
    }

    fn zero() -> Self {
        0
    }

    fn one() -> Self {
        1
    }

    fn two() -> Self {
        2
    }
}

impl Scalar for i16 {
    open spec fn val(self) -> int {
        self as int
    }

    open spec fn in_bounds(x: int) -> bool {
        i16::MIN <= x && x <= i16::MAX
    }

    proof fn lemma_val_injective(a: Self, b: Self) {
    }

    proof fn lemma_val_in_bounds(a: Self) {
    }

    proof fn lemma_constants() {
    }

    proof fn lemma_abs_val(a: Self) {
    }

    fn add(self, other: Self) -> Self {
        self + other
    }

    fn sub(self, other: Self) -> Self {
        self - other
    }

    fn mul(self, other: Self) -> Self {
        self * other
    }

    fn div(self, other: Self) -> Self {
        self.checked_div(other).unwrap()
    }

    fn neg(self) -> Self {
        -self
    }

    fn lt(self, other: Self) -> bool {
        self < other
    }
}

impl Abs for i32 {
    open spec fn abs_ok(self) -> bool {
        self != i32::MIN
    }

    open spec fn spec_abs(self) -> Self {
        if self < 0 {
            (-self) as i32
        } else {
            self
        }
    }

    fn abs(self) -> Self {
        if self < 0 {
            -self
        } else {
            self
        }
    }
}

impl ZeroOneTwo for i32 {
    open spec fn spec_zero() -> Self {
        0
    }

    open spec fn spec_one() -> Self {
        1
    }

    open spec fn spec_two() -> Self {
        2
    }

    fn zero() -> Self {
        0
    }

    fn one() -> Self {
        1
    }

    fn two() -> Self {
        2
    }
}

impl Scalar for i32 {
    open spec fn val(self) -> int {
        self as int
    }

    open spec fn in_bounds(x: int) -> bool {
        i32::MIN <= x && x <= i32::MAX
    }

    proof fn lemma_val_injective(a: Self, b: Self) {
    }

    proof fn lemma_val_in_bounds(a: Self) {
    }

    proof fn lemma_constants() {
    }

    proof fn lemma_abs_val(a: Self) {
    }

    fn add(self, other: Self) -> Self {
        self + other
    }

    fn sub(self, other: Self) -> Self {
        self - other
    }

    fn mul(self, other: Self) -> Self {
        self * other
    }

    fn div(self, other: Self) -> Self {
        self.checked_div(other).unwrap()
    }

    fn neg(self) -> Self {
        -self
    }

    fn lt(self, other: Self) -> bool {
        self < other
    }
}

impl Abs for i64 {
    open spec fn abs_ok(self) -> bool {
        self != i64::MIN
    }

    open spec fn spec_abs(self) -> Self {
        if self < 0 {
            (-self) as i64
        } else {
            self
        }
    }

    fn abs(self) -> Self {
        if self < 0 {
            -self
        } else {
            self
        }
    }
}

impl ZeroOneTwo for i64 {
    open spec fn spec_zero() -> Self {
        0
    }

    open spec fn spec_one() -> Self {
        1
    }

    open spec fn spec_two() -> Self {
        2
    }

    fn zero() -> Self {
        0
    }

    fn one() -> Self {
        1
    }

    fn two() -> Self {
        2
    }
}

impl Scalar for i64 {
    open spec fn val(self) -> int {
        self as int
    }

    open spec fn in_bounds(x: int) -> bool {
        i64::MIN <= x && x <= i64::MAX
    }

    proof fn lemma_val_injective(a: Self, b: Self) {
    }

    proof fn lemma_val_in_bounds(a: Self) {
    }

    proof fn lemma_constants() {
    }

    proof fn lemma_abs_val(a: Self) {
    }

    fn add(self, other: Self) -> Self {
        self + other
    }

    fn sub(self, other: Self) -> Self {
        self - other
    }

    fn mul(self, other: Self) -> Self {
        self * other
    }

    fn div(self, other: Self) -> Self {
        self.checked_div(other).unwrap()
    }

    fn neg(self) -> Self {
        -self
    }

    fn lt(self, other: Self) -> bool {
        self < other
    }
}

impl Abs for i128 {
    open spec fn abs_ok(self) -> bool {
        self != i128::MIN
    }

    open spec fn spec_abs(self) -> Self {
        if self < 0 {
            (-self) as i128
        } else {
            self
        }
    }

    fn abs(self) -> Self {
        if self < 0 {
            -self
        } else {
            self
        }
    }
}

impl ZeroOneTwo for i128 {
    open spec fn spec_zero() -> Self {
        0
    }

    open spec fn spec_one() -> Self {
        1
    }

    open spec fn spec_two() -> Self {
        2
    }

    fn zero() -> Self {
        0
    }

    fn one() -> Self {
        1
    }

    fn two() -> Self {
        2
    }
}

impl Scalar for i128 {
    open spec fn val(self) -> int {
        self as int
    }

    open spec fn in_bounds(x: int) -> bool {
        i128::MIN <= x && x <= i128::MAX
    }

    proof fn lemma_val_injective(a: Self, b: Self) {
    }

    proof fn lemma_val_in_bounds(a: Self) {
    }

    proof fn lemma_constants() {
    }

    proof fn lemma_abs_val(a: Self) {
    }

    fn add(self, other: Self) -> Self {
        self + other
    }

    fn sub(self, other: Self) -> Self {
        self - other
    }

    fn mul(self, other: Self) -> Self {
        self * other
    }

    fn div(self, other: Self) -> Self {
        self.checked_div(other).unwrap()
    }

    fn neg(self) -> Self {
        -self
    }

    fn lt(self, other: Self) -> bool {
        self < other
    }
}

impl Abs for isize {
    open spec fn abs_ok(self) -> bool {
        self != isize::MIN
    }

    open spec fn spec_abs(self) -> Self {
        if self < 0 {
            (-self) as isize
        } else {
            self
        }
    }

    fn abs(self) -> Self {
        if self < 0 {
            -self
        } else {
            self
        }
    }
}

impl ZeroOneTwo for isize {
    open spec fn spec_zero() -> Self {
        0
    }

    open spec fn spec_one() -> Self {
        1
    }

    open spec fn spec_two() -> Self {
        2
    }

    fn zero() -> Self {
        0
    }

    fn one() -> Self {
        1
    }

    fn two() -> Self {
        2
    }
}

impl Scalar for isize {
    open spec fn val(self) -> int {
        self as int
    }

    open spec fn in_bounds(x: int) -> bool {
        isize::MIN <= x && x <= isize::MAX
    }

    proof fn lemma_val_injective(a: Self, b: Self) {
    }

    proof fn lemma_val_in_bounds(a: Self) {
    }

    proof fn lemma_constants() {
    }

    proof fn lemma_abs_val(a: Self) {
    }

    fn add(self, other: Self) -> Self {
        self + other
    }

    fn sub(self, other: Self) -> Self {
        self - other
    }

    fn mul(self, other: Self) -> Self {
        self * other
    }

    fn div(self, other: Self) -> Self {
        self.checked_div(other).unwrap()
    }

    fn neg(self) -> Self {
        -self
    }

    fn lt(self, other: Self) -> bool {
        self < other
    }
}

} // verus!
