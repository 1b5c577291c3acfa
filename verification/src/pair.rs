//! The structural pairing abstraction: any container that can be split into
//! two items of one type and rebuilt from them.

use vstd::prelude::*;

verus! {

broadcast use vstd::array::group_array_axioms;

/// Trait for defining a pair of items of the same type.
///
/// This trait is meant to generalize having two similar things.
/// It is implemented for `(T, T)` and `[T; 2]` with `Item = T`.
/// However, because a pair does not necessarily have to be an
/// actual *pair* it is also implemented for `(T, T, T, T)` and
/// `[T; 4]` with `Item = (T, T)` and `Item = [T; 2]` respectively.
pub trait Pair: Copy + Sized {
    /// The type of the pair's item.
    type Item;

    /// The first item at the specification level.
    spec fn spec_first(self) -> Self::Item;

    /// The second item at the specification level.
    spec fn spec_second(self) -> Self::Item;

    /// Two pairs with equal items are equal.
    proof fn lemma_pair_ext(a: Self, b: Self)
        ensures
            a.spec_first() == b.spec_first() && a.spec_second() == b.spec_second() ==> a == b,
    ;

    /// Get the first thing.
    fn first(self) -> (r: Self::Item)
        ensures
            r == self.spec_first(),
    ;

    /// Get the second thing.
    fn second(self) -> (r: Self::Item)
        ensures
            r == self.spec_second(),
    ;

    /// Create a pair from two items.
    fn from_items(a: Self::Item, b: Self::Item) -> (r: Self)
        ensures
            r.spec_first() == a,
            r.spec_second() == b,
    ;
}

impl<T: Copy> Pair for (T, T) where (T, T): Copy {
    type Item = T;

    open spec fn spec_first(self) -> T {
        self.0
    }

    open spec fn spec_second(self) -> T {
        self.1
    }

    proof fn lemma_pair_ext(a: Self, b: Self) {
    }

    fn first(self) -> T {
        self.0
    }

    fn second(self) -> T {
        self.1
    }

    fn from_items(a: T, b: T) -> Self {
        (a, b)
    }
}

impl<T: Copy> Pair for [T; 2] {
    type Item = T;

    open spec fn spec_first(self) -> T {
        self[0]
    }

    open spec fn spec_second(self) -> T {
        self[1]
    }

    proof fn lemma_pair_ext(a: Self, b: Self) {
        if a.spec_first() == b.spec_first() && a.spec_second() == b.spec_second() {
            assert(a =~= b);
        }
    }

    fn first(self) -> T {
        self[0]
    }

    fn second(self) -> T {
        self[1]
    }

    fn from_items(a: T, b: T) -> Self {
        [a, b]
    }
}

impl<T: Copy> Pair for (T, T, T, T) where (T, T, T, T): Copy {
    type Item = (T, T);

    open spec fn spec_first(self) -> (T, T) {
        (self.0, self.1)
    }

    open spec fn spec_second(self) -> (T, T) {
        (self.2, self.3)
    }

    proof fn lemma_pair_ext(a: Self, b: Self) {
    }

    fn first(self) -> (T, T) {
        (self.0, self.1)
    }

    fn second(self) -> (T, T) {
        (self.2, self.3)
    }

    fn from_items(a: (T, T), b: (T, T)) -> Self {
        (a.0, a.1, b.0, b.1)
    }
}

impl<T: Copy> Pair for [T; 4] {
    type Item = [T; 2];

    open spec fn spec_first(self) -> [T; 2] {
        [self[0], self[1]]
    }

    open spec fn spec_second(self) -> [T; 2] {
        [self[2], self[3]]
    }

    proof fn lemma_pair_ext(a: Self, b: Self) {
        if a.spec_first() == b.spec_first() && a.spec_second() == b.spec_second() {
            assert(a[0] == a.spec_first()[0] && a[1] == a.spec_first()[1]);
            assert(b[0] == b.spec_first()[0] && b[1] == b.spec_first()[1]);
            assert(a[2] == a.spec_second()[0] && a[3] == a.spec_second()[1]);
            assert(b[2] == b.spec_second()[0] && b[3] == b.spec_second()[1]);
            assert(a =~= b);
        }
    }

    fn first(self) -> [T; 2] {
        [self[0], self[1]]
    }

    fn second(self) -> [T; 2] {
        [self[2], self[3]]
    }

    fn from_items(a: [T; 2], b: [T; 2]) -> Self {
        let r = [a[0], a[1], b[0], b[1]];
        proof {
            assert(r.spec_first() =~= a);
            assert(r.spec_second() =~= b);
        }
        r
    }
}

} // verus!
