//! Recursive decomposition of tuples into an initial window and a last
//! element.
//!
//! [`VariadicSplit`] is implemented for every tuple arity from two to
//! twelve. For arity three and above, [`left`](VariadicSplit::left) yields
//! the window of all elements but the last — itself a tuple one arity
//! smaller, which splits again — and [`right`](VariadicSplit::right) yields
//! the last element. The chain terminates at the two-element leaf, whose
//! `left` and `right` are its first and second element directly: two
//! elements are the smallest decomposable unit, so no window of arity one
//! exists. Repeatedly taking `left` from a tuple of arity `k` therefore
//! walks the windows of its leftmost `k - 1, k - 2, …, 2` elements, and the
//! `right` values read along the way are the elements from last to third.

use vstd::prelude::*;

verus! {

/// Decomposition of a sequence of arity two or more into the window of all
/// elements but the last, and the last element.
///
/// Both accessors consume the sequence, so a caller that needs both sides
/// of one value takes a copy first (element moves only — no element is ever
/// duplicated or reordered by the decomposition itself).
pub trait VariadicSplit: Sized {
    /// The window of all elements but the last; for a two-element leaf, the
    /// first element itself.
    type Left;

    /// The last element.
    type Right;

    /// What [`left`](VariadicSplit::left) returns.
    spec fn left_spec(self) -> Self::Left;

    /// What [`right`](VariadicSplit::right) returns.
    spec fn right_spec(self) -> Self::Right;

    /// The window of all elements but the last; for a two-element leaf, the
    /// first element.
    fn left(self) -> (l: Self::Left)
        ensures
            l == self.left_spec(),
    ;

    /// The last element; for a two-element leaf, the second element.
    fn right(self) -> (r: Self::Right)
        ensures
            r == self.right_spec(),
    ;
}

impl<T1, T2> VariadicSplit for (T1, T2) {
    type Left = T1;

    type Right = T2;

    open spec fn left_spec(self) -> T1 {
        self.0
    }

    open spec fn right_spec(self) -> T2 {
        self.1
    }

    fn left(self) -> (l: T1)
        ensures
            l == self.left_spec(),
    {
        let (e1, _) = self;
        e1
    }

    fn right(self) -> (r: T2)
        ensures
            r == self.right_spec(),
    {
        let (_, e2) = self;
        e2
    }
}

impl<T1, T2, T3> VariadicSplit for (T1, T2, T3) {
    type Left = (T1, T2);

    type Right = T3;

    open spec fn left_spec(self) -> (T1, T2) {
        (self.0, self.1)
    }

    open spec fn right_spec(self) -> T3 {
        self.2
    }

    fn left(self) -> (l: (T1, T2))
        ensures
            l == self.left_spec(),
    {
        let (e1, e2, _) = self;
        (e1, e2)
    }

    fn right(self) -> (r: T3)
        ensures
            r == self.right_spec(),
    {
        let (_, _, e3) = self;
        e3
    }
}

impl<T1, T2, T3, T4> VariadicSplit for (T1, T2, T3, T4) {
    type Left = (T1, T2, T3);

    type Right = T4;

    open spec fn left_spec(self) -> (T1, T2, T3) {
        (self.0, self.1, self.2)
    }

    open spec fn right_spec(self) -> T4 {
        self.3
    }

    fn left(self) -> (l: (T1, T2, T3))
        ensures
            l == self.left_spec(),
    {
        let (e1, e2, e3, _) = self;
        (e1, e2, e3)
    }

    fn right(self) -> (r: T4)
        ensures
            r == self.right_spec(),
    {
        let (_, _, _, e4) = self;
        e4
    }
}

impl<
    T1,
    T2,
    T3,
    T4,
    T5,
> VariadicSplit for (T1, T2, T3, T4, T5) {
    type Left = (T1, T2, T3, T4);

    type Right = T5;

    open spec fn left_spec(self) -> (T1, T2, T3, T4) {
        (self.0, self.1, self.2, self.3)
    }

    open spec fn right_spec(self) -> T5 {
        self.4
    }

    fn left(self) -> (l: (T1, T2, T3, T4))
        ensures
            l == self.left_spec(),
    {
        let (e1, e2, e3, e4, _) = self;
        (e1, e2, e3, e4)
    }

    fn right(self) -> (r: T5)
        ensures
            r == self.right_spec(),
    {
        let (_, _, _, _, e5) = self;
        e5
    }
}

impl<
    T1,
    T2,
    T3,
    T4,
    T5,
    T6,
> VariadicSplit for (T1, T2, T3, T4, T5, T6) {
    type Left = (T1, T2, T3, T4, T5);

    type Right = T6;

    open spec fn left_spec(self) -> (T1, T2, T3, T4, T5) {
        (self.0, self.1, self.2, self.3, self.4)
    }

    open spec fn right_spec(self) -> T6 {
        self.5
    }

    fn left(self) -> (l: (T1, T2, T3, T4, T5))
        ensures
            l == self.left_spec(),
    {
        let (e1, e2, e3, e4, e5, _) = self;
        (e1, e2, e3, e4, e5)
    }

    fn right(self) -> (r: T6)
        ensures
            r == self.right_spec(),
    {
        let (_, _, _, _, _, e6) = self;
        e6
    }
}

impl<
    T1,
    T2,
    T3,
    T4,
    T5,
    T6,
    T7,
> VariadicSplit for (T1, T2, T3, T4, T5, T6, T7) {
    type Left = (T1, T2, T3, T4, T5, T6);

    type Right = T7;

    open spec fn left_spec(self) -> (T1, T2, T3, T4, T5, T6) {
        (self.0, self.1, self.2, self.3, self.4, self.5)
    }

    open spec fn right_spec(self) -> T7 {
        self.6
    }

    fn left(self) -> (l: (T1, T2, T3, T4, T5, T6))
        ensures
            l == self.left_spec(),
    {
        let (e1, e2, e3, e4, e5, e6, _) = self;
        (e1, e2, e3, e4, e5, e6)
    }

    fn right(self) -> (r: T7)
        ensures
            r == self.right_spec(),
    {
        let (_, _, _, _, _, _, e7) = self;
        e7
    }
}

impl<
    T1,
    T2,
    T3,
    T4,
    T5,
    T6,
    T7,
    T8,
> VariadicSplit for (T1, T2, T3, T4, T5, T6, T7, T8) {
    type Left = (T1, T2, T3, T4, T5, T6, T7);

    type Right = T8;

    open spec fn left_spec(self) -> (T1, T2, T3, T4, T5, T6, T7) {
        (self.0, self.1, self.2, self.3, self.4, self.5, self.6)
    }

    open spec fn right_spec(self) -> T8 {
        self.7
    }

    fn left(self) -> (l: (T1, T2, T3, T4, T5, T6, T7))
        ensures
            l == self.left_spec(),
    {
        let (e1, e2, e3, e4, e5, e6, e7, _) = self;
        (e1, e2, e3, e4, e5, e6, e7)
    }

    fn right(self) -> (r: T8)
        ensures
            r == self.right_spec(),
    {
        let (_, _, _, _, _, _, _, e8) = self;
        e8
    }
}

impl<
    T1,
    T2,
    T3,
    T4,
    T5,
    T6,
    T7,
    T8,
    T9,
> VariadicSplit for (T1, T2, T3, T4, T5, T6, T7, T8, T9) {
    type Left = (T1, T2, T3, T4, T5, T6, T7, T8);

    type Right = T9;

    open spec fn left_spec(self) -> (T1, T2, T3, T4, T5, T6, T7, T8) {
        (self.0, self.1, self.2, self.3, self.4, self.5, self.6, self.7)
    }

    open spec fn right_spec(self) -> T9 {
        self.8
    }

    fn left(self) -> (l: (T1, T2, T3, T4, T5, T6, T7, T8))
        ensures
            l == self.left_spec(),
    {
        let (e1, e2, e3, e4, e5, e6, e7, e8, _) = self;
        (e1, e2, e3, e4, e5, e6, e7, e8)
    }

    fn right(self) -> (r: T9)
        ensures
            r == self.right_spec(),
    {
        let (_, _, _, _, _, _, _, _, e9) = self;
        e9
    }
}

impl<
    T1,
    T2,
    T3,
    T4,
    T5,
    T6,
    T7,
    T8,
    T9,
    T10,
> VariadicSplit for (T1, T2, T3, T4, T5, T6, T7, T8, T9, T10) {
    type Left = (T1, T2, T3, T4, T5, T6, T7, T8, T9);

    type Right = T10;

    open spec fn left_spec(self) -> (T1, T2, T3, T4, T5, T6, T7, T8, T9) {
        (self.0, self.1, self.2, self.3, self.4, self.5, self.6, self.7, self.8)
    }

    open spec fn right_spec(self) -> T10 {
        self.9
    }

    fn left(self) -> (l: (T1, T2, T3, T4, T5, T6, T7, T8, T9))
        ensures
            l == self.left_spec(),
    {
        let (e1, e2, e3, e4, e5, e6, e7, e8, e9, _) = self;
        (e1, e2, e3, e4, e5, e6, e7, e8, e9)
    }

    fn right(self) -> (r: T10)
        ensures
            r == self.right_spec(),
    {
        let (_, _, _, _, _, _, _, _, _, e10) = self;
        e10
    }
}

impl<
    T1,
    T2,
    T3,
    T4,
    T5,
    T6,
    T7,
    T8,
    T9,
    T10,
    T11,
> VariadicSplit for (T1, T2, T3, T4, T5, T6, T7, T8, T9, T10, T11) {
    type Left = (T1, T2, T3, T4, T5, T6, T7, T8, T9, T10);

    type Right = T11;

    open spec fn left_spec(self) -> (T1, T2, T3, T4, T5, T6, T7, T8, T9, T10) {
        (self.0, self.1, self.2, self.3, self.4, self.5, self.6, self.7, self.8, self.9)
    }

    open spec fn right_spec(self) -> T11 {
        self.10
    }

    fn left(self) -> (l: (T1, T2, T3, T4, T5, T6, T7, T8, T9, T10))
        ensures
            l == self.left_spec(),
    {
        let (e1, e2, e3, e4, e5, e6, e7, e8, e9, e10, _) = self;
        (e1, e2, e3, e4, e5, e6, e7, e8, e9, e10)
    }

    fn right(self) -> (r: T11)
        ensures
            r == self.right_spec(),
    {
        let (_, _, _, _, _, _, _, _, _, _, e11) = self;
        e11
    }
}

impl<
    T1,
    T2,
    T3,
    T4,
    T5,
    T6,
    T7,
    T8,
    T9,
    T10,
    T11,
    T12,
> VariadicSplit for (T1, T2, T3, T4, T5, T6, T7, T8, T9, T10, T11, T12) {
    type Left = (T1, T2, T3, T4, T5, T6, T7, T8, T9, T10, T11);

    type Right = T12;

    open spec fn left_spec(self) -> (T1, T2, T3, T4, T5, T6, T7, T8, T9, T10, T11) {
        (self.0, self.1, self.2, self.3, self.4, self.5, self.6, self.7, self.8, self.9, self.10)
    }

    open spec fn right_spec(self) -> T12 {
        self.11
    }

    fn left(self) -> (l: (T1, T2, T3, T4, T5, T6, T7, T8, T9, T10, T11))
        ensures
            l == self.left_spec(),
    {
        let (e1, e2, e3, e4, e5, e6, e7, e8, e9, e10, e11, _) = self;
        (e1, e2, e3, e4, e5, e6, e7, e8, e9, e10, e11)
    }

    fn right(self) -> (r: T12)
        ensures
            r == self.right_spec(),
    {
        let (_, _, _, _, _, _, _, _, _, _, _, e12) = self;
        e12
    }
}

} // verus!
