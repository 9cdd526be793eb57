//! [`VariadicOwned`] for tuples of arity two to twelve.
//!
//! Each implementation takes the tuple apart, moves every element into its
//! own visit exactly once, strictly left to right, and combines the outputs
//! with `M::fold` into a left-nested chain; its `visit_spec` states the same
//! fold over `M::fold_spec`, threading the mutated input from each visit
//! into the next.

use crate::{VariadicMarker, VariadicOwned};
use vstd::prelude::*;

verus! {

impl<M: VariadicMarker, T1: VariadicOwned<M>, T2: VariadicOwned<M>> VariadicOwned<M> for (T1, T2) {
    open spec fn visit_spec(self, input: M::Input) -> (M::Input, M::Output) {
        let (i1, o1) = self.0.visit_spec(input);
        let (i2, o2) = self.1.visit_spec(i1);
        let f2 = M::fold_spec(o1, o2);
        (i2, f2)
    }

    fn visit(self, input: &mut M::Input) -> (o: M::Output)
        ensures
            (*final(input), o) == self.visit_spec(*old(input)),
    {
        let (e1, e2) = self;
        let o1 = e1.visit(input);
        let o2 = e2.visit(input);
        let f2 = M::fold(o1, o2);
        proof {
            M::fold_obeys(o1, o2, f2);
        }
        f2
    }
}

impl<
    M: VariadicMarker,
    T1: VariadicOwned<M>,
    T2: VariadicOwned<M>,
    T3: VariadicOwned<M>,
> VariadicOwned<M> for (T1, T2, T3) {
    open spec fn visit_spec(self, input: M::Input) -> (M::Input, M::Output) {
        let (i1, o1) = self.0.visit_spec(input);
        let (i2, o2) = self.1.visit_spec(i1);
        let f2 = M::fold_spec(o1, o2);
        let (i3, o3) = self.2.visit_spec(i2);
        let f3 = M::fold_spec(f2, o3);
        (i3, f3)
    }

    fn visit(self, input: &mut M::Input) -> (o: M::Output)
        ensures
            (*final(input), o) == self.visit_spec(*old(input)),
    {
        let (e1, e2, e3) = self;
        let o1 = e1.visit(input);
        let o2 = e2.visit(input);
        let f2 = M::fold(o1, o2);
        proof {
            M::fold_obeys(o1, o2, f2);
        }
        let o3 = e3.visit(input);
        let f3 = M::fold(f2, o3);
        proof {
            M::fold_obeys(f2, o3, f3);
        }
        f3
    }
}

impl<
    M: VariadicMarker,
    T1: VariadicOwned<M>,
    T2: VariadicOwned<M>,
    T3: VariadicOwned<M>,
    T4: VariadicOwned<M>,
> VariadicOwned<M> for (T1, T2, T3, T4) {
    open spec fn visit_spec(self, input: M::Input) -> (M::Input, M::Output) {
        let (i1, o1) = self.0.visit_spec(input);
        let (i2, o2) = self.1.visit_spec(i1);
        let f2 = M::fold_spec(o1, o2);
        let (i3, o3) = self.2.visit_spec(i2);
        let f3 = M::fold_spec(f2, o3);
        let (i4, o4) = self.3.visit_spec(i3);
        let f4 = M::fold_spec(f3, o4);
        (i4, f4)
    }

    fn visit(self, input: &mut M::Input) -> (o: M::Output)
        ensures
            (*final(input), o) == self.visit_spec(*old(input)),
    {
        let (e1, e2, e3, e4) = self;
        let o1 = e1.visit(input);
        let o2 = e2.visit(input);
        let f2 = M::fold(o1, o2);
        proof {
            M::fold_obeys(o1, o2, f2);
        }
        let o3 = e3.visit(input);
        let f3 = M::fold(f2, o3);
        proof {
            M::fold_obeys(f2, o3, f3);
        }
        let o4 = e4.visit(input);
        let f4 = M::fold(f3, o4);
        proof {
            M::fold_obeys(f3, o4, f4);
        }
        f4
    }
}

impl<
    M: VariadicMarker,
    T1: VariadicOwned<M>,
    T2: VariadicOwned<M>,
    T3: VariadicOwned<M>,
    T4: VariadicOwned<M>,
    T5: VariadicOwned<M>,
> VariadicOwned<M> for (T1, T2, T3, T4, T5) {
    open spec fn visit_spec(self, input: M::Input) -> (M::Input, M::Output) {
        let (i1, o1) = self.0.visit_spec(input);
        let (i2, o2) = self.1.visit_spec(i1);
        let f2 = M::fold_spec(o1, o2);
        let (i3, o3) = self.2.visit_spec(i2);
        let f3 = M::fold_spec(f2, o3);
        let (i4, o4) = self.3.visit_spec(i3);
        let f4 = M::fold_spec(f3, o4);
        let (i5, o5) = self.4.visit_spec(i4);
        let f5 = M::fold_spec(f4, o5);
        (i5, f5)
    }

    fn visit(self, input: &mut M::Input) -> (o: M::Output)
        ensures
            (*final(input), o) == self.visit_spec(*old(input)),
    {
        let (e1, e2, e3, e4, e5) = self;
        let o1 = e1.visit(input);
        let o2 = e2.visit(input);
        let f2 = M::fold(o1, o2);
        proof {
            M::fold_obeys(o1, o2, f2);
        }
        let o3 = e3.visit(input);
        let f3 = M::fold(f2, o3);
        proof {
            M::fold_obeys(f2, o3, f3);
        }
        let o4 = e4.visit(input);
        let f4 = M::fold(f3, o4);
        proof {
            M::fold_obeys(f3, o4, f4);
        }
        let o5 = e5.visit(input);
        let f5 = M::fold(f4, o5);
        proof {
            M::fold_obeys(f4, o5, f5);
        }
        f5
    }
}

impl<
    M: VariadicMarker,
    T1: VariadicOwned<M>,
    T2: VariadicOwned<M>,
    T3: VariadicOwned<M>,
    T4: VariadicOwned<M>,
    T5: VariadicOwned<M>,
    T6: VariadicOwned<M>,
> VariadicOwned<M> for (T1, T2, T3, T4, T5, T6) {
    open spec fn visit_spec(self, input: M::Input) -> (M::Input, M::Output) {
        let (i1, o1) = self.0.visit_spec(input);
        let (i2, o2) = self.1.visit_spec(i1);
        let f2 = M::fold_spec(o1, o2);
        let (i3, o3) = self.2.visit_spec(i2);
        let f3 = M::fold_spec(f2, o3);
        let (i4, o4) = self.3.visit_spec(i3);
        let f4 = M::fold_spec(f3, o4);
        let (i5, o5) = self.4.visit_spec(i4);
        let f5 = M::fold_spec(f4, o5);
        let (i6, o6) = self.5.visit_spec(i5);
        let f6 = M::fold_spec(f5, o6);
        (i6, f6)
    }

    fn visit(self, input: &mut M::Input) -> (o: M::Output)
        ensures
            (*final(input), o) == self.visit_spec(*old(input)),
    {
        let (e1, e2, e3, e4, e5, e6) = self;
        let o1 = e1.visit(input);
        let o2 = e2.visit(input);
        let f2 = M::fold(o1, o2);
        proof {
            M::fold_obeys(o1, o2, f2);
        }
        let o3 = e3.visit(input);
        let f3 = M::fold(f2, o3);
        proof {
            M::fold_obeys(f2, o3, f3);
        }
        let o4 = e4.visit(input);
        let f4 = M::fold(f3, o4);
        proof {
            M::fold_obeys(f3, o4, f4);
        }
        let o5 = e5.visit(input);
        let f5 = M::fold(f4, o5);
        proof {
            M::fold_obeys(f4, o5, f5);
        }
        let o6 = e6.visit(input);
        let f6 = M::fold(f5, o6);
        proof {
            M::fold_obeys(f5, o6, f6);
        }
        f6
    }
}

impl<
    M: VariadicMarker,
    T1: VariadicOwned<M>,
    T2: VariadicOwned<M>,
    T3: VariadicOwned<M>,
    T4: VariadicOwned<M>,
    T5: VariadicOwned<M>,
    T6: VariadicOwned<M>,
    T7: VariadicOwned<M>,
> VariadicOwned<M> for (T1, T2, T3, T4, T5, T6, T7) {
    open spec fn visit_spec(self, input: M::Input) -> (M::Input, M::Output) {
        let (i1, o1) = self.0.visit_spec(input);
        let (i2, o2) = self.1.visit_spec(i1);
        let f2 = M::fold_spec(o1, o2);
        let (i3, o3) = self.2.visit_spec(i2);
        let f3 = M::fold_spec(f2, o3);
        let (i4, o4) = self.3.visit_spec(i3);
        let f4 = M::fold_spec(f3, o4);
        let (i5, o5) = self.4.visit_spec(i4);
        let f5 = M::fold_spec(f4, o5);
        let (i6, o6) = self.5.visit_spec(i5);
        let f6 = M::fold_spec(f5, o6);
        let (i7, o7) = self.6.visit_spec(i6);
        let f7 = M::fold_spec(f6, o7);
        (i7, f7)
    }

    fn visit(self, input: &mut M::Input) -> (o: M::Output)
        ensures
            (*final(input), o) == self.visit_spec(*old(input)),
    {
        let (e1, e2, e3, e4, e5, e6, e7) = self;
        let o1 = e1.visit(input);
        let o2 = e2.visit(input);
        let f2 = M::fold(o1, o2);
        proof {
            M::fold_obeys(o1, o2, f2);
        }
        let o3 = e3.visit(input);
        let f3 = M::fold(f2, o3);
        proof {
            M::fold_obeys(f2, o3, f3);
        }
        let o4 = e4.visit(input);
        let f4 = M::fold(f3, o4);
        proof {
            M::fold_obeys(f3, o4, f4);
        }
        let o5 = e5.visit(input);
        let f5 = M::fold(f4, o5);
        proof {
            M::fold_obeys(f4, o5, f5);
        }
        let o6 = e6.visit(input);
        let f6 = M::fold(f5, o6);
        proof {
            M::fold_obeys(f5, o6, f6);
        }
        let o7 = e7.visit(input);
        let f7 = M::fold(f6, o7);
        proof {
            M::fold_obeys(f6, o7, f7);
        }
        f7
    }
}

impl<
    M: VariadicMarker,
    T1: VariadicOwned<M>,
    T2: VariadicOwned<M>,
    T3: VariadicOwned<M>,
    T4: VariadicOwned<M>,
    T5: VariadicOwned<M>,
    T6: VariadicOwned<M>,
    T7: VariadicOwned<M>,
    T8: VariadicOwned<M>,
> VariadicOwned<M> for (T1, T2, T3, T4, T5, T6, T7, T8) {
    open spec fn visit_spec(self, input: M::Input) -> (M::Input, M::Output) {
        let (i1, o1) = self.0.visit_spec(input);
        let (i2, o2) = self.1.visit_spec(i1);
        let f2 = M::fold_spec(o1, o2);
        let (i3, o3) = self.2.visit_spec(i2);
        let f3 = M::fold_spec(f2, o3);
        let (i4, o4) = self.3.visit_spec(i3);
        let f4 = M::fold_spec(f3, o4);
        let (i5, o5) = self.4.visit_spec(i4);
        let f5 = M::fold_spec(f4, o5);
        let (i6, o6) = self.5.visit_spec(i5);
        let f6 = M::fold_spec(f5, o6);
        let (i7, o7) = self.6.visit_spec(i6);
        let f7 = M::fold_spec(f6, o7);
        let (i8, o8) = self.7.visit_spec(i7);
        let f8 = M::fold_spec(f7, o8);
        (i8, f8)
    }

    fn visit(self, input: &mut M::Input) -> (o: M::Output)
        ensures
            (*final(input), o) == self.visit_spec(*old(input)),
    {
        let (e1, e2, e3, e4, e5, e6, e7, e8) = self;
        let o1 = e1.visit(input);
        let o2 = e2.visit(input);
        let f2 = M::fold(o1, o2);
        proof {
            M::fold_obeys(o1, o2, f2);
        }
        let o3 = e3.visit(input);
        let f3 = M::fold(f2, o3);
        proof {
            M::fold_obeys(f2, o3, f3);
        }
        let o4 = e4.visit(input);
        let f4 = M::fold(f3, o4);
        proof {
            M::fold_obeys(f3, o4, f4);
        }
        let o5 = e5.visit(input);
        let f5 = M::fold(f4, o5);
        proof {
            M::fold_obeys(f4, o5, f5);
        }
        let o6 = e6.visit(input);
        let f6 = M::fold(f5, o6);
        proof {
            M::fold_obeys(f5, o6, f6);
        }
        let o7 = e7.visit(input);
        let f7 = M::fold(f6, o7);
        proof {
            M::fold_obeys(f6, o7, f7);
        }
        let o8 = e8.visit(input);
        let f8 = M::fold(f7, o8);
        proof {
            M::fold_obeys(f7, o8, f8);
        }
        f8
    }
}

impl<
    M: VariadicMarker,
    T1: VariadicOwned<M>,
    T2: VariadicOwned<M>,
    T3: VariadicOwned<M>,
    T4: VariadicOwned<M>,
    T5: VariadicOwned<M>,
    T6: VariadicOwned<M>,
    T7: VariadicOwned<M>,
    T8: VariadicOwned<M>,
    T9: VariadicOwned<M>,
> VariadicOwned<M> for (T1, T2, T3, T4, T5, T6, T7, T8, T9) {
    open spec fn visit_spec(self, input: M::Input) -> (M::Input, M::Output) {
        let (i1, o1) = self.0.visit_spec(input);
        let (i2, o2) = self.1.visit_spec(i1);
        let f2 = M::fold_spec(o1, o2);
        let (i3, o3) = self.2.visit_spec(i2);
        let f3 = M::fold_spec(f2, o3);
        let (i4, o4) = self.3.visit_spec(i3);
        let f4 = M::fold_spec(f3, o4);
        let (i5, o5) = self.4.visit_spec(i4);
        let f5 = M::fold_spec(f4, o5);
        let (i6, o6) = self.5.visit_spec(i5);
        let f6 = M::fold_spec(f5, o6);
        let (i7, o7) = self.6.visit_spec(i6);
        let f7 = M::fold_spec(f6, o7);
        let (i8, o8) = self.7.visit_spec(i7);
        let f8 = M::fold_spec(f7, o8);
        let (i9, o9) = self.8.visit_spec(i8);
        let f9 = M::fold_spec(f8, o9);
        (i9, f9)
    }

    fn visit(self, input: &mut M::Input) -> (o: M::Output)
        ensures
            (*final(input), o) == self.visit_spec(*old(input)),
    {
        let (e1, e2, e3, e4, e5, e6, e7, e8, e9) = self;
        let o1 = e1.visit(input);
        let o2 = e2.visit(input);
        let f2 = M::fold(o1, o2);
        proof {
            M::fold_obeys(o1, o2, f2);
        }
        let o3 = e3.visit(input);
        let f3 = M::fold(f2, o3);
        proof {
            M::fold_obeys(f2, o3, f3);
        }
        let o4 = e4.visit(input);
        let f4 = M::fold(f3, o4);
        proof {
            M::fold_obeys(f3, o4, f4);
        }
        let o5 = e5.visit(input);
        let f5 = M::fold(f4, o5);
        proof {
            M::fold_obeys(f4, o5, f5);
        }
        let o6 = e6.visit(input);
        let f6 = M::fold(f5, o6);
        proof {
            M::fold_obeys(f5, o6, f6);
        }
        let o7 = e7.visit(input);
        let f7 = M::fold(f6, o7);
        proof {
            M::fold_obeys(f6, o7, f7);
        }
        let o8 = e8.visit(input);
        let f8 = M::fold(f7, o8);
        proof {
            M::fold_obeys(f7, o8, f8);
        }
        let o9 = e9.visit(input);
        let f9 = M::fold(f8, o9);
        proof {
            M::fold_obeys(f8, o9, f9);
        }
        f9
    }
}

impl<
    M: VariadicMarker,
    T1: VariadicOwned<M>,
    T2: VariadicOwned<M>,
    T3: VariadicOwned<M>,
    T4: VariadicOwned<M>,
    T5: VariadicOwned<M>,
    T6: VariadicOwned<M>,
    T7: VariadicOwned<M>,
    T8: VariadicOwned<M>,
    T9: VariadicOwned<M>,
    T10: VariadicOwned<M>,
> VariadicOwned<M> for (T1, T2, T3, T4, T5, T6, T7, T8, T9, T10) {
    open spec fn visit_spec(self, input: M::Input) -> (M::Input, M::Output) {
        let (i1, o1) = self.0.visit_spec(input);
        let (i2, o2) = self.1.visit_spec(i1);
        let f2 = M::fold_spec(o1, o2);
        let (i3, o3) = self.2.visit_spec(i2);
        let f3 = M::fold_spec(f2, o3);
        let (i4, o4) = self.3.visit_spec(i3);
        let f4 = M::fold_spec(f3, o4);
        let (i5, o5) = self.4.visit_spec(i4);
        let f5 = M::fold_spec(f4, o5);
        let (i6, o6) = self.5.visit_spec(i5);
        let f6 = M::fold_spec(f5, o6);
        let (i7, o7) = self.6.visit_spec(i6);
        let f7 = M::fold_spec(f6, o7);
        let (i8, o8) = self.7.visit_spec(i7);
        let f8 = M::fold_spec(f7, o8);
        let (i9, o9) = self.8.visit_spec(i8);
        let f9 = M::fold_spec(f8, o9);
        let (i10, o10) = self.9.visit_spec(i9);
        let f10 = M::fold_spec(f9, o10);
        (i10, f10)
    }

    fn visit(self, input: &mut M::Input) -> (o: M::Output)
        ensures
            (*final(input), o) == self.visit_spec(*old(input)),
    {
        let (e1, e2, e3, e4, e5, e6, e7, e8, e9, e10) = self;
        let o1 = e1.visit(input);
        let o2 = e2.visit(input);
        let f2 = M::fold(o1, o2);
        proof {
            M::fold_obeys(o1, o2, f2);
        }
        let o3 = e3.visit(input);
        let f3 = M::fold(f2, o3);
        proof {
            M::fold_obeys(f2, o3, f3);
        }
        let o4 = e4.visit(input);
        let f4 = M::fold(f3, o4);
        proof {
            M::fold_obeys(f3, o4, f4);
        }
        let o5 = e5.visit(input);
        let f5 = M::fold(f4, o5);
        proof {
            M::fold_obeys(f4, o5, f5);
        }
        let o6 = e6.visit(input);
        let f6 = M::fold(f5, o6);
        proof {
            M::fold_obeys(f5, o6, f6);
        }
        let o7 = e7.visit(input);
        let f7 = M::fold(f6, o7);
        proof {
            M::fold_obeys(f6, o7, f7);
        }
        let o8 = e8.visit(input);
        let f8 = M::fold(f7, o8);
        proof {
            M::fold_obeys(f7, o8, f8);
        }
        let o9 = e9.visit(input);
        let f9 = M::fold(f8, o9);
        proof {
            M::fold_obeys(f8, o9, f9);
        }
        let o10 = e10.visit(input);
        let f10 = M::fold(f9, o10);
        proof {
            M::fold_obeys(f9, o10, f10);
        }
        f10
    }
}

impl<
    M: VariadicMarker,
    T1: VariadicOwned<M>,
    T2: VariadicOwned<M>,
    T3: VariadicOwned<M>,
    T4: VariadicOwned<M>,
    T5: VariadicOwned<M>,
    T6: VariadicOwned<M>,
    T7: VariadicOwned<M>,
    T8: VariadicOwned<M>,
    T9: VariadicOwned<M>,
    T10: VariadicOwned<M>,
    T11: VariadicOwned<M>,
> VariadicOwned<M> for (T1, T2, T3, T4, T5, T6, T7, T8, T9, T10, T11) {
    open spec fn visit_spec(self, input: M::Input) -> (M::Input, M::Output) {
        let (i1, o1) = self.0.visit_spec(input);
        let (i2, o2) = self.1.visit_spec(i1);
        let f2 = M::fold_spec(o1, o2);
        let (i3, o3) = self.2.visit_spec(i2);
        let f3 = M::fold_spec(f2, o3);
        let (i4, o4) = self.3.visit_spec(i3);
        let f4 = M::fold_spec(f3, o4);
        let (i5, o5) = self.4.visit_spec(i4);
        let f5 = M::fold_spec(f4, o5);
        let (i6, o6) = self.5.visit_spec(i5);
        let f6 = M::fold_spec(f5, o6);
        let (i7, o7) = self.6.visit_spec(i6);
        let f7 = M::fold_spec(f6, o7);
        let (i8, o8) = self.7.visit_spec(i7);
        let f8 = M::fold_spec(f7, o8);
        let (i9, o9) = self.8.visit_spec(i8);
        let f9 = M::fold_spec(f8, o9);
        let (i10, o10) = self.9.visit_spec(i9);
        let f10 = M::fold_spec(f9, o10);
        let (i11, o11) = self.10.visit_spec(i10);
        let f11 = M::fold_spec(f10, o11);
        (i11, f11)
    }

    fn visit(self, input: &mut M::Input) -> (o: M::Output)
        ensures
            (*final(input), o) == self.visit_spec(*old(input)),
    {
        let (e1, e2, e3, e4, e5, e6, e7, e8, e9, e10, e11) = self;
        let o1 = e1.visit(input);
        let o2 = e2.visit(input);
        let f2 = M::fold(o1, o2);
        proof {
            M::fold_obeys(o1, o2, f2);
        }
        let o3 = e3.visit(input);
        let f3 = M::fold(f2, o3);
        proof {
            M::fold_obeys(f2, o3, f3);
        }
        let o4 = e4.visit(input);
        let f4 = M::fold(f3, o4);
        proof {
            M::fold_obeys(f3, o4, f4);
        }
        let o5 = e5.visit(input);
        let f5 = M::fold(f4, o5);
        proof {
            M::fold_obeys(f4, o5, f5);
        }
        let o6 = e6.visit(input);
        let f6 = M::fold(f5, o6);
        proof {
            M::fold_obeys(f5, o6, f6);
        }
        let o7 = e7.visit(input);
        let f7 = M::fold(f6, o7);
        proof {
            M::fold_obeys(f6, o7, f7);
        }
        let o8 = e8.visit(input);
        let f8 = M::fold(f7, o8);
        proof {
            M::fold_obeys(f7, o8, f8);
        }
        let o9 = e9.visit(input);
        let f9 = M::fold(f8, o9);
        proof {
            M::fold_obeys(f8, o9, f9);
        }
        let o10 = e10.visit(input);
        let f10 = M::fold(f9, o10);
        proof {
            M::fold_obeys(f9, o10, f10);
        }
        let o11 = e11.visit(input);
        let f11 = M::fold(f10, o11);
        proof {
            M::fold_obeys(f10, o11, f11);
        }
        f11
    }
}

impl<
    M: VariadicMarker,
    T1: VariadicOwned<M>,
    T2: VariadicOwned<M>,
    T3: VariadicOwned<M>,
    T4: VariadicOwned<M>,
    T5: VariadicOwned<M>,
    T6: VariadicOwned<M>,
    T7: VariadicOwned<M>,
    T8: VariadicOwned<M>,
    T9: VariadicOwned<M>,
    T10: VariadicOwned<M>,
    T11: VariadicOwned<M>,
    T12: VariadicOwned<M>,
> VariadicOwned<M> for (T1, T2, T3, T4, T5, T6, T7, T8, T9, T10, T11, T12) {
    open spec fn visit_spec(self, input: M::Input) -> (M::Input, M::Output) {
        let (i1, o1) = self.0.visit_spec(input);
        let (i2, o2) = self.1.visit_spec(i1);
        let f2 = M::fold_spec(o1, o2);
        let (i3, o3) = self.2.visit_spec(i2);
        let f3 = M::fold_spec(f2, o3);
        let (i4, o4) = self.3.visit_spec(i3);
        let f4 = M::fold_spec(f3, o4);
        let (i5, o5) = self.4.visit_spec(i4);
        let f5 = M::fold_spec(f4, o5);
        let (i6, o6) = self.5.visit_spec(i5);
        let f6 = M::fold_spec(f5, o6);
        let (i7, o7) = self.6.visit_spec(i6);
        let f7 = M::fold_spec(f6, o7);
        let (i8, o8) = self.7.visit_spec(i7);
        let f8 = M::fold_spec(f7, o8);
        let (i9, o9) = self.8.visit_spec(i8);
        let f9 = M::fold_spec(f8, o9);
        let (i10, o10) = self.9.visit_spec(i9);
        let f10 = M::fold_spec(f9, o10);
        let (i11, o11) = self.10.visit_spec(i10);
        let f11 = M::fold_spec(f10, o11);
        let (i12, o12) = self.11.visit_spec(i11);
        let f12 = M::fold_spec(f11, o12);
        (i12, f12)
    }

    fn visit(self, input: &mut M::Input) -> (o: M::Output)
        ensures
            (*final(input), o) == self.visit_spec(*old(input)),
    {
        let (e1, e2, e3, e4, e5, e6, e7, e8, e9, e10, e11, e12) = self;
        let o1 = e1.visit(input);
        let o2 = e2.visit(input);
        let f2 = M::fold(o1, o2);
        proof {
            M::fold_obeys(o1, o2, f2);
        }
        let o3 = e3.visit(input);
        let f3 = M::fold(f2, o3);
        proof {
            M::fold_obeys(f2, o3, f3);
        }
        let o4 = e4.visit(input);
        let f4 = M::fold(f3, o4);
        proof {
            M::fold_obeys(f3, o4, f4);
        }
        let o5 = e5.visit(input);
        let f5 = M::fold(f4, o5);
        proof {
            M::fold_obeys(f4, o5, f5);
        }
        let o6 = e6.visit(input);
        let f6 = M::fold(f5, o6);
        proof {
            M::fold_obeys(f5, o6, f6);
        }
        let o7 = e7.visit(input);
        let f7 = M::fold(f6, o7);
        proof {
            M::fold_obeys(f6, o7, f7);
        }
        let o8 = e8.visit(input);
        let f8 = M::fold(f7, o8);
        proof {
            M::fold_obeys(f7, o8, f8);
        }
        let o9 = e9.visit(input);
        let f9 = M::fold(f8, o9);
        proof {
            M::fold_obeys(f8, o9, f9);
        }
        let o10 = e10.visit(input);
        let f10 = M::fold(f9, o10);
        proof {
            M::fold_obeys(f9, o10, f10);
        }
        let o11 = e11.visit(input);
        let f11 = M::fold(f10, o11);
        proof {
            M::fold_obeys(f10, o11, f11);
        }
        let o12 = e12.visit(input);
        let f12 = M::fold(f11, o12);
        proof {
            M::fold_obeys(f11, o12, f12);
        }
        f12
    }
}

} // verus!
