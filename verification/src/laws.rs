//! Laws relating the tuple implementations to one another.
//!
//! Three families, one lemma per tuple arity:
//!
//! - decomposition chains: what reading a tuple through repeated
//!   [`left`](crate::split::VariadicSplit::left) and
//!   [`right`](crate::split::VariadicSplit::right) yields, element by
//!   element, down to the two-element leaf;
//! - ownership-mode agreement: whenever every element's three visit modes
//!   behave alike, the three fold dispatchers over the whole tuple behave
//!   alike, so the agreement lifts through arbitrary nesting;
//! - default combine: under a marker whose combine keeps its left operand —
//!   the default — folding any tuple yields the first element's output
//!   alone, whatever the arity.

use crate::split::VariadicSplit;
use crate::{VariadicMarker, VariadicMut, VariadicOwned, VariadicRef};
use vstd::prelude::*;

verus! {

/// The three visit modes of `T` behave alike at the value `e` and input `i`:
/// shared and consuming visits have the same complete effect, and the
/// exclusive visit leaves the input and produces the output that they do
/// (it may additionally mutate the element itself).
pub open spec fn agree_at<
    M: VariadicMarker,
    T: VariadicMut<M> + VariadicRef<M> + VariadicOwned<M>,
>(e: T, i: M::Input) -> bool {
    &&& <T as VariadicRef<M>>::visit_spec(e, i) == <T as VariadicOwned<M>>::visit_spec(e, i)
    &&& <T as VariadicMut<M>>::visit_spec(e, i).1 == <T as VariadicRef<M>>::visit_spec(e, i).0
    &&& <T as VariadicMut<M>>::visit_spec(e, i).2 == <T as VariadicRef<M>>::visit_spec(e, i).1
}

/// The three visit modes of `T` behave alike at every value and input.
pub open spec fn modes_agree<
    M: VariadicMarker,
    T: VariadicMut<M> + VariadicRef<M> + VariadicOwned<M>,
>() -> bool {
    forall|e: T, i: M::Input|
        #![trigger <T as VariadicMut<M>>::visit_spec(e, i)]
        #![trigger <T as VariadicRef<M>>::visit_spec(e, i)]
        #![trigger <T as VariadicOwned<M>>::visit_spec(e, i)]
        agree_at::<M, T>(e, i)
}

/// Ownership-mode agreement lifts from the elements to the pair: folding a
/// pair through exclusive, shared, or consuming dispatch yields the same
/// output and leaves the input the same. An element may itself be a tuple
/// whose agreement was concluded by one of these lemmas, so agreement
/// lifts through arbitrary nesting.
pub proof fn lemma_modes_agree_arity2<
    M: VariadicMarker,
    T1: VariadicMut<M> + VariadicRef<M> + VariadicOwned<M>,
    T2: VariadicMut<M> + VariadicRef<M> + VariadicOwned<M>,
>()
    requires
        modes_agree::<M, T1>(),
        modes_agree::<M, T2>(),
    ensures
        modes_agree::<M, (T1, T2)>(),
{
    assert forall|s: (T1, T2), i: M::Input| agree_at::<M, (T1, T2)>(s, i) by {
        assert(agree_at::<M, T1>(s.0, i));
        let i1 = <T1 as VariadicMut<M>>::visit_spec(s.0, i).1;
        assert(agree_at::<M, T2>(s.1, i1));
    }
}

/// Ownership-mode agreement lifts from the elements to the triple.
pub proof fn lemma_modes_agree_arity3<
    M: VariadicMarker,
    T1: VariadicMut<M> + VariadicRef<M> + VariadicOwned<M>,
    T2: VariadicMut<M> + VariadicRef<M> + VariadicOwned<M>,
    T3: VariadicMut<M> + VariadicRef<M> + VariadicOwned<M>,
>()
    requires
        modes_agree::<M, T1>(),
        modes_agree::<M, T2>(),
        modes_agree::<M, T3>(),
    ensures
        modes_agree::<M, (T1, T2, T3)>(),
{
    assert forall|s: (T1, T2, T3), i: M::Input| agree_at::<M, (T1, T2, T3)>(s, i) by {
        assert(agree_at::<M, T1>(s.0, i));
        let i1 = <T1 as VariadicMut<M>>::visit_spec(s.0, i).1;
        assert(agree_at::<M, T2>(s.1, i1));
        let i2 = <T2 as VariadicMut<M>>::visit_spec(s.1, i1).1;
        assert(agree_at::<M, T3>(s.2, i2));
    }
}

/// Ownership-mode agreement lifts from the elements to the tuple of arity 4.
pub proof fn lemma_modes_agree_arity4<
    M: VariadicMarker,
    T1: VariadicMut<M> + VariadicRef<M> + VariadicOwned<M>,
    T2: VariadicMut<M> + VariadicRef<M> + VariadicOwned<M>,
    T3: VariadicMut<M> + VariadicRef<M> + VariadicOwned<M>,
    T4: VariadicMut<M> + VariadicRef<M> + VariadicOwned<M>,
>()
    requires
        modes_agree::<M, T1>(),
        modes_agree::<M, T2>(),
        modes_agree::<M, T3>(),
        modes_agree::<M, T4>(),
    ensures
        modes_agree::<M, (T1, T2, T3, T4)>(),
{
    assert forall|s: (T1, T2, T3, T4), i: M::Input| agree_at::<M, (T1, T2, T3, T4)>(s, i) by {
        assert(agree_at::<M, T1>(s.0, i));
        let i1 = <T1 as VariadicMut<M>>::visit_spec(s.0, i).1;
        assert(agree_at::<M, T2>(s.1, i1));
        let i2 = <T2 as VariadicMut<M>>::visit_spec(s.1, i1).1;
        assert(agree_at::<M, T3>(s.2, i2));
        let i3 = <T3 as VariadicMut<M>>::visit_spec(s.2, i2).1;
        assert(agree_at::<M, T4>(s.3, i3));
    }
}

/// Ownership-mode agreement lifts from the elements to the tuple of arity 5.
pub proof fn lemma_modes_agree_arity5<
    M: VariadicMarker,
    T1: VariadicMut<M> + VariadicRef<M> + VariadicOwned<M>,
    T2: VariadicMut<M> + VariadicRef<M> + VariadicOwned<M>,
    T3: VariadicMut<M> + VariadicRef<M> + VariadicOwned<M>,
    T4: VariadicMut<M> + VariadicRef<M> + VariadicOwned<M>,
    T5: VariadicMut<M> + VariadicRef<M> + VariadicOwned<M>,
>()
    requires
        modes_agree::<M, T1>(),
        modes_agree::<M, T2>(),
        modes_agree::<M, T3>(),
        modes_agree::<M, T4>(),
        modes_agree::<M, T5>(),
    ensures
        modes_agree::<M, (T1, T2, T3, T4, T5)>(),
{
    assert forall|s: (T1, T2, T3, T4, T5), i: M::Input|
        agree_at::<M, (T1, T2, T3, T4, T5)>(s, i) by {
        assert(agree_at::<M, T1>(s.0, i));
        let i1 = <T1 as VariadicMut<M>>::visit_spec(s.0, i).1;
        assert(agree_at::<M, T2>(s.1, i1));
        let i2 = <T2 as VariadicMut<M>>::visit_spec(s.1, i1).1;
        assert(agree_at::<M, T3>(s.2, i2));
        let i3 = <T3 as VariadicMut<M>>::visit_spec(s.2, i2).1;
        assert(agree_at::<M, T4>(s.3, i3));
        let i4 = <T4 as VariadicMut<M>>::visit_spec(s.3, i3).1;
        assert(agree_at::<M, T5>(s.4, i4));
    }
}

/// Ownership-mode agreement lifts from the elements to the tuple of arity 6.
pub proof fn lemma_modes_agree_arity6<
    M: VariadicMarker,
    T1: VariadicMut<M> + VariadicRef<M> + VariadicOwned<M>,
    T2: VariadicMut<M> + VariadicRef<M> + VariadicOwned<M>,
    T3: VariadicMut<M> + VariadicRef<M> + VariadicOwned<M>,
    T4: VariadicMut<M> + VariadicRef<M> + VariadicOwned<M>,
    T5: VariadicMut<M> + VariadicRef<M> + VariadicOwned<M>,
    T6: VariadicMut<M> + VariadicRef<M> + VariadicOwned<M>,
>()
    requires
        modes_agree::<M, T1>(),
        modes_agree::<M, T2>(),
        modes_agree::<M, T3>(),
        modes_agree::<M, T4>(),
        modes_agree::<M, T5>(),
        modes_agree::<M, T6>(),
    ensures
        modes_agree::<M, (T1, T2, T3, T4, T5, T6)>(),
{
    assert forall|s: (T1, T2, T3, T4, T5, T6), i: M::Input|
        agree_at::<M, (T1, T2, T3, T4, T5, T6)>(s, i) by {
        assert(agree_at::<M, T1>(s.0, i));
        let i1 = <T1 as VariadicMut<M>>::visit_spec(s.0, i).1;
        assert(agree_at::<M, T2>(s.1, i1));
        let i2 = <T2 as VariadicMut<M>>::visit_spec(s.1, i1).1;
        assert(agree_at::<M, T3>(s.2, i2));
        let i3 = <T3 as VariadicMut<M>>::visit_spec(s.2, i2).1;
        assert(agree_at::<M, T4>(s.3, i3));
        let i4 = <T4 as VariadicMut<M>>::visit_spec(s.3, i3).1;
        assert(agree_at::<M, T5>(s.4, i4));
        let i5 = <T5 as VariadicMut<M>>::visit_spec(s.4, i4).1;
        assert(agree_at::<M, T6>(s.5, i5));
    }
}

/// Ownership-mode agreement lifts from the elements to the tuple of arity 7.
pub proof fn lemma_modes_agree_arity7<
    M: VariadicMarker,
    T1: VariadicMut<M> + VariadicRef<M> + VariadicOwned<M>,
    T2: VariadicMut<M> + VariadicRef<M> + VariadicOwned<M>,
    T3: VariadicMut<M> + VariadicRef<M> + VariadicOwned<M>,
    T4: VariadicMut<M> + VariadicRef<M> + VariadicOwned<M>,
    T5: VariadicMut<M> + VariadicRef<M> + VariadicOwned<M>,
    T6: VariadicMut<M> + VariadicRef<M> + VariadicOwned<M>,
    T7: VariadicMut<M> + VariadicRef<M> + VariadicOwned<M>,
>()
    requires
        modes_agree::<M, T1>(),
        modes_agree::<M, T2>(),
        modes_agree::<M, T3>(),
        modes_agree::<M, T4>(),
        modes_agree::<M, T5>(),
        modes_agree::<M, T6>(),
        modes_agree::<M, T7>(),
    ensures
        modes_agree::<M, (T1, T2, T3, T4, T5, T6, T7)>(),
{
    assert forall|s: (T1, T2, T3, T4, T5, T6, T7), i: M::Input|
        agree_at::<M, (T1, T2, T3, T4, T5, T6, T7)>(s, i) by {
        assert(agree_at::<M, T1>(s.0, i));
        let i1 = <T1 as VariadicMut<M>>::visit_spec(s.0, i).1;
        assert(agree_at::<M, T2>(s.1, i1));
        let i2 = <T2 as VariadicMut<M>>::visit_spec(s.1, i1).1;
        assert(agree_at::<M, T3>(s.2, i2));
        let i3 = <T3 as VariadicMut<M>>::visit_spec(s.2, i2).1;
        assert(agree_at::<M, T4>(s.3, i3));
        let i4 = <T4 as VariadicMut<M>>::visit_spec(s.3, i3).1;
        assert(agree_at::<M, T5>(s.4, i4));
        let i5 = <T5 as VariadicMut<M>>::visit_spec(s.4, i4).1;
        assert(agree_at::<M, T6>(s.5, i5));
        let i6 = <T6 as VariadicMut<M>>::visit_spec(s.5, i5).1;
        assert(agree_at::<M, T7>(s.6, i6));
    }
}

/// Ownership-mode agreement lifts from the elements to the tuple of arity 8.
pub proof fn lemma_modes_agree_arity8<
    M: VariadicMarker,
    T1: VariadicMut<M> + VariadicRef<M> + VariadicOwned<M>,
    T2: VariadicMut<M> + VariadicRef<M> + VariadicOwned<M>,
    T3: VariadicMut<M> + VariadicRef<M> + VariadicOwned<M>,
    T4: VariadicMut<M> + VariadicRef<M> + VariadicOwned<M>,
    T5: VariadicMut<M> + VariadicRef<M> + VariadicOwned<M>,
    T6: VariadicMut<M> + VariadicRef<M> + VariadicOwned<M>,
    T7: VariadicMut<M> + VariadicRef<M> + VariadicOwned<M>,
    T8: VariadicMut<M> + VariadicRef<M> + VariadicOwned<M>,
>()
    requires
        modes_agree::<M, T1>(),
        modes_agree::<M, T2>(),
        modes_agree::<M, T3>(),
        modes_agree::<M, T4>(),
        modes_agree::<M, T5>(),
        modes_agree::<M, T6>(),
        modes_agree::<M, T7>(),
        modes_agree::<M, T8>(),
    ensures
        modes_agree::<M, (T1, T2, T3, T4, T5, T6, T7, T8)>(),
{
    assert forall|s: (T1, T2, T3, T4, T5, T6, T7, T8), i: M::Input|
        agree_at::<M, (T1, T2, T3, T4, T5, T6, T7, T8)>(s, i) by {
        assert(agree_at::<M, T1>(s.0, i));
        let i1 = <T1 as VariadicMut<M>>::visit_spec(s.0, i).1;
        assert(agree_at::<M, T2>(s.1, i1));
        let i2 = <T2 as VariadicMut<M>>::visit_spec(s.1, i1).1;
        assert(agree_at::<M, T3>(s.2, i2));
        let i3 = <T3 as VariadicMut<M>>::visit_spec(s.2, i2).1;
        assert(agree_at::<M, T4>(s.3, i3));
        let i4 = <T4 as VariadicMut<M>>::visit_spec(s.3, i3).1;
        assert(agree_at::<M, T5>(s.4, i4));
        let i5 = <T5 as VariadicMut<M>>::visit_spec(s.4, i4).1;
        assert(agree_at::<M, T6>(s.5, i5));
        let i6 = <T6 as VariadicMut<M>>::visit_spec(s.5, i5).1;
        assert(agree_at::<M, T7>(s.6, i6));
        let i7 = <T7 as VariadicMut<M>>::visit_spec(s.6, i6).1;
        assert(agree_at::<M, T8>(s.7, i7));
    }
}

/// Ownership-mode agreement lifts from the elements to the tuple of arity 9.
pub proof fn lemma_modes_agree_arity9<
    M: VariadicMarker,
    T1: VariadicMut<M> + VariadicRef<M> + VariadicOwned<M>,
    T2: VariadicMut<M> + VariadicRef<M> + VariadicOwned<M>,
    T3: VariadicMut<M> + VariadicRef<M> + VariadicOwned<M>,
    T4: VariadicMut<M> + VariadicRef<M> + VariadicOwned<M>,
    T5: VariadicMut<M> + VariadicRef<M> + VariadicOwned<M>,
    T6: VariadicMut<M> + VariadicRef<M> + VariadicOwned<M>,
    T7: VariadicMut<M> + VariadicRef<M> + VariadicOwned<M>,
    T8: VariadicMut<M> + VariadicRef<M> + VariadicOwned<M>,
    T9: VariadicMut<M> + VariadicRef<M> + VariadicOwned<M>,
>()
    requires
        modes_agree::<M, T1>(),
        modes_agree::<M, T2>(),
        modes_agree::<M, T3>(),
        modes_agree::<M, T4>(),
        modes_agree::<M, T5>(),
        modes_agree::<M, T6>(),
        modes_agree::<M, T7>(),
        modes_agree::<M, T8>(),
        modes_agree::<M, T9>(),
    ensures
        modes_agree::<M, (T1, T2, T3, T4, T5, T6, T7, T8, T9)>(),
{
    assert forall|s: (T1, T2, T3, T4, T5, T6, T7, T8, T9), i: M::Input|
        agree_at::<M, (T1, T2, T3, T4, T5, T6, T7, T8, T9)>(s, i) by {
        assert(agree_at::<M, T1>(s.0, i));
        let i1 = <T1 as VariadicMut<M>>::visit_spec(s.0, i).1;
        assert(agree_at::<M, T2>(s.1, i1));
        let i2 = <T2 as VariadicMut<M>>::visit_spec(s.1, i1).1;
        assert(agree_at::<M, T3>(s.2, i2));
        let i3 = <T3 as VariadicMut<M>>::visit_spec(s.2, i2).1;
        assert(agree_at::<M, T4>(s.3, i3));
        let i4 = <T4 as VariadicMut<M>>::visit_spec(s.3, i3).1;
        assert(agree_at::<M, T5>(s.4, i4));
        let i5 = <T5 as VariadicMut<M>>::visit_spec(s.4, i4).1;
        assert(agree_at::<M, T6>(s.5, i5));
        let i6 = <T6 as VariadicMut<M>>::visit_spec(s.5, i5).1;
        assert(agree_at::<M, T7>(s.6, i6));
        let i7 = <T7 as VariadicMut<M>>::visit_spec(s.6, i6).1;
        assert(agree_at::<M, T8>(s.7, i7));
        let i8 = <T8 as VariadicMut<M>>::visit_spec(s.7, i7).1;
        assert(agree_at::<M, T9>(s.8, i8));
    }
}

/// Ownership-mode agreement lifts from the elements to the tuple of arity 10.
pub proof fn lemma_modes_agree_arity10<
    M: VariadicMarker,
    T1: VariadicMut<M> + VariadicRef<M> + VariadicOwned<M>,
    T2: VariadicMut<M> + VariadicRef<M> + VariadicOwned<M>,
    T3: VariadicMut<M> + VariadicRef<M> + VariadicOwned<M>,
    T4: VariadicMut<M> + VariadicRef<M> + VariadicOwned<M>,
    T5: VariadicMut<M> + VariadicRef<M> + VariadicOwned<M>,
    T6: VariadicMut<M> + VariadicRef<M> + VariadicOwned<M>,
    T7: VariadicMut<M> + VariadicRef<M> + VariadicOwned<M>,
    T8: VariadicMut<M> + VariadicRef<M> + VariadicOwned<M>,
    T9: VariadicMut<M> + VariadicRef<M> + VariadicOwned<M>,
    T10: VariadicMut<M> + VariadicRef<M> + VariadicOwned<M>,
>()
    requires
        modes_agree::<M, T1>(),
        modes_agree::<M, T2>(),
        modes_agree::<M, T3>(),
        modes_agree::<M, T4>(),
        modes_agree::<M, T5>(),
        modes_agree::<M, T6>(),
        modes_agree::<M, T7>(),
        modes_agree::<M, T8>(),
        modes_agree::<M, T9>(),
        modes_agree::<M, T10>(),
    ensures
        modes_agree::<M, (T1, T2, T3, T4, T5, T6, T7, T8, T9, T10)>(),
{
    assert forall|s: (T1, T2, T3, T4, T5, T6, T7, T8, T9, T10), i: M::Input|
        agree_at::<M, (T1, T2, T3, T4, T5, T6, T7, T8, T9, T10)>(s, i) by {
        assert(agree_at::<M, T1>(s.0, i));
        let i1 = <T1 as VariadicMut<M>>::visit_spec(s.0, i).1;
        assert(agree_at::<M, T2>(s.1, i1));
        let i2 = <T2 as VariadicMut<M>>::visit_spec(s.1, i1).1;
        assert(agree_at::<M, T3>(s.2, i2));
        let i3 = <T3 as VariadicMut<M>>::visit_spec(s.2, i2).1;
        assert(agree_at::<M, T4>(s.3, i3));
        let i4 = <T4 as VariadicMut<M>>::visit_spec(s.3, i3).1;
        assert(agree_at::<M, T5>(s.4, i4));
        let i5 = <T5 as VariadicMut<M>>::visit_spec(s.4, i4).1;
        assert(agree_at::<M, T6>(s.5, i5));
        let i6 = <T6 as VariadicMut<M>>::visit_spec(s.5, i5).1;
        assert(agree_at::<M, T7>(s.6, i6));
        let i7 = <T7 as VariadicMut<M>>::visit_spec(s.6, i6).1;
        assert(agree_at::<M, T8>(s.7, i7));
        let i8 = <T8 as VariadicMut<M>>::visit_spec(s.7, i7).1;
        assert(agree_at::<M, T9>(s.8, i8));
        let i9 = <T9 as VariadicMut<M>>::visit_spec(s.8, i8).1;
        assert(agree_at::<M, T10>(s.9, i9));
    }
}

/// Ownership-mode agreement lifts from the elements to the tuple of arity 11.
pub proof fn lemma_modes_agree_arity11<
    M: VariadicMarker,
    T1: VariadicMut<M> + VariadicRef<M> + VariadicOwned<M>,
    T2: VariadicMut<M> + VariadicRef<M> + VariadicOwned<M>,
    T3: VariadicMut<M> + VariadicRef<M> + VariadicOwned<M>,
    T4: VariadicMut<M> + VariadicRef<M> + VariadicOwned<M>,
    T5: VariadicMut<M> + VariadicRef<M> + VariadicOwned<M>,
    T6: VariadicMut<M> + VariadicRef<M> + VariadicOwned<M>,
    T7: VariadicMut<M> + VariadicRef<M> + VariadicOwned<M>,
    T8: VariadicMut<M> + VariadicRef<M> + VariadicOwned<M>,
    T9: VariadicMut<M> + VariadicRef<M> + VariadicOwned<M>,
    T10: VariadicMut<M> + VariadicRef<M> + VariadicOwned<M>,
    T11: VariadicMut<M> + VariadicRef<M> + VariadicOwned<M>,
>()
    requires
        modes_agree::<M, T1>(),
        modes_agree::<M, T2>(),
        modes_agree::<M, T3>(),
        modes_agree::<M, T4>(),
        modes_agree::<M, T5>(),
        modes_agree::<M, T6>(),
        modes_agree::<M, T7>(),
        modes_agree::<M, T8>(),
        modes_agree::<M, T9>(),
        modes_agree::<M, T10>(),
        modes_agree::<M, T11>(),
    ensures
        modes_agree::<M, (T1, T2, T3, T4, T5, T6, T7, T8, T9, T10, T11)>(),
{
    assert forall|s: (T1, T2, T3, T4, T5, T6, T7, T8, T9, T10, T11), i: M::Input|
        agree_at::<M, (T1, T2, T3, T4, T5, T6, T7, T8, T9, T10, T11)>(s, i) by {
        assert(agree_at::<M, T1>(s.0, i));
        let i1 = <T1 as VariadicMut<M>>::visit_spec(s.0, i).1;
        assert(agree_at::<M, T2>(s.1, i1));
        let i2 = <T2 as VariadicMut<M>>::visit_spec(s.1, i1).1;
        assert(agree_at::<M, T3>(s.2, i2));
        let i3 = <T3 as VariadicMut<M>>::visit_spec(s.2, i2).1;
        assert(agree_at::<M, T4>(s.3, i3));
        let i4 = <T4 as VariadicMut<M>>::visit_spec(s.3, i3).1;
        assert(agree_at::<M, T5>(s.4, i4));
        let i5 = <T5 as VariadicMut<M>>::visit_spec(s.4, i4).1;
        assert(agree_at::<M, T6>(s.5, i5));
        let i6 = <T6 as VariadicMut<M>>::visit_spec(s.5, i5).1;
        assert(agree_at::<M, T7>(s.6, i6));
        let i7 = <T7 as VariadicMut<M>>::visit_spec(s.6, i6).1;
        assert(agree_at::<M, T8>(s.7, i7));
        let i8 = <T8 as VariadicMut<M>>::visit_spec(s.7, i7).1;
        assert(agree_at::<M, T9>(s.8, i8));
        let i9 = <T9 as VariadicMut<M>>::visit_spec(s.8, i8).1;
        assert(agree_at::<M, T10>(s.9, i9));
        let i10 = <T10 as VariadicMut<M>>::visit_spec(s.9, i9).1;
        assert(agree_at::<M, T11>(s.10, i10));
    }
}

/// Ownership-mode agreement lifts from the elements to the tuple of arity 12.
pub proof fn lemma_modes_agree_arity12<
    M: VariadicMarker,
    T1: VariadicMut<M> + VariadicRef<M> + VariadicOwned<M>,
    T2: VariadicMut<M> + VariadicRef<M> + VariadicOwned<M>,
    T3: VariadicMut<M> + VariadicRef<M> + VariadicOwned<M>,
    T4: VariadicMut<M> + VariadicRef<M> + VariadicOwned<M>,
    T5: VariadicMut<M> + VariadicRef<M> + VariadicOwned<M>,
    T6: VariadicMut<M> + VariadicRef<M> + VariadicOwned<M>,
    T7: VariadicMut<M> + VariadicRef<M> + VariadicOwned<M>,
    T8: VariadicMut<M> + VariadicRef<M> + VariadicOwned<M>,
    T9: VariadicMut<M> + VariadicRef<M> + VariadicOwned<M>,
    T10: VariadicMut<M> + VariadicRef<M> + VariadicOwned<M>,
    T11: VariadicMut<M> + VariadicRef<M> + VariadicOwned<M>,
    T12: VariadicMut<M> + VariadicRef<M> + VariadicOwned<M>,
>()
    requires
        modes_agree::<M, T1>(),
        modes_agree::<M, T2>(),
        modes_agree::<M, T3>(),
        modes_agree::<M, T4>(),
        modes_agree::<M, T5>(),
        modes_agree::<M, T6>(),
        modes_agree::<M, T7>(),
        modes_agree::<M, T8>(),
        modes_agree::<M, T9>(),
        modes_agree::<M, T10>(),
        modes_agree::<M, T11>(),
        modes_agree::<M, T12>(),
    ensures
        modes_agree::<M, (T1, T2, T3, T4, T5, T6, T7, T8, T9, T10, T11, T12)>(),
{
    assert forall|s: (T1, T2, T3, T4, T5, T6, T7, T8, T9, T10, T11, T12), i: M::Input|
        agree_at::<M, (T1, T2, T3, T4, T5, T6, T7, T8, T9, T10, T11, T12)>(s, i) by {
        assert(agree_at::<M, T1>(s.0, i));
        let i1 = <T1 as VariadicMut<M>>::visit_spec(s.0, i).1;
        assert(agree_at::<M, T2>(s.1, i1));
        let i2 = <T2 as VariadicMut<M>>::visit_spec(s.1, i1).1;
        assert(agree_at::<M, T3>(s.2, i2));
        let i3 = <T3 as VariadicMut<M>>::visit_spec(s.2, i2).1;
        assert(agree_at::<M, T4>(s.3, i3));
        let i4 = <T4 as VariadicMut<M>>::visit_spec(s.3, i3).1;
        assert(agree_at::<M, T5>(s.4, i4));
        let i5 = <T5 as VariadicMut<M>>::visit_spec(s.4, i4).1;
        assert(agree_at::<M, T6>(s.5, i5));
        let i6 = <T6 as VariadicMut<M>>::visit_spec(s.5, i5).1;
        assert(agree_at::<M, T7>(s.6, i6));
        let i7 = <T7 as VariadicMut<M>>::visit_spec(s.6, i6).1;
        assert(agree_at::<M, T8>(s.7, i7));
        let i8 = <T8 as VariadicMut<M>>::visit_spec(s.7, i7).1;
        assert(agree_at::<M, T9>(s.8, i8));
        let i9 = <T9 as VariadicMut<M>>::visit_spec(s.8, i8).1;
        assert(agree_at::<M, T10>(s.9, i9));
        let i10 = <T10 as VariadicMut<M>>::visit_spec(s.9, i9).1;
        assert(agree_at::<M, T11>(s.10, i10));
        let i11 = <T11 as VariadicMut<M>>::visit_spec(s.10, i10).1;
        assert(agree_at::<M, T12>(s.11, i11));
    }
}

/// Splitting a pair is the two-element leaf itself: `left` is the first
/// element and `right` is the second, directly.
pub proof fn lemma_decomposition_chain_arity2<T1, T2>(s: (T1, T2))
    ensures
        s.left_spec() == s.0,
        s.right_spec() == s.1,
{
}

/// Reading a triple through the decomposition: `right` is the last
/// element, `left` the window of the first two, and that window is the
/// leaf.
pub proof fn lemma_decomposition_chain_arity3<T1, T2, T3>(s: (T1, T2, T3))
    ensures
        s.right_spec() == s.2,
        s.left_spec() == (s.0, s.1),
        s.left_spec().right_spec() == s.1,
        s.left_spec().left_spec() == s.0,
{
}

/// Reading a tuple of arity 4 through the decomposition: each window's
/// `right` is its last element, its `left` the window one element
/// shorter, down to the two-element leaf.
pub proof fn lemma_decomposition_chain_arity4<T1, T2, T3, T4>(s: (T1, T2, T3, T4))
    ensures
        s.right_spec() == s.3,
        s.left_spec() == (s.0, s.1, s.2),
        s.left_spec().right_spec() == s.2,
        s.left_spec().left_spec() == (s.0, s.1),
        s.left_spec().left_spec().right_spec() == s.1,
        s.left_spec().left_spec().left_spec() == s.0,
{
}

/// Reading a tuple of arity 5 through the decomposition: each window's
/// `right` is its last element, its `left` the window one element
/// shorter, down to the two-element leaf.
pub proof fn lemma_decomposition_chain_arity5<T1, T2, T3, T4, T5>(s: (T1, T2, T3, T4, T5))
    ensures
        s.right_spec() == s.4,
        s.left_spec() == (s.0, s.1, s.2, s.3),
        s.left_spec().right_spec() == s.3,
        s.left_spec().left_spec() == (s.0, s.1, s.2),
        s.left_spec().left_spec().right_spec() == s.2,
        s.left_spec().left_spec().left_spec() == (s.0, s.1),
        s.left_spec().left_spec().left_spec().right_spec() == s.1,
        s.left_spec().left_spec().left_spec().left_spec() == s.0,
{
}

/// Reading a tuple of arity 6 through the decomposition: each window's
/// `right` is its last element, its `left` the window one element
/// shorter, down to the two-element leaf.
pub proof fn lemma_decomposition_chain_arity6<T1, T2, T3, T4, T5, T6>(s: (T1, T2, T3, T4, T5, T6))
    ensures
        s.right_spec() == s.5,
        s.left_spec() == (s.0, s.1, s.2, s.3, s.4),
        s.left_spec().right_spec() == s.4,
        s.left_spec().left_spec() == (s.0, s.1, s.2, s.3),
        s.left_spec().left_spec().right_spec() == s.3,
        s.left_spec().left_spec().left_spec() == (s.0, s.1, s.2),
        s.left_spec().left_spec().left_spec().right_spec() == s.2,
        s.left_spec().left_spec().left_spec().left_spec() == (s.0, s.1),
        s.left_spec().left_spec().left_spec().left_spec().right_spec() == s.1,
        s.left_spec().left_spec().left_spec().left_spec().left_spec() == s.0,
{
}

/// Reading a tuple of arity 7 through the decomposition: each window's
/// `right` is its last element, its `left` the window one element
/// shorter, down to the two-element leaf.
pub proof fn lemma_decomposition_chain_arity7<T1, T2, T3, T4, T5, T6, T7>(
    s: (T1, T2, T3, T4, T5, T6, T7),
)
    ensures
        s.right_spec() == s.6,
        s.left_spec() == (s.0, s.1, s.2, s.3, s.4, s.5),
        s.left_spec().right_spec() == s.5,
        s.left_spec().left_spec() == (s.0, s.1, s.2, s.3, s.4),
        s.left_spec().left_spec().right_spec() == s.4,
        s.left_spec().left_spec().left_spec() == (s.0, s.1, s.2, s.3),
        s.left_spec().left_spec().left_spec().right_spec() == s.3,
        s.left_spec().left_spec().left_spec().left_spec() == (s.0, s.1, s.2),
        s.left_spec().left_spec().left_spec().left_spec().right_spec() == s.2,
        s.left_spec().left_spec().left_spec().left_spec().left_spec() == (s.0, s.1),
        s.left_spec().left_spec().left_spec().left_spec().left_spec().right_spec() == s.1,
        s.left_spec().left_spec().left_spec().left_spec().left_spec().left_spec() == s.0,
{
}

/// Reading a tuple of arity 8 through the decomposition: each window's
/// `right` is its last element, its `left` the window one element
/// shorter, down to the two-element leaf.
pub proof fn lemma_decomposition_chain_arity8<T1, T2, T3, T4, T5, T6, T7, T8>(
    s: (T1, T2, T3, T4, T5, T6, T7, T8),
)
    ensures
        s.right_spec() == s.7,
        s.left_spec() == (s.0, s.1, s.2, s.3, s.4, s.5, s.6),
        s.left_spec().right_spec() == s.6,
        s.left_spec().left_spec() == (s.0, s.1, s.2, s.3, s.4, s.5),
        s.left_spec().left_spec().right_spec() == s.5,
        s.left_spec().left_spec().left_spec() == (s.0, s.1, s.2, s.3, s.4),
        s.left_spec().left_spec().left_spec().right_spec() == s.4,
        s.left_spec().left_spec().left_spec().left_spec() == (s.0, s.1, s.2, s.3),
        s.left_spec().left_spec().left_spec().left_spec().right_spec() == s.3,
        s.left_spec().left_spec().left_spec().left_spec().left_spec() == (s.0, s.1, s.2),
        s.left_spec().left_spec().left_spec().left_spec().left_spec().right_spec() == s.2,
        s.left_spec().left_spec().left_spec().left_spec().left_spec().left_spec() == (s.0, s.1),
        s.left_spec().left_spec().left_spec().left_spec().left_spec().left_spec().right_spec() == s.1,
        s.left_spec().left_spec().left_spec().left_spec().left_spec().left_spec().left_spec() == s.0,
{
}

/// Reading a tuple of arity 9 through the decomposition: each window's
/// `right` is its last element, its `left` the window one element
/// shorter, down to the two-element leaf.
pub proof fn lemma_decomposition_chain_arity9<T1, T2, T3, T4, T5, T6, T7, T8, T9>(
    s: (T1, T2, T3, T4, T5, T6, T7, T8, T9),
)
    ensures
        s.right_spec() == s.8,
        s.left_spec() == (s.0, s.1, s.2, s.3, s.4, s.5, s.6, s.7),
        s.left_spec().right_spec() == s.7,
        s.left_spec().left_spec() == (s.0, s.1, s.2, s.3, s.4, s.5, s.6),
        s.left_spec().left_spec().right_spec() == s.6,
        s.left_spec().left_spec().left_spec() == (s.0, s.1, s.2, s.3, s.4, s.5),
        s.left_spec().left_spec().left_spec().right_spec() == s.5,
        s.left_spec().left_spec().left_spec().left_spec() == (s.0, s.1, s.2, s.3, s.4),
        s.left_spec().left_spec().left_spec().left_spec().right_spec() == s.4,
        s.left_spec().left_spec().left_spec().left_spec().left_spec() == (s.0, s.1, s.2, s.3),
        s.left_spec().left_spec().left_spec().left_spec().left_spec().right_spec() == s.3,
        s.left_spec().left_spec().left_spec().left_spec().left_spec().left_spec() == (s.0, s.1, s.2),
        s.left_spec().left_spec().left_spec().left_spec().left_spec().left_spec().right_spec() == s.2,
        s.left_spec().left_spec().left_spec().left_spec().left_spec().left_spec().left_spec() == (s.0, s.1),
        s.left_spec().left_spec().left_spec().left_spec().left_spec().left_spec().left_spec().right_spec() == s.1,
        s.left_spec().left_spec().left_spec().left_spec().left_spec().left_spec().left_spec().left_spec() == s.0,
{
}

/// Reading a tuple of arity 10 through the decomposition: each window's
/// `right` is its last element, its `left` the window one element
/// shorter, down to the two-element leaf.
pub proof fn lemma_decomposition_chain_arity10<T1, T2, T3, T4, T5, T6, T7, T8, T9, T10>(
    s: (T1, T2, T3, T4, T5, T6, T7, T8, T9, T10),
)
    ensures
        s.right_spec() == s.9,
        s.left_spec() == (s.0, s.1, s.2, s.3, s.4, s.5, s.6, s.7, s.8),
        s.left_spec().right_spec() == s.8,
        s.left_spec().left_spec() == (s.0, s.1, s.2, s.3, s.4, s.5, s.6, s.7),
        s.left_spec().left_spec().right_spec() == s.7,
        s.left_spec().left_spec().left_spec() == (s.0, s.1, s.2, s.3, s.4, s.5, s.6),
        s.left_spec().left_spec().left_spec().right_spec() == s.6,
        s.left_spec().left_spec().left_spec().left_spec() == (s.0, s.1, s.2, s.3, s.4, s.5),
        s.left_spec().left_spec().left_spec().left_spec().right_spec() == s.5,
        s.left_spec().left_spec().left_spec().left_spec().left_spec() == (s.0, s.1, s.2, s.3, s.4),
        s.left_spec().left_spec().left_spec().left_spec().left_spec().right_spec() == s.4,
        s.left_spec().left_spec().left_spec().left_spec().left_spec().left_spec() == (s.0, s.1, s.2, s.3),
        s.left_spec().left_spec().left_spec().left_spec().left_spec().left_spec().right_spec() == s.3,
        s.left_spec().left_spec().left_spec().left_spec().left_spec().left_spec().left_spec() == (s.0, s.1, s.2),
        s.left_spec().left_spec().left_spec().left_spec().left_spec().left_spec().left_spec().right_spec() == s.2,
        s.left_spec().left_spec().left_spec().left_spec().left_spec().left_spec().left_spec().left_spec() == (s.0, s.1),
        s.left_spec().left_spec().left_spec().left_spec().left_spec().left_spec().left_spec().left_spec().right_spec() == s.1,
        s.left_spec().left_spec().left_spec().left_spec().left_spec().left_spec().left_spec().left_spec().left_spec() == s.0,
{
}

/// Reading a tuple of arity 11 through the decomposition: each window's
/// `right` is its last element, its `left` the window one element
/// shorter, down to the two-element leaf.
pub proof fn lemma_decomposition_chain_arity11<T1, T2, T3, T4, T5, T6, T7, T8, T9, T10, T11>(
    s: (T1, T2, T3, T4, T5, T6, T7, T8, T9, T10, T11),
)
    ensures
        s.right_spec() == s.10,
        s.left_spec() == (s.0, s.1, s.2, s.3, s.4, s.5, s.6, s.7, s.8, s.9),
        s.left_spec().right_spec() == s.9,
        s.left_spec().left_spec() == (s.0, s.1, s.2, s.3, s.4, s.5, s.6, s.7, s.8),
        s.left_spec().left_spec().right_spec() == s.8,
        s.left_spec().left_spec().left_spec() == (s.0, s.1, s.2, s.3, s.4, s.5, s.6, s.7),
        s.left_spec().left_spec().left_spec().right_spec() == s.7,
        s.left_spec().left_spec().left_spec().left_spec() == (s.0, s.1, s.2, s.3, s.4, s.5, s.6),
        s.left_spec().left_spec().left_spec().left_spec().right_spec() == s.6,
        s.left_spec().left_spec().left_spec().left_spec().left_spec() == (s.0, s.1, s.2, s.3, s.4, s.5),
        s.left_spec().left_spec().left_spec().left_spec().left_spec().right_spec() == s.5,
        s.left_spec().left_spec().left_spec().left_spec().left_spec().left_spec() == (s.0, s.1, s.2, s.3, s.4),
        s.left_spec().left_spec().left_spec().left_spec().left_spec().left_spec().right_spec() == s.4,
        s.left_spec().left_spec().left_spec().left_spec().left_spec().left_spec().left_spec() == (s.0, s.1, s.2, s.3),
        s.left_spec().left_spec().left_spec().left_spec().left_spec().left_spec().left_spec().right_spec() == s.3,
        s.left_spec().left_spec().left_spec().left_spec().left_spec().left_spec().left_spec().left_spec() == (s.0, s.1, s.2),
        s.left_spec().left_spec().left_spec().left_spec().left_spec().left_spec().left_spec().left_spec().right_spec() == s.2,
        s.left_spec().left_spec().left_spec().left_spec().left_spec().left_spec().left_spec().left_spec().left_spec() == (s.0, s.1),
        s.left_spec().left_spec().left_spec().left_spec().left_spec().left_spec().left_spec().left_spec().left_spec().right_spec() == s.1,
        s.left_spec().left_spec().left_spec().left_spec().left_spec().left_spec().left_spec().left_spec().left_spec().left_spec() == s.0,
{
}

/// Reading a tuple of arity 12 through the decomposition: each window's
/// `right` is its last element, its `left` the window one element
/// shorter, down to the two-element leaf.
pub proof fn lemma_decomposition_chain_arity12<T1, T2, T3, T4, T5, T6, T7, T8, T9, T10, T11, T12>(
    s: (T1, T2, T3, T4, T5, T6, T7, T8, T9, T10, T11, T12),
)
    ensures
        s.right_spec() == s.11,
        s.left_spec() == (s.0, s.1, s.2, s.3, s.4, s.5, s.6, s.7, s.8, s.9, s.10),
        s.left_spec().right_spec() == s.10,
        s.left_spec().left_spec() == (s.0, s.1, s.2, s.3, s.4, s.5, s.6, s.7, s.8, s.9),
        s.left_spec().left_spec().right_spec() == s.9,
        s.left_spec().left_spec().left_spec() == (s.0, s.1, s.2, s.3, s.4, s.5, s.6, s.7, s.8),
        s.left_spec().left_spec().left_spec().right_spec() == s.8,
        s.left_spec().left_spec().left_spec().left_spec() == (s.0, s.1, s.2, s.3, s.4, s.5, s.6, s.7),
        s.left_spec().left_spec().left_spec().left_spec().right_spec() == s.7,
        s.left_spec().left_spec().left_spec().left_spec().left_spec() == (s.0, s.1, s.2, s.3, s.4, s.5, s.6),
        s.left_spec().left_spec().left_spec().left_spec().left_spec().right_spec() == s.6,
        s.left_spec().left_spec().left_spec().left_spec().left_spec().left_spec() == (s.0, s.1, s.2, s.3, s.4, s.5),
        s.left_spec().left_spec().left_spec().left_spec().left_spec().left_spec().right_spec() == s.5,
        s.left_spec().left_spec().left_spec().left_spec().left_spec().left_spec().left_spec() == (s.0, s.1, s.2, s.3, s.4),
        s.left_spec().left_spec().left_spec().left_spec().left_spec().left_spec().left_spec().right_spec() == s.4,
        s.left_spec().left_spec().left_spec().left_spec().left_spec().left_spec().left_spec().left_spec() == (s.0, s.1, s.2, s.3),
        s.left_spec().left_spec().left_spec().left_spec().left_spec().left_spec().left_spec().left_spec().right_spec() == s.3,
        s.left_spec().left_spec().left_spec().left_spec().left_spec().left_spec().left_spec().left_spec().left_spec() == (s.0, s.1, s.2),
        s.left_spec().left_spec().left_spec().left_spec().left_spec().left_spec().left_spec().left_spec().left_spec().right_spec() == s.2,
        s.left_spec().left_spec().left_spec().left_spec().left_spec().left_spec().left_spec().left_spec().left_spec().left_spec() == (s.0, s.1),
        s.left_spec().left_spec().left_spec().left_spec().left_spec().left_spec().left_spec().left_spec().left_spec().left_spec().right_spec() == s.1,
        s.left_spec().left_spec().left_spec().left_spec().left_spec().left_spec().left_spec().left_spec().left_spec().left_spec().left_spec() == s.0,
{
}

/// Under a marker whose combine keeps its left operand — the default —
/// folding a pair yields the first element's output alone, in all three
/// ownership modes.
pub proof fn lemma_default_fold_keeps_first_arity2<
    M: VariadicMarker,
    T1: VariadicMut<M> + VariadicRef<M> + VariadicOwned<M>,
    T2: VariadicMut<M> + VariadicRef<M> + VariadicOwned<M>,
>(
    s: (T1, T2),
    i: M::Input,
)
    requires
        forall|l: M::Output, r: M::Output| #[trigger] M::fold_spec(l, r) == l,
    ensures
        <(T1, T2) as VariadicMut<M>>::visit_spec(s, i).2 == <T1 as VariadicMut<M>>::visit_spec(
            s.0,
            i,
        ).2,
        <(T1, T2) as VariadicRef<M>>::visit_spec(s, i).1 == <T1 as VariadicRef<M>>::visit_spec(
            s.0,
            i,
        ).1,
        <(T1, T2) as VariadicOwned<M>>::visit_spec(s, i).1 == <T1 as VariadicOwned<M>>::visit_spec(
            s.0,
            i,
        ).1,
{
}

/// Under a marker whose combine keeps its left operand — the default —
/// folding a triple yields the first element's output alone.
pub proof fn lemma_default_fold_keeps_first_arity3<
    M: VariadicMarker,
    T1: VariadicMut<M> + VariadicRef<M> + VariadicOwned<M>,
    T2: VariadicMut<M> + VariadicRef<M> + VariadicOwned<M>,
    T3: VariadicMut<M> + VariadicRef<M> + VariadicOwned<M>,
>(
    s: (T1, T2, T3),
    i: M::Input,
)
    requires
        forall|l: M::Output, r: M::Output| #[trigger] M::fold_spec(l, r) == l,
    ensures
        <(T1, T2, T3) as VariadicMut<M>>::visit_spec(s, i).2 == <T1 as VariadicMut<M>>::visit_spec(
            s.0,
            i,
        ).2,
        <(T1, T2, T3) as VariadicRef<M>>::visit_spec(s, i).1 == <T1 as VariadicRef<M>>::visit_spec(
            s.0,
            i,
        ).1,
        <(T1, T2, T3) as VariadicOwned<M>>::visit_spec(s, i).1 == <T1 as VariadicOwned<M>>::visit_spec(
            s.0,
            i,
        ).1,
{
}

/// Under a marker whose combine keeps its left operand — the default —
/// folding a tuple of arity 4 yields the first element's output alone.
pub proof fn lemma_default_fold_keeps_first_arity4<
    M: VariadicMarker,
    T1: VariadicMut<M> + VariadicRef<M> + VariadicOwned<M>,
    T2: VariadicMut<M> + VariadicRef<M> + VariadicOwned<M>,
    T3: VariadicMut<M> + VariadicRef<M> + VariadicOwned<M>,
    T4: VariadicMut<M> + VariadicRef<M> + VariadicOwned<M>,
>(
    s: (T1, T2, T3, T4),
    i: M::Input,
)
    requires
        forall|l: M::Output, r: M::Output| #[trigger] M::fold_spec(l, r) == l,
    ensures
        <(T1, T2, T3, T4) as VariadicMut<M>>::visit_spec(s, i).2 == <T1 as VariadicMut<M>>::visit_spec(
            s.0,
            i,
        ).2,
        <(T1, T2, T3, T4) as VariadicRef<M>>::visit_spec(s, i).1 == <T1 as VariadicRef<M>>::visit_spec(
            s.0,
            i,
        ).1,
        <(T1, T2, T3, T4) as VariadicOwned<M>>::visit_spec(s, i).1 == <T1 as VariadicOwned<M>>::visit_spec(
            s.0,
            i,
        ).1,
{
}

/// Under a marker whose combine keeps its left operand — the default —
/// folding a tuple of arity 5 yields the first element's output alone.
pub proof fn lemma_default_fold_keeps_first_arity5<
    M: VariadicMarker,
    T1: VariadicMut<M> + VariadicRef<M> + VariadicOwned<M>,
    T2: VariadicMut<M> + VariadicRef<M> + VariadicOwned<M>,
    T3: VariadicMut<M> + VariadicRef<M> + VariadicOwned<M>,
    T4: VariadicMut<M> + VariadicRef<M> + VariadicOwned<M>,
    T5: VariadicMut<M> + VariadicRef<M> + VariadicOwned<M>,
>(
    s: (T1, T2, T3, T4, T5),
    i: M::Input,
)
    requires
        forall|l: M::Output, r: M::Output| #[trigger] M::fold_spec(l, r) == l,
    ensures
        <(T1, T2, T3, T4, T5) as VariadicMut<M>>::visit_spec(s, i).2 == <T1 as VariadicMut<M>>::visit_spec(
            s.0,
            i,
        ).2,
        <(T1, T2, T3, T4, T5) as VariadicRef<M>>::visit_spec(s, i).1 == <T1 as VariadicRef<M>>::visit_spec(
            s.0,
            i,
        ).1,
        <(T1, T2, T3, T4, T5) as VariadicOwned<M>>::visit_spec(s, i).1 == <T1 as VariadicOwned<M>>::visit_spec(
            s.0,
            i,
        ).1,
{
}

/// Under a marker whose combine keeps its left operand — the default —
/// folding a tuple of arity 6 yields the first element's output alone.
pub proof fn lemma_default_fold_keeps_first_arity6<
    M: VariadicMarker,
    T1: VariadicMut<M> + VariadicRef<M> + VariadicOwned<M>,
    T2: VariadicMut<M> + VariadicRef<M> + VariadicOwned<M>,
    T3: VariadicMut<M> + VariadicRef<M> + VariadicOwned<M>,
    T4: VariadicMut<M> + VariadicRef<M> + VariadicOwned<M>,
    T5: VariadicMut<M> + VariadicRef<M> + VariadicOwned<M>,
    T6: VariadicMut<M> + VariadicRef<M> + VariadicOwned<M>,
>(
    s: (T1, T2, T3, T4, T5, T6),
    i: M::Input,
)
    requires
        forall|l: M::Output, r: M::Output| #[trigger] M::fold_spec(l, r) == l,
    ensures
        <(T1, T2, T3, T4, T5, T6) as VariadicMut<M>>::visit_spec(s, i).2 == <T1 as VariadicMut<M>>::visit_spec(
            s.0,
            i,
        ).2,
        <(T1, T2, T3, T4, T5, T6) as VariadicRef<M>>::visit_spec(s, i).1 == <T1 as VariadicRef<M>>::visit_spec(
            s.0,
            i,
        ).1,
        <(T1, T2, T3, T4, T5, T6) as VariadicOwned<M>>::visit_spec(s, i).1 == <T1 as VariadicOwned<M>>::visit_spec(
            s.0,
            i,
        ).1,
{
}

/// Under a marker whose combine keeps its left operand — the default —
/// folding a tuple of arity 7 yields the first element's output alone.
pub proof fn lemma_default_fold_keeps_first_arity7<
    M: VariadicMarker,
    T1: VariadicMut<M> + VariadicRef<M> + VariadicOwned<M>,
    T2: VariadicMut<M> + VariadicRef<M> + VariadicOwned<M>,
    T3: VariadicMut<M> + VariadicRef<M> + VariadicOwned<M>,
    T4: VariadicMut<M> + VariadicRef<M> + VariadicOwned<M>,
    T5: VariadicMut<M> + VariadicRef<M> + VariadicOwned<M>,
    T6: VariadicMut<M> + VariadicRef<M> + VariadicOwned<M>,
    T7: VariadicMut<M> + VariadicRef<M> + VariadicOwned<M>,
>(
    s: (T1, T2, T3, T4, T5, T6, T7),
    i: M::Input,
)
    requires
        forall|l: M::Output, r: M::Output| #[trigger] M::fold_spec(l, r) == l,
    ensures
        <(T1, T2, T3, T4, T5, T6, T7) as VariadicMut<M>>::visit_spec(s, i).2 == <T1 as VariadicMut<M>>::visit_spec(
            s.0,
            i,
        ).2,
        <(T1, T2, T3, T4, T5, T6, T7) as VariadicRef<M>>::visit_spec(s, i).1 == <T1 as VariadicRef<M>>::visit_spec(
            s.0,
            i,
        ).1,
        <(T1, T2, T3, T4, T5, T6, T7) as VariadicOwned<M>>::visit_spec(s, i).1 == <T1 as VariadicOwned<M>>::visit_spec(
            s.0,
            i,
        ).1,
{
}

/// Under a marker whose combine keeps its left operand — the default —
/// folding a tuple of arity 8 yields the first element's output alone.
pub proof fn lemma_default_fold_keeps_first_arity8<
    M: VariadicMarker,
    T1: VariadicMut<M> + VariadicRef<M> + VariadicOwned<M>,
    T2: VariadicMut<M> + VariadicRef<M> + VariadicOwned<M>,
    T3: VariadicMut<M> + VariadicRef<M> + VariadicOwned<M>,
    T4: VariadicMut<M> + VariadicRef<M> + VariadicOwned<M>,
    T5: VariadicMut<M> + VariadicRef<M> + VariadicOwned<M>,
    T6: VariadicMut<M> + VariadicRef<M> + VariadicOwned<M>,
    T7: VariadicMut<M> + VariadicRef<M> + VariadicOwned<M>,
    T8: VariadicMut<M> + VariadicRef<M> + VariadicOwned<M>,
>(
    s: (T1, T2, T3, T4, T5, T6, T7, T8),
    i: M::Input,
)
    requires
        forall|l: M::Output, r: M::Output| #[trigger] M::fold_spec(l, r) == l,
    ensures
        <(T1, T2, T3, T4, T5, T6, T7, T8) as VariadicMut<M>>::visit_spec(s, i).2 == <T1 as VariadicMut<M>>::visit_spec(
            s.0,
            i,
        ).2,
        <(T1, T2, T3, T4, T5, T6, T7, T8) as VariadicRef<M>>::visit_spec(s, i).1 == <T1 as VariadicRef<M>>::visit_spec(
            s.0,
            i,
        ).1,
        <(T1, T2, T3, T4, T5, T6, T7, T8) as VariadicOwned<M>>::visit_spec(s, i).1 == <T1 as VariadicOwned<M>>::visit_spec(
            s.0,
            i,
        ).1,
{
}

/// Under a marker whose combine keeps its left operand — the default —
/// folding a tuple of arity 9 yields the first element's output alone.
pub proof fn lemma_default_fold_keeps_first_arity9<
    M: VariadicMarker,
    T1: VariadicMut<M> + VariadicRef<M> + VariadicOwned<M>,
    T2: VariadicMut<M> + VariadicRef<M> + VariadicOwned<M>,
    T3: VariadicMut<M> + VariadicRef<M> + VariadicOwned<M>,
    T4: VariadicMut<M> + VariadicRef<M> + VariadicOwned<M>,
    T5: VariadicMut<M> + VariadicRef<M> + VariadicOwned<M>,
    T6: VariadicMut<M> + VariadicRef<M> + VariadicOwned<M>,
    T7: VariadicMut<M> + VariadicRef<M> + VariadicOwned<M>,
    T8: VariadicMut<M> + VariadicRef<M> + VariadicOwned<M>,
    T9: VariadicMut<M> + VariadicRef<M> + VariadicOwned<M>,
>(
    s: (T1, T2, T3, T4, T5, T6, T7, T8, T9),
    i: M::Input,
)
    requires
        forall|l: M::Output, r: M::Output| #[trigger] M::fold_spec(l, r) == l,
    ensures
        <(T1, T2, T3, T4, T5, T6, T7, T8, T9) as VariadicMut<M>>::visit_spec(s, i).2 == <T1 as VariadicMut<M>>::visit_spec(
            s.0,
            i,
        ).2,
        <(T1, T2, T3, T4, T5, T6, T7, T8, T9) as VariadicRef<M>>::visit_spec(s, i).1 == <T1 as VariadicRef<M>>::visit_spec(
            s.0,
            i,
        ).1,
        <(T1, T2, T3, T4, T5, T6, T7, T8, T9) as VariadicOwned<M>>::visit_spec(s, i).1 == <T1 as VariadicOwned<M>>::visit_spec(
            s.0,
            i,
        ).1,
{
}

/// Under a marker whose combine keeps its left operand — the default —
/// folding a tuple of arity 10 yields the first element's output alone.
pub proof fn lemma_default_fold_keeps_first_arity10<
    M: VariadicMarker,
    T1: VariadicMut<M> + VariadicRef<M> + VariadicOwned<M>,
    T2: VariadicMut<M> + VariadicRef<M> + VariadicOwned<M>,
    T3: VariadicMut<M> + VariadicRef<M> + VariadicOwned<M>,
    T4: VariadicMut<M> + VariadicRef<M> + VariadicOwned<M>,
    T5: VariadicMut<M> + VariadicRef<M> + VariadicOwned<M>,
    T6: VariadicMut<M> + VariadicRef<M> + VariadicOwned<M>,
    T7: VariadicMut<M> + VariadicRef<M> + VariadicOwned<M>,
    T8: VariadicMut<M> + VariadicRef<M> + VariadicOwned<M>,
    T9: VariadicMut<M> + VariadicRef<M> + VariadicOwned<M>,
    T10: VariadicMut<M> + VariadicRef<M> + VariadicOwned<M>,
>(
    s: (T1, T2, T3, T4, T5, T6, T7, T8, T9, T10),
    i: M::Input,
)
    requires
        forall|l: M::Output, r: M::Output| #[trigger] M::fold_spec(l, r) == l,
    ensures
        <(T1, T2, T3, T4, T5, T6, T7, T8, T9, T10) as VariadicMut<M>>::visit_spec(s, i).2 == <T1 as VariadicMut<M>>::visit_spec(
            s.0,
            i,
        ).2,
        <(T1, T2, T3, T4, T5, T6, T7, T8, T9, T10) as VariadicRef<M>>::visit_spec(s, i).1 == <T1 as VariadicRef<M>>::visit_spec(
            s.0,
            i,
        ).1,
        <(T1, T2, T3, T4, T5, T6, T7, T8, T9, T10) as VariadicOwned<M>>::visit_spec(s, i).1 == <T1 as VariadicOwned<M>>::visit_spec(
            s.0,
            i,
        ).1,
{
}

/// Under a marker whose combine keeps its left operand — the default —
/// folding a tuple of arity 11 yields the first element's output alone.
pub proof fn lemma_default_fold_keeps_first_arity11<
    M: VariadicMarker,
    T1: VariadicMut<M> + VariadicRef<M> + VariadicOwned<M>,
    T2: VariadicMut<M> + VariadicRef<M> + VariadicOwned<M>,
    T3: VariadicMut<M> + VariadicRef<M> + VariadicOwned<M>,
    T4: VariadicMut<M> + VariadicRef<M> + VariadicOwned<M>,
    T5: VariadicMut<M> + VariadicRef<M> + VariadicOwned<M>,
    T6: VariadicMut<M> + VariadicRef<M> + VariadicOwned<M>,
    T7: VariadicMut<M> + VariadicRef<M> + VariadicOwned<M>,
    T8: VariadicMut<M> + VariadicRef<M> + VariadicOwned<M>,
    T9: VariadicMut<M> + VariadicRef<M> + VariadicOwned<M>,
    T10: VariadicMut<M> + VariadicRef<M> + VariadicOwned<M>,
    T11: VariadicMut<M> + VariadicRef<M> + VariadicOwned<M>,
>(
    s: (T1, T2, T3, T4, T5, T6, T7, T8, T9, T10, T11),
    i: M::Input,
)
    requires
        forall|l: M::Output, r: M::Output| #[trigger] M::fold_spec(l, r) == l,
    ensures
        <(T1, T2, T3, T4, T5, T6, T7, T8, T9, T10, T11) as VariadicMut<M>>::visit_spec(s, i).2 == <T1 as VariadicMut<M>>::visit_spec(
            s.0,
            i,
        ).2,
        <(T1, T2, T3, T4, T5, T6, T7, T8, T9, T10, T11) as VariadicRef<M>>::visit_spec(s, i).1 == <T1 as VariadicRef<M>>::visit_spec(
            s.0,
            i,
        ).1,
        <(T1, T2, T3, T4, T5, T6, T7, T8, T9, T10, T11) as VariadicOwned<M>>::visit_spec(s, i).1 == <T1 as VariadicOwned<M>>::visit_spec(
            s.0,
            i,
        ).1,
{
}

/// Under a marker whose combine keeps its left operand — the default —
/// folding a tuple of arity 12 yields the first element's output alone.
pub proof fn lemma_default_fold_keeps_first_arity12<
    M: VariadicMarker,
    T1: VariadicMut<M> + VariadicRef<M> + VariadicOwned<M>,
    T2: VariadicMut<M> + VariadicRef<M> + VariadicOwned<M>,
    T3: VariadicMut<M> + VariadicRef<M> + VariadicOwned<M>,
    T4: VariadicMut<M> + VariadicRef<M> + VariadicOwned<M>,
    T5: VariadicMut<M> + VariadicRef<M> + VariadicOwned<M>,
    T6: VariadicMut<M> + VariadicRef<M> + VariadicOwned<M>,
    T7: VariadicMut<M> + VariadicRef<M> + VariadicOwned<M>,
    T8: VariadicMut<M> + VariadicRef<M> + VariadicOwned<M>,
    T9: VariadicMut<M> + VariadicRef<M> + VariadicOwned<M>,
    T10: VariadicMut<M> + VariadicRef<M> + VariadicOwned<M>,
    T11: VariadicMut<M> + VariadicRef<M> + VariadicOwned<M>,
    T12: VariadicMut<M> + VariadicRef<M> + VariadicOwned<M>,
>(
    s: (T1, T2, T3, T4, T5, T6, T7, T8, T9, T10, T11, T12),
    i: M::Input,
)
    requires
        forall|l: M::Output, r: M::Output| #[trigger] M::fold_spec(l, r) == l,
    ensures
        <(T1, T2, T3, T4, T5, T6, T7, T8, T9, T10, T11, T12) as VariadicMut<M>>::visit_spec(s, i).2 == <T1 as VariadicMut<M>>::visit_spec(
            s.0,
            i,
        ).2,
        <(T1, T2, T3, T4, T5, T6, T7, T8, T9, T10, T11, T12) as VariadicRef<M>>::visit_spec(s, i).1 == <T1 as VariadicRef<M>>::visit_spec(
            s.0,
            i,
        ).1,
        <(T1, T2, T3, T4, T5, T6, T7, T8, T9, T10, T11, T12) as VariadicOwned<M>>::visit_spec(s, i).1 == <T1 as VariadicOwned<M>>::visit_spec(
            s.0,
            i,
        ).1,
{
}

} // verus!
