//! Uniform traversal of fixed-arity heterogeneous sequences.
//!
//! A heterogeneous sequence is an ordered collection whose elements may have
//! different types and whose arity is part of its static type — in Rust, a
//! tuple. This crate lets an algorithm be written once against a small set of
//! traits and then applied to tuples of any arity up to twelve:
//!
//! - [`VariadicMarker`] is a caller-supplied policy declaring an `Input` type,
//!   an `Output` type, and a binary `fold` that combines two partial results
//!   (by default the left one is kept unchanged).
//! - [`VariadicMut`], [`VariadicRef`] and [`VariadicOwned`] are the three
//!   ownership disciplines of a fold over a sequence: visiting each element
//!   through an exclusive borrow, through a shared borrow, or by consuming it.
//!   Each trait is implemented here for every tuple arity from two to twelve;
//!   a single element is its own arity-one sequence through the caller's own
//!   implementation.
//! - [`VariadicSplit`](split::VariadicSplit) decomposes a sequence of arity
//!   two or more into the window of all elements but the last, and the last
//!   element.
//!
//! A fold visits the elements strictly left to right by declared position and
//! combines their results pairwise into a left-nested chain:
//! `fold(fold(fold(e0, e1), e2), …)`. An element may itself be a tuple, whose
//! own fold runs when that element is visited, so arbitrarily nested
//! sequences traverse transparently. The `fold` operation is not required to
//! be associative; if it is not, differently nested sequences built from the
//! same flat elements may legitimately fold to different results, because
//! only the strict left-to-right, left-nested order is guaranteed.
//!
//! Every tuple implementation carries a contract pinning its result to the
//! specification-level fold of its elements' results, so the three ownership
//! modes are provably in agreement whenever the element visits themselves
//! agree (see [`laws`]).

use vstd::prelude::*;

pub mod fold_mut;
pub mod fold_owned;
pub mod fold_ref;
pub mod laws;
pub mod split;

verus! {

/// A stateless fold policy: the `Input` threaded through a traversal, the
/// `Output` produced for each element, and the binary [`fold`] combining two
/// partial outputs.
///
/// An implementation may omit [`fold`] entirely, in which case combining
/// keeps the left operand, so folding any sequence yields the first
/// element's output alone.
///
/// [`fold`]: VariadicMarker::fold
pub trait VariadicMarker {
    /// Shared state handed to every element visit, in traversal order.
    type Input;

    /// The result type of a visit and of a whole fold.
    type Output;

    /// What [`fold`](VariadicMarker::fold) returns; by default the left
    /// operand unchanged.
    open spec fn fold_spec(left: Self::Output, right: Self::Output) -> Self::Output {
        left
    }

    /// The obligation that [`fold`](VariadicMarker::fold) agrees with
    /// [`fold_spec`](VariadicMarker::fold_spec): every implementation proves
    /// it of its own `fold`, and the traversals over tuples rely on it.
    /// (A marker written in unverified code gives it an empty body and so
    /// promises nothing of its `fold`.)
    proof fn fold_obeys(left: Self::Output, right: Self::Output, o: Self::Output)
        requires
            call_ensures(Self::fold, (left, right), o),
        ensures
            o == Self::fold_spec(left, right),
    ;

    /// Combines the outputs of two adjacent traversal steps. The default
    /// keeps the left operand, for markers where only the first element's
    /// result matters.
    fn fold(left: Self::Output, right: Self::Output) -> (o: Self::Output)
        default_ensures
            o == left,
    {
        left
    }
}

/// A fold over a sequence visited through exclusive borrows: every element's
/// `visit` may mutate the element itself and the shared input.
pub trait VariadicMut<M: VariadicMarker>: Sized {
    /// The complete effect of [`visit`](VariadicMut::visit): the value the
    /// sequence is left as, the value the input is left as, and the output.
    /// The default says nothing; an implementation whose contract matters
    /// replaces it, as the tuple implementations here do.
    open spec fn visit_spec(self, input: M::Input) -> (Self, M::Input, M::Output) {
        vstd::pervasive::arbitrary()
    }

    /// Visits every element left to right, combining outputs pairwise with
    /// `M::fold` into a left-nested chain.
    fn visit(&mut self, input: &mut M::Input) -> (o: M::Output)
        ensures
            (*final(self), *final(input), o) == old(self).visit_spec(*old(input)),
    ;
}

/// A fold over a sequence visited through shared borrows: elements are read,
/// never changed; only the shared input may be mutated.
pub trait VariadicRef<M: VariadicMarker>: Sized {
    /// The complete effect of [`visit`](VariadicRef::visit): the value the
    /// input is left as, and the output. The default says nothing; an
    /// implementation whose contract matters replaces it, as the tuple
    /// implementations here do.
    open spec fn visit_spec(self, input: M::Input) -> (M::Input, M::Output) {
        vstd::pervasive::arbitrary()
    }

    /// Visits every element left to right, combining outputs pairwise with
    /// `M::fold` into a left-nested chain.
    fn visit(&self, input: &mut M::Input) -> (o: M::Output)
        ensures
            (*final(input), o) == self.visit_spec(*old(input)),
    ;
}

/// A fold over a sequence that consumes it: every element is moved into its
/// `visit` exactly once, and the sequence is unusable afterwards.
pub trait VariadicOwned<M: VariadicMarker>: Sized {
    /// The complete effect of [`visit`](VariadicOwned::visit): the value the
    /// input is left as, and the output. The default says nothing; an
    /// implementation whose contract matters replaces it, as the tuple
    /// implementations here do.
    open spec fn visit_spec(self, input: M::Input) -> (M::Input, M::Output) {
        vstd::pervasive::arbitrary()
    }

    /// Visits every element left to right, combining outputs pairwise with
    /// `M::fold` into a left-nested chain.
    fn visit(self, input: &mut M::Input) -> (o: M::Output)
        ensures
            (*final(input), o) == self.visit_spec(*old(input)),
    ;
}

} // verus!
