use tupiadic::{VariadicMarker, VariadicMut};

/// An integer-wrapping element: visiting yields the wrapped value.
struct N(i64);

/// Combine is addition: folding sums the elements left to right.
struct SumMarker;

impl VariadicMarker for SumMarker {
    type Input = ();
    type Output = i64;
    fn fold_obeys(_: i64, _: i64, _: i64) {}
    fn fold(left: i64, right: i64) -> i64 {
        left + right
    }
}

impl VariadicMut<SumMarker> for N {
    fn visit(&mut self, _: &mut ()) -> i64 {
        self.0
    }
}

/// Combine is subtraction — deliberately non-associative, so the fold's
/// left-to-right, left-nested order is observable in the result.
struct SubMarker;

impl VariadicMarker for SubMarker {
    type Input = ();
    type Output = i64;
    fn fold_obeys(_: i64, _: i64, _: i64) {}
    fn fold(left: i64, right: i64) -> i64 {
        left - right
    }
}

impl VariadicMut<SubMarker> for N {
    fn visit(&mut self, _: &mut ()) -> i64 {
        self.0
    }
}

/// A marker omitting `fold` entirely: combining keeps the left operand.
struct FirstMarker;

impl VariadicMarker for FirstMarker {
    type Input = ();
    type Output = i64;
    fn fold_obeys(_: i64, _: i64, _: i64) {}
}

impl VariadicMut<FirstMarker> for N {
    fn visit(&mut self, _: &mut ()) -> i64 {
        self.0
    }
}

/// Records every visited value in the shared input, so the traversal order
/// itself is observable.
struct LogMarker;

impl VariadicMarker for LogMarker {
    type Input = Vec<i64>;
    type Output = ();
    fn fold_obeys(_: (), _: (), _: ()) {}
    fn fold(_left: (), _right: ()) {}
}

impl VariadicMut<LogMarker> for N {
    fn visit(&mut self, input: &mut Vec<i64>) {
        input.push(self.0);
    }
}

/// An element that mutates itself while visited: yields its value, then
/// increments it.
struct Counter(i64);

impl VariadicMut<SumMarker> for Counter {
    fn visit(&mut self, _: &mut ()) -> i64 {
        let seen = self.0;
        self.0 += 1;
        seen
    }
}

#[test]
fn fold_sums_left_to_right() {
    let mut s = (N(5), N(3), N(2));
    assert_eq!(<_ as VariadicMut<SumMarker>>::visit(&mut s, &mut ()), 10);
}

#[test]
fn fold_of_nested_sequence_sums_inner_fold() {
    let mut s = (N(5), (N(3), N(2)));
    assert_eq!(<_ as VariadicMut<SumMarker>>::visit(&mut s, &mut ()), 10);
    let mut t = (N(1), (N(2), N(3)));
    assert_eq!(<_ as VariadicMut<SumMarker>>::visit(&mut t, &mut ()), 6);
}

#[test]
fn fold_of_four_integers_sums_them() {
    let mut s = (N(1), N(2), N(3), N(4));
    assert_eq!(<_ as VariadicMut<SumMarker>>::visit(&mut s, &mut ()), 10);
}

#[test]
fn fold_is_left_nested() {
    // combine(combine(5, 3), 2) = (5 - 3) - 2 = 0; any other nesting or
    // order would give a different value.
    let mut s = (N(5), N(3), N(2));
    assert_eq!(<_ as VariadicMut<SubMarker>>::visit(&mut s, &mut ()), 0);
}

#[test]
fn non_associative_combine_distinguishes_nestings() {
    // The same flat elements, nested differently: the inner pair folds
    // first, so (5, (3, 2)) gives 5 - (3 - 2) = 4, not 0.
    let mut s = (N(5), (N(3), N(2)));
    assert_eq!(<_ as VariadicMut<SubMarker>>::visit(&mut s, &mut ()), 4);
}

#[test]
fn default_combine_keeps_first_output() {
    let mut a = (N(7), N(8));
    assert_eq!(<_ as VariadicMut<FirstMarker>>::visit(&mut a, &mut ()), 7);
    let mut b = (N(7), N(8), N(9), N(10), N(11));
    assert_eq!(<_ as VariadicMut<FirstMarker>>::visit(&mut b, &mut ()), 7);
}

#[test]
fn elements_are_visited_in_declared_order() {
    let mut s = (N(4), N(1), N(3), N(2));
    let mut log: Vec<i64> = Vec::new();
    <_ as VariadicMut<LogMarker>>::visit(&mut s, &mut log);
    assert_eq!(log, vec![4, 1, 3, 2]);
}

#[test]
fn nested_elements_log_depth_first() {
    let mut s = (N(1), (N(2), (N(3), N(4))), N(5));
    let mut log: Vec<i64> = Vec::new();
    <_ as VariadicMut<LogMarker>>::visit(&mut s, &mut log);
    assert_eq!(log, vec![1, 2, 3, 4, 5]);
}

#[test]
fn mutable_visit_may_mutate_elements() {
    let mut s = (Counter(10), Counter(20));
    assert_eq!(<_ as VariadicMut<SumMarker>>::visit(&mut s, &mut ()), 30);
    assert_eq!(<_ as VariadicMut<SumMarker>>::visit(&mut s, &mut ()), 32);
    assert_eq!(s.0 .0, 12);
    assert_eq!(s.1 .0, 22);
}

#[test]
fn fold_of_twelve_elements() {
    let mut s = (
        N(1),
        N(2),
        N(3),
        N(4),
        N(5),
        N(6),
        N(7),
        N(8),
        N(9),
        N(10),
        N(11),
        N(12),
    );
    assert_eq!(<_ as VariadicMut<SumMarker>>::visit(&mut s, &mut ()), 78);
    assert_eq!(<_ as VariadicMut<FirstMarker>>::visit(&mut s, &mut ()), 1);
}
