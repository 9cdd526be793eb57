use tupiadic::{VariadicMarker, VariadicMut, VariadicOwned, VariadicRef};

/// Combine is addition; the input is a running stamp incremented by every
/// visit, so the result depends on the traversal order and on the threading
/// of the input from one element to the next.
struct StampMarker;

impl VariadicMarker for StampMarker {
    type Input = i64;
    type Output = i64;
    fn fold_obeys(_: i64, _: i64, _: i64) {}
    fn fold(left: i64, right: i64) -> i64 {
        left + right
    }
}

/// An element capable of all three visit modes, behaving identically in
/// each: it bumps the stamp and yields its value weighted by the stamp.
#[derive(Clone, Copy)]
struct Elem(i64);

impl VariadicMut<StampMarker> for Elem {
    fn visit(&mut self, input: &mut i64) -> i64 {
        *input += 1;
        self.0 * *input
    }
}

impl VariadicRef<StampMarker> for Elem {
    fn visit(&self, input: &mut i64) -> i64 {
        *input += 1;
        self.0 * *input
    }
}

impl VariadicOwned<StampMarker> for Elem {
    fn visit(self, input: &mut i64) -> i64 {
        *input += 1;
        self.0 * *input
    }
}

/// Combine is concatenation; consuming visits move each element's string
/// out without copying it.
struct ConcatMarker;

impl VariadicMarker for ConcatMarker {
    type Input = ();
    type Output = String;
    fn fold_obeys(_: String, _: String, _: String) {}
    fn fold(left: String, right: String) -> String {
        left + &right
    }
}

struct Word(String);

impl VariadicOwned<ConcatMarker> for Word {
    fn visit(self, _: &mut ()) -> String {
        self.0
    }
}

#[test]
fn three_ownership_modes_agree() {
    // Visits weight 2, 3, 4 by stamps 1, 2, 3: 2 + 6 + 12 = 20.
    let s = (Elem(2), Elem(3), Elem(4));

    let mut s_mut = s;
    let mut stamp_mut: i64 = 0;
    let out_mut = <_ as VariadicMut<StampMarker>>::visit(&mut s_mut, &mut stamp_mut);

    let mut stamp_ref: i64 = 0;
    let out_ref = <_ as VariadicRef<StampMarker>>::visit(&s, &mut stamp_ref);

    let mut stamp_owned: i64 = 0;
    let out_owned = <_ as VariadicOwned<StampMarker>>::visit(s, &mut stamp_owned);

    assert_eq!(out_mut, 20);
    assert_eq!(out_mut, out_ref);
    assert_eq!(out_ref, out_owned);
    assert_eq!(stamp_mut, 3);
    assert_eq!(stamp_ref, 3);
    assert_eq!(stamp_owned, 3);
}

#[test]
fn modes_agree_on_nested_sequences() {
    let s = (Elem(1), (Elem(2), Elem(3)));

    let mut s_mut = s;
    let mut stamp_mut: i64 = 0;
    let out_mut = <_ as VariadicMut<StampMarker>>::visit(&mut s_mut, &mut stamp_mut);

    let mut stamp_ref: i64 = 0;
    let out_ref = <_ as VariadicRef<StampMarker>>::visit(&s, &mut stamp_ref);

    let mut stamp_owned: i64 = 0;
    let out_owned = <_ as VariadicOwned<StampMarker>>::visit(s, &mut stamp_owned);

    // Stamps 1, 2, 3 weight values 1, 2, 3: 1 + (4 + 9) = 14.
    assert_eq!(out_mut, 14);
    assert_eq!(out_ref, 14);
    assert_eq!(out_owned, 14);
}

#[test]
fn consuming_visit_moves_each_element_once() {
    let s = (
        Word(String::from("ab")),
        Word(String::from("cd")),
        Word(String::from("e")),
    );
    let out = <_ as VariadicOwned<ConcatMarker>>::visit(s, &mut ());
    assert_eq!(out, "abcde");
}
