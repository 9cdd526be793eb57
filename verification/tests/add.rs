use tupiadic::{VariadicMarker, VariadicMut};

struct X(usize);

struct Y(usize);

/// Adapter giving a closure a place in a sequence: visiting it calls the
/// closure. (A foreign-trait impl directly over `P: Fn() -> usize` would be
/// an orphan impl outside the library's own crate.)
struct Thunk<P>(P);

trait GetUsize {
    fn get_usize(&self) -> usize;
}

impl GetUsize for X {
    fn get_usize(&self) -> usize {
        self.0
    }
}

impl GetUsize for Y {
    fn get_usize(&self) -> usize {
        self.0
    }
}

impl<P: Fn() -> usize> GetUsize for Thunk<P> {
    fn get_usize(&self) -> usize {
        (self.0)()
    }
}

struct AddMarker;

impl VariadicMarker for AddMarker {
    type Input = ();
    type Output = usize;
    fn fold_obeys(_: usize, _: usize, _: usize) {}
    fn fold(left: usize, right: usize) -> usize {
        left + right
    }
}

impl VariadicMut<AddMarker> for X {
    fn visit(&mut self, _: &mut ()) -> usize {
        self.get_usize()
    }
}

impl VariadicMut<AddMarker> for Y {
    fn visit(&mut self, _: &mut ()) -> usize {
        self.get_usize()
    }
}

impl<P: Fn() -> usize> VariadicMut<AddMarker> for Thunk<P> {
    fn visit(&mut self, _: &mut ()) -> usize {
        self.get_usize()
    }
}

trait Sum {
    fn sum(&mut self) -> usize;
}

impl<T: VariadicMut<AddMarker>> Sum for T {
    fn sum(&mut self) -> usize {
        self.visit(&mut ())
    }
}

#[test]
fn add() {
    assert_eq!(X(1).sum(), 1);
    assert_eq!((X(1), X(2)).sum(), 3);
    assert_eq!((X(1), (X(2), X(3))).sum(), 6);
    assert_eq!((X(1), X(2), Y(3), Thunk(|| 10)).sum(), 16);
}
