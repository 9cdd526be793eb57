use tupiadic::split::VariadicSplit;

#[test]
fn leaf_left_and_right_are_the_two_elements() {
    let p = (10i32, true);
    assert_eq!(p.left(), 10);
    assert_eq!(p.right(), true);
}

#[test]
fn right_is_always_the_last_element() {
    assert_eq!((1i32, 2i32, 3i32).right(), 3);
    assert_eq!((1i32, 2i32, 3i32, 4i32).right(), 4);
    assert_eq!((1u8, "two", 3i64, true).right(), true);
}

#[test]
fn left_is_the_window_of_all_but_the_last() {
    assert_eq!((1i32, 2i32, 3i32).left(), (1, 2));
    assert_eq!((1i32, 2i32, 3i32, 4i32).left(), (1, 2, 3));
    assert_eq!((1u8, "two", 3i64, true).left(), (1u8, "two", 3i64));
}

#[test]
fn chain_of_a_four_tuple_reaches_the_leaf() {
    let s = (10i32, 20i32, 30i32, 40i32);
    assert_eq!(s.right(), 40);
    assert_eq!(s.left().right(), 30);
    assert_eq!(s.left().left().right(), 20);
    assert_eq!(s.left().left().left(), 10);
}

#[test]
fn chain_of_a_twelve_tuple_reaches_the_leaf() {
    let s = (1i32, 2i32, 3i32, 4i32, 5i32, 6i32, 7i32, 8i32, 9i32, 10i32, 11i32, 12i32);
    assert_eq!(s.right(), 12);
    assert_eq!(s.left().right(), 11);
    assert_eq!(s.left().left().right(), 10);
    assert_eq!(s.left().left().left().right(), 9);
    assert_eq!(s.left().left().left().left().right(), 8);
    assert_eq!(s.left().left().left().left().left().right(), 7);
    assert_eq!(s.left().left().left().left().left().left().right(), 6);
    assert_eq!(s.left().left().left().left().left().left().left().right(), 5);
    assert_eq!(
        s.left().left().left().left().left().left().left().left().right(),
        4
    );
    assert_eq!(
        s.left().left().left().left().left().left().left().left().left().right(),
        3
    );
    // Ten lefts reach the two-element leaf.
    let leaf = s
        .left()
        .left()
        .left()
        .left()
        .left()
        .left()
        .left()
        .left()
        .left()
        .left();
    assert_eq!(leaf, (1, 2));
    assert_eq!(leaf.right(), 2);
    assert_eq!(leaf.left(), 1);
}

#[test]
fn split_moves_elements_without_copying() {
    let s = (String::from("a"), String::from("b"), String::from("c"));
    assert_eq!(s.clone().right(), "c");
    assert_eq!(s.left(), (String::from("a"), String::from("b")));
}
