use shared_prims::geometry::Rectangle;

#[test]
fn it_works() {
    assert_eq!(2 + 2, 4);
}

#[test]
fn larger_can_hold_smaller() {
    let larger = Rectangle { width: 8, height: 7 };
    let smaller = Rectangle { width: 5, height: 1 };

    assert!(larger.can_hold(&smaller));
}

#[test]
fn can_hold_is_strict_on_both_sides() {
    let a = Rectangle { width: 8, height: 7 };
    let same_width = Rectangle { width: 8, height: 1 };
    let same_height = Rectangle { width: 2, height: 7 };
    assert!(!a.can_hold(&same_width));
    assert!(!a.can_hold(&same_height));
    assert!(!same_width.can_hold(&a));
}
