use verified_basics::generics::{largest, largest_i32, Point, PointTwoDataTypes};

#[test]
fn largest_number() {
    assert_eq!(largest_i32(&[34, 50, 25, 100, 65]), 100);
    assert_eq!(largest_i32(&[7]), 7);
    assert_eq!(largest_i32(&[-3, -1, -2]), -1);
    assert_eq!(largest_i32(&[i32::MIN, i32::MAX, 0]), i32::MAX);
    assert_eq!(largest_i32(&[4, 4, 4]), 4);
}

#[test]
fn largest_of_any_ordered_type() {
    assert_eq!(largest(&[34, 50, 25, 100, 65]), 100);
    assert_eq!(largest(&['y', 'm', 'a', 'q']), 'y');
    assert_eq!(largest(&[102u8, 34, 255, 89, 54, 2, 43, 8]), 255);
    assert_eq!(largest(&[false]), false);
    assert_eq!(largest(&[(1, 'b'), (1, 'a'), (0, 'z')]), (1, 'b'));
}

#[test]
fn largest_keeps_the_first_of_equals() {
    let items = [(2, 0), (2, 0), (1, 5)];
    assert_eq!(largest(&items), (2, 0));
}

#[test]
fn first_coordinate() {
    let p = Point { x: 5, y: 10 };
    assert_eq!(*p.x(), 5);
    let q = Point { x: "left", y: "right" };
    assert_eq!(*q.x(), "left");
}

#[test]
fn mixup_takes_x_from_the_first_and_y_from_the_second() {
    let left = PointTwoDataTypes { x: 5, y: 10 };
    let right = PointTwoDataTypes { x: "Hello", y: 'c' };
    let mixed = left.mixup(right);
    assert_eq!(mixed.x, 5);
    assert_eq!(mixed.y, 'c');
}
