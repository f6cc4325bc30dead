use rust_primer::deep_lifecycle;
use rust_primer::deep_trait::{Meters, Millimeters, Point};
use rust_primer::generics;
use rust_primer::method::Rectangle;
use rust_primer::newtype_and_type_aliases;
use rust_primer::newtype_and_type_aliases::calculate_distance;

#[test]
fn area_is_width_times_height() {
    let rect1 = Rectangle { width: 30, height: 50 };
    assert_eq!(rect1.area(), 1500);
}

#[test]
fn area_of_flat_rectangle_is_zero() {
    assert_eq!(Rectangle { width: 0, height: 60 }.area(), 0);
    assert_eq!(Rectangle { width: 60, height: 0 }.area(), 0);
}

#[test]
fn area_at_the_largest_value() {
    let r = Rectangle { width: 65535, height: 65537 };
    assert_eq!(r.area(), u32::MAX);
}

#[test]
fn width_tells_whether_width_is_positive() {
    assert!(Rectangle { width: 30, height: 50 }.width());
    assert!(Rectangle { width: 1, height: 0 }.width());
    assert!(!Rectangle { width: 0, height: 60 }.width());
}

#[test]
fn can_hold_needs_both_sides_strictly_larger() {
    let rect1 = Rectangle { width: 30, height: 50 };
    let rect2 = Rectangle { width: 0, height: 60 };
    assert!(!rect1.can_hold(&rect2));
    assert!(rect1.can_hold(&Rectangle { width: 29, height: 49 }));
    assert!(!rect1.can_hold(&Rectangle { width: 30, height: 49 }));
    assert!(!rect1.can_hold(&Rectangle { width: 29, height: 50 }));
    assert!(!rect1.can_hold(&rect1));
}

#[test]
fn can_hold_runs_one_way() {
    let big = Rectangle { width: 10, height: 10 };
    let small = Rectangle { width: 3, height: 4 };
    assert!(big.can_hold(&small));
    assert!(!small.can_hold(&big));
}

#[test]
fn point_x_borrows_first_coordinate() {
    let p = generics::Point { x: 5, y: 10 };
    assert_eq!(*p.x(), 5);
    let q = generics::Point { x: "left", y: "right" };
    assert_eq!(*q.x(), "left");
}

#[test]
fn points_add_by_coordinate() {
    assert_eq!(Point { x: 1, y: 0 } + Point { x: 2, y: 3 }, Point { x: 3, y: 3 });
    assert_eq!(Point { x: -5, y: 7 } + Point { x: 5, y: -7 }, Point { x: 0, y: 0 });
    assert_eq!(
        Point { x: i32::MAX, y: i32::MIN } + Point { x: 0, y: 0 },
        Point { x: i32::MAX, y: i32::MIN }
    );
}

#[test]
fn metres_count_a_thousandfold_in_millimetres() {
    let total = Millimeters(10) + Meters(5);
    assert_eq!(total.0, 5010);
    let none = Millimeters(0) + Meters(0);
    assert_eq!(none.0, 0);
    let most = Millimeters(295) + Meters(4_294_967);
    assert_eq!(most.0, u32::MAX);
}

#[test]
fn distances_add() {
    let d = calculate_distance(newtype_and_type_aliases::Meters(10), newtype_and_type_aliases::Meters(20));
    assert_eq!(d.0, 30);
    let e = newtype_and_type_aliases::Meters(u32::MAX) + newtype_and_type_aliases::Meters(0);
    assert_eq!(e.0, u32::MAX);
}

#[test]
fn move_to_sets_both_coordinates() {
    let mut p = deep_lifecycle::Point { x: 0, y: 0 };
    p.move_to(10, 10);
    assert_eq!((p.x, p.y), (10, 10));
    p.move_to(-3, i32::MAX);
    assert_eq!((p.x, p.y), (-3, i32::MAX));
}

#[test]
fn read_length_counts_and_leaves_the_strings() {
    let mut strings = vec![String::from("a"), String::from("bc")];
    assert_eq!(deep_lifecycle::read_length(&mut strings), 2);
    assert_eq!(strings, vec![String::from("a"), String::from("bc")]);
    let mut none: Vec<String> = Vec::new();
    assert_eq!(deep_lifecycle::read_length(&mut none), 0);
}

#[test]
fn mixup_takes_x_from_self_and_y_from_other() {
    let p1 = generics::Point1 { x: 5, y: 10 };
    let p2 = generics::Point1 { x: "Hello", y: 'c' };
    let p3 = p1.mixup(p2);
    assert_eq!((p3.x, p3.y), (5, 'c'));
}

#[test]
fn read_only_rectangle_reports_its_sides() {
    let r = rust_primer::method::Rectangle1::new(10, 20);
    assert_eq!(r.width(), 10);
    assert_eq!(r.height(), 20);
    let flat = rust_primer::method::Rectangle1::new(0, u32::MAX);
    assert_eq!((flat.width(), flat.height()), (0, u32::MAX));
}
