use rust_basics::rectangles::{area, Rectangle};

#[test]
fn test_area() {
    let rectangle = Rectangle {
        width: 30,
        height: 50,
    };
    assert_eq!(rectangle.area(), 1500);
}

#[test]
fn test_width() {
    let rect = Rectangle {
        width: 10,
        height: 20,
    };
    assert_eq!(rect.width(), true);
}

#[test]
fn test_can_hold() {
    let rect1 = Rectangle {
        width: 30,
        height: 50,
    };
    let rect2 = Rectangle {
        width: 10,
        height: 40,
    };
    let rect3 = Rectangle {
        width: 60,
        height: 45,
    };
    assert_eq!(rect1.can_hold(&rect2), true);
    assert_eq!(rect1.can_hold(&rect3), false);
}

#[test]
fn free_area_matches_method() {
    let rect = Rectangle { width: 30, height: 50 };
    assert_eq!(area(&rect), 1500);
    assert_eq!(area(&rect), rect.area());
}

#[test]
fn zero_width_is_reported() {
    let rect = Rectangle { width: 0, height: 20 };
    assert_eq!(rect.width(), false);
    assert_eq!(rect.area(), 0);
}

#[test]
fn largest_area_that_fits() {
    let rect = Rectangle { width: 65_535, height: 65_537 };
    assert_eq!(rect.area(), u32::MAX);
}

#[test]
fn square_has_equal_sides() {
    let sq = Rectangle::square(4);
    assert_eq!(sq.width, 4);
    assert_eq!(sq.height, 4);
    assert_eq!(sq.area(), 16);
}

#[test]
fn equal_rectangle_is_not_held() {
    let a = Rectangle { width: 30, height: 50 };
    let b = Rectangle { width: 30, height: 50 };
    assert!(!a.can_hold(&b));
    assert!(!a.can_hold(&Rectangle { width: 29, height: 50 }));
    assert!(a.can_hold(&Rectangle { width: 29, height: 49 }));
}
