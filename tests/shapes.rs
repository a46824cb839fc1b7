use skyfall::shapes::{Point, Rect, Size};

#[test]
fn contains_is_half_open() {
    let r = Rect::new(10, 20, 30, 40);
    assert!(r.contains(Point::new(10, 20)));
    assert!(r.contains(Point::new(39, 59)));
    assert!(!r.contains(Point::new(40, 20)));
    assert!(!r.contains(Point::new(10, 60)));
    assert!(!r.contains(Point::new(9, 30)));
    assert!(!r.contains(Point::new(20, 19)));
}

#[test]
fn empty_rect_contains_nothing() {
    let r = Rect::new(0, 0, 0, 0);
    assert!(!r.contains(Point::new(0, 0)));
}

#[test]
fn contains_at_extreme_coordinates() {
    let r = Rect::new(i64::MAX - 1, i64::MIN, i64::MAX, 5);
    assert!(r.contains(Point::new(i64::MAX, i64::MIN + 4)));
    assert!(!r.contains(Point::new(i64::MAX, i64::MIN + 5)));
}

#[test]
fn center_rounds_halves_toward_zero() {
    let r = Rect { pos: Point::new(10, 10), size: Size::new(5, -5) };
    assert_eq!(r.center(), Point::new(12, 8));
}
