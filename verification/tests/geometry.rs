use widget_tree::geometry::{Point, Rect, Size, Vec2};

#[test]
fn rect_from_origin_size_has_corners() {
    let r = Rect::from_origin_size(Point::new(3, 4), Size::new(10, 20));
    assert_eq!(r, Rect::new(3, 4, 13, 24));
    assert_eq!(r.origin(), Point::new(3, 4));
    assert_eq!(r.size(), Size::new(10, 20));
}

#[test]
fn rect_contains_min_edges_only() {
    let r = Rect::new(0, 0, 10, 10);
    assert!(r.contains(Point::new(0, 0)));
    assert!(r.contains(Point::new(9, 9)));
    assert!(!r.contains(Point::new(10, 5)));
    assert!(!r.contains(Point::new(5, 10)));
    assert!(!r.contains(Point::new(-1, 5)));
}

#[test]
fn rect_translate_moves_both_corners() {
    let r = Rect::new(1, 2, 3, 4).translate(Vec2::new(10, -20));
    assert_eq!(r, Rect::new(11, -18, 13, -16));
}

#[test]
fn vec2_minus_is_componentwise() {
    let v = Point::new(20, 20).to_vec2().minus(Point::new(5, 7).to_vec2());
    assert_eq!(v.to_point(), Point::new(15, 13));
}
