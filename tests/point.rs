use biscuit_packing::point::Point;

#[test]
fn test_constructor() {
    let p = Point { x: 1.0, y: 2.0 };
    assert_eq!(p, Point::new(1.0, 2.0))
}

#[test]
fn constructor_keeps_coordinates_apart() {
    let p = Point::new(3_u32, 4_u32);
    assert_eq!(p.x, 3);
    assert_eq!(p.y, 4);
    assert_ne!(p, Point::new(4, 3));
}
