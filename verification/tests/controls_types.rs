use mir2_client::controls::types::{Color, Point, Rectangle, Size};

#[test]
fn test_point() {
    let p1 = Point::new(10, 20);
    let p2 = Point::new(5, 15);

    assert_eq!(p1 + p2, Point::new(15, 35));
    assert_eq!(p1 - p2, Point::new(5, 5));
}

#[test]
fn test_size() {
    let s = Size::new(100, 200);
    assert_eq!(s.width, 100);
    assert_eq!(s.height, 200);
    assert!(!s.is_empty());

    let empty = Size::zero();
    assert!(empty.is_empty());
}

#[test]
fn test_rectangle() {
    let rect = Rectangle::new(10, 20, 100, 50);

    assert_eq!(rect.left(), 10);
    assert_eq!(rect.top(), 20);
    assert_eq!(rect.right(), 110);
    assert_eq!(rect.bottom(), 70);

    assert!(rect.contains(Point::new(50, 40)));
    assert!(!rect.contains(Point::new(5, 5)));
    assert!(!rect.contains(Point::new(120, 40)));
}

#[test]
fn test_rectangle_intersection() {
    let r1 = Rectangle::new(0, 0, 100, 100);
    let r2 = Rectangle::new(50, 50, 100, 100);
    let r3 = Rectangle::new(200, 200, 50, 50);

    assert!(r1.intersects(r2));
    assert!(!r1.intersects(r3));
}

#[test]
fn test_color() {
    let white = Color::white();
    assert_eq!(white.r(), 255);
    assert_eq!(white.g(), 255);
    assert_eq!(white.b(), 255);
    assert_eq!(white.a(), 255);

    let transparent = Color::transparent();
    assert_eq!(transparent.a(), 0);

    let color = Color::from_argb(128, 255, 128, 64);
    let argb = color.to_argb();
    let color2 = Color::from_argb_u32(argb);
    assert_eq!(color, color2);
}

#[test]
fn test_color_common() {
    assert_eq!(Color::red(), Color::from_rgb(255, 0, 0));
    assert_eq!(Color::green(), Color::from_rgb(0, 255, 0));
    assert_eq!(Color::blue(), Color::from_rgb(0, 0, 255));
}

#[test]
fn argb_packs_channels_high_to_low() {
    let c = Color::from_argb(0x12, 0x34, 0x56, 0x78);
    assert_eq!(c.to_argb(), 0x1234_5678);
    let back = Color::from_argb_u32(0x8040_20ff);
    assert_eq!((back.a(), back.r(), back.g(), back.b()), (0x80, 0x40, 0x20, 0xff));
}

#[test]
fn touching_rectangles_do_not_intersect() {
    let a = Rectangle::new(0, 0, 10, 10);
    let b = Rectangle::new(10, 0, 10, 10);
    assert!(!a.intersects(b));
    assert!(!b.intersects(a));
}

#[test]
fn contained_rectangle_intersects() {
    let outer = Rectangle::new(0, 0, 100, 100);
    let inner = Rectangle::new(10, 10, 20, 20);
    assert!(outer.contains_rect(inner));
    assert!(outer.intersects(inner));
    assert!(inner.intersects(outer));
}
