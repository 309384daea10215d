use ctrait::camera::Camera;
use ctrait::math::Vec2;
use ctrait::rect::{CanvasRect, Color, Rect};

#[test]
fn rect_default() {
    let rect = Rect::default();
    assert_eq!(rect.position, Vec2::zeros());
    assert_eq!(rect.size, Vec2::zeros());
    assert_eq!(rect.color, None);
}

#[test]
fn rect_from_center() {
    let rect = Rect::from_center(0, 0, 10, 20);
    assert_eq!(rect, Rect::new(-5, -10, 10, 20));
}

#[test]
fn rect_with_color() {
    let rect = Rect::new(0, 0, 10, 10).with_color(&Color::rgb(255, 0, 0));
    assert_eq!(rect.color, Some(Color::rgb(255, 0, 0)));
}

#[test]
fn rect_center() {
    let rect = Rect::new(0, 0, 10, 20);
    assert_eq!(rect.center(), Vec2::new(5, 10));
}

#[test]
fn rect_center_on() {
    let mut rect = Rect::from_center(0, 0, 10, 10);
    rect.center_on(5, 5);
    assert_eq!(rect.center(), Vec2::repeat(5));
}

#[test]
fn rect_as_canvas_rect_some() {
    let camera = Camera { canvas_size: Vec2::repeat(50), ..Camera::default() };
    let rect = Rect::new(0, 0, 10, 10);
    let canvas_rect = rect.as_canvas_rect(&camera);
    assert_eq!(canvas_rect, Some(CanvasRect { x: 25, y: 25, width: 10, height: 10 }));
}

#[test]
fn rect_as_canvas_rect_none() {
    let camera = Camera { canvas_size: Vec2::repeat(50), ..Camera::default() };
    let rect = Rect::new(100, 100, 10, 10);
    let canvas_rect = rect.as_canvas_rect(&camera);
    assert!(canvas_rect.is_none());
}

#[test]
fn rect_is_empty() {
    let rect = Rect::new(0, 0, 0, 1);
    assert!(rect.is_empty());
}

#[test]
fn rect_is_not_empty() {
    let rect = Rect::new(0, 0, 1, 1);
    assert!(!rect.is_empty());
}

#[test]
fn rect_intersects() {
    let a = Rect::new(0, 0, 10, 10);
    let b = Rect::new(9, 9, 10, 3);
    assert!(a.intersects(&b));
    assert!(b.intersects(&a));
}

#[test]
fn rect_no_intersects() {
    let a = Rect::new(0, 0, 10, 10);
    let b = Rect::new(11, 11, 10, 10);
    assert!(!a.intersects(&b));
    assert!(!b.intersects(&a));
}

#[test]
fn rect_no_intersects_empty() {
    // a is empty.
    let a = Rect::new(0, 0, 10, 0);
    let b = Rect::new(9, 9, 10, 3);
    assert!(!a.intersects(&b));
    assert!(!b.intersects(&a));
}
