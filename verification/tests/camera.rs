use ctrait::camera::Camera;
use ctrait::math::Vec2;

#[test]
fn camera_new() {
    let camera = Camera::new(Vec2::new(2, 3));
    assert_eq!(camera.position, Vec2::new(2, 3));
    assert_eq!(camera.canvas_size, Vec2::new(0, 0));
}

#[test]
fn camera_canvas_size() {
    let camera = Camera { canvas_size: Vec2::new(50, 50), ..Camera::default() };
    assert_eq!(camera.canvas_size(), camera.canvas_size);
}

#[test]
fn camera_get_world_position() {
    let camera = Camera { canvas_size: Vec2::new(50, 50), ..Camera::default() };
    let canvas_position = Vec2::new(35, 35);
    assert_eq!(camera.get_world_position(canvas_position), Vec2::new(10, 10));
}

#[test]
fn camera_get_canvas_position() {
    let camera = Camera { canvas_size: Vec2::new(50, 50), ..Camera::default() };
    let world_position = Vec2::new(10, 10);
    assert_eq!(camera.get_canvas_position(world_position), Vec2::new(35, 35));
}

#[test]
fn camera_transforms_round_trip() {
    let camera = Camera { position: Vec2::new(7, -3), canvas_size: Vec2::new(640, 480) };
    let world = Vec2::new(123, -456);
    let canvas = camera.get_canvas_position(world);
    assert_eq!(camera.get_world_position(canvas), world);
}

#[test]
fn camera_update_sets_canvas_size() {
    let mut camera = Camera::new(Vec2::new(1, 2));
    camera.update(800, 600);
    assert_eq!(camera.canvas_size, Vec2::new(800, 600));
    assert_eq!(camera.position, Vec2::new(1, 2));
}
