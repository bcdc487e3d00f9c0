use tile_picker::camera::{CameraFrame, CoreError, Viewport, viewport_to_world_coordinate, world_to_viewport};
use tile_picker::util::{Vec2I, Vec3I, add_z, discard_z};

fn frame_800_600() -> CameraFrame {
    CameraFrame {
        translation: Vec2I { x: 0, y: 0 },
        left: -400,
        right: 400,
        top: 600,
        bottom: -600,
        scale_num: 1,
        scale_den: 1,
        orthographic: true,
        viewport: Some(Viewport { origin: Vec2I { x: 0, y: 0 }, size: Vec2I { x: 800, y: 600 } }),
    }
}

#[test]
fn round_trip_stability() {
    let frame = frame_800_600();
    let p = Vec2I { x: 123, y: 456 };
    let first = viewport_to_world_coordinate(&frame, p).unwrap();
    let second = viewport_to_world_coordinate(&frame, p).unwrap();
    assert_eq!(first, second);
}

#[test]
fn viewport_center_maps_to_world_origin() {
    let frame = frame_800_600();
    let w = viewport_to_world_coordinate(&frame, Vec2I { x: 400, y: 300 }).unwrap();
    assert_eq!(w, Vec2I { x: 0, y: 0 });
}

#[test]
fn screen_to_world_exact_offsets() {
    let frame = frame_800_600();
    // x: world = 2 * dx - 800 thousandths; y: world = 4 * dy - 1200.
    let w = viewport_to_world_coordinate(&frame, Vec2I { x: 1400, y: 50 }).unwrap();
    assert_eq!(w, Vec2I { x: 2000, y: -1000 });
}

#[test]
fn screen_to_world_with_camera_translation() {
    let mut frame = frame_800_600();
    frame.translation = Vec2I { x: 700, y: -300 };
    let w = viewport_to_world_coordinate(&frame, Vec2I { x: 400, y: 300 }).unwrap();
    assert_eq!(w, Vec2I { x: 700, y: -300 });
}

#[test]
fn screen_to_world_fails_without_viewport() {
    let mut frame = frame_800_600();
    frame.viewport = None;
    let r = viewport_to_world_coordinate(&frame, Vec2I { x: 10, y: 10 });
    assert_eq!(r, Err(CoreError::ViewportUnavailable));
}

#[test]
fn world_to_viewport_projects_tile_corners() {
    let frame = frame_800_600();
    let lower_left = world_to_viewport(&frame, -1000, -1000).unwrap();
    let upper_right = world_to_viewport(&frame, 1000, 1000).unwrap();
    assert_eq!(lower_left, (-100, 50));
    assert_eq!(upper_right, (900, 550));
}

#[test]
fn world_to_viewport_fails_without_viewport() {
    let mut frame = frame_800_600();
    frame.viewport = None;
    let r = world_to_viewport(&frame, 0, 0);
    assert_eq!(r, Err(CoreError::ViewportUnavailable));
}

#[test]
fn discard_and_add_depth() {
    let v = Vec3I { x: 5, y: -7, z: 11 };
    let planar = discard_z(v);
    assert_eq!(planar, Vec2I { x: 5, y: -7 });
    assert_eq!(add_z(planar, 13), Vec3I { x: 5, y: -7, z: 13 });
}
