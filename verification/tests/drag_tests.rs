use tile_picker::bundle::PartBundle;
use tile_picker::camera::{CameraFrame, CoreError, Viewport};
use tile_picker::component::{Part, Tile, Transform};
use tile_picker::event::{ButtonEvent, PointerMove};
use tile_picker::resource::{Drag, Selected, ZIndexState};
use tile_picker::scene::Scene;
use tile_picker::system::{drag_start_end, drag_update};
use tile_picker::util::{Vec2I, Vec3I};

fn frame_20_20() -> CameraFrame {
    // One axis maps a pixel offset d to world 2 * d - 20 thousandths, so
    // pixel (10, 10) is world (0, 0).
    CameraFrame {
        translation: Vec2I { x: 0, y: 0 },
        left: -10,
        right: 10,
        top: 10,
        bottom: -10,
        scale_num: 1,
        scale_den: 1,
        orthographic: true,
        viewport: Some(Viewport { origin: Vec2I { x: 0, y: 0 }, size: Vec2I { x: 20, y: 20 } }),
    }
}

fn part_at(x: i64, y: i64, z: i64) -> PartBundle {
    PartBundle {
        part: Part { center_position: Vec2I { x: 0, y: 0 }, size: Vec2I { x: 250, y: 250 } },
        transform: Transform { translation: Vec3I { x, y, z } },
    }
}

fn press() -> Vec<ButtonEvent> {
    vec![ButtonEvent { pressed: true }]
}

fn release() -> Vec<ButtonEvent> {
    vec![ButtonEvent { pressed: false }]
}

#[test]
fn grab_promotes_depth_monotonically() {
    // Grabbing part 0, then part 1, then part 0 again records three
    // strictly increasing depths, each past the prior maximum.
    let mut scene = Scene {
        bundles: vec![part_at(0, 0, 1100), part_at(5000, 0, 1200)],
        tiles: vec![Tile { part: 0 }, Tile { part: 1 }],
    };
    let mut drag = Drag { start_pos: Vec2I { x: 0, y: 0 }, in_progress: false };
    let mut z_index_state = ZIndexState { z_index_state: 2000 };

    let selected = Some(Selected { part: 0, transform: scene.bundles[0].transform });
    drag_start_end(&mut drag, &press(), &mut z_index_state, &mut scene, &selected);
    let first = scene.bundles[0].transform.translation.z;
    drag_start_end(&mut drag, &release(), &mut z_index_state, &mut scene, &selected);

    let selected = Some(Selected { part: 1, transform: scene.bundles[1].transform });
    drag_start_end(&mut drag, &press(), &mut z_index_state, &mut scene, &selected);
    let second = scene.bundles[1].transform.translation.z;
    drag_start_end(&mut drag, &release(), &mut z_index_state, &mut scene, &selected);

    let selected = Some(Selected { part: 0, transform: scene.bundles[0].transform });
    drag_start_end(&mut drag, &press(), &mut z_index_state, &mut scene, &selected);
    let third = scene.bundles[0].transform.translation.z;

    assert_eq!(first, 2000);
    assert_eq!(second, 2001);
    assert_eq!(third, 2002);
    assert!(second > first && third > second);
}

#[test]
fn press_without_selection_changes_nothing() {
    let mut scene = Scene {
        bundles: vec![part_at(0, 0, 1100)],
        tiles: vec![Tile { part: 0 }],
    };
    let mut drag = Drag { start_pos: Vec2I { x: 0, y: 0 }, in_progress: false };
    let mut z_index_state = ZIndexState { z_index_state: 2000 };
    drag_start_end(&mut drag, &press(), &mut z_index_state, &mut scene, &None);
    assert!(!drag.in_progress);
    assert_eq!(z_index_state.z_index_state, 2000);
    assert_eq!(scene.bundles[0].transform.translation.z, 1100);
}

#[test]
fn release_ends_the_drag_and_mutates_nothing_else() {
    let mut scene = Scene {
        bundles: vec![part_at(0, 0, 1100)],
        tiles: vec![Tile { part: 0 }],
    };
    let mut drag = Drag { start_pos: Vec2I { x: 3, y: 4 }, in_progress: true };
    let mut z_index_state = ZIndexState { z_index_state: 2000 };
    let selected = Some(Selected { part: 0, transform: scene.bundles[0].transform });
    drag_start_end(&mut drag, &release(), &mut z_index_state, &mut scene, &selected);
    assert!(!drag.in_progress);
    assert_eq!(z_index_state.z_index_state, 2000);
    assert_eq!(scene.bundles[0].transform.translation.z, 1100);
    assert_eq!(drag.start_pos, Vec2I { x: 3, y: 4 });
}

#[test]
fn grab_of_a_vanished_part_still_starts_the_drag() {
    let mut scene = Scene { bundles: vec![part_at(0, 0, 1100)], tiles: vec![Tile { part: 0 }] };
    let mut drag = Drag { start_pos: Vec2I { x: 0, y: 0 }, in_progress: false };
    let mut z_index_state = ZIndexState { z_index_state: 2000 };
    let selected = Some(Selected { part: 9, transform: Transform { translation: Vec3I { x: 0, y: 0, z: 0 } } });
    drag_start_end(&mut drag, &press(), &mut z_index_state, &mut scene, &selected);
    assert!(drag.in_progress);
    assert_eq!(z_index_state.z_index_state, 2000);
    assert_eq!(scene.bundles[0].transform.translation.z, 1100);
}

#[test]
fn drag_offset_is_anchored_to_the_start() {
    // Anchor (10, 10) is world (0, 0); pixel (2510, 1510) is world (5, 3).
    // The dragged part lands at snapshot + (5, 3) exactly, whatever
    // pointer-move events came in between.
    let mut scene = Scene {
        bundles: vec![part_at(100, 200, 7)],
        tiles: vec![Tile { part: 0 }],
    };
    let frame = frame_20_20();
    let drag = Drag { start_pos: Vec2I { x: 10, y: 10 }, in_progress: true };
    let selected = Some(Selected { part: 0, transform: scene.bundles[0].transform });
    let events = vec![
        PointerMove { position: Vec2I { x: 600, y: 700 } },
        PointerMove { position: Vec2I { x: 2510, y: 1510 } },
    ];
    let r = drag_update(&drag, &events, &frame, &mut scene, &selected);
    assert_eq!(r, Ok(()));
    assert_eq!(
        scene.bundles[0].transform.translation,
        Vec3I { x: 100 + 5000, y: 200 + 3000, z: 7 }
    );
}

#[test]
fn no_movement_while_idle() {
    let mut scene = Scene {
        bundles: vec![part_at(100, 200, 7)],
        tiles: vec![Tile { part: 0 }],
    };
    let frame = frame_20_20();
    let drag = Drag { start_pos: Vec2I { x: 10, y: 10 }, in_progress: false };
    let selected = Some(Selected { part: 0, transform: scene.bundles[0].transform });
    let events = vec![PointerMove { position: Vec2I { x: 2510, y: 1510 } }];
    let r = drag_update(&drag, &events, &frame, &mut scene, &selected);
    assert_eq!(r, Ok(()));
    assert_eq!(scene.bundles[0].transform.translation, Vec3I { x: 100, y: 200, z: 7 });
}

#[test]
fn drag_without_selection_is_a_quiet_no_op() {
    let mut scene = Scene { bundles: vec![part_at(1, 2, 3)], tiles: vec![Tile { part: 0 }] };
    let frame = frame_20_20();
    let drag = Drag { start_pos: Vec2I { x: 10, y: 10 }, in_progress: true };
    let events = vec![PointerMove { position: Vec2I { x: 15, y: 15 } }];
    let r = drag_update(&drag, &events, &frame, &mut scene, &None);
    assert_eq!(r, Ok(()));
    assert_eq!(scene.bundles[0].transform.translation, Vec3I { x: 1, y: 2, z: 3 });
}

#[test]
fn drag_skips_under_a_perspective_projection() {
    let mut scene = Scene { bundles: vec![part_at(1, 2, 3)], tiles: vec![Tile { part: 0 }] };
    let mut frame = frame_20_20();
    frame.orthographic = false;
    let drag = Drag { start_pos: Vec2I { x: 10, y: 10 }, in_progress: true };
    let selected = Some(Selected { part: 0, transform: scene.bundles[0].transform });
    let events = vec![PointerMove { position: Vec2I { x: 15, y: 15 } }];
    let r = drag_update(&drag, &events, &frame, &mut scene, &selected);
    assert_eq!(r, Err(CoreError::ProjectionKindMismatch));
    assert_eq!(scene.bundles[0].transform.translation, Vec3I { x: 1, y: 2, z: 3 });
}

#[test]
fn drag_skips_without_a_viewport() {
    let mut scene = Scene { bundles: vec![part_at(1, 2, 3)], tiles: vec![Tile { part: 0 }] };
    let mut frame = frame_20_20();
    frame.viewport = None;
    let drag = Drag { start_pos: Vec2I { x: 10, y: 10 }, in_progress: true };
    let selected = Some(Selected { part: 0, transform: scene.bundles[0].transform });
    let events = vec![PointerMove { position: Vec2I { x: 15, y: 15 } }];
    let r = drag_update(&drag, &events, &frame, &mut scene, &selected);
    assert_eq!(r, Err(CoreError::ViewportUnavailable));
    assert_eq!(scene.bundles[0].transform.translation, Vec3I { x: 1, y: 2, z: 3 });
}

#[test]
fn drag_skips_a_vanished_selection_target() {
    let mut scene = Scene { bundles: vec![part_at(1, 2, 3)], tiles: vec![Tile { part: 0 }] };
    let frame = frame_20_20();
    let drag = Drag { start_pos: Vec2I { x: 10, y: 10 }, in_progress: true };
    let selected = Some(Selected { part: 5, transform: Transform { translation: Vec3I { x: 0, y: 0, z: 0 } } });
    let events = vec![PointerMove { position: Vec2I { x: 15, y: 15 } }];
    let r = drag_update(&drag, &events, &frame, &mut scene, &selected);
    assert_eq!(r, Err(CoreError::MissingSelectionTarget));
    assert_eq!(scene.bundles[0].transform.translation, Vec3I { x: 1, y: 2, z: 3 });
}

#[test]
fn depth_allocator_hands_out_increasing_values() {
    let mut z_index_state = ZIndexState { z_index_state: 2000 };
    let a = z_index_state.next();
    let b = z_index_state.next();
    let c = z_index_state.next();
    assert_eq!((a, b, c), (2000, 2001, 2002));
    assert_eq!(z_index_state.z_index_state, 2003);
}
