//! The whole interaction cycle against one scene: select, grab, drag,
//! release, each step through the core's single `tick` entry.

use tile_picker::bundle::PartBundle;
use tile_picker::camera::{CameraFrame, Viewport};
use tile_picker::component::{Part, Tile, Transform};
use tile_picker::event::{ButtonEvent, PointerMove};
use tile_picker::resource::{Drag, Selected, ZIndexState};
use tile_picker::scene::Scene;
use tile_picker::system::tick;
use tile_picker::util::{Vec2I, Vec3I};

#[test]
fn select_grab_drag_release() {
    // Camera at the world origin, orthographic scale 1, viewport 800x600.
    let frame = CameraFrame {
        translation: Vec2I { x: 0, y: 0 },
        left: -400,
        right: 400,
        top: 600,
        bottom: -600,
        scale_num: 1,
        scale_den: 1,
        orthographic: true,
        viewport: Some(Viewport { origin: Vec2I { x: 0, y: 0 }, size: Vec2I { x: 800, y: 600 } }),
    };
    // A single part at translation (0, 0, 2.0), its tile spanning world
    // (-1, -1) to (1, 1).
    let mut scene = Scene {
        bundles: vec![PartBundle {
            part: Part {
                center_position: Vec2I { x: 0, y: 0 },
                size: Vec2I { x: 250, y: 250 },
            },
            transform: Transform { translation: Vec3I { x: 0, y: 0, z: 2000 } },
        }],
        tiles: vec![Tile { part: 0 }],
    };
    let mut drag = Drag { start_pos: Vec2I { x: 0, y: 0 }, in_progress: false };
    // The allocator starts above the resting layer the part sits on.
    let mut z_index_state = ZIndexState { z_index_state: 2001 };
    let mut selected: Option<Selected> = None;

    // A pointer-move to the viewport center selects the part.
    let outcome = tick(
        &mut scene,
        &frame,
        &vec![PointerMove { position: Vec2I { x: 400, y: 300 } }],
        &vec![],
        &mut drag,
        &mut z_index_state,
        &mut selected,
    );
    let sel = selected.expect("the part under the pointer is selected");
    assert_eq!(sel.part, 0);
    assert_eq!(sel.transform.translation, Vec3I { x: 0, y: 0, z: 2000 });
    let outcome = outcome.expect("the picker acted");
    assert_eq!(outcome.highlighted, Some(0));
    assert_eq!(outcome.emitted.unwrap().part, 0);

    // A button press grabs it: depth becomes 2.001 and the drag starts.
    tick(
        &mut scene,
        &frame,
        &vec![],
        &vec![ButtonEvent { pressed: true }],
        &mut drag,
        &mut z_index_state,
        &mut selected,
    );
    assert!(drag.in_progress);
    assert_eq!(scene.bundles[0].transform.translation, Vec3I { x: 0, y: 0, z: 2001 });
    assert_eq!(z_index_state.z_index_state, 2002);
    assert_eq!(drag.start_pos, Vec2I { x: 400, y: 300 });

    // A pointer-move whose world offset from the anchor is (2, -1) moves
    // the part to (2, -1, 2.001).
    tick(
        &mut scene,
        &frame,
        &vec![PointerMove { position: Vec2I { x: 1400, y: 50 } }],
        &vec![],
        &mut drag,
        &mut z_index_state,
        &mut selected,
    );
    assert_eq!(scene.bundles[0].transform.translation, Vec3I { x: 2000, y: -1000, z: 2001 });
    // The selection stayed frozen on the drag.
    assert_eq!(selected.unwrap().part, 0);

    // A button release freezes the part where it is.
    tick(
        &mut scene,
        &frame,
        &vec![],
        &vec![ButtonEvent { pressed: false }],
        &mut drag,
        &mut z_index_state,
        &mut selected,
    );
    assert!(!drag.in_progress);
    assert_eq!(scene.bundles[0].transform.translation, Vec3I { x: 2000, y: -1000, z: 2001 });

    // A later idle pointer-move reselects but moves nothing.
    tick(
        &mut scene,
        &frame,
        &vec![PointerMove { position: Vec2I { x: 1400, y: 50 } }],
        &vec![],
        &mut drag,
        &mut z_index_state,
        &mut selected,
    );
    assert_eq!(scene.bundles[0].transform.translation, Vec3I { x: 2000, y: -1000, z: 2001 });
    assert_eq!(selected.unwrap().transform.translation.z, 2001);
}
