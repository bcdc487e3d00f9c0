//! The per-tick operations of the interaction core, in their fixed order:
//! the picker (`select_tile`), the drag start/end handler
//! (`drag_start_end`), and the drag update handler (`drag_update`), with
//! `tick` running the three in sequence.

use vstd::prelude::*;

use crate::camera::CameraFrame;
use crate::camera::CoreError;
use crate::camera::viewport_to_world_coordinate;
use crate::camera::world_to_viewport;
use crate::event::PointerMove;
use crate::event::SelectEvent;
use crate::picking::CANDIDATE_CAPACITY;
use crate::picking::candidate_contents;
use crate::picking::candidate_vec_new;
use crate::picking::candidate_vec_push;
use crate::picking::pick_top_candidate;
use crate::picking::top_candidate;
use crate::resource::Drag;
use crate::resource::Selected;
use crate::scene::Scene;
use crate::util::UNIT;
use crate::util::Vec2I;

verus! {

/// Draw depth of tile `i`: the depth of its owning part.
pub open spec fn tile_depth(scene: Scene, i: int) -> i64
    recommends
        0 <= i < scene.tiles@.len(),
        scene.wf(),
{
    scene.bundles@[scene.tiles@[i].part as int].transform.translation.z
}

/// Whether the pointer is inside tile `i`'s screen-space bounding box: the
/// box spanned by the viewport projections of the part's translation offset
/// by one tile unit down-left and up-right.
pub open spec fn tile_contains_pointer(scene: Scene, frame: CameraFrame, p: Vec2I, i: int) -> bool
    recommends
        0 <= i < scene.tiles@.len(),
        scene.wf(),
        frame.viewport is Some,
{
    let t = scene.bundles@[scene.tiles@[i].part as int].transform.translation;
    &&& p.x >= frame.viewport_x_of(t.x - UNIT)
    &&& p.y >= frame.viewport_y_of(t.y - UNIT)
    &&& p.x <= frame.viewport_x_of(t.x + UNIT)
    &&& p.y <= frame.viewport_y_of(t.y + UNIT)
}

/// The hit-test candidates among the first `n` tiles, in tile order: each
/// tile whose box contains the pointer, paired with its draw depth.
pub open spec fn hit_candidates(scene: Scene, frame: CameraFrame, p: Vec2I, n: int) -> Seq<
    (usize, i64),
>
    decreases n,
{
    if n <= 0 {
        Seq::empty()
    } else {
        let prefix = hit_candidates(scene, frame, p, n - 1);
        if tile_contains_pointer(scene, frame, p, n - 1) {
            prefix.push((((n - 1) as usize), tile_depth(scene, n - 1)))
        } else {
            prefix
        }
    }
}

/// There are no more candidates than tiles examined.
pub proof fn lemma_hit_candidates_len(scene: Scene, frame: CameraFrame, p: Vec2I, n: int)
    requires
        n >= 0,
    ensures
        hit_candidates(scene, frame, p, n).len() <= n,
    decreases n,
{
    if n > 0 {
        lemma_hit_candidates_len(scene, frame, p, n - 1);
    }
}

/// The topmost tile under the pointer, with its depth: the deepest-drawn
/// candidate, later tiles winning depth ties. `None` when no tile's box
/// contains the pointer.
pub fn topmost_tile_under(scene: &Scene, frame: &CameraFrame, p: Vec2I) -> (r: Option<
    (usize, i64),
>)
    requires
        scene.wf(),
        frame.wf(),
        frame.viewport is Some,
        scene.tiles@.len() <= CANDIDATE_CAPACITY,
    ensures
        r == top_candidate(hit_candidates(*scene, *frame, p, scene.tiles@.len() as int)),
{
    let mut found = candidate_vec_new();
    let n = scene.tiles.len();
    let mut i: usize = 0;
    while i < n
        invariant
            0 <= i <= n,
            n == scene.tiles@.len(),
            n <= CANDIDATE_CAPACITY,
            scene.wf(),
            frame.wf(),
            frame.viewport is Some,
            candidate_contents(found) == hit_candidates(*scene, *frame, p, i as int),
        decreases n - i,
    {
        proof {
            lemma_hit_candidates_len(*scene, *frame, p, i as int);
        }
        let tile = scene.tiles[i];
        let t = scene.bundles[tile.part].transform.translation;
        let lower_left = match world_to_viewport(frame, t.x as i128 - UNIT as i128, t.y as i128
            - UNIT as i128) {
            Ok(c) => c,
            Err(_) => {
                proof {
                    assert(false);
                }
                (0, 0)
            },
        };
        let upper_right = match world_to_viewport(frame, t.x as i128 + UNIT as i128, t.y as i128
            + UNIT as i128) {
            Ok(c) => c,
            Err(_) => {
                proof {
                    assert(false);
                }
                (0, 0)
            },
        };
        if p.x as i128 >= lower_left.0 && p.y as i128 >= lower_left.1 && p.x as i128
            <= upper_right.0 && p.y as i128 <= upper_right.1 {
            let _ = candidate_vec_push(&mut found, (i, t.z));
        }
        i = i + 1;
    }
    pick_top_candidate(&found)
}

/// What the picker reports of a tick it acted in: the selection
/// notification, if the final pointer event selected, and the tile to paint
/// highlighted, if any.
#[derive(Clone, Copy, PartialEq, Eq, Structural, Debug)]
pub struct SelectOutcome {
    /// The notification for the selected part, carrying its placement
    /// snapshot.
    pub emitted: Option<SelectEvent>,
    /// The tile to paint highlighted; every other tile gets the default
    /// look.
    pub highlighted: Option<usize>,
}

/// The selection a pointer position leads to: the topmost tile's owning
/// part with a snapshot of its current placement, or nothing when no tile
/// is under the pointer.
pub open spec fn selection_at(scene: Scene, frame: CameraFrame, p: Vec2I) -> Option<Selected>
    recommends
        scene.wf(),
        frame.viewport is Some,
{
    match top_candidate(hit_candidates(scene, frame, p, scene.tiles@.len() as int)) {
        Some(c) => {
            let part = scene.tiles@[c.0 as int].part;
            Some(Selected { part, transform: scene.bundles@[part as int].transform })
        },
        None => None,
    }
}

/// The picker. Folds the tick's pointer-move events in arrival order: each
/// records its position as the drag anchor and recomputes the selection, so
/// only the final event's outcome persists. Frozen while a drag is in
/// progress, to avoid selection flicker. With no viewport the whole update
/// is skipped without any mutation.
pub fn select_tile(
    scene: &Scene,
    frame: &CameraFrame,
    events: &Vec<PointerMove>,
    drag: &mut Drag,
    selected: &mut Option<Selected>,
) -> (r: Result<Option<SelectOutcome>, CoreError>)
    requires
        scene.wf(),
        frame.wf(),
        scene.tiles@.len() <= CANDIDATE_CAPACITY,
    ensures
        final(drag).in_progress == old(drag).in_progress,
        old(drag).in_progress || events@.len() == 0 ==> (r == Ok::<
            Option<SelectOutcome>,
            CoreError,
        >(None) && *final(drag) == *old(drag) && *final(selected) == *old(selected)),
        !old(drag).in_progress && events@.len() > 0 && frame.viewport is None ==> (r == Err::<
            Option<SelectOutcome>,
            CoreError,
        >(CoreError::ViewportUnavailable) && *final(drag) == *old(drag) && *final(selected)
            == *old(selected)),
        !old(drag).in_progress && events@.len() > 0 && frame.viewport is Some ==> ({
            let p = events@.last().position;
            &&& final(drag).start_pos == p
            &&& *final(selected) == selection_at(*scene, *frame, p)
            &&& (r matches Ok(out) && out matches Some(out) && out.emitted == (match selection_at(
                *scene,
                *frame,
                p,
            ) {
                Some(sel) => Some(SelectEvent { part: sel.part, transform: sel.transform }),
                None => None::<SelectEvent>,
            }) && out.highlighted == (match top_candidate(
                hit_candidates(*scene, *frame, p, scene.tiles@.len() as int),
            ) {
                Some(c) => Some(c.0),
                None => None::<usize>,
            }))
        }),
{
    if drag.in_progress {
        return Ok(None);
    }
    if events.len() == 0 {
        return Ok(None);
    }
    if matches!(frame.viewport, None) {
        return Err(CoreError::ViewportUnavailable);
    }
    let mut outcome = SelectOutcome { emitted: None, highlighted: None };
    let n = events.len();
    let mut k: usize = 0;
    while k < n
        invariant
            0 < n == events@.len(),
            0 <= k <= n,
            scene.wf(),
            frame.wf(),
            frame.viewport is Some,
            scene.tiles@.len() <= CANDIDATE_CAPACITY,
            drag.in_progress == old(drag).in_progress,
            !drag.in_progress,
            k == 0 ==> *drag == *old(drag) && *selected == *old(selected),
            k > 0 ==> ({
                let p = events@[k - 1].position;
                &&& drag.start_pos == p
                &&& *selected == selection_at(*scene, *frame, p)
                &&& outcome.emitted == match selection_at(*scene, *frame, p) {
                    Some(sel) => Some(SelectEvent { part: sel.part, transform: sel.transform }),
                    None => None::<SelectEvent>,
                }
                &&& outcome.highlighted == match top_candidate(
                    hit_candidates(*scene, *frame, p, scene.tiles@.len() as int),
                ) {
                    Some(c) => Some(c.0),
                    None => None::<usize>,
                }
            }),
        decreases n - k,
    {
        let p = events[k].position;
        drag.start_pos = p;
        match topmost_tile_under(scene, frame, p) {
            Some(c) => {
                proof {
                    let hits = hit_candidates(*scene, *frame, p, scene.tiles@.len() as int);
                    crate::picking::lemma_top_candidate_topmost(hits);
                    lemma_hit_candidate_tile_in_range(*scene, *frame, p, scene.tiles@.len() as int);
                    let j = choose|j: int| 0 <= j < hits.len() && hits[j] == c;
                    assert(hits[j].0 < scene.tiles@.len());
                }
                let part = scene.tiles[c.0].part;
                let snapshot = scene.bundles[part].transform;
                *selected = Some(Selected { part, transform: snapshot });
                outcome = SelectOutcome {
                    emitted: Some(SelectEvent { part, transform: snapshot }),
                    highlighted: Some(c.0),
                };
            },
            None => {
                *selected = None;
                outcome = SelectOutcome { emitted: None, highlighted: None };
            },
        }
        k = k + 1;
    }
    Ok(Some(outcome))
}

/// One button edge applied to the drag state, the depth allocator and the
/// parts. A press while something is selected starts a drag and lifts the
/// selected part to a fresh depth — the allocator's current value — with
/// the allocator stepping past it; a press that names a vanished part still
/// starts the drag and skips the lift. A release ends the drag and mutates
/// nothing else.
pub open spec fn grab_step(
    in_progress: bool,
    z_counter: i64,
    bundles: Seq<crate::bundle::PartBundle>,
    selected: Option<Selected>,
    e: crate::event::ButtonEvent,
) -> (bool, i64, Seq<crate::bundle::PartBundle>) {
    if e.pressed {
        match selected {
            Some(sel) => {
                if sel.part < bundles.len() {
                    let b = bundles[sel.part as int];
                    let lifted = crate::bundle::PartBundle {
                        part: b.part,
                        transform: crate::component::Transform {
                            translation: crate::util::Vec3I {
                                x: b.transform.translation.x,
                                y: b.transform.translation.y,
                                z: z_counter,
                            },
                        },
                    };
                    (true, (z_counter + crate::resource::Z_STEP) as i64, bundles.update(
                        sel.part as int,
                        lifted,
                    ))
                } else {
                    (true, z_counter, bundles)
                }
            },
            None => (in_progress, z_counter, bundles),
        }
    } else {
        (false, z_counter, bundles)
    }
}

/// The tick's button events folded in arrival order.
pub open spec fn grab_fold(
    in_progress: bool,
    z_counter: i64,
    bundles: Seq<crate::bundle::PartBundle>,
    selected: Option<Selected>,
    events: Seq<crate::event::ButtonEvent>,
) -> (bool, i64, Seq<crate::bundle::PartBundle>)
    decreases events.len(),
{
    if events.len() == 0 {
        (in_progress, z_counter, bundles)
    } else {
        let s = grab_fold(in_progress, z_counter, bundles, selected, events.drop_last());
        grab_step(s.0, s.1, s.2, selected, events.last())
    }
}

/// The drag start/end handler. Folds the tick's button edge events in
/// arrival order: a press grabs the selected part — drag becomes active and
/// the part is lifted to a freshly allocated depth — and a release ends the
/// drag. The anchor recorded by the picker is left as it is, so it stays
/// fixed at the position where the button was pressed.
pub fn drag_start_end(
    drag: &mut Drag,
    buttons: &Vec<crate::event::ButtonEvent>,
    z_index_state: &mut crate::resource::ZIndexState,
    scene: &mut Scene,
    selected: &Option<Selected>,
)
    requires
        old(z_index_state).z_index_state + buttons@.len() * crate::resource::Z_STEP <= i64::MAX,
    ensures
        ({
            let s = grab_fold(
                old(drag).in_progress,
                old(z_index_state).z_index_state,
                old(scene).bundles@,
                *selected,
                buttons@,
            );
            &&& final(drag).in_progress == s.0
            &&& final(z_index_state).z_index_state == s.1
            &&& final(scene).bundles@ == s.2
        }),
        final(drag).start_pos == old(drag).start_pos,
        final(scene).tiles@ == old(scene).tiles@,
{
    let n = buttons.len();
    let mut k: usize = 0;
    while k < n
        invariant
            0 <= k <= n,
            n == buttons@.len(),
            ({
                let s = grab_fold(
                    old(drag).in_progress,
                    old(z_index_state).z_index_state,
                    old(scene).bundles@,
                    *selected,
                    buttons@.take(k as int),
                );
                &&& drag.in_progress == s.0
                &&& z_index_state.z_index_state == s.1
                &&& scene.bundles@ == s.2
            }),
            z_index_state.z_index_state + (n - k) * crate::resource::Z_STEP <= i64::MAX,
            drag.start_pos == old(drag).start_pos,
            scene.tiles@ == old(scene).tiles@,
        decreases n - k,
    {
        let e = buttons[k];
        if e.pressed {
            match selected {
                Some(sel) => {
                    drag.in_progress = true;
                    if sel.part < scene.bundles.len() {
                        let depth = z_index_state.next();
                        scene.bundles[sel.part].transform.translation.z = depth;
                    }
                },
                None => {},
            }
        } else {
            drag.in_progress = false;
        }
        proof {
            assert(buttons@.take(k + 1).drop_last() =~= buttons@.take(k as int));
            assert(buttons@.take(k + 1).last() == buttons@[k as int]);
        }
        k = k + 1;
    }
    proof {
        assert(buttons@.take(n as int) =~= buttons@);
    }
}

/// A grab lifts exactly to the allocator's value and steps the allocator:
/// applied to a press with a live selected part, the step writes the old
/// counter into that part's depth and leaves the counter strictly larger.
pub proof fn lemma_grab_assigns_counter(
    in_progress: bool,
    z_counter: i64,
    bundles: Seq<crate::bundle::PartBundle>,
    sel: Selected,
    e: crate::event::ButtonEvent,
)
    requires
        e.pressed,
        sel.part < bundles.len(),
        z_counter + crate::resource::Z_STEP <= i64::MAX,
    ensures
        ({
            let s = grab_step(in_progress, z_counter, bundles, Some(sel), e);
            &&& s.2[sel.part as int].transform.translation.z == z_counter
            &&& s.1 > z_counter
            &&& forall|i: int|
                0 <= i < bundles.len() && i != sel.part ==> s.2[i] == bundles[i]
        }),
{
}

/// The allocator never moves backwards under any sequence of button
/// events: folding a tick's queue leaves the counter at or above where it
/// started. With `lemma_grab_assigns_counter` this is why depths recorded
/// by successive grabs strictly increase: each grab writes the counter's
/// value and pushes the counter strictly past it, and nothing ever lowers
/// the counter again.
pub proof fn lemma_grab_fold_counter_monotonic(
    in_progress: bool,
    z_counter: i64,
    bundles: Seq<crate::bundle::PartBundle>,
    selected: Option<Selected>,
    events: Seq<crate::event::ButtonEvent>,
)
    requires
        z_counter + events.len() * crate::resource::Z_STEP <= i64::MAX,
    ensures
        z_counter <= grab_fold(in_progress, z_counter, bundles, selected, events).1,
        grab_fold(in_progress, z_counter, bundles, selected, events).1 <= z_counter + events.len()
            * crate::resource::Z_STEP,
    decreases events.len(),
{
    if events.len() > 0 {
        lemma_grab_fold_counter_monotonic(
            in_progress,
            z_counter,
            bundles,
            selected,
            events.drop_last(),
        );
    }
}

/// With no press in the queue nothing is grabbed: the parts and the
/// allocator are untouched, and the drag is inactive if any release
/// arrived, else as it was.
pub proof fn lemma_no_press_no_movement(
    in_progress: bool,
    z_counter: i64,
    bundles: Seq<crate::bundle::PartBundle>,
    selected: Option<Selected>,
    events: Seq<crate::event::ButtonEvent>,
)
    requires
        forall|i: int| 0 <= i < events.len() ==> !(#[trigger] events[i]).pressed,
    ensures
        ({
            let s = grab_fold(in_progress, z_counter, bundles, selected, events);
            &&& s.1 == z_counter
            &&& s.2 == bundles
            &&& s.0 == (if events.len() > 0 {
                false
            } else {
                in_progress
            })
        }),
    decreases events.len(),
{
    if events.len() > 0 {
        lemma_no_press_no_movement(in_progress, z_counter, bundles, selected, events.drop_last());
        assert(events.last() == events[events.len() - 1]);
    }
}

/// The placement one pointer-move event drags the selected part to: the
/// selection snapshot's planar position plus the world-space offset between
/// the event's position and the drag anchor, both mapped through the
/// camera; the depth stays as it is. A result that would leave the
/// fixed-point range is dropped and the placement stays.
pub open spec fn dragged_translation(
    sel: Selected,
    frame: CameraFrame,
    anchor: Vec2I,
    p: Vec2I,
    current: crate::util::Vec3I,
) -> crate::util::Vec3I
    recommends
        frame.viewport is Some,
{
    let offx = frame.world_x_of(p) - frame.world_x_of(anchor);
    let offy = frame.world_y_of(p) - frame.world_y_of(anchor);
    let nx = sel.transform.translation.x + offx;
    let ny = sel.transform.translation.y + offy;
    if i64::MIN <= nx <= i64::MAX && i64::MIN <= ny <= i64::MAX {
        crate::util::Vec3I { x: nx as i64, y: ny as i64, z: current.z }
    } else {
        current
    }
}

/// The tick's pointer-move events folded in arrival order over the
/// selected part's placement. Each event recomputes from the fixed anchor
/// and the selection snapshot — never from the previous event — so there
/// is no drift and only the final event's result persists.
pub open spec fn drag_fold(
    sel: Selected,
    frame: CameraFrame,
    anchor: Vec2I,
    t0: crate::util::Vec3I,
    events: Seq<PointerMove>,
) -> crate::util::Vec3I
    decreases events.len(),
{
    if events.len() == 0 {
        t0
    } else {
        dragged_translation(
            sel,
            frame,
            anchor,
            events.last().position,
            drag_fold(sel, frame, anchor, t0, events.drop_last()),
        )
    }
}

/// Dragging never changes the depth: the fold keeps the depth it started
/// with, the one assigned at grab time.
pub proof fn lemma_drag_fold_keeps_depth(
    sel: Selected,
    frame: CameraFrame,
    anchor: Vec2I,
    t0: crate::util::Vec3I,
    events: Seq<PointerMove>,
)
    ensures
        drag_fold(sel, frame, anchor, t0, events).z == t0.z,
    decreases events.len(),
{
    if events.len() > 0 {
        lemma_drag_fold_keeps_depth(sel, frame, anchor, t0, events.drop_last());
    }
}

/// Grabs promote depth monotonically: of two grabs in sequence — whatever
/// button events and selections lie between them — the later grab records
/// the strictly greater depth on its part. The first grab writes the
/// allocator's value and steps it past that value, and no event ever moves
/// the allocator backwards, so the second grab's value exceeds the first.
pub proof fn lemma_successive_grabs_monotonic(
    in_progress: bool,
    z_counter: i64,
    bundles: Seq<crate::bundle::PartBundle>,
    sel1: Selected,
    e1: crate::event::ButtonEvent,
    between: Seq<crate::event::ButtonEvent>,
    selected_between: Option<Selected>,
    sel2: Selected,
    e2: crate::event::ButtonEvent,
)
    requires
        e1.pressed,
        e2.pressed,
        sel1.part < bundles.len(),
        z_counter + crate::resource::Z_STEP + between.len() * crate::resource::Z_STEP
            + crate::resource::Z_STEP <= i64::MAX,
        ({
            let first = grab_step(in_progress, z_counter, bundles, Some(sel1), e1);
            let mid = grab_fold(first.0, first.1, first.2, selected_between, between);
            sel2.part < mid.2.len()
        }),
    ensures
        ({
            let first = grab_step(in_progress, z_counter, bundles, Some(sel1), e1);
            let mid = grab_fold(first.0, first.1, first.2, selected_between, between);
            let second = grab_step(mid.0, mid.1, mid.2, Some(sel2), e2);
            second.2[sel2.part as int].transform.translation.z > first.2[
                sel1.part as int
            ].transform.translation.z
        }),
{
    let first = grab_step(in_progress, z_counter, bundles, Some(sel1), e1);
    lemma_grab_fold_counter_monotonic(first.0, first.1, first.2, selected_between, between);
    let mid = grab_fold(first.0, first.1, first.2, selected_between, between);
    lemma_grab_assigns_counter(mid.0, mid.1, mid.2, sel2, e2);
    lemma_grab_assigns_counter(in_progress, z_counter, bundles, sel1, e1);
}

/// The drag offset is anchored, not accumulated: whatever pointer-move
/// events came earlier in the tick, the part ends at the selection
/// snapshot plus the final event's world offset from the anchor, at the
/// depth it started the tick with.
pub proof fn lemma_drag_anchored_offset(
    sel: Selected,
    frame: CameraFrame,
    anchor: Vec2I,
    t0: crate::util::Vec3I,
    events: Seq<PointerMove>,
)
    requires
        events.len() > 0,
        frame.viewport is Some,
        i64::MIN <= sel.transform.translation.x + frame.world_x_of(events.last().position)
            - frame.world_x_of(anchor) <= i64::MAX,
        i64::MIN <= sel.transform.translation.y + frame.world_y_of(events.last().position)
            - frame.world_y_of(anchor) <= i64::MAX,
    ensures
        drag_fold(sel, frame, anchor, t0, events) == (crate::util::Vec3I {
            x: (sel.transform.translation.x + frame.world_x_of(events.last().position)
                - frame.world_x_of(anchor)) as i64,
            y: (sel.transform.translation.y + frame.world_y_of(events.last().position)
                - frame.world_y_of(anchor)) as i64,
            z: t0.z,
        }),
{
    lemma_drag_fold_keeps_depth(sel, frame, anchor, t0, events.drop_last());
}

/// The drag update handler. While a drag is in progress, folds the tick's
/// pointer-move events in arrival order: each maps the pointer and the
/// fixed anchor to world coordinates and re-places the selected part at
/// the selection snapshot plus their difference, keeping the grab-time
/// depth. A non-orthographic projection, a missing viewport or a vanished
/// part skips the tick without mutation; idle ticks and a missing
/// selection are quiet no-ops.
pub fn drag_update(
    drag: &Drag,
    events: &Vec<PointerMove>,
    frame: &CameraFrame,
    scene: &mut Scene,
    selected: &Option<Selected>,
) -> (r: Result<(), CoreError>)
    requires
        frame.wf(),
        frame.admits_pointer(drag.start_pos),
        forall|k: int|
            0 <= k < events@.len() ==> frame.admits_pointer((#[trigger] events@[k]).position),
    ensures
        final(scene).tiles@ == old(scene).tiles@,
        !drag.in_progress ==> (r == Ok::<(), CoreError>(()) && final(scene).bundles@ == old(scene).bundles@),
        drag.in_progress && selected is None ==> (r == Ok::<(), CoreError>(()) && final(scene).bundles@ == old(scene).bundles@),
        drag.in_progress && selected is Some && !frame.orthographic ==> (r == Err::<
            (),
            CoreError,
        >(CoreError::ProjectionKindMismatch) && final(scene).bundles@ == old(scene).bundles@),
        drag.in_progress && selected is Some && frame.orthographic && frame.viewport is None ==> (
        r == Err::<(), CoreError>(CoreError::ViewportUnavailable) && final(scene).bundles@ == old(scene).bundles@),
        drag.in_progress && selected is Some && frame.orthographic && frame.viewport is Some
            && selected->Some_0.part >= old(scene).bundles@.len() ==> (r == Err::<
            (),
            CoreError,
        >(CoreError::MissingSelectionTarget) && final(scene).bundles@ == old(scene).bundles@),
        drag.in_progress && selected is Some && frame.orthographic && frame.viewport is Some
            && selected->Some_0.part < old(scene).bundles@.len() ==> (r == Ok::<
            (),
            CoreError,
        >(()) && final(scene).bundles@ == old(scene).bundles@.update(
            selected->Some_0.part as int,
            (crate::bundle::PartBundle {
                part: old(scene).bundles@[selected->Some_0.part as int].part,
                transform: crate::component::Transform {
                    translation: drag_fold(
                        selected->Some_0,
                        *frame,
                        drag.start_pos,
                        old(scene).bundles@[selected->Some_0.part as int].transform.translation,
                        events@,
                    ),
                },
            }),
        )),
{
    if !drag.in_progress {
        return Ok(());
    }
    let sel = match selected {
        Some(s) => *s,
        None => {
            return Ok(());
        },
    };
    if !frame.orthographic {
        return Err(CoreError::ProjectionKindMismatch);
    }
    if matches!(frame.viewport, None) {
        return Err(CoreError::ViewportUnavailable);
    }
    if sel.part >= scene.bundles.len() {
        return Err(CoreError::MissingSelectionTarget);
    }
    let anchor = drag.start_pos;
    let ghost t0 = scene.bundles@[sel.part as int].transform.translation;
    let ghost b0 = scene.bundles@[sel.part as int];
    proof {
        let rebuilt = crate::bundle::PartBundle {
            part: b0.part,
            transform: crate::component::Transform { translation: t0 },
        };
        assert(rebuilt == b0);
        assert(scene.bundles@.update(sel.part as int, rebuilt) =~= scene.bundles@);
    }
    let n = events.len();
    let mut k: usize = 0;
    while k < n
        invariant
            0 <= k <= n,
            n == events@.len(),
            frame.wf(),
            frame.orthographic,
            frame.viewport is Some,
            frame.admits_pointer(anchor),
            forall|j: int|
                0 <= j < events@.len() ==> frame.admits_pointer((#[trigger] events@[j]).position),
            sel.part < old(scene).bundles@.len(),
            b0 == old(scene).bundles@[sel.part as int],
            t0 == b0.transform.translation,
            scene.bundles@ == old(scene).bundles@.update(
                sel.part as int,
                (crate::bundle::PartBundle {
                    part: b0.part,
                    transform: crate::component::Transform {
                        translation: drag_fold(sel, *frame, anchor, t0, events@.take(k as int)),
                    },
                }),
            ),
            scene.tiles@ == old(scene).tiles@,
        decreases n - k,
    {
        let cursor_world = match viewport_to_world_coordinate(frame, events[k].position) {
            Ok(w) => w,
            Err(_) => {
                proof {
                    assert(false);
                }
                Vec2I { x: 0, y: 0 }
            },
        };
        let anchor_world = match viewport_to_world_coordinate(frame, anchor) {
            Ok(w) => w,
            Err(_) => {
                proof {
                    assert(false);
                }
                Vec2I { x: 0, y: 0 }
            },
        };
        let snapshot_planar = crate::util::discard_z(sel.transform.translation);
        let offset_x: i128 = cursor_world.x as i128 - anchor_world.x as i128;
        let offset_y: i128 = cursor_world.y as i128 - anchor_world.y as i128;
        let new_x: i128 = snapshot_planar.x as i128 + offset_x;
        let new_y: i128 = snapshot_planar.y as i128 + offset_y;
        if i64::MIN as i128 <= new_x && new_x <= i64::MAX as i128 && i64::MIN as i128 <= new_y
            && new_y <= i64::MAX as i128 {
            let depth = scene.bundles[sel.part].transform.translation.z;
            let planar = Vec2I { x: new_x as i64, y: new_y as i64 };
            scene.bundles[sel.part].transform.translation = crate::util::add_z(planar, depth);
        }
        proof {
            assert(events@.take(k + 1).drop_last() =~= events@.take(k as int));
            assert(events@.take(k + 1).last() == events@[k as int]);
            assert(scene.bundles@ =~= old(scene).bundles@.update(
                sel.part as int,
                (crate::bundle::PartBundle {
                    part: b0.part,
                    transform: crate::component::Transform {
                        translation: drag_fold(sel, *frame, anchor, t0, events@.take(k + 1)),
                    },
                }),
            ));
        }
        k = k + 1;
    }
    proof {
        assert(events@.take(n as int) =~= events@);
    }
    Ok(())
}

/// What the hit-test collects, exactly: a candidate for tile `i` stands in
/// the collection if and only if tile `i`'s box contains the pointer, and
/// it carries that tile's depth.
pub proof fn lemma_hit_candidates_elems(scene: Scene, frame: CameraFrame, p: Vec2I, n: int)
    requires
        0 <= n <= usize::MAX,
    ensures
        forall|j: int|
            0 <= j < hit_candidates(scene, frame, p, n).len() ==> {
                let c = #[trigger] hit_candidates(scene, frame, p, n)[j];
                &&& c.0 < n
                &&& tile_contains_pointer(scene, frame, p, c.0 as int)
                &&& c.1 == tile_depth(scene, c.0 as int)
            },
        forall|i: int|
            0 <= i < n && #[trigger] tile_contains_pointer(scene, frame, p, i)
                ==> hit_candidates(scene, frame, p, n).contains(
                (i as usize, tile_depth(scene, i)),
            ),
    decreases n,
{
    if n > 0 {
        lemma_hit_candidates_elems(scene, frame, p, n - 1);
        let prefix = hit_candidates(scene, frame, p, n - 1);
        let whole = hit_candidates(scene, frame, p, n);
        assert forall|j: int| 0 <= j < whole.len() implies {
            let c = #[trigger] whole[j];
            &&& c.0 < n
            &&& tile_contains_pointer(scene, frame, p, c.0 as int)
            &&& c.1 == tile_depth(scene, c.0 as int)
        } by {
            if j < prefix.len() {
                assert(whole[j] == prefix[j]);
            }
        }
        assert forall|i: int|
            0 <= i < n && #[trigger] tile_contains_pointer(scene, frame, p, i) implies whole
            .contains((i as usize, tile_depth(scene, i))) by {
            if i < n - 1 {
                let c = (i as usize, tile_depth(scene, i));
                let j = choose|j: int| 0 <= j < prefix.len() && prefix[j] == c;
                assert(whole[j] == c);
            } else {
                assert(whole.last() == (i as usize, tile_depth(scene, i)));
            }
        }
    }
}

/// The topmost tie-break, at the level of the selection: a selection is
/// made exactly when some tile's box contains the pointer, and the
/// selected part's depth is at least that of every tile under the pointer.
pub proof fn lemma_selection_topmost(scene: Scene, frame: CameraFrame, p: Vec2I)
    requires
        scene.wf(),
        frame.viewport is Some,
        scene.tiles@.len() <= usize::MAX,
    ensures
        selection_at(scene, frame, p) is None <==> (forall|i: int|
            0 <= i < scene.tiles@.len() ==> !(#[trigger] tile_contains_pointer(
                scene,
                frame,
                p,
                i,
            ))),
        selection_at(scene, frame, p) matches Some(sel) ==> forall|i: int|
            0 <= i < scene.tiles@.len() && #[trigger] tile_contains_pointer(scene, frame, p, i)
                ==> tile_depth(scene, i) <= sel.transform.translation.z,
{
    let n = scene.tiles@.len() as int;
    let hits = hit_candidates(scene, frame, p, n);
    crate::picking::lemma_top_candidate_topmost(hits);
    lemma_hit_candidates_elems(scene, frame, p, n);
    if hits.len() > 0 {
        let best = top_candidate(hits)->Some_0;
        let j = choose|j: int| 0 <= j < hits.len() && hits[j] == best;
        assert(hits[j].1 == tile_depth(scene, best.0 as int));
        assert forall|i: int|
            0 <= i < n && #[trigger] tile_contains_pointer(scene, frame, p, i) implies tile_depth(
            scene,
            i,
        ) <= selection_at(scene, frame, p)->Some_0.transform.translation.z by {
            let c = (i as usize, tile_depth(scene, i));
            let ji = choose|ji: int| 0 <= ji < hits.len() && hits[ji] == c;
            assert(hits[ji].1 <= best.1);
        }
    }
}

/// Folding button events keeps the number of parts: a grab re-places a
/// part, it never adds or removes one.
pub proof fn lemma_grab_fold_preserves_len(
    in_progress: bool,
    z_counter: i64,
    bundles: Seq<crate::bundle::PartBundle>,
    selected: Option<Selected>,
    events: Seq<crate::event::ButtonEvent>,
)
    ensures
        grab_fold(in_progress, z_counter, bundles, selected, events).2.len() == bundles.len(),
    decreases events.len(),
{
    if events.len() > 0 {
        lemma_grab_fold_preserves_len(in_progress, z_counter, bundles, selected, events.drop_last());
    }
}

/// One input-processing cycle, in the fixed order: the picker first, then
/// the drag start/end handler, then the drag update handler, each seeing
/// the effects of the ones before it. Returns what the picker reported, or
/// nothing where it skipped or took no action.
pub fn tick(
    scene: &mut Scene,
    frame: &CameraFrame,
    pointer_events: &Vec<PointerMove>,
    button_events: &Vec<crate::event::ButtonEvent>,
    drag: &mut Drag,
    z_index_state: &mut crate::resource::ZIndexState,
    selected: &mut Option<Selected>,
) -> (r: Option<SelectOutcome>)
    requires
        old(scene).wf(),
        frame.wf(),
        old(scene).tiles@.len() <= CANDIDATE_CAPACITY,
        old(z_index_state).z_index_state + button_events@.len() * crate::resource::Z_STEP
            <= i64::MAX,
        frame.admits_pointer(old(drag).start_pos),
        forall|k: int|
            0 <= k < pointer_events@.len() ==> frame.admits_pointer(
                (#[trigger] pointer_events@[k]).position,
            ),
    ensures
        final(scene).wf(),
        final(scene).tiles@ == old(scene).tiles@,
        final(scene).bundles@.len() == old(scene).bundles@.len(),
        !old(drag).in_progress && (forall|i: int|
            0 <= i < button_events@.len() ==> !(#[trigger] button_events@[i]).pressed)
            ==> final(scene).bundles@ == old(scene).bundles@,
        old(drag).in_progress && button_events@.len() == 0 ==> *final(selected) == *old(selected),
        !old(drag).in_progress && button_events@.len() == 0 && pointer_events@.len() > 0
            && frame.viewport is Some ==> (*final(selected) == selection_at(
            *old(scene),
            *frame,
            pointer_events@.last().position,
        ) && final(scene).bundles@ == old(scene).bundles@),
{
    let outcome = select_tile(&*scene, frame, pointer_events, drag, selected);
    drag_start_end(drag, button_events, z_index_state, &mut *scene, &*selected);
    proof {
        lemma_grab_fold_preserves_len(
            old(drag).in_progress,
            old(z_index_state).z_index_state,
            old(scene).bundles@,
            *selected,
            button_events@,
        );
        if !old(drag).in_progress && (forall|i: int|
            0 <= i < button_events@.len() ==> !(#[trigger] button_events@[i]).pressed) {
            lemma_no_press_no_movement(
                old(drag).in_progress,
                old(z_index_state).z_index_state,
                old(scene).bundles@,
                *selected,
                button_events@,
            );
        }
    }
    let _ = drag_update(&*drag, pointer_events, frame, &mut *scene, &*selected);
    match outcome {
        Ok(out) => out,
        Err(_) => None,
    }
}

/// Every collected candidate names a tile of the scene.
pub proof fn lemma_hit_candidate_tile_in_range(scene: Scene, frame: CameraFrame, p: Vec2I, n: int)
    requires
        n <= scene.tiles@.len(),
    ensures
        forall|j: int|
            0 <= j < hit_candidates(scene, frame, p, n).len() ==> (#[trigger] hit_candidates(
                scene,
                frame,
                p,
                n,
            )[j]).0 < scene.tiles@.len(),
    decreases n,
{
    if n > 0 {
        lemma_hit_candidate_tile_in_range(scene, frame, p, n - 1);
        let prefix = hit_candidates(scene, frame, p, n - 1);
        let whole = hit_candidates(scene, frame, p, n);
        assert forall|j: int| 0 <= j < whole.len() implies (#[trigger] whole[j]).0
            < scene.tiles@.len() by {
            if j < prefix.len() {
                assert(whole[j] == prefix[j]);
            }
        }
    }
}

} // verus!
