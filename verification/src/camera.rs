//! The camera frame and the two coordinate transforms of the interaction
//! core: screen pixels to world coordinates (for dragging) and world
//! coordinates to viewport pixels (for hit-testing).
//!
//! The orthographic projection is the pair of bound intervals plus a
//! rational scale; one axis maps by
//! `world = ((p - origin) * (hi - lo) / size + lo) * scale * 2 + camera`,
//! the doubling being the projection's half-extent convention. All rounding
//! is toward zero, one division per normalization step.

use vstd::prelude::*;

use crate::util::COORD_LIMIT;
use crate::util::Vec2I;
use crate::util::div_trunc;
use crate::util::lemma_tdiv_bound;
use crate::util::tdiv;

verus! {

/// Why a tick's pointer processing was skipped. All are recoverable: the
/// caller drops the tick and retries on the next one.
#[derive(Clone, Copy, PartialEq, Eq, Structural, Debug)]
pub enum CoreError {
    /// The window is not sized yet: no viewport rectangle to map through.
    ViewportUnavailable,
    /// The camera is not orthographic; the core never operates under
    /// perspective.
    ProjectionKindMismatch,
    /// A selection refers to a part that is no longer in the scene.
    MissingSelectionTarget,
}

/// The pixel rectangle the camera draws into.
#[derive(Clone, Copy, PartialEq, Eq, Structural, Debug)]
pub struct Viewport {
    /// Lower-left corner, in pixels.
    pub origin: Vec2I,
    /// Width and height, in pixels.
    pub size: Vec2I,
}

/// Everything the core reads of the camera in one tick: world translation,
/// orthographic bounds and scale, and the viewport. Read-only per tick;
/// supplied by the rendering collaborator.
#[derive(Clone, Copy, Debug)]
pub struct CameraFrame {
    /// Camera world position, x and y; its depth is ignored, interaction
    /// happens on a single plane.
    pub translation: Vec2I,
    /// Orthographic bound, thousandths of a world unit.
    pub left: i64,
    /// Orthographic bound, thousandths of a world unit.
    pub right: i64,
    /// Orthographic bound, thousandths of a world unit.
    pub top: i64,
    /// Orthographic bound, thousandths of a world unit.
    pub bottom: i64,
    /// Projection scale numerator; the scale is `scale_num / scale_den`.
    pub scale_num: i64,
    /// Projection scale denominator.
    pub scale_den: i64,
    /// Whether the projection is orthographic at all.
    pub orthographic: bool,
    /// The viewport rectangle, absent while the window is not sized.
    pub viewport: Option<Viewport>,
}

impl CameraFrame {
    /// A frame the transforms accept: bounds are proper and every parameter
    /// is within `COORD_LIMIT`, so the fixed-point arithmetic stays in range.
    pub open spec fn wf(self) -> bool {
        &&& -COORD_LIMIT <= self.translation.x <= COORD_LIMIT
        &&& -COORD_LIMIT <= self.translation.y <= COORD_LIMIT
        &&& -COORD_LIMIT <= self.left < self.right <= COORD_LIMIT
        &&& -COORD_LIMIT <= self.bottom < self.top <= COORD_LIMIT
        &&& 1 <= self.scale_num <= COORD_LIMIT
        &&& 1 <= self.scale_den <= COORD_LIMIT
        &&& match self.viewport {
            Some(v) => {
                &&& 0 <= v.origin.x <= COORD_LIMIT
                &&& 0 <= v.origin.y <= COORD_LIMIT
                &&& 1 <= v.size.x <= COORD_LIMIT
                &&& 1 <= v.size.y <= COORD_LIMIT
            },
            None => true,
        }
    }

    /// A screen position the transforms accept: at or past the viewport
    /// origin (the pixel arithmetic is unsigned) and within `COORD_LIMIT`.
    pub open spec fn admits_pointer(self, p: Vec2I) -> bool {
        &&& 0 <= p.x <= COORD_LIMIT
        &&& 0 <= p.y <= COORD_LIMIT
        &&& match self.viewport {
            Some(v) => p.x >= v.origin.x && p.y >= v.origin.y,
            None => true,
        }
    }

    /// World coordinate of screen position `p` on this frame's x axis.
    /// Meaningful when the viewport is present.
    pub open spec fn world_x_of(self, p: Vec2I) -> int
        recommends
            self.viewport is Some,
    {
        axis_to_world_spec(
            p.x as int,
            self.viewport->Some_0.origin.x as int,
            self.viewport->Some_0.size.x as int,
            self.left as int,
            self.right as int,
            self.scale_num as int,
            self.scale_den as int,
            self.translation.x as int,
        )
    }

    /// World coordinate of screen position `p` on this frame's y axis.
    pub open spec fn world_y_of(self, p: Vec2I) -> int
        recommends
            self.viewport is Some,
    {
        axis_to_world_spec(
            p.y as int,
            self.viewport->Some_0.origin.y as int,
            self.viewport->Some_0.size.y as int,
            self.bottom as int,
            self.top as int,
            self.scale_num as int,
            self.scale_den as int,
            self.translation.y as int,
        )
    }

    /// Viewport pixel of world coordinate `w` on this frame's x axis.
    pub open spec fn viewport_x_of(self, w: int) -> int
        recommends
            self.viewport is Some,
    {
        axis_to_viewport_spec(
            w,
            self.viewport->Some_0.origin.x as int,
            self.viewport->Some_0.size.x as int,
            self.left as int,
            self.right as int,
            self.scale_num as int,
            self.scale_den as int,
            self.translation.x as int,
        )
    }

    /// Viewport pixel of world coordinate `w` on this frame's y axis.
    pub open spec fn viewport_y_of(self, w: int) -> int
        recommends
            self.viewport is Some,
    {
        axis_to_viewport_spec(
            w,
            self.viewport->Some_0.origin.y as int,
            self.viewport->Some_0.size.y as int,
            self.bottom as int,
            self.top as int,
            self.scale_num as int,
            self.scale_den as int,
            self.translation.y as int,
        )
    }
}

/// One axis of the screen-to-world map: normalize the pixel offset into the
/// projection bounds, apply the doubled scale, translate by the camera.
pub open spec fn axis_to_world_spec(
    p: int,
    o: int,
    size: int,
    lo: int,
    hi: int,
    num: int,
    den: int,
    cam: int,
) -> int {
    tdiv((tdiv((p - o) * (hi - lo), size) + lo) * num * 2, den) + cam
}

/// One axis of the world-to-viewport map, the inverse composition: undo the
/// camera translation and the doubled scale, then map the projection-bound
/// fraction back to pixels.
pub open spec fn axis_to_viewport_spec(
    w: int,
    o: int,
    size: int,
    lo: int,
    hi: int,
    num: int,
    den: int,
    cam: int,
) -> int {
    tdiv((tdiv((w - cam) * den, 2 * num) - lo) * size, hi - lo) + o
}

/// Executable screen-to-world for one axis.
fn axis_to_world(
    p: i64,
    o: i64,
    size: i64,
    lo: i64,
    hi: i64,
    num: i64,
    den: i64,
    cam: i64,
) -> (r: i64)
    requires
        0 <= o <= p <= COORD_LIMIT,
        1 <= size <= COORD_LIMIT,
        -COORD_LIMIT <= lo < hi <= COORD_LIMIT,
        1 <= num <= COORD_LIMIT,
        1 <= den <= COORD_LIMIT,
        -COORD_LIMIT <= cam <= COORD_LIMIT,
    ensures
        r == axis_to_world_spec(
            p as int,
            o as int,
            size as int,
            lo as int,
            hi as int,
            num as int,
            den as int,
            cam as int,
        ),
{
    let d: i128 = (p - o) as i128;
    let span: i128 = (hi - lo) as i128;
    proof {
        assert(0 <= d * span <= 2_000_000_000_000i128) by (nonlinear_arith)
            requires
                0 <= d <= 1_000_000i128,
                0 < span <= 2_000_000i128,
        ;
    }
    let n1: i128 = d * span;
    let q1: i128 = div_trunc(n1, size as i128);
    proof {
        lemma_tdiv_bound(n1 as int, size as int);
    }
    let t: i128 = q1 + lo as i128;
    proof {
        assert(-4_004_000_000_000_000_000i128 <= t * (num as i128) * 2
            <= 4_004_000_000_000_000_000i128) by (nonlinear_arith)
            requires
                -1_000_000i128 <= t <= 2_000_001_000_000i128,
                1 <= (num as i128) <= 1_000_000i128,
        ;
    }
    let u: i128 = t * (num as i128) * 2;
    let q2: i128 = div_trunc(u, den as i128);
    proof {
        lemma_tdiv_bound(u as int, den as int);
    }
    (q2 + cam as i128) as i64
}

/// Executable world-to-viewport for one axis. World input is a wide value so
/// that box corners one tile unit past any stored translation stay in range.
fn axis_to_viewport(
    w: i128,
    o: i64,
    size: i64,
    lo: i64,
    hi: i64,
    num: i64,
    den: i64,
    cam: i64,
) -> (r: i128)
    requires
        -20_000_000_000_000_000_000i128 <= w <= 20_000_000_000_000_000_000i128,
        0 <= o <= COORD_LIMIT,
        1 <= size <= COORD_LIMIT,
        -COORD_LIMIT <= lo < hi <= COORD_LIMIT,
        1 <= num <= COORD_LIMIT,
        1 <= den <= COORD_LIMIT,
        -COORD_LIMIT <= cam <= COORD_LIMIT,
    ensures
        r == axis_to_viewport_spec(
            w as int,
            o as int,
            size as int,
            lo as int,
            hi as int,
            num as int,
            den as int,
            cam as int,
        ),
{
    let d: i128 = w - cam as i128;
    proof {
        assert(-21_000_000_000_000_000_000_000_000_000i128 <= d * (den as i128)
            <= 21_000_000_000_000_000_000_000_000_000i128) by (nonlinear_arith)
            requires
                -20_000_000_000_001_000_000i128 <= d <= 20_000_000_000_001_000_000i128,
                1 <= (den as i128) <= 1_000_000i128,
        ;
    }
    let n1: i128 = d * (den as i128);
    let q1: i128 = div_trunc(n1, 2 * (num as i128));
    proof {
        lemma_tdiv_bound(n1 as int, 2 * (num as int));
    }
    let t: i128 = q1 - lo as i128;
    proof {
        assert(
            -22_000_000_000_000_000_000_000_000_000_000_000_000i128 <= t * (size as i128)
                <= 22_000_000_000_000_000_000_000_000_000_000_000_000i128
        ) by (nonlinear_arith)
            requires
                -21_000_000_000_000_000_001_000_000_000i128 <= t
                    <= 21_000_000_000_000_000_001_000_000_000i128,
                1 <= (size as i128) <= 1_000_000i128,
        ;
    }
    let n2: i128 = t * (size as i128);
    let q2: i128 = div_trunc(n2, (hi - lo) as i128);
    proof {
        lemma_tdiv_bound(n2 as int, (hi - lo) as int);
    }
    q2 + o as i128
}

/// Maps a screen pixel position to the corresponding point of the camera's
/// focal plane in world coordinates. Pure: equal inputs give equal outputs.
/// Fails only while the viewport rectangle is not available, in which case
/// the caller skips the tick.
pub fn viewport_to_world_coordinate(frame: &CameraFrame, position: Vec2I) -> (r: Result<
    Vec2I,
    CoreError,
>)
    requires
        frame.wf(),
        frame.admits_pointer(position),
    ensures
        frame.viewport is None <==> r == Err::<Vec2I, CoreError>(CoreError::ViewportUnavailable),
        frame.viewport is Some ==> (r matches Ok(w) && w.x == frame.world_x_of(position) && w.y
            == frame.world_y_of(position)),
{
    let v = match frame.viewport {
        Some(v) => v,
        None => {
            return Err(CoreError::ViewportUnavailable);
        },
    };
    let x = axis_to_world(
        position.x,
        v.origin.x,
        v.size.x,
        frame.left,
        frame.right,
        frame.scale_num,
        frame.scale_den,
        frame.translation.x,
    );
    let y = axis_to_world(
        position.y,
        v.origin.y,
        v.size.y,
        frame.bottom,
        frame.top,
        frame.scale_num,
        frame.scale_den,
        frame.translation.y,
    );
    Ok(Vec2I { x, y })
}

/// Maps a world position (a wide value: a stored translation offset by a
/// tile half-extent) to viewport pixel coordinates, the inverse direction of
/// `viewport_to_world_coordinate`. Used to project tile box corners for
/// hit-testing. Fails only while the viewport rectangle is not available.
pub fn world_to_viewport(frame: &CameraFrame, wx: i128, wy: i128) -> (r: Result<
    (i128, i128),
    CoreError,
>)
    requires
        frame.wf(),
        -10_000_000_000_000_000_000i128 <= wx <= 10_000_000_000_000_000_000i128,
        -10_000_000_000_000_000_000i128 <= wy <= 10_000_000_000_000_000_000i128,
    ensures
        frame.viewport is None <==> r == Err::<(i128, i128), CoreError>(
            CoreError::ViewportUnavailable,
        ),
        frame.viewport is Some ==> (r matches Ok(q) && q.0 == frame.viewport_x_of(wx as int)
            && q.1 == frame.viewport_y_of(wy as int)),
{
    let v = match frame.viewport {
        Some(v) => v,
        None => {
            return Err(CoreError::ViewportUnavailable);
        },
    };
    let x = axis_to_viewport(
        wx,
        v.origin.x,
        v.size.x,
        frame.left,
        frame.right,
        frame.scale_num,
        frame.scale_den,
        frame.translation.x,
    );
    let y = axis_to_viewport(
        wy,
        v.origin.y,
        v.size.y,
        frame.bottom,
        frame.top,
        frame.scale_num,
        frame.scale_den,
        frame.translation.y,
    );
    Ok((x, y))
}

/// The screen-to-world map is deterministic: two results obtained for the
/// same frame and the same screen position are identical. This holds because
/// the map is a function of its arguments alone.
pub proof fn lemma_screen_to_world_deterministic(
    frame: CameraFrame,
    position: Vec2I,
    first: Vec2I,
    second: Vec2I,
)
    requires
        frame.viewport is Some,
        first.x == frame.world_x_of(position) && first.y == frame.world_y_of(position),
        second.x == frame.world_x_of(position) && second.y == frame.world_y_of(position),
    ensures
        first == second,
{
}

} // verus!
