//! The shared state the core owns across ticks: the drag state machine's
//! record, the draw-order allocator, the current selection, and the two
//! material identities the renderer paints tiles with.

use vstd::prelude::*;

use crate::component::Transform;
use crate::util::Vec2I;

verus! {

/// Draw-order step: one thousandth of a world unit per allocation.
pub const Z_STEP: i64 = 1;

/// The drag state machine's record. `start_pos` holds the last pointer
/// position observed while not dragging; once a drag begins it stays fixed
/// at the position where the button was pressed, and is the drag's anchor.
#[derive(Clone, Copy, PartialEq, Eq, Structural, Debug)]
pub struct Drag {
    /// The anchor: last pointer position seen while idle, in pixels.
    pub start_pos: Vec2I,
    /// Whether a drag is active. Transitions only on button edge events.
    pub in_progress: bool,
}

/// The draw-order allocator: a counter of depth values, in thousandths of a
/// world unit. Start it above the resting tile layer so promoted parts draw
/// over the grid.
#[derive(Clone, Copy, PartialEq, Eq, Structural, Debug)]
pub struct ZIndexState {
    /// The next depth to hand out.
    pub z_index_state: i64,
}

impl ZIndexState {
    /// Hands out the current depth and steps the counter, so depths are
    /// strictly increasing across the session and never reused.
    pub fn next(&mut self) -> (r: i64)
        requires
            old(self).z_index_state <= i64::MAX - Z_STEP,
        ensures
            r == old(self).z_index_state,
            final(self).z_index_state == old(self).z_index_state + Z_STEP,
    {
        let r = self.z_index_state;
        self.z_index_state = self.z_index_state + Z_STEP;
        r
    }
}

/// Of two depth allocations in sequence, the later hands out the strictly
/// larger depth: the states are threaded, so the second result exceeds the
/// first by the step.
pub proof fn lemma_z_allocation_monotonic(
    s0: ZIndexState,
    r1: i64,
    s1: ZIndexState,
    r2: i64,
    s2: ZIndexState,
)
    requires
        r1 == s0.z_index_state,
        s1.z_index_state == s0.z_index_state + Z_STEP,
        r2 == s1.z_index_state,
        s2.z_index_state == s1.z_index_state + Z_STEP,
    ensures
        r2 > r1,
{
}

/// The selection: one part, and a snapshot of its placement taken at the
/// moment of selection. The snapshot is the frame of reference a drag moves
/// relative to.
#[derive(Clone, Copy, PartialEq, Eq, Structural, Debug)]
pub struct Selected {
    /// Index of the selected part in the scene registry.
    pub part: usize,
    /// The part's placement when it was selected.
    pub transform: Transform,
}

/// The two material identities tiles are painted with, as opaque asset ids.
#[derive(Clone, Copy, PartialEq, Eq, Structural, Debug)]
pub struct Materials {
    /// The resting look of a tile.
    pub default_tile: u64,
    /// The look of the tile under the pointer.
    pub highlighted_tile: u64,
}

impl Materials {
    /// The material a tile should be painted with: the highlighted one for
    /// the topmost tile under the pointer, the default for every other.
    pub fn tile_material(&self, tile: usize, highlighted: Option<usize>) -> (r: u64)
        ensures
            highlighted == Some(tile) ==> r == self.highlighted_tile,
            highlighted != Some(tile) ==> r == self.default_tile,
    {
        match highlighted {
            Some(h) => {
                if h == tile {
                    self.highlighted_tile
                } else {
                    self.default_tile
                }
            },
            None => self.default_tile,
        }
    }
}

} // verus!
