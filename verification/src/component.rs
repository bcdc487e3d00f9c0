//! The scene's two kinds of record: a draggable part and the tile that is
//! its visual child and hit-test target.

use vstd::prelude::*;

use crate::util::Vec2I;
use crate::util::Vec3I;

verus! {

/// Current world placement of a part. The `z` of the translation is the
/// draw-order depth; rotation and scale are never touched by the core and
/// stay at their identity, so only the translation is carried.
#[derive(Clone, Copy, PartialEq, Eq, Structural, Debug)]
pub struct Transform {
    /// World position, thousandths of a world unit; `z` is the draw depth.
    pub translation: Vec3I,
}

/// A draggable logical puzzle piece.
#[derive(Clone, Copy, PartialEq, Eq, Structural, Debug)]
pub struct Part {
    /// Normalized grid coordinate of the piece, informational.
    pub center_position: Vec2I,
    /// Normalized grid cell span of the piece, informational.
    pub size: Vec2I,
}

/// A leaf visual cell: belongs to exactly one part and carries no state
/// beyond that ownership. Its world placement is its part's.
#[derive(Clone, Copy, PartialEq, Eq, Structural, Debug)]
pub struct Tile {
    /// Index of the owning part in the scene registry.
    pub part: usize,
}

} // verus!
