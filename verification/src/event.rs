//! The input events the core consumes and the notification it emits. Both
//! input kinds arrive as an ordered queue per tick; where a queue must
//! reduce to one outcome, the core folds it in arrival order and the last
//! write wins.

use vstd::prelude::*;

use crate::component::Transform;
use crate::util::Vec2I;

verus! {

/// The pointer moved to a screen position, in pixels.
#[derive(Clone, Copy, PartialEq, Eq, Structural, Debug)]
pub struct PointerMove {
    /// The new pointer position.
    pub position: Vec2I,
}

/// A primary-button edge: pressed or released.
#[derive(Clone, Copy, PartialEq, Eq, Structural, Debug)]
pub struct ButtonEvent {
    /// `true` on a press edge, `false` on a release edge.
    pub pressed: bool,
}

/// Emitted when the picker selects a part, for any collaborator that wants
/// to react; carries the part and the placement snapshot taken at selection.
#[derive(Clone, Copy, PartialEq, Eq, Structural, Debug)]
pub struct SelectEvent {
    /// Index of the selected part in the scene registry.
    pub part: usize,
    /// The part's placement at the moment of selection.
    pub transform: Transform,
}

} // verus!
