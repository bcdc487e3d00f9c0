//! A part together with its spatial state, as the scene registry stores it.

use vstd::prelude::*;

use crate::component::Part;
use crate::component::Transform;

verus! {

/// One registered part: its grid identity and its current world placement.
#[derive(Clone, Copy, PartialEq, Eq, Structural, Debug)]
pub struct PartBundle {
    /// The logical piece.
    pub part: Part,
    /// Its current world placement.
    pub transform: Transform,
}

} // verus!
