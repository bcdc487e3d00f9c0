//! The explicit scene registry: parts and tiles under stable indices,
//! passed into each operation instead of being resolved through an ambient
//! component store.

use vstd::prelude::*;

use crate::bundle::PartBundle;
use crate::component::Tile;

verus! {

/// All parts and tiles of the session. Parts live for the whole session and
/// are destroyed only at teardown, so indices are stable.
#[derive(Debug)]
pub struct Scene {
    /// The parts, each with its current placement.
    pub bundles: Vec<PartBundle>,
    /// The tiles; each names its owning part.
    pub tiles: Vec<Tile>,
}

impl Scene {
    /// Every tile's owner is a registered part.
    pub open spec fn wf(self) -> bool {
        forall|i: int|
            0 <= i < self.tiles@.len() ==> (#[trigger] self.tiles@[i]).part < self.bundles@.len()
    }
}

} // verus!
