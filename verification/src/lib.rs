//! Pointer interaction core for a 2D tile picker.
//!
//! A grid of rectangular tiles is rendered by an outside collaborator; this
//! library owns the logic that reacts to the pointer: mapping screen pixels
//! to world coordinates under an orthographic camera, hit-testing tiles
//! against the pointer with a topmost tie-break, a drag state machine that
//! re-applies a world-space offset from a fixed anchor, and a monotonically
//! increasing draw-order allocator.
//!
//! All coordinates are fixed-point: an `i64` holds thousandths of a world
//! unit, and screen positions are whole pixels.

pub mod bundle;
pub mod camera;
pub mod component;
pub mod event;
pub mod picking;
pub mod resource;
pub mod scene;
pub mod system;
pub mod util;
