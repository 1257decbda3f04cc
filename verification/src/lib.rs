//! A minimal master-stack tiling window manager core.
//!
//! The crate is pure logic: it tracks client windows in arrival order,
//! recomputes the master-stack layout after every structural change, and
//! runs the drag (move / resize) state machine. All talk with the display
//! server happens outside; the core consumes typed events and emits typed
//! commands.

pub mod drag;
pub mod geometry;
pub mod machine;
pub mod registry;
pub mod tiling;

use vstd::prelude::*;

verus! {

} // verus!
