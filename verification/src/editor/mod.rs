//! Editor state that does not depend on rendering: undo history, edit
//! commands, selection, material bookkeeping and the window manager's input
//! decisions.

pub mod clip;
pub mod components;
pub mod csg_update;
pub mod drag;
pub mod edit_commands;
pub mod input;
pub mod materials;
pub mod selection;
pub mod undo;
pub mod util;
pub mod wm;

use vstd::prelude::*;

verus! {

/// An entity of the editor's world, by its bit pattern.
pub type EntityId = u64;

} // verus!
