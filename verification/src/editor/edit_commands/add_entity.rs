use vstd::prelude::*;

use crate::editor::EntityId;

verus! {

/// Undoes the creation of an entity by despawning it.
#[derive(Debug, Clone, Copy, PartialEq, Eq)]
pub struct Undo {
    pub entity: EntityId,
}

} // verus!
