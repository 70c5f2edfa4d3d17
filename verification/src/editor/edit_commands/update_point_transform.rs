use vstd::prelude::*;

use crate::editor::EntityId;

verus! {

/// Moves the editable point `entity` to the translation of `transform`.
pub struct Command<T> {
    pub entity: EntityId,
    pub transform: T,
}

/// Restores the transform the point had before the move.
pub struct Undo<T> {
    pub entity: EntityId,
    pub old_transform: T,
}

} // verus!
