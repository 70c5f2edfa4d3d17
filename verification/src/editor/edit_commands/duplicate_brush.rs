use vstd::prelude::*;

use crate::editor::EntityId;

verus! {

/// Adds a copy of the brush `template_entity`; undone by despawning the copy
/// (`add_entity::Undo`).
pub struct Command {
    pub template_entity: EntityId,
}

} // verus!
