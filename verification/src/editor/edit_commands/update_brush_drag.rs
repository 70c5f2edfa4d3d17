use vstd::prelude::*;

use crate::editor::EntityId;

verus! {

/// Moves the faces of the brush of `entity` from `start_brush` to `brush`.
/// The command is its own undo record.
pub struct Command<B> {
    pub entity: EntityId,
    pub start_brush: B,
    pub brush: B,
}

} // verus!
