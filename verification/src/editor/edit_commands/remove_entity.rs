use vstd::prelude::*;

use crate::editor::components::BrushMaterialProperties;
use crate::editor::EntityId;

verus! {

/// Removes `entity` from the world.
pub struct Command {
    pub entity: EntityId,
}

/// Recreates a removed brush; the removal of anything else cannot be undone.
pub enum Undo<B> {
    Brush { entity: EntityId, brush: B, material_props: BrushMaterialProperties },
    NotImplemented,
}

impl Command {
    /// The undo record of removing this entity, given the brush and materials
    /// it had, if it was a brush.
    pub fn undo_record<B>(self, brush_state: Option<(B, BrushMaterialProperties)>) -> (res: Undo<B>)
        ensures
            match brush_state {
                Some((brush, material_props)) => res == (Undo::Brush {
                    entity: self.entity,
                    brush,
                    material_props,
                }),
                None => res is NotImplemented,
            },
    {
        match brush_state {
            Some((brush, material_props)) => Undo::Brush { entity: self.entity, brush, material_props },
            None => Undo::NotImplemented,
        }
    }
}

} // verus!
