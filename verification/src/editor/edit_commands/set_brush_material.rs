use vstd::prelude::*;

use crate::editor::components::BrushMaterialProperties;
use crate::editor::EntityId;

verus! {

/// Puts `material` on face `face` of the brush `entity`.
pub struct Command {
    pub entity: EntityId,
    pub face: i32,
    pub material: String,
}

/// Puts `old_material` back on face `face` of the brush `entity`.
pub struct Undo {
    pub entity: EntityId,
    pub face: i32,
    pub old_material: String,
}

impl Command {
    /// Applies the command to the materials of its brush and returns the undo
    /// record, which holds the material the face had before.
    pub fn apply(self, material_props: &mut BrushMaterialProperties) -> (undo: Undo)
        requires
            0 <= self.face < old(material_props).materials@.len(),
        ensures
            final(material_props).materials@ == old(material_props).materials@.update(
                self.face as int,
                self.material,
            ),
            undo.entity == self.entity,
            undo.face == self.face,
            undo.old_material == old(material_props).materials@[self.face as int],
    {
        let old_material = material_props.replace_material(self.face, self.material);
        Undo { entity: self.entity, face: self.face, old_material }
    }
}

impl Undo {
    /// Restores the face's previous material.
    pub fn undo(&self, material_props: &mut BrushMaterialProperties)
        requires
            0 <= self.face < old(material_props).materials@.len(),
        ensures
            final(material_props).materials@ == old(material_props).materials@.update(
                self.face as int,
                self.old_material,
            ),
    {
        let _ = material_props.replace_material(self.face, self.old_material.clone());
    }
}

/// Setting a face's material and then undoing it gives back the materials the
/// brush had before.
pub proof fn lemma_undo_restores_materials(materials: Seq<String>, face: int, material: String)
    requires
        0 <= face < materials.len(),
    ensures
        materials.update(face, material).update(face, materials[face]) == materials,
{
    assert(materials.update(face, material).update(face, materials[face]) =~= materials);
}

} // verus!
