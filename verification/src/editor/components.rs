use vstd::prelude::*;

verus! {

/// Material name given to every face of a freshly created brush.
pub const DEFAULT_BRUSH_MATERIAL: &'static str = "material/architecture/woodframe1";

/// The material that face `old_face` of the old brush had, or `fallback`
/// where there is no such face.
pub open spec fn remapped_material(materials: Seq<String>, old_face: i32, fallback: Seq<char>) -> Seq<char> {
    if 0 <= old_face < materials.len() {
        materials[old_face as int]@
    } else {
        fallback
    }
}

/// The material assigned to each face of a brush, by face index.
#[derive(Debug)]
pub struct BrushMaterialProperties {
    pub materials: Vec<String>,
}

impl BrushMaterialProperties {
    /// One copy of `material` for each of `num_faces` faces.
    pub fn uniform(num_faces: usize, material: &str) -> (res: BrushMaterialProperties)
        ensures
            res.materials@.len() == num_faces,
            forall|i: int| 0 <= i < num_faces ==> (#[trigger] res.materials@[i])@ == material@,
    {
        let mut materials: Vec<String> = Vec::new();
        let mut i: usize = 0;
        while i < num_faces
            invariant
                i <= num_faces,
                materials@.len() == i,
                forall|k: int| 0 <= k < i ==> (#[trigger] materials@[k])@ == material@,
            decreases num_faces - i,
        {
            materials.push(material.to_owned());
            i = i + 1;
        }
        BrushMaterialProperties { materials }
    }

    /// The materials of a brush created with `num_faces` faces.
    pub fn for_new_brush(num_faces: usize) -> (res: BrushMaterialProperties)
        ensures
            res.materials@.len() == num_faces,
            forall|i: int|
                0 <= i < num_faces ==> (#[trigger] res.materials@[i])@ == DEFAULT_BRUSH_MATERIAL@,
    {
        BrushMaterialProperties::uniform(num_faces, DEFAULT_BRUSH_MATERIAL)
    }

    /// A copy with the same materials.
    pub fn duplicate(&self) -> (res: BrushMaterialProperties)
        ensures
            res.materials@ == self.materials@,
    {
        let mut materials: Vec<String> = Vec::new();
        let mut i: usize = 0;
        while i < self.materials.len()
            invariant
                i <= self.materials@.len(),
                materials@ == self.materials@.take(i as int),
            decreases self.materials@.len() - i,
        {
            materials.push(self.materials[i].clone());
            assert(materials@ =~= self.materials@.take(i + 1));
            i = i + 1;
        }
        assert(materials@ =~= self.materials@);
        BrushMaterialProperties { materials }
    }

    /// The materials of a brush whose faces were renumbered: face `i` of the
    /// new brush was face `remap[i]` of the old one and keeps its material; a
    /// face with no old counterpart (an index out of range) gets `fallback`.
    pub fn remapped(&self, remap: &Vec<i32>, fallback: &str) -> (res: BrushMaterialProperties)
        ensures
            res.materials@.len() == remap@.len(),
            forall|i: int|
                0 <= i < remap@.len() ==> (#[trigger] res.materials@[i])@ == remapped_material(
                    self.materials@,
                    remap@[i],
                    fallback@,
                ),
    {
        let mut materials: Vec<String> = Vec::new();
        let mut i: usize = 0;
        while i < remap.len()
            invariant
                i <= remap@.len(),
                materials@.len() == i,
                forall|k: int|
                    0 <= k < i ==> (#[trigger] materials@[k])@ == remapped_material(
                        self.materials@,
                        remap@[k],
                        fallback@,
                    ),
            decreases remap@.len() - i,
        {
            let old_face = remap[i];
            if 0 <= old_face && (old_face as usize) < self.materials.len() {
                materials.push(self.materials[old_face as usize].clone());
            } else {
                materials.push(fallback.to_owned());
            }
            i = i + 1;
        }
        BrushMaterialProperties { materials }
    }

    /// Puts `material` on face `face` and gives back the material it had.
    pub fn replace_material(&mut self, face: i32, material: String) -> (old_material: String)
        requires
            0 <= face < old(self).materials@.len(),
        ensures
            old_material == old(self).materials@[face as int],
            final(self).materials@ == old(self).materials@.update(face as int, material),
    {
        let i = face as usize;
        let old_material = self.materials[i].clone();
        self.materials.set(i, material);
        old_material
    }
}

} // verus!
