use vstd::prelude::*;

verus! {

/// Adds a new point light; undone by despawning it (`add_entity::Undo`).
pub struct Command;

} // verus!
