use vstd::prelude::*;

verus! {

/// Adds a new brush; undone by despawning it (`add_entity::Undo`).
pub struct Command<B> {
    pub brush: B,
}

} // verus!
