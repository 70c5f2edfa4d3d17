use std::collections::HashMap;

use vstd::prelude::*;

use crate::editor::components::BrushMaterialProperties;
use crate::editor::edit_commands::{merged, UndoCommand};
use crate::editor::EntityId;

verus! {

broadcast use vstd::std_specs::hash::group_hash_axioms;

/// One step of editing history. `B` is the brush type and `T` the transform
/// type of the world being edited.
pub enum UndoEntry<B, T> {
    BrushDrag { entity: EntityId, start_brush: B, brush: B },
    EntityAdd { entity: EntityId },
    MaterialSet { entity: EntityId, face: i32, old_material: String, material: String },
    BrushRemove { entity: EntityId, brush: B, material_props: BrushMaterialProperties },
    PointDrag { entity: EntityId, start_transform: T, transform: T },
    Generic { cmd: UndoCommand<B, T> },
}

/// What undoing one entry asks of the world.
pub enum UndoAction<B, T> {
    /// Give face `face` of brush `entity` its material `old_material` back.
    SetMaterial { entity: EntityId, face: i32, old_material: String },
    /// Spawn the removed brush again; the new entity stands for `entity`
    /// from then on (`record_recreated`).
    Recreate { entity: EntityId, brush: B, material_props: BrushMaterialProperties },
    /// Put point `entity` back where the drag started.
    RestoreTransform { entity: EntityId, start_transform: T },
    /// Undo a recorded edit command.
    Generic { cmd: UndoCommand<B, T> },
    /// The history was empty.
    Nothing,
}

/// Entries of kinds that can no longer be undone: undoing one is an error.
pub open spec fn is_outdated<B, T>(entry: UndoEntry<B, T>) -> bool {
    entry is BrushDrag || entry is EntityAdd
}

/// What undoing `entry` asks for, with the recreation map `m` in force.
pub open spec fn undo_action<B, T>(m: Map<EntityId, EntityId>, entry: UndoEntry<B, T>) -> UndoAction<B, T> {
    match entry {
        UndoEntry::MaterialSet { entity, face, old_material, material: _ } => UndoAction::SetMaterial {
            entity: remapped(m, entity),
            face,
            old_material,
        },
        UndoEntry::BrushRemove { entity, brush, material_props } => UndoAction::Recreate {
            entity,
            brush,
            material_props,
        },
        UndoEntry::PointDrag { entity, start_transform, transform: _ } => UndoAction::RestoreTransform {
            entity,
            start_transform,
        },
        UndoEntry::Generic { cmd } => UndoAction::Generic { cmd },
        _ => UndoAction::Nothing,
    }
}

/// The editing history. While `open` is set, the entry on top may still absorb
/// further steps of the same drag; `commit` closes it.
pub struct UndoStack<B, T> {
    pub stack: Vec<UndoEntry<B, T>>,
    pub open: bool,
    pub entity_recreate_map: HashMap<EntityId, EntityId>,
}

/// History and open flag after `push_generic(cmd)`.
pub open spec fn after_push_generic<B, T>(
    stack: Seq<UndoEntry<B, T>>,
    open: bool,
    cmd: UndoCommand<B, T>,
) -> (Seq<UndoEntry<B, T>>, bool) {
    if open && stack.len() > 0 {
        match stack.last() {
            UndoEntry::Generic { cmd: top } => match merged(top, cmd) {
                Some(m) => (stack.drop_last().push(UndoEntry::Generic { cmd: m }), open),
                None => (stack.push(UndoEntry::Generic { cmd }), true),
            },
            _ => (stack.push(UndoEntry::Generic { cmd }), true),
        }
    } else {
        (stack.push(UndoEntry::Generic { cmd }), true)
    }
}

/// History and open flag after `push_brush_drag(entity, start_brush, brush)`.
pub open spec fn after_push_brush_drag<B, T>(
    stack: Seq<UndoEntry<B, T>>,
    open: bool,
    entity: EntityId,
    start_brush: B,
    brush: B,
) -> (Seq<UndoEntry<B, T>>, bool) {
    if open && stack.len() > 0 && (stack.last() matches UndoEntry::BrushDrag { entity: e, .. }
        && e == entity) {
        match stack.last() {
            UndoEntry::BrushDrag { entity: e, start_brush: s, brush: _ } => (
                stack.drop_last().push(UndoEntry::BrushDrag { entity: e, start_brush: s, brush }),
                open,
            ),
            _ => (stack, open),
        }
    } else {
        (stack.push(UndoEntry::BrushDrag { entity, start_brush, brush }), true)
    }
}

/// History and open flag after `push_point_drag(entity, start_transform, transform)`.
pub open spec fn after_push_point_drag<B, T>(
    stack: Seq<UndoEntry<B, T>>,
    open: bool,
    entity: EntityId,
    start_transform: T,
    transform: T,
) -> (Seq<UndoEntry<B, T>>, bool) {
    if open && stack.len() > 0 && (stack.last() matches UndoEntry::PointDrag { entity: e, .. }
        && e == entity) {
        match stack.last() {
            UndoEntry::PointDrag { entity: e, start_transform: s, transform: _ } => (
                stack.drop_last().push(
                    UndoEntry::PointDrag { entity: e, start_transform: s, transform },
                ),
                open,
            ),
            _ => (stack, open),
        }
    } else {
        (stack.push(UndoEntry::PointDrag { entity, start_transform, transform }), true)
    }
}

/// The entity standing for `entity` under the recreation map `m`.
pub open spec fn remapped(m: Map<EntityId, EntityId>, entity: EntityId) -> EntityId {
    if m.contains_key(entity) {
        m[entity]
    } else {
        entity
    }
}

impl<B, T> UndoStack<B, T> {
    /// Which entity now stands for each entity that was removed and recreated
    /// by an undo.
    pub open spec fn recreated(&self) -> Map<EntityId, EntityId> {
        self.entity_recreate_map@
    }

    /// An empty, closed history.
    pub fn new() -> (res: UndoStack<B, T>)
        ensures
            res.stack@ == Seq::<UndoEntry<B, T>>::empty(),
            !res.open,
            res.recreated() == Map::<EntityId, EntityId>::empty(),
    {
        UndoStack { stack: Vec::new(), open: false, entity_recreate_map: HashMap::new() }
    }

    /// The entity that currently stands for `entity`: its recreation if an
    /// undo recreated it, else `entity` itself.
    pub fn remap_entity(&self, entity: EntityId) -> (res: EntityId)
        ensures
            res == remapped(self.recreated(), entity),
    {
        match self.entity_recreate_map.get(&entity) {
            Some(mapped_entity) => *mapped_entity,
            None => entity,
        }
    }

    /// Notes that `entity`, removed earlier, was recreated as `new_entity`.
    pub fn record_recreated(&mut self, entity: EntityId, new_entity: EntityId)
        ensures
            final(self).recreated() == old(self).recreated().insert(entity, new_entity),
            final(self).stack@ == old(self).stack@,
            final(self).open == old(self).open,
    {
        self.entity_recreate_map.insert(entity, new_entity);
    }

    /// Closes the entry on top: the next step starts a new entry.
    pub fn commit(&mut self)
        ensures
            !final(self).open,
            final(self).stack@ == old(self).stack@,
            final(self).recreated() == old(self).recreated(),
    {
        self.open = false;
    }

    /// Records an applied edit command, merging it into the open entry on top
    /// when both belong to the same continuing edit.
    pub fn push_generic(&mut self, cmd: UndoCommand<B, T>)
        ensures
            (final(self).stack@, final(self).open) == after_push_generic(
                old(self).stack@,
                old(self).open,
                cmd,
            ),
            final(self).recreated() == old(self).recreated(),
    {
        if self.open && self.stack.len() > 0 {
            let top = self.stack.pop().unwrap();
            match top {
                UndoEntry::Generic { cmd: top_cmd } => {
                    let mut top_cmd = top_cmd;
                    match top_cmd.try_merge(cmd) {
                        None => {
                            self.stack.push(UndoEntry::Generic { cmd: top_cmd });
                        },
                        Some(cmd) => {
                            self.stack.push(UndoEntry::Generic { cmd: top_cmd });
                            self.stack.push(UndoEntry::Generic { cmd });
                            self.open = true;
                        },
                    }
                },
                other => {
                    self.stack.push(other);
                    self.stack.push(UndoEntry::Generic { cmd });
                    self.open = true;
                },
            }
        } else {
            self.stack.push(UndoEntry::Generic { cmd });
            self.open = true;
        }
    }

    /// Records a step of dragging the faces of brush `entity`: the open entry
    /// on top, if it drags the same brush, takes the new brush; otherwise a new
    /// entry starts.
    pub fn push_brush_drag(&mut self, entity: EntityId, start_brush: B, brush: B)
        ensures
            (final(self).stack@, final(self).open) == after_push_brush_drag(
                old(self).stack@,
                old(self).open,
                entity,
                start_brush,
                brush,
            ),
            final(self).recreated() == old(self).recreated(),
    {
        if self.open && self.stack.len() > 0 {
            let top = self.stack.pop().unwrap();
            match top {
                UndoEntry::BrushDrag { entity: old_entity, start_brush: s, brush: b } => {
                    if old_entity == entity {
                        self.stack.push(UndoEntry::BrushDrag { entity: old_entity, start_brush: s, brush });
                    } else {
                        self.stack.push(UndoEntry::BrushDrag { entity: old_entity, start_brush: s, brush: b });
                        self.stack.push(UndoEntry::BrushDrag { entity, start_brush, brush });
                        self.open = true;
                    }
                },
                other => {
                    self.stack.push(other);
                    self.stack.push(UndoEntry::BrushDrag { entity, start_brush, brush });
                    self.open = true;
                },
            }
        } else {
            self.stack.push(UndoEntry::BrushDrag { entity, start_brush, brush });
            self.open = true;
        }
    }

    /// Records the creation of `entity`.
    pub fn push_entity_add(&mut self, entity: EntityId)
        ensures
            final(self).stack@ == old(self).stack@.push(UndoEntry::EntityAdd { entity }),
            final(self).open == old(self).open,
            final(self).recreated() == old(self).recreated(),
    {
        self.stack.push(UndoEntry::EntityAdd { entity });
    }

    /// Records that face `face` of brush `entity` changed from `old_material`
    /// to `material`.
    pub fn push_matrial_set(
        &mut self,
        entity: EntityId,
        face: i32,
        old_material: String,
        material: String,
    )
        ensures
            final(self).stack@ == old(self).stack@.push(
                UndoEntry::MaterialSet { entity, face, old_material, material },
            ),
            final(self).open == old(self).open,
            final(self).recreated() == old(self).recreated(),
    {
        self.stack.push(UndoEntry::MaterialSet { entity, face, old_material, material });
    }

    /// Records the removal of brush `entity`, with what is needed to recreate
    /// it.
    pub fn push_brush_remove(
        &mut self,
        entity: EntityId,
        brush: B,
        material_props: BrushMaterialProperties,
    )
        ensures
            final(self).stack@ == old(self).stack@.push(
                UndoEntry::BrushRemove { entity, brush, material_props },
            ),
            final(self).open == old(self).open,
            final(self).recreated() == old(self).recreated(),
    {
        self.stack.push(UndoEntry::BrushRemove { entity, brush, material_props });
    }

    /// Records a step of dragging the point `entity`, like `push_brush_drag`.
    pub fn push_point_drag(&mut self, entity: EntityId, start_transform: T, transform: T)
        ensures
            (final(self).stack@, final(self).open) == after_push_point_drag(
                old(self).stack@,
                old(self).open,
                entity,
                start_transform,
                transform,
            ),
            final(self).recreated() == old(self).recreated(),
    {
        if self.open && self.stack.len() > 0 {
            let top = self.stack.pop().unwrap();
            match top {
                UndoEntry::PointDrag { entity: old_entity, start_transform: s, transform: t } => {
                    if old_entity == entity {
                        self.stack.push(
                            UndoEntry::PointDrag { entity: old_entity, start_transform: s, transform },
                        );
                    } else {
                        self.stack.push(
                            UndoEntry::PointDrag { entity: old_entity, start_transform: s, transform: t },
                        );
                        self.stack.push(UndoEntry::PointDrag { entity, start_transform, transform });
                        self.open = true;
                    }
                },
                other => {
                    self.stack.push(other);
                    self.stack.push(UndoEntry::PointDrag { entity, start_transform, transform });
                    self.open = true;
                },
            }
        } else {
            self.stack.push(UndoEntry::PointDrag { entity, start_transform, transform });
            self.open = true;
        }
    }

    /// Records the outcome of applying an edit command: a command that
    /// applied is recorded as by `push_generic`; a failed one leaves the
    /// history as it was, and its error is handed back.
    pub fn record_applied<E>(&mut self, applied: Result<UndoCommand<B, T>, E>) -> (res: Result<(), E>)
        ensures
            match applied {
                Ok(cmd) => res is Ok && (final(self).stack@, final(self).open) == after_push_generic(
                    old(self).stack@,
                    old(self).open,
                    cmd,
                ),
                Err(e) => res == Err::<(), E>(e) && final(self).stack@ == old(self).stack@
                    && final(self).open == old(self).open,
            },
            final(self).recreated() == old(self).recreated(),
    {
        match applied {
            Ok(cmd) => {
                self.push_generic(cmd);
                Ok(())
            },
            Err(e) => Err(e),
        }
    }

    /// Undoes the most recent entry: takes it off the history and says what
    /// the world must do to reverse it. A material change names the entity
    /// that now stands for the brush.
    pub fn undo_step(&mut self) -> (res: UndoAction<B, T>)
        requires
            old(self).stack@.len() > 0 ==> !is_outdated(old(self).stack@.last()),
        ensures
            old(self).stack@.len() == 0 ==> res is Nothing && final(self).stack@ == old(self).stack@,
            old(self).stack@.len() > 0 ==> res == undo_action(old(self).recreated(), old(self).stack@.last())
                && final(self).stack@ == old(self).stack@.drop_last(),
            final(self).open == old(self).open,
            final(self).recreated() == old(self).recreated(),
    {
        match self.stack.pop() {
            None => UndoAction::Nothing,
            Some(UndoEntry::MaterialSet { entity, face, old_material, material: _ }) => {
                let entity = self.remap_entity(entity);
                UndoAction::SetMaterial { entity, face, old_material }
            },
            Some(UndoEntry::BrushRemove { entity, brush, material_props }) => UndoAction::Recreate {
                entity,
                brush,
                material_props,
            },
            Some(UndoEntry::PointDrag { entity, start_transform, transform: _ }) => UndoAction::RestoreTransform {
                entity,
                start_transform,
            },
            Some(UndoEntry::Generic { cmd }) => UndoAction::Generic { cmd },
            Some(_) => UndoAction::Nothing,
        }
    }

    /// Takes the most recent entry off the history, to be undone.
    pub fn pop_entry(&mut self) -> (res: Option<UndoEntry<B, T>>)
        ensures
            old(self).stack@.len() == 0 ==> res is None && final(self).stack@ == old(self).stack@,
            old(self).stack@.len() > 0 ==> res == Some(old(self).stack@.last())
                && final(self).stack@ == old(self).stack@.drop_last(),
            final(self).open == old(self).open,
            final(self).recreated() == old(self).recreated(),
    {
        self.stack.pop()
    }
}


/// Two successive steps of dragging one brush leave the same history as one
/// step straight to the final brush: the entry keeps the brush as it was
/// before the first step.
pub proof fn lemma_brush_drag_steps_coalesce<B, T>(
    stack: Seq<UndoEntry<B, T>>,
    open: bool,
    entity: EntityId,
    first_start: B,
    first_brush: B,
    second_start: B,
    second_brush: B,
)
    ensures
        ({
            let (s1, o1) = after_push_brush_drag(stack, open, entity, first_start, first_brush);
            after_push_brush_drag(s1, o1, entity, second_start, second_brush)
        }) == after_push_brush_drag(stack, open, entity, first_start, second_brush),
{
    let (s1, o1) = after_push_brush_drag(stack, open, entity, first_start, first_brush);
    assert(s1.len() > 0);
    if open && stack.len() > 0 && (stack.last() matches UndoEntry::BrushDrag { entity: e, .. }
        && e == entity) {
        assert(s1.drop_last() =~= stack.drop_last());
    } else {
        assert(s1.drop_last() =~= stack);
    }
}

/// Two successive steps of dragging one point leave the same history as one
/// step straight to the final transform.
pub proof fn lemma_point_drag_steps_coalesce<B, T>(
    stack: Seq<UndoEntry<B, T>>,
    open: bool,
    entity: EntityId,
    first_start: T,
    first_transform: T,
    second_start: T,
    second_transform: T,
)
    ensures
        ({
            let (s1, o1) = after_push_point_drag(stack, open, entity, first_start, first_transform);
            after_push_point_drag(s1, o1, entity, second_start, second_transform)
        }) == after_push_point_drag(stack, open, entity, first_start, second_transform),
{
    let (s1, o1) = after_push_point_drag(stack, open, entity, first_start, first_transform);
    assert(s1.len() > 0);
    if open && stack.len() > 0 && (stack.last() matches UndoEntry::PointDrag { entity: e, .. }
        && e == entity) {
        assert(s1.drop_last() =~= stack.drop_last());
    } else {
        assert(s1.drop_last() =~= stack);
    }
}

/// Two successive brush-drag commands on one brush, recorded through
/// `push_generic`, leave the same history as one command from the first start
/// state to the second brush.
pub proof fn lemma_generic_brush_drags_coalesce<B, T>(
    stack: Seq<UndoEntry<B, T>>,
    open: bool,
    entity: EntityId,
    first_start: B,
    first_brush: B,
    second_start: B,
    second_brush: B,
)
    ensures
        ({
            let c1 = UndoCommand::<B, T>::BrushDrag(
                crate::editor::edit_commands::update_brush_drag::Command {
                    entity,
                    start_brush: first_start,
                    brush: first_brush,
                },
            );
            let c2 = UndoCommand::<B, T>::BrushDrag(
                crate::editor::edit_commands::update_brush_drag::Command {
                    entity,
                    start_brush: second_start,
                    brush: second_brush,
                },
            );
            let (s1, o1) = after_push_generic(stack, open, c1);
            after_push_generic(s1, o1, c2)
        }) == after_push_generic(
            stack,
            open,
            UndoCommand::<B, T>::BrushDrag(
                crate::editor::edit_commands::update_brush_drag::Command {
                    entity,
                    start_brush: first_start,
                    brush: second_brush,
                },
            ),
        ),
{
    let c1 = UndoCommand::<B, T>::BrushDrag(
        crate::editor::edit_commands::update_brush_drag::Command {
            entity,
            start_brush: first_start,
            brush: first_brush,
        },
    );
    let (s1, o1) = after_push_generic(stack, open, c1);
    assert(s1.len() > 0);
    if open && stack.len() > 0 {
        match stack.last() {
            UndoEntry::Generic { cmd: top } => {
                if merged(top, c1) is Some {
                    assert(s1.drop_last() =~= stack.drop_last());
                } else {
                    assert(s1.drop_last() =~= stack);
                }
            },
            _ => {
                assert(s1.drop_last() =~= stack);
            },
        }
    } else {
        assert(s1.drop_last() =~= stack);
    }
}

/// On a closed history, undoing right after a command was recorded hands
/// that command back and leaves the history as it was before.
pub proof fn lemma_undo_after_closed_push<B, T>(
    stack: Seq<UndoEntry<B, T>>,
    m: Map<EntityId, EntityId>,
    cmd: UndoCommand<B, T>,
)
    ensures
        ({
            let s1 = after_push_generic(stack, false, cmd).0;
            &&& s1.len() > 0
            &&& !is_outdated(s1.last())
            &&& undo_action(m, s1.last()) == UndoAction::<B, T>::Generic { cmd }
            &&& s1.drop_last() == stack
        }),
{
    let s1 = after_push_generic(stack, false, cmd).0;
    assert(s1.drop_last() =~= stack);
}

/// After `commit`, the next drag step always starts a new entry on top.
pub proof fn lemma_drag_after_commit_starts_entry<B, T>(
    stack: Seq<UndoEntry<B, T>>,
    entity: EntityId,
    start_brush: B,
    brush: B,
)
    ensures
        after_push_brush_drag(stack, false, entity, start_brush, brush) == (
            stack.push(UndoEntry::BrushDrag { entity, start_brush, brush }),
            true,
        ),
{
}

/// Once an entity's recreation is recorded, it stands for the entity, and
/// every other entity keeps what stood for it before.
pub proof fn lemma_remap_after_recreate(
    m: Map<EntityId, EntityId>,
    entity: EntityId,
    new_entity: EntityId,
    other: EntityId,
)
    requires
        other != entity,
    ensures
        remapped(m.insert(entity, new_entity), entity) == new_entity,
        remapped(m.insert(entity, new_entity), other) == remapped(m, other),
{
}

/// After a drag step is recorded, the entry on top is a drag of that brush
/// ending at the new brush, so undoing it next restores a state from before
/// the drag; a step that starts a new entry leaves the earlier history below
/// it untouched.
pub proof fn lemma_undo_after_drag_step<B, T>(
    stack: Seq<UndoEntry<B, T>>,
    open: bool,
    entity: EntityId,
    start_brush: B,
    brush: B,
)
    ensures
        ({
            let s1 = after_push_brush_drag(stack, open, entity, start_brush, brush).0;
            &&& s1.len() > 0
            &&& s1.last() matches UndoEntry::BrushDrag { entity: e, start_brush: s, brush: b }
                && e == entity && b == brush
            &&& s1.drop_last() == stack || s1.drop_last() == stack.drop_last()
        }),
        !(open && stack.len() > 0 && (stack.last() matches UndoEntry::BrushDrag { entity: e, .. } && e == entity))
            ==> after_push_brush_drag(stack, open, entity, start_brush, brush).0.last()
            == (UndoEntry::<B, T>::BrushDrag { entity, start_brush, brush }),
{
    let s1 = after_push_brush_drag(stack, open, entity, start_brush, brush).0;
    if open && stack.len() > 0 && (stack.last() matches UndoEntry::BrushDrag { entity: e, .. } && e == entity) {
        assert(s1.drop_last() =~= stack.drop_last());
    } else {
        assert(s1.drop_last() =~= stack);
    }
}

} // verus!
