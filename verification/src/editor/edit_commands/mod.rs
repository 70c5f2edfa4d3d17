//! Edit commands and the undo records they leave behind.

pub mod add_brush;
pub mod add_entity;
pub mod add_pointlight;
pub mod clip_brush;
pub mod duplicate_brush;
pub mod remove_entity;
pub mod set_brush_material;
pub mod update_brush_drag;
pub mod update_point_transform;

use vstd::prelude::*;

verus! {

/// Everything an applied edit command leaves on the undo stack.
pub enum UndoCommand<B, T> {
    AddEntity(add_entity::Undo),
    ClipBrush(clip_brush::Command<B>),
    RemoveEntity(remove_entity::Undo<B>),
    SetBrushMaterial(set_brush_material::Undo),
    BrushDrag(update_brush_drag::Command<B>),
    PointTransform(update_point_transform::Undo<T>),
}

/// The record that results from merging `other` into `top`, when the two can
/// be merged: successive drags of one brush keep the first start state and the
/// last brush; successive moves of one point keep the first old transform.
pub open spec fn merged<B, T>(top: UndoCommand<B, T>, other: UndoCommand<B, T>) -> Option<UndoCommand<B, T>> {
    match (top, other) {
        (UndoCommand::BrushDrag(a), UndoCommand::BrushDrag(b)) => if a.entity == b.entity {
            Some(UndoCommand::BrushDrag(update_brush_drag::Command {
                entity: a.entity,
                start_brush: a.start_brush,
                brush: b.brush,
            }))
        } else {
            None
        },
        (UndoCommand::ClipBrush(a), UndoCommand::ClipBrush(b)) => if a.entity == b.entity {
            Some(UndoCommand::ClipBrush(clip_brush::Command {
                entity: a.entity,
                start_brush: a.start_brush,
                start_material_props: a.start_material_props,
                brush: b.brush,
                material_props: a.material_props,
            }))
        } else {
            None
        },
        (UndoCommand::PointTransform(a), UndoCommand::PointTransform(b)) => if a.entity == b.entity {
            Some(UndoCommand::PointTransform(a))
        } else {
            None
        },
        _ => None,
    }
}

impl<B, T> UndoCommand<B, T> {
    /// Merges `other` into this record when both record the same continuing
    /// edit of one entity. Gives `other` back when they cannot be merged.
    pub fn try_merge(&mut self, other: UndoCommand<B, T>) -> (rest: Option<UndoCommand<B, T>>)
        ensures
            match merged(*old(self), other) {
                Some(m) => *final(self) == m && rest is None,
                None => *final(self) == *old(self) && rest == Some(other),
            },
    {
        match (self, other) {
            (UndoCommand::BrushDrag(a), UndoCommand::BrushDrag(b)) => {
                if a.entity == b.entity {
                    a.brush = b.brush;
                    None
                } else {
                    Some(UndoCommand::BrushDrag(b))
                }
            },
            (UndoCommand::ClipBrush(a), UndoCommand::ClipBrush(b)) => {
                if a.entity == b.entity {
                    a.brush = b.brush;
                    None
                } else {
                    Some(UndoCommand::ClipBrush(b))
                }
            },
            (UndoCommand::PointTransform(a), UndoCommand::PointTransform(b)) => {
                if a.entity == b.entity {
                    None
                } else {
                    Some(UndoCommand::PointTransform(b))
                }
            },
            (_, other) => Some(other),
        }
    }
}

} // verus!
