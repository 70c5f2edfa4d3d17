use physics::editor::components::BrushMaterialProperties;
use physics::editor::edit_commands::{
    clip_brush, remove_entity, set_brush_material, update_brush_drag, update_point_transform,
    UndoCommand,
};
use physics::editor::undo::{UndoAction, UndoEntry, UndoStack};

type Stack = UndoStack<i32, i32>;

fn props(names: &[&str]) -> BrushMaterialProperties {
    BrushMaterialProperties { materials: names.iter().map(|s| s.to_string()).collect() }
}

#[test]
fn new_stack_is_empty_and_closed() {
    let s = Stack::new();
    assert!(s.stack.is_empty());
    assert!(!s.open);
    assert_eq!(s.remap_entity(7), 7);
}

#[test]
fn brush_drag_steps_coalesce_into_one_entry() {
    let mut s = Stack::new();
    s.push_brush_drag(1, 10, 11);
    s.push_brush_drag(1, 11, 12);
    s.push_brush_drag(1, 12, 13);
    assert_eq!(s.stack.len(), 1);
    assert!(s.open);
    match &s.stack[0] {
        UndoEntry::BrushDrag { entity, start_brush, brush } => {
            assert_eq!(*entity, 1);
            assert_eq!(*start_brush, 10);
            assert_eq!(*brush, 13);
        }
        _ => panic!("expected a brush drag"),
    }
}

#[test]
fn drag_after_commit_starts_new_entry() {
    let mut s = Stack::new();
    s.push_brush_drag(1, 10, 11);
    s.commit();
    assert!(!s.open);
    s.push_brush_drag(1, 11, 12);
    assert_eq!(s.stack.len(), 2);
    assert!(s.open);
}

#[test]
fn drag_of_other_brush_starts_new_entry() {
    let mut s = Stack::new();
    s.push_brush_drag(1, 10, 11);
    s.push_brush_drag(2, 20, 21);
    assert_eq!(s.stack.len(), 2);
    match &s.stack[1] {
        UndoEntry::BrushDrag { entity, start_brush, brush } => {
            assert_eq!((*entity, *start_brush, *brush), (2, 20, 21));
        }
        _ => panic!("expected a brush drag"),
    }
}

#[test]
fn point_drag_steps_coalesce_keeping_first_start() {
    let mut s = Stack::new();
    s.push_point_drag(5, 100, 101);
    s.push_point_drag(5, 101, 102);
    assert_eq!(s.stack.len(), 1);
    match &s.stack[0] {
        UndoEntry::PointDrag { entity, start_transform, transform } => {
            assert_eq!((*entity, *start_transform, *transform), (5, 100, 102));
        }
        _ => panic!("expected a point drag"),
    }
}

#[test]
fn generic_brush_drags_merge() {
    let mut s = Stack::new();
    s.push_generic(UndoCommand::BrushDrag(update_brush_drag::Command {
        entity: 3,
        start_brush: 1,
        brush: 2,
    }));
    s.push_generic(UndoCommand::BrushDrag(update_brush_drag::Command {
        entity: 3,
        start_brush: 2,
        brush: 9,
    }));
    assert_eq!(s.stack.len(), 1);
    match &s.stack[0] {
        UndoEntry::Generic { cmd: UndoCommand::BrushDrag(c) } => {
            assert_eq!((c.entity, c.start_brush, c.brush), (3, 1, 9));
        }
        _ => panic!("expected a merged drag"),
    }
}

#[test]
fn generic_commands_of_different_kind_do_not_merge() {
    let mut s = Stack::new();
    s.push_generic(UndoCommand::BrushDrag(update_brush_drag::Command {
        entity: 3,
        start_brush: 1,
        brush: 2,
    }));
    s.push_generic(UndoCommand::PointTransform(update_point_transform::Undo {
        entity: 3,
        old_transform: 4,
    }));
    assert_eq!(s.stack.len(), 2);
    assert!(s.open);
}

#[test]
fn point_transform_merge_keeps_first_old_transform() {
    let mut a: UndoCommand<i32, i32> =
        UndoCommand::PointTransform(update_point_transform::Undo { entity: 8, old_transform: 1 });
    let rest = a.try_merge(UndoCommand::PointTransform(update_point_transform::Undo {
        entity: 8,
        old_transform: 2,
    }));
    assert!(rest.is_none());
    match a {
        UndoCommand::PointTransform(u) => assert_eq!(u.old_transform, 1),
        _ => panic!("kind changed"),
    }
}

#[test]
fn try_merge_hands_back_unmergeable_command() {
    let mut a: UndoCommand<i32, i32> = UndoCommand::BrushDrag(update_brush_drag::Command {
        entity: 1,
        start_brush: 0,
        brush: 1,
    });
    let rest = a.try_merge(UndoCommand::BrushDrag(update_brush_drag::Command {
        entity: 2,
        start_brush: 5,
        brush: 6,
    }));
    match rest {
        Some(UndoCommand::BrushDrag(c)) => assert_eq!((c.entity, c.start_brush, c.brush), (2, 5, 6)),
        _ => panic!("expected the command back"),
    }
    match a {
        UndoCommand::BrushDrag(c) => assert_eq!(c.brush, 1),
        _ => panic!("kind changed"),
    }
}

#[test]
fn clip_merge_keeps_start_state_and_takes_new_brush() {
    let mut a: UndoCommand<i32, i32> = UndoCommand::ClipBrush(clip_brush::Command {
        entity: 4,
        start_brush: 1,
        start_material_props: props(&["a"]),
        brush: 2,
        material_props: props(&["b"]),
    });
    let rest = a.try_merge(UndoCommand::ClipBrush(clip_brush::Command {
        entity: 4,
        start_brush: 2,
        start_material_props: props(&["b"]),
        brush: 3,
        material_props: props(&["c"]),
    }));
    assert!(rest.is_none());
    match a {
        UndoCommand::ClipBrush(c) => {
            assert_eq!(c.start_brush, 1);
            assert_eq!(c.brush, 3);
            assert_eq!(c.start_material_props.materials, vec!["a".to_string()]);
            assert_eq!(c.material_props.materials, vec!["b".to_string()]);
        }
        _ => panic!("kind changed"),
    }
}

#[test]
fn entity_add_and_material_set_are_recorded() {
    let mut s = Stack::new();
    s.push_entity_add(11);
    s.push_matrial_set(11, 2, "old".to_string(), "new".to_string());
    assert_eq!(s.stack.len(), 2);
    assert!(!s.open);
    assert!(matches!(s.stack[0], UndoEntry::EntityAdd { entity: 11 }));
    match &s.stack[1] {
        UndoEntry::MaterialSet { entity, face, old_material, material } => {
            assert_eq!((*entity, *face), (11, 2));
            assert_eq!(old_material, "old");
            assert_eq!(material, "new");
        }
        _ => panic!("expected a material set"),
    }
}

#[test]
fn pop_returns_last_entry() {
    let mut s = Stack::new();
    s.push_entity_add(1);
    s.push_entity_add(2);
    let e = s.pop_entry();
    assert!(matches!(e, Some(UndoEntry::EntityAdd { entity: 2 })));
    assert_eq!(s.stack.len(), 1);
    let e = s.pop_entry();
    assert!(matches!(e, Some(UndoEntry::EntityAdd { entity: 1 })));
    assert!(s.pop_entry().is_none());
}

#[test]
fn recreated_entity_is_remapped() {
    let mut s = Stack::new();
    s.push_brush_remove(7, 1, props(&["m"]));
    s.record_recreated(7, 70);
    assert_eq!(s.remap_entity(7), 70);
    assert_eq!(s.remap_entity(8), 8);
    s.record_recreated(7, 71);
    assert_eq!(s.remap_entity(7), 71);
}

#[test]
fn set_material_then_undo_restores() {
    let mut p = props(&["a", "b", "c"]);
    let cmd = set_brush_material::Command { entity: 1, face: 1, material: "x".to_string() };
    let undo = cmd.apply(&mut p);
    assert_eq!(p.materials, vec!["a", "x", "c"]);
    assert_eq!(undo.old_material, "b");
    assert_eq!(undo.face, 1);
    undo.undo(&mut p);
    assert_eq!(p.materials, vec!["a", "b", "c"]);
}

#[test]
fn remove_entity_undo_record() {
    let cmd = remove_entity::Command { entity: 9 };
    let u: remove_entity::Undo<i32> = cmd.undo_record(Some((5, props(&["q"]))));
    match u {
        remove_entity::Undo::Brush { entity, brush, material_props } => {
            assert_eq!((entity, brush), (9, 5));
            assert_eq!(material_props.materials, vec!["q"]);
        }
        _ => panic!("expected a brush record"),
    }
    let cmd = remove_entity::Command { entity: 9 };
    let u: remove_entity::Undo<i32> = cmd.undo_record(None);
    assert!(matches!(u, remove_entity::Undo::NotImplemented));
}

#[test]
fn applied_command_is_recorded() {
    let mut s = Stack::new();
    let cmd = UndoCommand::<i32, i32>::PointTransform(update_point_transform::Undo {
        entity: 4,
        old_transform: 40,
    });
    let res: Result<(), String> = s.record_applied(Ok(cmd));
    assert!(res.is_ok());
    assert_eq!(s.stack.len(), 1);
    assert!(s.open);
}

#[test]
fn failed_command_leaves_history_unchanged() {
    let mut s = Stack::new();
    s.push_entity_add(3);
    s.commit();
    let res = s.record_applied(Err("no such brush".to_string()));
    assert_eq!(res, Err("no such brush".to_string()));
    assert_eq!(s.stack.len(), 1);
    assert!(!s.open);
}

#[test]
fn undo_step_on_empty_history_does_nothing() {
    let mut s = Stack::new();
    assert!(matches!(s.undo_step(), UndoAction::Nothing));
    assert!(s.stack.is_empty());
}

#[test]
fn undo_step_restores_material_of_recreated_brush() {
    let mut s = Stack::new();
    s.push_matrial_set(5, 2, "old".to_string(), "new".to_string());
    s.record_recreated(5, 9);
    match s.undo_step() {
        UndoAction::SetMaterial { entity, face, old_material } => {
            assert_eq!(entity, 9);
            assert_eq!(face, 2);
            assert_eq!(old_material, "old");
        }
        _ => panic!("expected a material change"),
    }
    assert!(s.stack.is_empty());
}

#[test]
fn undo_step_recreates_removed_brush() {
    let mut s = Stack::new();
    s.push_brush_remove(6, 60, props(&["a", "b"]));
    match s.undo_step() {
        UndoAction::Recreate { entity, brush, material_props } => {
            assert_eq!((entity, brush), (6, 60));
            assert_eq!(material_props.materials, vec!["a".to_string(), "b".to_string()]);
        }
        _ => panic!("expected a recreation"),
    }
}

#[test]
fn undo_step_restores_start_of_point_drag() {
    let mut s = Stack::new();
    s.push_point_drag(7, 70, 71);
    s.push_point_drag(7, 71, 72);
    s.commit();
    match s.undo_step() {
        UndoAction::RestoreTransform { entity, start_transform } => {
            assert_eq!((entity, start_transform), (7, 70));
        }
        _ => panic!("expected a transform"),
    }
    assert!(s.stack.is_empty());
}

#[test]
fn undo_step_hands_back_last_command() {
    let mut s = Stack::new();
    s.push_entity_add(1);
    let cmd = UndoCommand::<i32, i32>::PointTransform(update_point_transform::Undo {
        entity: 8,
        old_transform: 80,
    });
    s.push_generic(cmd);
    match s.undo_step() {
        UndoAction::Generic { cmd: UndoCommand::PointTransform(u) } => {
            assert_eq!((u.entity, u.old_transform), (8, 80));
        }
        _ => panic!("expected the recorded command"),
    }
    assert_eq!(s.stack.len(), 1);
}

#[test]
fn clipped_brush_command_starts_from_clipped_brush() {
    let c = clip_brush::Command::from_clipped(3, 33, props(&["x", "y"]));
    assert_eq!(c.entity, 3);
    assert_eq!(c.brush, 33);
    assert_eq!(c.start_brush, 33);
    assert_eq!(c.start_material_props.materials, c.material_props.materials);
}

#[test]
fn clip_keys_choose_half_and_leave_clip_mode() {
    let red = || Some((1, props(&["r"])));
    let green = || Some((2, props(&["g"])));
    let (cmd, leave) = clip_brush::clip_apply_command(true, true, 5, red(), green());
    assert!(leave);
    assert_eq!(cmd.unwrap().brush, 1);
    let (cmd, leave) = clip_brush::clip_apply_command(false, true, 5, red(), green());
    assert!(leave);
    assert_eq!(cmd.unwrap().brush, 2);
    let (cmd, leave) = clip_brush::clip_apply_command(false, true, 5, red(), None);
    assert!(leave);
    assert!(cmd.is_none());
    let (cmd, leave) = clip_brush::clip_apply_command(false, false, 5, red(), green());
    assert!(!leave);
    assert!(cmd.is_none());
}
