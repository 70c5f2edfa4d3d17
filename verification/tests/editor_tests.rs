use physics::editor::clip::{
    chosen_half, clip_mode_change, preview_needs_update, ClipHalf, ClipModeChange, ClipPointAction,
    ClipPoints, NextClipPoint,
};
use physics::editor::components::{BrushMaterialProperties, DEFAULT_BRUSH_MATERIAL};
use physics::editor::csg_update::{affected_entities, clip_partners};
use physics::editor::input::{
    editor_key_actions, scene_key_actions, CursorGrab, EditorAction, EditorKeys, SceneAction,
};
use physics::editor::materials::{default_appearance_materials, Materials};
use physics::editor::selection::{
    entities_to_deselect, face_click, same_entities, selection_change, FaceClick, Selection,
};
use physics::editor::util::{material_groups, Orientation2d, WmModifiers, WmMouseButton};
use physics::editor::wm::{
    click_role, pointer_event, pressed_button, ClickRole, PointerButtons, PointerResponse,
    WmEventKind, WmSidpanelContent,
};

fn no_mods() -> WmModifiers {
    WmModifiers { shift: false, ctrl: false, alt: false }
}

fn response() -> PointerResponse {
    PointerResponse {
        interacting: true,
        drag_started: false,
        dragged: false,
        drag_released: false,
        clicked: false,
        secondary_clicked: false,
        modifiers: no_mods(),
    }
}

fn keys() -> EditorKeys {
    EditorKeys {
        shift_just_pressed: false,
        shift_just_released: false,
        shift_held: false,
        add_brush: false,
        duplicate: false,
        add_light: false,
        add_light_row: false,
        remove: false,
        toggle_clip: false,
    }
}

// --- window manager ---

#[test]
fn pressed_button_prefers_primary_then_middle() {
    let b = |p, m, s| PointerButtons { primary: p, middle: m, secondary: s };
    assert_eq!(pressed_button(&b(true, true, true)), WmMouseButton::Left);
    assert_eq!(pressed_button(&b(false, true, true)), WmMouseButton::Middle);
    assert_eq!(pressed_button(&b(false, false, true)), WmMouseButton::Right);
    assert_eq!(pressed_button(&b(false, false, false)), WmMouseButton::Left);
}

#[test]
fn right_drag_start_update_end() {
    let mut active = false;
    let mut r = response();
    r.drag_started = true;
    assert_eq!(pointer_event(WmMouseButton::Right, &r, &mut active), Some(WmEventKind::DragStart(WmMouseButton::Right)));
    assert!(active);
    let mut r = response();
    r.dragged = true;
    assert_eq!(pointer_event(WmMouseButton::Right, &r, &mut active), Some(WmEventKind::DragUpdate(WmMouseButton::Right)));
    assert!(active);
    let mut r = response();
    r.drag_released = true;
    assert_eq!(pointer_event(WmMouseButton::Right, &r, &mut active), Some(WmEventKind::DragEnd(WmMouseButton::Right)));
    assert!(!active);
}

#[test]
fn left_button_clicks_without_ctrl() {
    let mut active = false;
    let mut r = response();
    r.drag_started = true;
    r.clicked = true;
    assert_eq!(pointer_event(WmMouseButton::Left, &r, &mut active), Some(WmEventKind::Clicked(WmMouseButton::Left)));
    assert!(!active);
    let mut r = response();
    r.secondary_clicked = true;
    assert_eq!(pointer_event(WmMouseButton::Left, &r, &mut active), Some(WmEventKind::Clicked(WmMouseButton::Right)));
}

#[test]
fn left_drag_needs_ctrl() {
    let mut active = false;
    let mut r = response();
    r.drag_started = true;
    r.modifiers.ctrl = true;
    assert_eq!(pointer_event(WmMouseButton::Left, &r, &mut active), Some(WmEventKind::DragStart(WmMouseButton::Left)));
    assert!(active);
    // the drag continues without ctrl
    let mut r = response();
    r.dragged = true;
    assert_eq!(pointer_event(WmMouseButton::Left, &r, &mut active), Some(WmEventKind::DragUpdate(WmMouseButton::Left)));
}

#[test]
fn drag_update_without_active_drag_sends_nothing() {
    let mut active = false;
    let mut r = response();
    r.dragged = true;
    assert_eq!(pointer_event(WmMouseButton::Middle, &r, &mut active), None);
    let mut r = response();
    r.drag_released = true;
    assert_eq!(pointer_event(WmMouseButton::Middle, &r, &mut active), None);
    assert!(!active);
}

#[test]
fn no_event_without_pointer() {
    let mut active = true;
    let mut r = response();
    r.interacting = false;
    r.drag_released = true;
    assert_eq!(pointer_event(WmMouseButton::Right, &r, &mut active), None);
    assert!(active);
}

#[test]
fn click_roles_by_modifier() {
    let mut m = no_mods();
    assert_eq!(click_role(&m), ClickRole::Select);
    m.alt = true;
    assert_eq!(click_role(&m), ClickRole::ClipPoint);
    m.shift = true;
    assert_eq!(click_role(&m), ClickRole::ClipCursor);
    m.alt = false;
    assert_eq!(click_role(&m), ClickRole::Select);
}

#[test]
fn side_panel_defaults_to_materials() {
    assert_eq!(WmSidpanelContent::default(), WmSidpanelContent::Material);
    assert_eq!(WmMouseButton::default(), WmMouseButton::Left);
}

// --- selection ---

#[test]
fn repeated_clicks_cycle_through_hits() {
    let mut sel = Selection::new();
    assert_eq!(sel.pick(vec![1, 2, 3]), Some(1));
    assert_eq!(sel.pick(vec![1, 2, 3]), Some(2));
    assert_eq!(sel.pick(vec![1, 2, 3]), Some(3));
    assert_eq!(sel.pick(vec![1, 2, 3]), Some(1));
    assert_eq!(sel.last_set_index, 3);
    assert_eq!(sel.primary, Some(1));
}

#[test]
fn other_hits_start_over() {
    let mut sel = Selection::new();
    assert_eq!(sel.pick(vec![1, 2]), Some(1));
    assert_eq!(sel.pick(vec![1, 2]), Some(2));
    assert_eq!(sel.pick(vec![2, 1]), Some(2));
    assert_eq!(sel.last_set_index, 0);
    assert_eq!(sel.last_set, vec![2, 1]);
}

#[test]
fn empty_hits_pick_nothing() {
    let mut sel = Selection::new();
    assert_eq!(sel.pick(vec![]), None);
    assert_eq!(sel.last_set_index, 1);
    assert_eq!(sel.pick(vec![4]), Some(4));
}

#[test]
fn same_entities_compares_elementwise() {
    assert!(same_entities(&vec![1, 2], &vec![1, 2]));
    assert!(!same_entities(&vec![1, 2], &vec![2, 1]));
    assert!(!same_entities(&vec![1], &vec![1, 1]));
    assert!(same_entities(&vec![], &vec![]));
}

#[test]
fn deselect_all_but_primary() {
    assert_eq!(entities_to_deselect(&vec![1, 2, 3], Some(2)), vec![1, 3]);
    assert_eq!(entities_to_deselect(&vec![1, 2], None), vec![1, 2]);
    assert_eq!(entities_to_deselect(&vec![2], Some(2)), Vec::<u64>::new());
}

#[test]
fn selection_change_differences() {
    let (off, on) = selection_change(&vec![1, 2, 3], &vec![3, 4]);
    assert_eq!(off, vec![1, 2]);
    assert_eq!(on, vec![4]);
    let (off, on) = selection_change(&vec![5], &vec![5]);
    assert!(off.is_empty() && on.is_empty());
}

#[test]
fn face_click_actions() {
    assert_eq!(face_click(WmMouseButton::Left, true, true), FaceClick::AssignMaterial);
    assert_eq!(face_click(WmMouseButton::Left, true, false), FaceClick::Nothing);
    assert_eq!(face_click(WmMouseButton::Right, true, true), FaceClick::PickMaterial);
    assert_eq!(face_click(WmMouseButton::Middle, true, true), FaceClick::Nothing);
    assert_eq!(face_click(WmMouseButton::Right, false, true), FaceClick::Nothing);
}

// --- clip ---

#[test]
fn clip_points_spawn_then_cycle() {
    let mut c = ClipPoints::new();
    assert_eq!(c.place_point(), ClipPointAction::Spawn(0));
    assert_eq!(c.place_point(), ClipPointAction::Spawn(1));
    assert_eq!(c.place_point(), ClipPointAction::Spawn(2));
    assert_eq!(c.next_point, 0);
    assert_eq!(c.place_point(), ClipPointAction::Move(0));
    assert_eq!(c.place_point(), ClipPointAction::Move(1));
    assert_eq!(c.place_point(), ClipPointAction::Move(2));
    assert_eq!(c.place_point(), ClipPointAction::Move(0));
    assert_eq!(c.next_point, 4);
    c.reset_order();
    assert_eq!(c.place_point(), ClipPointAction::Move(0));
}

#[test]
fn plane_tool_sets_one_then_two_points() {
    let s = NextClipPoint::default();
    let (pts, s) = s.advance();
    assert_eq!(pts, vec![0]);
    assert_eq!(s, NextClipPoint::Point1);
    let (pts, s) = s.advance();
    assert_eq!(pts, vec![1, 2]);
    assert_eq!(s, NextClipPoint::Point0);
}

#[test]
fn clip_mode_transitions() {
    assert_eq!(clip_mode_change(true, false), ClipModeChange::Enter);
    assert_eq!(clip_mode_change(false, true), ClipModeChange::Leave);
    assert_eq!(clip_mode_change(true, true), ClipModeChange::Stay);
    assert_eq!(clip_mode_change(false, false), ClipModeChange::Stay);
}

#[test]
fn clip_preview_update_and_half_choice() {
    assert!(!preview_needs_update(false, false, true, true, false, false));
    assert!(preview_needs_update(false, false, true, false, false, false));
    assert!(preview_needs_update(true, false, false, false, false, false));
    assert!(preview_needs_update(false, false, false, false, false, true));
    assert_eq!(chosen_half(true, true), Some(ClipHalf::Red));
    assert_eq!(chosen_half(false, true), Some(ClipHalf::Green));
    assert_eq!(chosen_half(false, false), None);
}

// --- keys ---

#[test]
fn add_brush_clears_selection_last() {
    let mut k = keys();
    k.add_brush = true;
    k.toggle_clip = true;
    let (grab, actions) = editor_key_actions(&k, false);
    assert_eq!(grab, None);
    assert_eq!(actions, vec![EditorAction::AddBrush, EditorAction::ToggleClipMode, EditorAction::ClearSelection]);
}

#[test]
fn duplicate_and_remove_need_single_selection() {
    let mut k = keys();
    k.duplicate = true;
    k.remove = true;
    let (_, actions) = editor_key_actions(&k, false);
    assert!(actions.is_empty());
    let (_, actions) = editor_key_actions(&k, true);
    assert_eq!(
        actions,
        vec![EditorAction::DuplicateSelected, EditorAction::RemoveSelected, EditorAction::ClearSelection]
    );
}

#[test]
fn light_row_does_not_clear_selection() {
    let mut k = keys();
    k.add_light_row = true;
    let (_, actions) = editor_key_actions(&k, true);
    assert_eq!(actions, vec![EditorAction::AddLightRow]);
    let mut k = keys();
    k.add_light = true;
    let (_, actions) = editor_key_actions(&k, true);
    assert_eq!(actions, vec![EditorAction::AddPointLight, EditorAction::ClearSelection]);
}

#[test]
fn shift_grabs_cursor_and_suspends_keys() {
    let mut k = keys();
    k.shift_just_pressed = true;
    k.shift_held = true;
    k.add_brush = true;
    let (grab, actions) = editor_key_actions(&k, true);
    assert_eq!(grab, Some(CursorGrab::Confine));
    assert!(actions.is_empty());
    let mut k = keys();
    k.shift_just_pressed = true;
    k.shift_just_released = true;
    let (grab, _) = editor_key_actions(&k, true);
    assert_eq!(grab, Some(CursorGrab::Release));
}

#[test]
fn scene_keys() {
    assert_eq!(scene_key_actions(true, false, false), vec![SceneAction::SaveScene]);
    assert_eq!(scene_key_actions(false, true, false), vec![SceneAction::ClearScene, SceneAction::LoadScene]);
    assert_eq!(scene_key_actions(false, false, true), vec![SceneAction::ClearScene, SceneAction::ImportLevel]);
    assert_eq!(
        scene_key_actions(true, true, true),
        vec![SceneAction::SaveScene, SceneAction::ClearScene, SceneAction::LoadScene, SceneAction::ImportLevel]
    );
    assert!(scene_key_actions(false, false, false).is_empty());
}

// --- incremental csg ---

#[test]
fn affected_brushes_are_changed_and_near_ones_once() {
    let res = affected_entities(&vec![1, 2], &vec![vec![1, 3, 4], vec![2, 4, 5]]);
    assert_eq!(res, vec![1, 2, 3, 4, 5]);
    let res = affected_entities(&vec![], &vec![]);
    assert!(res.is_empty());
}

#[test]
fn clip_partners_skip_self_and_break_ties_by_id() {
    let res = clip_partners(5, &vec![3, 5, 8]);
    assert_eq!(res, vec![(3, false), (8, true)]);
    // the other side of each pair decides the other way
    assert_eq!(clip_partners(3, &vec![5]), vec![(5, true)]);
    assert_eq!(clip_partners(8, &vec![5]), vec![(5, false)]);
}

// --- components and materials ---

#[test]
fn new_brush_materials_are_default() {
    let p = BrushMaterialProperties::for_new_brush(6);
    assert_eq!(p.materials.len(), 6);
    assert!(p.materials.iter().all(|m| m == DEFAULT_BRUSH_MATERIAL));
    let q = p.duplicate();
    assert_eq!(q.materials, p.materials);
}

#[test]
fn remapped_materials_follow_faces() {
    let p = BrushMaterialProperties { materials: vec!["a".to_string(), "b".to_string(), "c".to_string()] };
    let r = p.remapped(&vec![2, 0, 7, -1], "new");
    assert_eq!(r.materials, vec!["c", "a", "new", "new"]);
}

#[test]
fn replace_material_returns_previous() {
    let mut p = BrushMaterialProperties::uniform(2, "x");
    let old = p.replace_material(1, "y".to_string());
    assert_eq!(old, "x");
    assert_eq!(p.materials, vec!["x", "y"]);
}

#[test]
fn material_groups_by_sorted_name() {
    let names = vec!["m2".to_string(), "m1".to_string(), "m2".to_string()];
    let (unique, groups) = material_groups(&names);
    assert_eq!(unique, vec!["m1", "m2"]);
    assert_eq!(groups, vec![1, 0, 1]);
}

#[test]
fn symlink_update_only_for_linked_appearance() {
    let mut links = Materials::new();
    links.insert_link("appearance/a".to_string(), "material/x".to_string());
    assert!(!links.has_dirty());
    links.update_symlink("appearance/b".to_string(), "material/y".to_string());
    assert!(!links.has_dirty());
    assert_eq!(links.resolve("appearance/b"), "appearance/b");
    links.update_symlink("appearance/a".to_string(), "material/y".to_string());
    assert!(links.is_dirty("appearance/a"));
    assert_eq!(links.resolve("appearance/a"), "material/y");
    links.clear_dirty();
    assert!(!links.has_dirty());
}

#[test]
fn default_links_go_to_unlinked_names_in_order() {
    let mut links = Materials::new();
    links.insert_link("b".to_string(), "keep".to_string());
    let names = vec!["a".to_string(), "b".to_string(), "c".to_string()];
    let pool = default_appearance_materials();
    assert_eq!(links.missing_count(&names), 2);
    links.assign_default_links(&names, &pool);
    assert_eq!(links.resolve("a"), "material/floors/bathroomtile2");
    assert_eq!(links.resolve("b"), "keep");
    assert_eq!(links.resolve("c"), "material/floors/bathroomtile1");
    assert!(links.contains("c"));
}

#[test]
fn orientation_axes() {
    let o = Orientation2d::default();
    assert_eq!(o, Orientation2d::DownFront);
    assert_eq!((o.up_axis(), o.right_axis(), o.depth_axis()), (2, 0, 1));
    assert_eq!(o.flipped(), Orientation2d::DownRight);
    assert_eq!(o.flipped().flipped(), o);
    let f = Orientation2d::Front;
    assert_eq!((f.up_axis(), f.right_axis(), f.depth_axis()), (1, 0, 2));
    assert_eq!(Orientation2d::Right.depth_axis(), 0);
}

#[test]
fn no_click_while_dragging() {
    let mut active = true;
    let mut r = response();
    r.clicked = true;
    r.secondary_clicked = true;
    assert_eq!(pointer_event(WmMouseButton::Left, &r, &mut active), None);
    assert!(active);
}
