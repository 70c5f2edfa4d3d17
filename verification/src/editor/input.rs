use vstd::prelude::*;

verus! {

/// The editor's keys in one frame: left shift (which grabs the cursor and
/// suspends the other keys while held) and the keys that edit the level.
#[derive(Debug, Clone, Copy, PartialEq, Eq, Structural)]
pub struct EditorKeys {
    pub shift_just_pressed: bool,
    pub shift_just_released: bool,
    pub shift_held: bool,
    /// B: add a brush.
    pub add_brush: bool,
    /// D: duplicate the selected brush.
    pub duplicate: bool,
    /// L: add a point light.
    pub add_light: bool,
    /// K: add a row of lights.
    pub add_light_row: bool,
    /// X: remove the selected entity.
    pub remove: bool,
    /// C: toggle clip mode.
    pub toggle_clip: bool,
}

/// What happens to the cursor grab of the editor window.
#[derive(Debug, Clone, Copy, PartialEq, Eq, Structural)]
pub enum CursorGrab {
    Confine,
    Release,
}

/// An edit that the keys ask for, in the order the editor carries them out.
#[derive(Debug, Clone, Copy, PartialEq, Eq, Structural)]
pub enum EditorAction {
    AddBrush,
    DuplicateSelected,
    AddPointLight,
    AddLightRow,
    RemoveSelected,
    ToggleClipMode,
    /// Deselect the entities that were selected when the frame began.
    ClearSelection,
}

/// The cursor grab change: releasing shift wins over pressing it in the
/// same frame.
pub open spec fn spec_cursor_grab(keys: EditorKeys) -> Option<CursorGrab> {
    if keys.shift_just_released {
        Some(CursorGrab::Release)
    } else if keys.shift_just_pressed {
        Some(CursorGrab::Confine)
    } else {
        None
    }
}

pub open spec fn when(cond: bool, a: EditorAction) -> Seq<EditorAction> {
    if cond {
        seq![a]
    } else {
        Seq::empty()
    }
}

/// The edits of a frame. Nothing happens while shift is held. Duplicating
/// and removing need exactly one selected entity. Adding a brush, a light or
/// a duplicate deselects, afterwards, what was selected before the frame.
pub open spec fn spec_key_actions(keys: EditorKeys, single_selection: bool) -> Seq<EditorAction> {
    if keys.shift_held {
        Seq::empty()
    } else {
        let clear = keys.add_brush || (keys.duplicate && single_selection) || keys.add_light;
        when(keys.add_brush, EditorAction::AddBrush) + when(
            keys.duplicate && single_selection,
            EditorAction::DuplicateSelected,
        ) + when(keys.add_light, EditorAction::AddPointLight) + when(
            keys.add_light_row,
            EditorAction::AddLightRow,
        ) + when(keys.remove && single_selection, EditorAction::RemoveSelected) + when(
            keys.toggle_clip,
            EditorAction::ToggleClipMode,
        ) + when(clear, EditorAction::ClearSelection)
    }
}

fn push_when(actions: &mut Vec<EditorAction>, cond: bool, a: EditorAction)
    ensures
        final(actions)@ == old(actions)@ + when(cond, a),
{
    if cond {
        actions.push(a);
    }
    proof {
        assert(final(actions)@ =~= old(actions)@ + when(cond, a));
    }
}

/// Reads the editor's keys for one frame: the change of cursor grab and the
/// edits to carry out, in order.
pub fn editor_key_actions(keys: &EditorKeys, single_selection: bool) -> (res: (
    Option<CursorGrab>,
    Vec<EditorAction>,
))
    ensures
        res.0 == spec_cursor_grab(*keys),
        res.1@ == spec_key_actions(*keys, single_selection),
{
    let grab = if keys.shift_just_released {
        Some(CursorGrab::Release)
    } else if keys.shift_just_pressed {
        Some(CursorGrab::Confine)
    } else {
        None
    };
    let mut actions: Vec<EditorAction> = Vec::new();
    if keys.shift_held {
        proof {
            assert(actions@ =~= spec_key_actions(*keys, single_selection));
        }
        return (grab, actions);
    }
    let duplicate = keys.duplicate && single_selection;
    let clear = keys.add_brush || duplicate || keys.add_light;
    push_when(&mut actions, keys.add_brush, EditorAction::AddBrush);
    push_when(&mut actions, duplicate, EditorAction::DuplicateSelected);
    push_when(&mut actions, keys.add_light, EditorAction::AddPointLight);
    push_when(&mut actions, keys.add_light_row, EditorAction::AddLightRow);
    push_when(&mut actions, keys.remove && single_selection, EditorAction::RemoveSelected);
    push_when(&mut actions, keys.toggle_clip, EditorAction::ToggleClipMode);
    push_when(&mut actions, clear, EditorAction::ClearSelection);
    (grab, actions)
}

/// Clearing the selection, when it happens, is the last action of the
/// frame. It deselects the entities that were selected when the frame began;
/// a brush, light or duplicate created in the frame is created selected and
/// stays so, becoming the new selection.
pub proof fn lemma_clear_selection_comes_last(keys: EditorKeys, single_selection: bool, i: int)
    requires
        0 <= i < spec_key_actions(keys, single_selection).len(),
        spec_key_actions(keys, single_selection)[i] == EditorAction::ClearSelection,
    ensures
        i == spec_key_actions(keys, single_selection).len() - 1,
{
}

/// Scene file operations, in the order the editor carries them out.
#[derive(Debug, Clone, Copy, PartialEq, Eq, Structural)]
pub enum SceneAction {
    /// Remove every brush and light, and empty the spatial index.
    ClearScene,
    /// Write the brushes and lights to the scene file.
    SaveScene,
    /// Read the brushes and lights back from the scene file.
    LoadScene,
    /// Import the brushes of a level in the wsx format.
    ImportLevel,
}

pub open spec fn when_scene(cond: bool, a: SceneAction) -> Seq<SceneAction> {
    if cond {
        seq![a]
    } else {
        Seq::empty()
    }
}

/// F5 saves; F6 clears and loads the saved scene; F7 clears and imports a
/// level. Saving comes first, so a save in the same frame as a clear still
/// writes the whole scene; then clearing, loading and importing.
pub open spec fn spec_scene_actions(save: bool, load: bool, import: bool) -> Seq<SceneAction> {
    when_scene(save, SceneAction::SaveScene) + when_scene(load || import, SceneAction::ClearScene)
        + when_scene(load, SceneAction::LoadScene) + when_scene(import, SceneAction::ImportLevel)
}

pub fn scene_key_actions(save: bool, load: bool, import: bool) -> (res: Vec<SceneAction>)
    ensures
        res@ == spec_scene_actions(save, load, import),
{
    let mut res: Vec<SceneAction> = Vec::new();
    if save {
        res.push(SceneAction::SaveScene);
    }
    if load || import {
        res.push(SceneAction::ClearScene);
    }
    if load {
        res.push(SceneAction::LoadScene);
    }
    if import {
        res.push(SceneAction::ImportLevel);
    }
    proof {
        assert(res@ =~= spec_scene_actions(save, load, import));
    }
    res
}

} // verus!
