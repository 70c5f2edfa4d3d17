use vstd::prelude::*;

use crate::editor::util::{Orientation2d, WmModifiers, WmMouseButton};

verus! {

/// Which pointer buttons are held down during a frame.
#[derive(Debug, Clone, Copy, PartialEq, Eq, Structural)]
pub struct PointerButtons {
    pub primary: bool,
    pub middle: bool,
    pub secondary: bool,
}

/// The button a pointer event is reported with: the first one held down of
/// primary, middle and secondary, and `Left` when none is.
pub open spec fn spec_pressed_button(b: PointerButtons) -> WmMouseButton {
    if b.primary {
        WmMouseButton::Left
    } else if b.middle {
        WmMouseButton::Middle
    } else if b.secondary {
        WmMouseButton::Right
    } else {
        WmMouseButton::Left
    }
}

/// Picks the button that a pointer event of this frame is reported with.
pub fn pressed_button(buttons: &PointerButtons) -> (res: WmMouseButton)
    ensures
        res == spec_pressed_button(*buttons),
{
    if buttons.primary {
        WmMouseButton::Left
    } else if buttons.middle {
        WmMouseButton::Middle
    } else if buttons.secondary {
        WmMouseButton::Right
    } else {
        WmMouseButton::Left
    }
}

/// What the gui reported about one view in one frame.
#[derive(Debug, Clone, Copy, PartialEq, Eq, Structural)]
pub struct PointerResponse {
    /// The pointer interacts with the view (it has a position there).
    pub interacting: bool,
    pub drag_started: bool,
    pub dragged: bool,
    pub drag_released: bool,
    pub clicked: bool,
    pub secondary_clicked: bool,
    pub modifiers: WmModifiers,
}

/// The pointer events a view sends to the editor; the position and the
/// window travel beside them.
#[derive(Debug, Clone, Copy, PartialEq, Eq, Structural)]
pub enum WmEventKind {
    Clicked(WmMouseButton),
    DragStart(WmMouseButton),
    DragUpdate(WmMouseButton),
    DragEnd(WmMouseButton),
}

/// A drag may run with the middle or right button, with ctrl held, or when
/// one is already running in the view; else the left button clicks.
pub open spec fn drag_allowed(button: WmMouseButton, resp: PointerResponse, drag_active: bool) -> bool {
    button == WmMouseButton::Middle || button == WmMouseButton::Right || resp.modifiers.ctrl
        || drag_active
}

/// The event a view sends for one frame's response, given whether a drag
/// runs in it.
pub open spec fn spec_pointer_event(button: WmMouseButton, resp: PointerResponse, drag_active: bool) -> Option<
    WmEventKind,
> {
    if !resp.interacting {
        None
    } else if drag_allowed(button, resp, drag_active) {
        if resp.drag_started {
            Some(WmEventKind::DragStart(button))
        } else if resp.dragged && drag_active {
            Some(WmEventKind::DragUpdate(button))
        } else if resp.drag_released && drag_active {
            Some(WmEventKind::DragEnd(button))
        } else {
            None
        }
    } else if resp.clicked {
        Some(WmEventKind::Clicked(WmMouseButton::Left))
    } else if resp.secondary_clicked {
        Some(WmEventKind::Clicked(WmMouseButton::Right))
    } else {
        None
    }
}

/// Whether a drag runs in the view after the event: a start begins one, an
/// end finishes it, anything else leaves it as it was.
pub open spec fn drag_active_after(drag_active: bool, event: Option<WmEventKind>) -> bool {
    match event {
        Some(WmEventKind::DragStart(_)) => true,
        Some(WmEventKind::DragEnd(_)) => false,
        _ => drag_active,
    }
}

/// Turns a view's pointer response into at most one editor event, and keeps
/// track of whether a drag runs in the view.
pub fn pointer_event(button: WmMouseButton, resp: &PointerResponse, drag_active: &mut bool) -> (res:
    Option<WmEventKind>)
    ensures
        res == spec_pointer_event(button, *resp, *old(drag_active)),
        *final(drag_active) == drag_active_after(*old(drag_active), res),
{
    if !resp.interacting {
        return None;
    }
    let allowed = button == WmMouseButton::Middle || button == WmMouseButton::Right
        || resp.modifiers.ctrl || *drag_active;
    if allowed {
        if resp.drag_started {
            *drag_active = true;
            Some(WmEventKind::DragStart(button))
        } else if resp.dragged && *drag_active {
            Some(WmEventKind::DragUpdate(button))
        } else if resp.drag_released && *drag_active {
            *drag_active = false;
            Some(WmEventKind::DragEnd(button))
        } else {
            None
        }
    } else if resp.clicked {
        Some(WmEventKind::Clicked(WmMouseButton::Left))
    } else if resp.secondary_clicked {
        Some(WmEventKind::Clicked(WmMouseButton::Right))
    } else {
        None
    }
}

/// A view reports drag updates and drag ends only while a drag that it
/// started runs: neither comes without a running drag, and an end leaves
/// none running.
pub proof fn lemma_drag_events_bracketed(button: WmMouseButton, resp: PointerResponse, drag_active: bool)
    ensures
        spec_pointer_event(button, resp, drag_active) matches Some(WmEventKind::DragUpdate(_))
            ==> drag_active && drag_active_after(drag_active, spec_pointer_event(button, resp, drag_active)),
        spec_pointer_event(button, resp, drag_active) matches Some(WmEventKind::DragEnd(_))
            ==> drag_active && !drag_active_after(drag_active, spec_pointer_event(button, resp, drag_active)),
        !drag_active && drag_active_after(drag_active, spec_pointer_event(button, resp, drag_active))
            ==> spec_pointer_event(button, resp, drag_active) matches Some(WmEventKind::DragStart(_)),
{
}

/// While a drag runs, the view sends no clicks: every event it sends
/// belongs to the drag.
pub proof fn lemma_no_click_during_drag(button: WmMouseButton, resp: PointerResponse)
    ensures
        !(spec_pointer_event(button, resp, true) matches Some(WmEventKind::Clicked(_))),
{
}

/// What a left click in a 2d view does, by the modifier keys held.
#[derive(Debug, Clone, Copy, PartialEq, Eq, Structural)]
pub enum ClickRole {
    /// Pick an object under the pointer.
    Select,
    /// Move the clip cursor to the pointer (alt and shift).
    ClipCursor,
    /// Place a clip point (alt alone).
    ClipPoint,
}

/// Sorts a left click by its modifiers: without alt it selects; with alt it
/// places a clip point, or with shift too it moves the clip cursor.
pub fn click_role(modifiers: &WmModifiers) -> (res: ClickRole)
    ensures
        !modifiers.alt ==> res == ClickRole::Select,
        modifiers.alt && modifiers.shift ==> res == ClickRole::ClipCursor,
        modifiers.alt && !modifiers.shift ==> res == ClickRole::ClipPoint,
{
    if !modifiers.alt {
        ClickRole::Select
    } else if modifiers.shift {
        ClickRole::ClipCursor
    } else {
        ClickRole::ClipPoint
    }
}

/// The pages of the side panel.
#[derive(Debug, Clone, Copy, PartialEq, Eq, Structural)]
pub enum WmSidpanelContent {
    Material,
    Miscsettings,
    Entities,
}

impl Default for WmSidpanelContent {
    fn default() -> (res: WmSidpanelContent)
        ensures
            res == WmSidpanelContent::Material,
    {
        WmSidpanelContent::Material
    }
}

/// The state of one view's offscreen image that the window manager keeps:
/// its size in pixels and whether a drag runs in the view.
#[derive(Debug, Clone, Copy, PartialEq, Eq, Structural)]
pub struct WmSlot {
    pub width: u32,
    pub height: u32,
    pub drag_active: bool,
}

impl WmSlot {
    /// A new view starts with a 32 by 32 image and no drag.
    pub fn new() -> (res: WmSlot)
        ensures
            res.width == 32 && res.height == 32 && !res.drag_active,
    {
        WmSlot { width: 32, height: 32, drag_active: false }
    }

    /// Follows the size the gui asks for: the image is resized when the
    /// size differs and the image exists. Returns whether it was resized.
    pub fn check_resize(&mut self, target_width: u32, target_height: u32, image_exists: bool) -> (res: bool)
        ensures
            res == ((target_width != old(self).width || target_height != old(self).height) && image_exists),
            res ==> final(self).width == target_width && final(self).height == target_height,
            !res ==> final(self).width == old(self).width && final(self).height == old(self).height,
            final(self).drag_active == old(self).drag_active,
    {
        if (target_width != self.width || target_height != self.height) && image_exists {
            self.width = target_width;
            self.height = target_height;
            true
        } else {
            false
        }
    }
}

/// Where a 2d editor window sits on screen, its size, and how it looks at
/// the scene.
#[derive(Debug, Clone, Copy, PartialEq, Eq, Structural)]
pub struct EditorWindowSettings {
    pub pos_x: i32,
    pub pos_y: i32,
    pub width: i32,
    pub height: i32,
    pub orientation: Orientation2d,
}

impl Default for EditorWindowSettings {
    fn default() -> (res: EditorWindowSettings)
        ensures
            res.pos_x == 0 && res.pos_y == 0 && res.width == 0 && res.height == 0,
            res.orientation == Orientation2d::DownFront,
    {
        EditorWindowSettings { pos_x: 0, pos_y: 0, width: 0, height: 0, orientation: Orientation2d::DownFront }
    }
}

} // verus!
