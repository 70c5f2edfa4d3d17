//! Game-wide state that keys switch: the mode of the program and the
//! anti-aliasing of the game view.

use vstd::prelude::*;

verus! {

/// The anti-aliasing mode of the game view.
#[derive(Debug, Clone, Copy, PartialEq, Eq, Structural)]
pub enum AaState {
    Msaa4,
    Fxaa,
    Disabled,
}

impl Default for AaState {
    fn default() -> (res: AaState)
        ensures
            res == AaState::Msaa4,
    {
        AaState::Msaa4
    }
}

pub open spec fn spec_next(s: AaState) -> AaState {
    match s {
        AaState::Msaa4 => AaState::Fxaa,
        AaState::Fxaa => AaState::Disabled,
        AaState::Disabled => AaState::Msaa4,
    }
}

impl AaState {
    /// The mode that the toggle key switches to: multisampling, then FXAA,
    /// then none, then multisampling again.
    pub fn next(self) -> (res: AaState)
        ensures
            res == spec_next(self),
    {
        match self {
            AaState::Msaa4 => AaState::Fxaa,
            AaState::Fxaa => AaState::Disabled,
            AaState::Disabled => AaState::Msaa4,
        }
    }

    /// Whether the mode renders with four samples per pixel.
    pub fn uses_msaa(self) -> (res: bool)
        ensures
            res == (self == AaState::Msaa4),
    {
        match self {
            AaState::Msaa4 => true,
            _ => false,
        }
    }

    /// Whether the mode runs the FXAA pass.
    pub fn uses_fxaa(self) -> (res: bool)
        ensures
            res == (self == AaState::Fxaa),
    {
        match self {
            AaState::Fxaa => true,
            _ => false,
        }
    }
}

/// Pressing the toggle key three times comes back to the mode one started
/// from, and fewer presses never do.
pub proof fn lemma_next_cycles_in_three(s: AaState)
    ensures
        spec_next(spec_next(spec_next(s))) == s,
        spec_next(s) != s,
        spec_next(spec_next(s)) != s,
{
}

/// Whether the program runs the game or the level editor.
#[derive(Debug, Clone, Copy, PartialEq, Eq, Structural)]
pub enum AppState {
    InGame,
    Editor,
}

impl Default for AppState {
    fn default() -> (res: AppState)
        ensures
            res == AppState::InGame,
    {
        AppState::InGame
    }
}

pub open spec fn spec_toggled(s: AppState) -> AppState {
    match s {
        AppState::Editor => AppState::InGame,
        AppState::InGame => AppState::Editor,
    }
}

impl AppState {
    /// The state the debug-menu key switches to: the editor from the game
    /// and the game from the editor.
    pub fn toggled(self) -> (res: AppState)
        ensures
            res == spec_toggled(self),
    {
        match self {
            AppState::Editor => AppState::InGame,
            AppState::InGame => AppState::Editor,
        }
    }

    /// The player takes keyboard input in the game, and in the editor only
    /// while the walk key is held.
    pub fn player_input_enabled(self, walk_held: bool) -> (res: bool)
        ensures
            res == (self != AppState::Editor || walk_held),
    {
        match self {
            AppState::Editor => walk_held,
            AppState::InGame => true,
        }
    }
}

/// Pressing the key twice returns to where one was, and once always
/// changes the state.
pub proof fn lemma_toggle_involution(s: AppState)
    ensures
        spec_toggled(spec_toggled(s)) == s,
        spec_toggled(s) != s,
{
}

} // verus!
