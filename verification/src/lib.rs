//! Editing logic of a brush-based level editor and its game: undo history,
//! selection, window-manager pointer and key handling, CSG polygon
//! bookkeeping, spatial-index occupancy rules, scene import, material import
//! rules and player input.

pub mod csg;
pub mod editor;
pub mod import_freepbr;
pub mod player_input;
pub mod resources;
pub mod sstree;
pub mod test_texture;
pub mod text;
pub mod wsx;
