# physics

The editing logic of a brush-based level editor and its game, written in
Verus: every function under `src/` carries a contract that Verus proves, with
a few exceptions whose contracts are trusted rather than proved. They are the
wrappers in `src/import_freepbr.rs`: around the standard library,
`to_lowercase` (`str::to_lowercase`) and `file_stem` (`Path::file_stem`); and
around the `image` crate, `decode_rgb8` and `decode_luma8`
(`image::load_from_memory`, then `into_rgb8` or `into_luma8`).

## Layout

- `src/editor/` — the editor's state and decisions: the undo history and the
  edit commands it records (`undo`, `edit_commands`), selection cycling and
  highlight changes (`selection`), pointer and key handling of the window
  manager (`wm`, `input`, `drag`), the clip tool (`clip`), incremental CSG
  rebuilds (`csg_update`), face materials and material links (`components`,
  `materials`) and the 2d view axes (`util`).
- `src/csg/` — the combinatorics of constructive solid geometry: how a
  polygon is classified and cut by a plane (`split`), how polygons become
  triangles and how cubes, spheres and cylinders are laid out (`topology`),
  texture projection axes (`texgen`).
- `src/sstree.rs` — occupancy rules of the spatial index.
- `src/wsx.rs` — scene nodes and appearance ids of imported levels.
- `src/import_freepbr.rs` — how a PBR material package is recognised, decoded and
  written out.
- `src/player_input.rs`, `src/resources.rs`, `src/test_texture.rs` — player
  keys, mode switches, and the placeholder texture.
- `app/` — the material import tool, and the floating-point parts (geometry,
  spatial index search, player motion, level file parsing) that call into the
  library.
- `tests/` — tests of the library on concrete values.

The interactive game and editor run on the Bevy engine (with egui and
Rapier). That engine, with the crates it pulls in, is far larger than what
this build can bring in, so it is not a dependency here: its systems keep
their decisions in the library (the functions above), and the engine glue
(spawning entities, rendering, GUI layout, physics) is not part of this
crate. The `app/` binary is the material import tool; its other modules hold
the floating-point geometry, spatial index, level parsing and player motion
for such a front end to call.
