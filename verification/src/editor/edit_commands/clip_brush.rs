use vstd::prelude::*;

use crate::editor::components::BrushMaterialProperties;
use crate::editor::EntityId;

verus! {

/// Replaces the brush of `entity` (and its face materials) by a clipped one.
/// The command is its own undo record: undoing restores `start_brush` and
/// `start_material_props`.
pub struct Command<B> {
    pub entity: EntityId,
    pub start_brush: B,
    pub start_material_props: BrushMaterialProperties,
    pub brush: B,
    pub material_props: BrushMaterialProperties,
}

impl<B: Clone> Command<B> {
    /// The command that applies a clipped brush to `entity`. It records the
    /// clipped brush and its materials as the start state too, so undoing it
    /// leaves the clipped brush in place.
    pub fn from_clipped(entity: EntityId, brush: B, material_props: BrushMaterialProperties) -> (res: Command<B>)
        ensures
            res.entity == entity,
            res.brush == brush,
            res.material_props == material_props,
            cloned(brush, res.start_brush),
            res.start_material_props.materials@ == material_props.materials@,
    {
        let start_brush = brush.clone();
        let start_material_props = material_props.duplicate();
        Command { entity, start_brush, start_material_props, brush, material_props }
    }
}

/// The clip command that the pressed keys ask for: the red half wins when
/// both keys are pressed, and a half that the clip did not produce gives no
/// command. Either key leaves clip mode.
pub fn clip_apply_command<B: Clone>(
    apply_red: bool,
    apply_green: bool,
    entity: EntityId,
    red: Option<(B, BrushMaterialProperties)>,
    green: Option<(B, BrushMaterialProperties)>,
) -> (res: (Option<Command<B>>, bool))
    ensures
        res.1 == (apply_red || apply_green),
        ({
            let chosen = if apply_red { red } else if apply_green { green } else { None };
            match chosen {
                None => res.0 is None,
                Some((b, m)) => res.0 matches Some(c) && c.entity == entity && c.brush == b
                    && c.material_props == m && cloned(b, c.start_brush)
                    && c.start_material_props.materials@ == m.materials@,
            }
        }),
{
    let chosen = if apply_red {
        red
    } else if apply_green {
        green
    } else {
        None
    };
    let cmd = match chosen {
        Some((brush, material_props)) => Some(Command::from_clipped(entity, brush, material_props)),
        None => None,
    };
    (cmd, apply_red || apply_green)
}

} // verus!
