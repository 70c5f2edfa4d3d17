use vstd::prelude::*;

verus! {

/// The axis that a face's normal points along most, with its sign; texture
/// coordinates of the face are its positions projected onto the other two
/// axes.
#[derive(Debug, Clone, Copy, PartialEq, Eq, Structural)]
pub enum MajorAxis {
    NoAxis,
    Xpos,
    Xneg,
    Ypos,
    Yneg,
    Zpos,
    Zneg,
}

/// The coordinates (0 = x, 1 = y, 2 = z) that become the u and v texture
/// coordinates for faces along an axis: z and y across x, x and z across y,
/// x and y across z. `NoAxis` projects everything to zero.
pub open spec fn spec_projected_axes(a: MajorAxis) -> Option<(usize, usize)> {
    match a {
        MajorAxis::NoAxis => None,
        MajorAxis::Xpos | MajorAxis::Xneg => Some((2usize, 1usize)),
        MajorAxis::Ypos | MajorAxis::Yneg => Some((0usize, 2usize)),
        MajorAxis::Zpos | MajorAxis::Zneg => Some((0usize, 1usize)),
    }
}

/// The axis a direction points along: 0 for x, 1 for y, 2 for z.
pub open spec fn spec_axis_index(a: MajorAxis) -> Option<usize> {
    match a {
        MajorAxis::NoAxis => None,
        MajorAxis::Xpos | MajorAxis::Xneg => Some(0usize),
        MajorAxis::Ypos | MajorAxis::Yneg => Some(1usize),
        MajorAxis::Zpos | MajorAxis::Zneg => Some(2usize),
    }
}

impl MajorAxis {
    /// Which coordinates of a position `project` keeps, as (u, v).
    pub fn projected_axes(&self) -> (res: Option<(usize, usize)>)
        ensures
            res == spec_projected_axes(*self),
    {
        match self {
            MajorAxis::NoAxis => None,
            MajorAxis::Xpos | MajorAxis::Xneg => Some((2, 1)),
            MajorAxis::Ypos | MajorAxis::Yneg => Some((0, 2)),
            MajorAxis::Zpos | MajorAxis::Zneg => Some((0, 1)),
        }
    }

    /// The axis itself, without its sign.
    pub fn axis_index(&self) -> (res: Option<usize>)
        ensures
            res == spec_axis_index(*self),
    {
        match self {
            MajorAxis::NoAxis => None,
            MajorAxis::Xpos | MajorAxis::Xneg => Some(0),
            MajorAxis::Ypos | MajorAxis::Yneg => Some(1),
            MajorAxis::Zpos | MajorAxis::Zneg => Some(2),
        }
    }
}

/// The same axis pointing the other way.
pub open spec fn opposite(a: MajorAxis) -> MajorAxis {
    match a {
        MajorAxis::NoAxis => MajorAxis::NoAxis,
        MajorAxis::Xpos => MajorAxis::Xneg,
        MajorAxis::Xneg => MajorAxis::Xpos,
        MajorAxis::Ypos => MajorAxis::Yneg,
        MajorAxis::Yneg => MajorAxis::Ypos,
        MajorAxis::Zpos => MajorAxis::Zneg,
        MajorAxis::Zneg => MajorAxis::Zpos,
    }
}

/// The projection depends on the axis only, not on which way the face looks
/// along it: faces looking opposite ways get the same u and v. Faces along z
/// take u from x and v from y, faces along x take v from y as well (u from
/// z), and faces along y take u from x and v from z.
pub proof fn lemma_projection_ignores_sign(a: MajorAxis)
    ensures
        spec_projected_axes(opposite(a)) == spec_projected_axes(a),
        spec_axis_index(a) == Some(2usize) ==> spec_projected_axes(a) == Some((0usize, 1usize)),
        spec_axis_index(a) == Some(0usize) ==> spec_projected_axes(a) == Some((2usize, 1usize)),
        spec_axis_index(a) == Some(1usize) ==> spec_projected_axes(a) == Some((0usize, 2usize)),
{
}

/// Projection drops exactly the major axis: the two coordinates kept are
/// distinct and neither is the axis the face points along.
pub proof fn lemma_projection_drops_major_axis(a: MajorAxis)
    ensures
        spec_projected_axes(a) is Some <==> spec_axis_index(a) is Some,
        spec_projected_axes(a) matches Some((u, v)) ==> u < 3 && v < 3 && u != v && u != spec_axis_index(a)->0
            && v != spec_axis_index(a)->0,
{
}

} // verus!
