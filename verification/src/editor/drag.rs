use vstd::prelude::*;

verus! {

/// What a left-button drag in a 2d view moves, decided when it starts. The
/// faces are given by index; their distances at the start of the drag, and
/// the start position of a point, travel beside.
#[derive(Debug, PartialEq, Eq)]
pub enum DragActionType {
    /// The faces of the selected brush that lie behind the pointer move.
    Face { affected_faces: Vec<usize> },
    /// The pointer is not behind a face: every face moves, so the brush
    /// moves as a whole.
    WholeBrush { affected_faces: Vec<usize> },
    /// The selected entity is a point (a light), which moves.
    NonBrush,
}

/// The drag a start of dragging begins, given the selection: nothing without
/// a single selected entity; for a brush with `num_faces` faces the faces
/// behind the pointer (or all faces when none is); for another entity with a
/// position, the entity itself; nothing for anything else.
pub open spec fn spec_drag_start(
    single_selection: bool,
    is_brush: bool,
    num_faces: usize,
    faces_behind: Seq<usize>,
    has_transform: bool,
) -> Option<(int, Seq<usize>)> {
    if !single_selection {
        None
    } else if is_brush {
        if faces_behind.len() > 0 {
            Some((0, faces_behind))
        } else {
            Some((1, Seq::new(num_faces as nat, |i: int| i as usize)))
        }
    } else if has_transform {
        Some((2, Seq::empty()))
    } else {
        None
    }
}

pub open spec fn drag_view(d: Option<DragActionType>) -> Option<(int, Seq<usize>)> {
    match d {
        Some(DragActionType::Face { affected_faces }) => Some((0, affected_faces@)),
        Some(DragActionType::WholeBrush { affected_faces }) => Some((1, affected_faces@)),
        Some(DragActionType::NonBrush) => Some((2, Seq::empty())),
        None => None,
    }
}

/// Decides what a starting drag moves.
pub fn drag_start(
    single_selection: bool,
    is_brush: bool,
    num_faces: usize,
    faces_behind: Vec<usize>,
    has_transform: bool,
) -> (res: Option<DragActionType>)
    ensures
        drag_view(res) == spec_drag_start(single_selection, is_brush, num_faces, faces_behind@, has_transform),
{
    if !single_selection {
        None
    } else if is_brush {
        if faces_behind.len() > 0 {
            Some(DragActionType::Face { affected_faces: faces_behind })
        } else {
            let mut all: Vec<usize> = Vec::new();
            let mut i: usize = 0;
            while i < num_faces
                invariant
                    i <= num_faces,
                    all@ == Seq::new(i as nat, |k: int| k as usize),
                decreases num_faces - i,
            {
                all.push(i);
                proof {
                    assert(all@ =~= Seq::new((i + 1) as nat, |k: int| k as usize));
                }
                i = i + 1;
            }
            Some(DragActionType::WholeBrush { affected_faces: all })
        }
    } else if has_transform {
        Some(DragActionType::NonBrush)
    } else {
        None
    }
}

/// A drag of a brush always moves at least one face when the brush has any,
/// and only faces of the brush.
pub proof fn lemma_brush_drag_moves_its_faces(num_faces: usize, faces_behind: Seq<usize>)
    requires
        num_faces > 0,
        forall|i: int| 0 <= i < faces_behind.len() ==> faces_behind[i] < num_faces,
    ensures
        spec_drag_start(true, true, num_faces, faces_behind, false) matches Some((_, faces))
            && faces.len() > 0 && forall|i: int| 0 <= i < faces.len() ==> faces[i] < num_faces,
{
}

} // verus!
