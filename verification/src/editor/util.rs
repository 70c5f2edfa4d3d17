use vstd::prelude::*;

use crate::text::{lemma_less_irreflexive, lemma_less_transitive, seq_less, sorted_unique, str_less, strictly_sorted, views};

verus! {

/// Finds `name` in the strictly sorted list `sorted`, which holds it.
fn position_in_sorted(sorted: &Vec<String>, name: &String) -> (res: usize)
    requires
        strictly_sorted(views(sorted@)),
        views(sorted@).contains(name@),
    ensures
        res < sorted@.len(),
        sorted@[res as int]@ == name@,
{
    let ghost k = choose|k: int| 0 <= k < sorted@.len() && views(sorted@)[k] == name@;
    let mut lo: usize = 0;
    let mut hi: usize = sorted.len();
    while lo < hi
        invariant
            strictly_sorted(views(sorted@)),
            0 <= k < sorted@.len(),
            sorted@[k]@ == name@,
            lo <= k < hi <= sorted@.len(),
        decreases hi - lo,
    {
        let mid = lo + (hi - lo) / 2;
        if sorted[mid] == *name {
            return mid;
        }
        if str_less(sorted[mid].as_str(), name.as_str()) {
            proof {
                assert(views(sorted@)[mid as int] == sorted@[mid as int]@);
                assert(views(sorted@)[k] == sorted@[k]@);
                if k <= mid as int {
                    if k < mid as int {
                        lemma_less_transitive(name@, sorted@[mid as int]@, name@);
                    }
                    lemma_less_irreflexive(name@);
                }
            }
            lo = mid + 1;
        } else {
            proof {
                assert(views(sorted@)[mid as int] == sorted@[mid as int]@);
                assert(views(sorted@)[k] == sorted@[k]@);
                if k > mid as int {
                    assert(seq_less(sorted@[mid as int]@, name@));
                }
            }
            hi = mid;
        }
    }
    proof {
        assert(false);
    }
    0
}

/// Groups the faces of a brush by material: the distinct material names in
/// sorted order, and for each face (by appearance id) the index of its
/// material among them. One output mesh is built per distinct material.
pub fn material_groups(material_names: &Vec<String>) -> (res: (Vec<String>, Vec<usize>))
    ensures
        strictly_sorted(views(res.0@)),
        forall|j: int| 0 <= j < res.0@.len() ==> views(material_names@).contains(#[trigger] res.0@[j]@),
        res.1@.len() == material_names@.len(),
        forall|i: int|
            0 <= i < material_names@.len() ==> #[trigger] res.1@[i] < res.0@.len()
                && res.0@[res.1@[i] as int]@ == material_names@[i]@,
{
    let unique = sorted_unique(material_names);
    let mut groups: Vec<usize> = Vec::new();
    let mut i: usize = 0;
    while i < material_names.len()
        invariant
            i <= material_names@.len(),
            strictly_sorted(views(unique@)),
            forall|m: int| 0 <= m < material_names@.len() ==> views(unique@).contains(#[trigger] material_names@[m]@),
            groups@.len() == i,
            forall|m: int|
                0 <= m < i ==> #[trigger] groups@[m] < unique@.len()
                    && unique@[groups@[m] as int]@ == material_names@[m]@,
        decreases material_names@.len() - i,
    {
        let g = position_in_sorted(&unique, &material_names[i]);
        groups.push(g);
        i = i + 1;
    }
    (unique, groups)
}


/// How a 2d editor view looks at the scene: from above (two ways) or from
/// the side (two ways).
#[derive(Debug, Clone, Copy, PartialEq, Eq, Structural)]
pub enum Orientation2d {
    DownFront,
    DownRight,
    Front,
    Right,
}

impl Default for Orientation2d {
    fn default() -> (res: Orientation2d)
        ensures
            res == Orientation2d::DownFront,
    {
        Orientation2d::DownFront
    }
}

/// The axis (0 = x, 1 = y, 2 = z) that points up on screen in a view.
pub open spec fn spec_up_axis(o: Orientation2d) -> usize {
    match o {
        Orientation2d::DownFront => 2,
        Orientation2d::DownRight => 0,
        Orientation2d::Front => 1,
        Orientation2d::Right => 1,
    }
}

/// The axis that points right on screen in a view.
pub open spec fn spec_right_axis(o: Orientation2d) -> usize {
    match o {
        Orientation2d::DownFront => 0,
        Orientation2d::DownRight => 2,
        Orientation2d::Front => 0,
        Orientation2d::Right => 2,
    }
}

/// The axis along the view direction: a point picked in the view takes this
/// coordinate from the 3d cursor.
pub open spec fn spec_depth_axis(o: Orientation2d) -> usize {
    match o {
        Orientation2d::DownFront => 1,
        Orientation2d::DownRight => 1,
        Orientation2d::Front => 2,
        Orientation2d::Right => 0,
    }
}

/// The view turned by a quarter: the other view from the same side.
pub open spec fn spec_flipped(o: Orientation2d) -> Orientation2d {
    match o {
        Orientation2d::DownFront => Orientation2d::DownRight,
        Orientation2d::DownRight => Orientation2d::DownFront,
        Orientation2d::Front => Orientation2d::Right,
        Orientation2d::Right => Orientation2d::Front,
    }
}

/// Where the camera of a view sits and which way its up vector points, as
/// (axis of the camera's position, axis of its up vector): the top views
/// sit above the scene (on y) with up along -z (`DownFront`) or -x
/// (`DownRight`); `Front` sits on z and `Right` on x, both with up along y.
pub open spec fn view_camera(o: Orientation2d) -> (usize, usize) {
    match o {
        Orientation2d::DownFront => (1, 2),
        Orientation2d::DownRight => (1, 0),
        Orientation2d::Front => (2, 1),
        Orientation2d::Right => (0, 1),
    }
}

impl Orientation2d {
    /// The view turned by a quarter: the other view from the same side.
    pub fn flipped(&self) -> (res: Orientation2d)
        ensures
            res == spec_flipped(*self),
            res == match *self {
                Orientation2d::DownFront => Orientation2d::DownRight,
                Orientation2d::DownRight => Orientation2d::DownFront,
                Orientation2d::Front => Orientation2d::Right,
                Orientation2d::Right => Orientation2d::Front,
            },
    {
        match self {
            Orientation2d::DownFront => Orientation2d::DownRight,
            Orientation2d::DownRight => Orientation2d::DownFront,
            Orientation2d::Front => Orientation2d::Right,
            Orientation2d::Right => Orientation2d::Front,
        }
    }

    /// The axis that points up on screen (`get_up_axis` reads this
    /// coordinate).
    pub fn up_axis(&self) -> (res: usize)
        ensures
            res == spec_up_axis(*self),
    {
        match self {
            Orientation2d::DownFront => 2,
            Orientation2d::DownRight => 0,
            Orientation2d::Front => 1,
            Orientation2d::Right => 1,
        }
    }

    /// The axis that points right on screen (`get_right_axis` reads this
    /// coordinate).
    pub fn right_axis(&self) -> (res: usize)
        ensures
            res == spec_right_axis(*self),
    {
        match self {
            Orientation2d::DownFront => 0,
            Orientation2d::DownRight => 2,
            Orientation2d::Front => 0,
            Orientation2d::Right => 2,
        }
    }

    /// The coordinate that `mix` takes from the cursor rather than from the
    /// picked point.
    pub fn depth_axis(&self) -> (res: usize)
        ensures
            res == spec_depth_axis(*self),
    {
        match self {
            Orientation2d::DownFront => 1,
            Orientation2d::DownRight => 1,
            Orientation2d::Front => 2,
            Orientation2d::Right => 0,
        }
    }
}

/// Turning a view twice gives the view back.
pub proof fn lemma_flip_involution(o: Orientation2d)
    ensures
        match match o {
            Orientation2d::DownFront => Orientation2d::DownRight,
            Orientation2d::DownRight => Orientation2d::DownFront,
            Orientation2d::Front => Orientation2d::Right,
            Orientation2d::Right => Orientation2d::Front,
        } {
            Orientation2d::DownFront => Orientation2d::DownRight,
            Orientation2d::DownRight => Orientation2d::DownFront,
            Orientation2d::Front => Orientation2d::Right,
            Orientation2d::Right => Orientation2d::Front,
        } == o,
{
}

/// In every view the up, right and depth axes are x, y and z in some order.
pub proof fn lemma_view_axes_distinct(o: Orientation2d)
    ensures
        spec_up_axis(o) < 3 && spec_right_axis(o) < 3 && spec_depth_axis(o) < 3,
        spec_up_axis(o) != spec_right_axis(o),
        spec_up_axis(o) != spec_depth_axis(o),
        spec_right_axis(o) != spec_depth_axis(o),
{
}

/// Turning a top view by a quarter exchanges what is up and what is right
/// on screen and keeps the view direction (down along y); turning it again
/// gives the view back.
pub proof fn lemma_top_view_flip_swaps_axes(o: Orientation2d)
    requires
        o == Orientation2d::DownFront || o == Orientation2d::DownRight,
    ensures
        spec_up_axis(spec_flipped(o)) == spec_right_axis(o),
        spec_right_axis(spec_flipped(o)) == spec_up_axis(o),
        spec_depth_axis(spec_flipped(o)) == spec_depth_axis(o),
        spec_depth_axis(o) == 1,
        spec_flipped(spec_flipped(o)) == o,
{
}

/// Each view reads its screen axes off its camera: what points up on screen
/// is the axis of the camera's up vector, the depth is the axis the camera
/// looks along, and what points right is the remaining axis.
pub proof fn lemma_view_axes_follow_camera(o: Orientation2d)
    ensures
        spec_depth_axis(o) == view_camera(o).0,
        spec_up_axis(o) == view_camera(o).1,
        spec_right_axis(o) == 3 - view_camera(o).0 - view_camera(o).1,
{
}

/// The mouse buttons the window manager tells apart.
#[derive(Debug, Clone, Copy, PartialEq, Eq, Structural)]
pub enum WmMouseButton {
    Left,
    Middle,
    Right,
}

impl Default for WmMouseButton {
    fn default() -> (res: WmMouseButton)
        ensures
            res == WmMouseButton::Left,
    {
        WmMouseButton::Left
    }
}

/// Modifier keys held during a pointer event.
#[derive(Debug, Clone, Copy, PartialEq, Eq, Structural)]
pub struct WmModifiers {
    pub shift: bool,
    pub ctrl: bool,
    pub alt: bool,
}

} // verus!
