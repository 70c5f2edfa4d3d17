use vstd::prelude::*;

use crate::editor::util::WmMouseButton;
use crate::editor::EntityId;

verus! {

broadcast use vstd::seq_lib::lemma_seq_contains_after_push;

/// Whether two lists of entities are equal, element by element.
pub fn same_entities(a: &Vec<EntityId>, b: &Vec<EntityId>) -> (res: bool)
    ensures
        res == (a@ == b@),
{
    if a.len() != b.len() {
        return false;
    }
    let mut i: usize = 0;
    while i < a.len()
        invariant
            a@.len() == b@.len(),
            i <= a@.len(),
            forall|j: int| 0 <= j < i ==> a@[j] == b@[j],
        decreases a@.len() - i,
    {
        if a[i] != b[i] {
            return false;
        }
        i = i + 1;
    }
    proof {
        assert(a@ =~= b@);
    }
    true
}

/// The primary selection, with what a click in a 2d view hit last time and
/// which of the hits was picked: clicking the same spot again picks the next
/// object under it.
#[derive(Debug)]
pub struct Selection {
    pub primary: Option<EntityId>,
    pub last_set: Vec<EntityId>,
    pub last_set_index: usize,
}

/// The selection state as plain values: the hits of the last click and the
/// count of repeated clicks on them.
pub struct PickState {
    pub last_set: Seq<EntityId>,
    pub last_set_index: nat,
}

impl Selection {
    pub open spec fn state(&self) -> PickState {
        PickState { last_set: self.last_set@, last_set_index: self.last_set_index as nat }
    }
}

/// The state after a click whose hits are `hits`: the same hits as last time
/// advance the index, other hits start over at the first one.
pub open spec fn state_after_click(s: PickState, hits: Seq<EntityId>) -> PickState {
    if hits == s.last_set {
        PickState { last_set: hits, last_set_index: s.last_set_index + 1 }
    } else {
        PickState { last_set: hits, last_set_index: 0 }
    }
}

/// The object a click picks in a state: the hit at the index, counted round
/// the hits; nothing when the click hit nothing.
pub open spec fn picked(s: PickState) -> Option<EntityId> {
    if s.last_set.len() == 0 {
        None
    } else {
        Some(s.last_set[(s.last_set_index % s.last_set.len()) as int])
    }
}

impl Selection {
    pub fn new() -> (res: Selection)
        ensures
            res.primary is None,
            res.last_set@.len() == 0,
            res.last_set_index == 0,
    {
        Selection { primary: None, last_set: Vec::new(), last_set_index: 0 }
    }

    /// Records a click whose ray hit `hits` (in the order they were found)
    /// and makes the object it picks the primary selection.
    pub fn pick(&mut self, hits: Vec<EntityId>) -> (res: Option<EntityId>)
        requires
            hits@ == old(self).last_set@ ==> old(self).last_set_index < usize::MAX,
        ensures
            final(self).state() == state_after_click(old(self).state(), hits@),
            res == picked(final(self).state()),
            final(self).primary == res,
    {
        if !same_entities(&hits, &self.last_set) {
            self.last_set = hits;
            self.last_set_index = 0;
        } else {
            self.last_set_index = self.last_set_index + 1;
        }
        let res = if self.last_set.len() == 0 {
            None
        } else {
            let i = self.last_set_index % self.last_set.len();
            Some(self.last_set[i])
        };
        self.primary = res;
        res
    }
}

/// The state after `n` clicks that all hit `hits`.
pub open spec fn state_after_clicks(s: PickState, hits: Seq<EntityId>, n: nat) -> PickState
    decreases n,
{
    if n == 0 {
        s
    } else {
        state_after_click(state_after_clicks(s, hits, (n - 1) as nat), hits)
    }
}

/// Clicking again and again on the same spot walks through everything under
/// it: the `n`-th click in a row on hits that differ from the last ones picks
/// the hit at `n - 1`, counted round the hits.
pub proof fn lemma_repeated_clicks_cycle(s: PickState, hits: Seq<EntityId>, n: nat)
    requires
        hits != s.last_set,
        n >= 1,
    ensures
        state_after_clicks(s, hits, n).last_set == hits,
        state_after_clicks(s, hits, n).last_set_index == n - 1,
        hits.len() > 0 ==> picked(state_after_clicks(s, hits, n)) == Some(
            hits[(n - 1) % (hits.len() as int)],
        ),
    decreases n,
{
    reveal_with_fuel(state_after_clicks, 2);
    if n > 1 {
        lemma_repeated_clicks_cycle(s, hits, (n - 1) as nat);
    }
}

/// Within as many clicks as there are hits, every hit gets picked.
pub proof fn lemma_every_hit_reachable(s: PickState, hits: Seq<EntityId>, j: int)
    requires
        hits != s.last_set,
        0 <= j < hits.len(),
    ensures
        picked(state_after_clicks(s, hits, (j + 1) as nat)) == Some(hits[j]),
{
    lemma_repeated_clicks_cycle(s, hits, (j + 1) as nat);
    assert(j % (hits.len() as int) == j) by (nonlinear_arith)
        requires
            0 <= j < hits.len(),
    ;
}

/// The entities of `old_selection` that lose their highlight when `primary`
/// becomes the selection: all but the primary one.
pub fn entities_to_deselect(old_selection: &Vec<EntityId>, primary: Option<EntityId>) -> (res: Vec<
    EntityId,
>)
    ensures
        res@ == old_selection@.filter(|e: EntityId| Some(e) != primary),
        forall|e: EntityId| res@.contains(e) <==> old_selection@.contains(e) && Some(e) != primary,
{
    let mut res: Vec<EntityId> = Vec::new();
    let mut i: usize = 0;
    while i < old_selection.len()
        invariant
            i <= old_selection@.len(),
            res@ == old_selection@.subrange(0, i as int).filter(|e: EntityId| Some(e) != primary),
            forall|e: EntityId|
                res@.contains(e) <==> old_selection@.subrange(0, i as int).contains(e) && Some(e)
                    != primary,
        decreases old_selection@.len() - i,
    {
        let e = old_selection[i];
        proof {
            assert(old_selection@.subrange(0, i + 1) =~= old_selection@.subrange(0, i as int).push(e));
            reveal(Seq::filter);
            assert(old_selection@.subrange(0, i + 1).drop_last() =~= old_selection@.subrange(0, i as int));
        }
        let keep = match primary {
            Some(p) => p != e,
            None => true,
        };
        if keep {
            res.push(e);
        }
        i = i + 1;
    }
    proof {
        assert(old_selection@.subrange(0, i as int) =~= old_selection@);
    }
    res
}

/// The entities of `a` that are not in `b`, in the order of `a`.
pub fn entities_not_in(a: &Vec<EntityId>, b: &Vec<EntityId>) -> (res: Vec<EntityId>)
    ensures
        res@ == a@.filter(|e: EntityId| !b@.contains(e)),
        forall|e: EntityId| res@.contains(e) <==> a@.contains(e) && !b@.contains(e),
{
    let mut res: Vec<EntityId> = Vec::new();
    let mut i: usize = 0;
    while i < a.len()
        invariant
            i <= a@.len(),
            res@ == a@.subrange(0, i as int).filter(|e: EntityId| !b@.contains(e)),
            forall|e: EntityId| res@.contains(e) <==> a@.subrange(0, i as int).contains(e) && !b@.contains(e),
        decreases a@.len() - i,
    {
        let e = a[i];
        proof {
            assert(a@.subrange(0, i + 1) =~= a@.subrange(0, i as int).push(e));
            reveal(Seq::filter);
            assert(a@.subrange(0, i + 1).drop_last() =~= a@.subrange(0, i as int));
        }
        let mut found = false;
        let mut k: usize = 0;
        while k < b.len()
            invariant
                k <= b@.len(),
                found <==> b@.subrange(0, k as int).contains(e),
            decreases b@.len() - k,
        {
            proof {
                assert(b@.subrange(0, k + 1) =~= b@.subrange(0, k as int).push(b@[k as int]));
            }
            if b[k] == e {
                found = true;
            }
            k = k + 1;
        }
        proof {
            assert(b@.subrange(0, k as int) =~= b@);
        }
        if !found {
            res.push(e);
        }
        i = i + 1;
    }
    proof {
        assert(a@.subrange(0, i as int) =~= a@);
    }
    res
}

/// How the highlight changes when the selection goes from `old_selection`
/// to `new_selection`: the entities that go back to the default look, and
/// those that get the selected look.
pub fn selection_change(old_selection: &Vec<EntityId>, new_selection: &Vec<EntityId>) -> (res: (
    Vec<EntityId>,
    Vec<EntityId>,
))
    ensures
        res.0@ == old_selection@.filter(|e: EntityId| !new_selection@.contains(e)),
        res.1@ == new_selection@.filter(|e: EntityId| !old_selection@.contains(e)),
        forall|e: EntityId|
            res.0@.contains(e) <==> old_selection@.contains(e) && !new_selection@.contains(e),
        forall|e: EntityId|
            res.1@.contains(e) <==> new_selection@.contains(e) && !old_selection@.contains(e),
{
    (entities_not_in(old_selection, new_selection), entities_not_in(new_selection, old_selection))
}

/// After a selection change, an entity has the selected look exactly when it
/// is in the new selection: it had it and kept it, or it just got it.
pub proof fn lemma_selection_change_complete(
    old_selection: Seq<EntityId>,
    new_selection: Seq<EntityId>,
    to_default: Seq<EntityId>,
    to_selected: Seq<EntityId>,
    e: EntityId,
)
    requires
        forall|x: EntityId| to_default.contains(x) <==> old_selection.contains(x) && !new_selection.contains(x),
        forall|x: EntityId| to_selected.contains(x) <==> new_selection.contains(x) && !old_selection.contains(x),
    ensures
        ((old_selection.contains(e) && !to_default.contains(e)) || to_selected.contains(e))
            <==> new_selection.contains(e),
{
}

/// What a click in the 3d view does with the face it hit.
#[derive(Debug, Clone, Copy, PartialEq, Eq, Structural)]
pub enum FaceClick {
    /// Paint the face with the material chosen in the browser.
    AssignMaterial,
    /// Take the face's material into the browser.
    PickMaterial,
    Nothing,
}

/// A left click paints the hit face with the browser's material, when one is
/// chosen; a right click takes the face's material; other buttons, and a
/// click that hit no face, do nothing.
pub fn face_click(button: WmMouseButton, hit_face: bool, material_chosen: bool) -> (res: FaceClick)
    ensures
        res == (if !hit_face {
            FaceClick::Nothing
        } else if button == WmMouseButton::Left && material_chosen {
            FaceClick::AssignMaterial
        } else if button == WmMouseButton::Right {
            FaceClick::PickMaterial
        } else {
            FaceClick::Nothing
        }),
{
    if !hit_face {
        FaceClick::Nothing
    } else if button == WmMouseButton::Left && material_chosen {
        FaceClick::AssignMaterial
    } else if button == WmMouseButton::Right {
        FaceClick::PickMaterial
    } else {
        FaceClick::Nothing
    }
}

} // verus!
