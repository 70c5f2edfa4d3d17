use vstd::prelude::*;

use crate::editor::EntityId;

verus! {

broadcast use vstd::seq_lib::lemma_seq_contains_after_push;

/// Whether `e` occurs in any of the lists.
pub open spec fn in_any(lists: Seq<Vec<EntityId>>, e: EntityId) -> bool {
    exists|i: int| 0 <= i < lists.len() && (#[trigger] lists[i]@).contains(e)
}

pub open spec fn no_duplicates(s: Seq<EntityId>) -> bool {
    forall|a: int, b: int| 0 <= a < b < s.len() ==> s[a] != s[b]
}

fn contains_entity(v: &Vec<EntityId>, e: EntityId) -> (res: bool)
    ensures
        res == v@.contains(e),
{
    let mut i: usize = 0;
    while i < v.len()
        invariant
            i <= v@.len(),
            forall|j: int| 0 <= j < i ==> v@[j] != e,
        decreases v@.len() - i,
    {
        if v[i] == e {
            return true;
        }
        i = i + 1;
    }
    false
}

/// The elements of `s` in order, each at its first occurrence only.
pub open spec fn first_occurrences(s: Seq<EntityId>) -> Seq<EntityId>
    decreases s.len(),
{
    if s.len() == 0 {
        Seq::empty()
    } else {
        let d = first_occurrences(s.drop_last());
        if d.contains(s.last()) {
            d
        } else {
            d.push(s.last())
        }
    }
}

/// The lists one after the other.
pub open spec fn flatten_lists(lists: Seq<Vec<EntityId>>) -> Seq<EntityId>
    decreases lists.len(),
{
    if lists.len() == 0 {
        Seq::empty()
    } else {
        flatten_lists(lists.drop_last()) + lists.last()@
    }
}

fn push_new(res: &mut Vec<EntityId>, e: EntityId)
    requires
        no_duplicates(old(res)@),
    ensures
        final(res)@ == if old(res)@.contains(e) { old(res)@ } else { old(res)@.push(e) },
        no_duplicates(final(res)@),
        forall|x: EntityId| final(res)@.contains(x) <==> old(res)@.contains(x) || x == e,
{
    if !contains_entity(res, e) {
        res.push(e);
    }
}

/// The brushes whose meshes a change rebuilds: the changed brushes and
/// every brush that the spatial index finds near one of them
/// (`overlapping[i]` is what it found near `changed[i]`), each once.
pub fn affected_entities(changed: &Vec<EntityId>, overlapping: &Vec<Vec<EntityId>>) -> (res: Vec<EntityId>)
    requires
        overlapping@.len() == changed@.len(),
    ensures
        res@ == first_occurrences(changed@ + flatten_lists(overlapping@)),
        no_duplicates(res@),
        forall|e: EntityId| #[trigger] res@.contains(e) <==> changed@.contains(e) || in_any(overlapping@, e),
{
    let mut res: Vec<EntityId> = Vec::new();
    let mut i: usize = 0;
    while i < changed.len()
        invariant
            i <= changed@.len(),
            no_duplicates(res@),
            forall|e: EntityId| #[trigger] res@.contains(e) <==> changed@.take(i as int).contains(e),
            res@ == first_occurrences(changed@.take(i as int)),
        decreases changed@.len() - i,
    {
        proof {
            assert(changed@.take(i + 1) =~= changed@.take(i as int).push(changed@[i as int]));
            assert(changed@.take(i + 1).drop_last() =~= changed@.take(i as int));
        }
        push_new(&mut res, changed[i]);
        i = i + 1;
    }
    proof {
        assert(changed@.take(i as int) =~= changed@);
        assert(overlapping@.take(0) =~= Seq::<Vec<EntityId>>::empty());
        assert(changed@ + flatten_lists(overlapping@.take(0)) =~= changed@);
    }
    let mut k: usize = 0;
    while k < overlapping.len()
        invariant
            k <= overlapping@.len(),
            no_duplicates(res@),
            forall|e: EntityId| #[trigger] res@.contains(e) <==> changed@.contains(e) || in_any(
                overlapping@.take(k as int),
                e,
            ),
            res@ == first_occurrences(changed@ + flatten_lists(overlapping@.take(k as int))),
        decreases overlapping@.len() - k,
    {
        let near = &overlapping[k];
        let mut j: usize = 0;
        while j < near.len()
            invariant
                k < overlapping@.len(),
                near == overlapping@[k as int],
                j <= near@.len(),
                no_duplicates(res@),
                forall|e: EntityId| #[trigger] res@.contains(e) <==> changed@.contains(e) || in_any(
                    overlapping@.take(k as int),
                    e,
                ) || near@.take(j as int).contains(e),
                res@ == first_occurrences(changed@ + flatten_lists(overlapping@.take(k as int)) + near@.take(j as int)),
            decreases near@.len() - j,
        {
            proof {
                assert(near@.take(j + 1) =~= near@.take(j as int).push(near@[j as int]));
                let x = changed@ + flatten_lists(overlapping@.take(k as int));
                assert((x + near@.take(j + 1)).drop_last() =~= x + near@.take(j as int));
                assert((x + near@.take(j + 1)).last() == near@[j as int]);
            }
            push_new(&mut res, near[j]);
            j = j + 1;
        }
        proof {
            assert(near@.take(j as int) =~= near@);
            let next = overlapping@.take(k + 1);
            assert(next =~= overlapping@.take(k as int).push(overlapping@[k as int]));
            assert(next.drop_last() =~= overlapping@.take(k as int));
            assert(flatten_lists(next) == flatten_lists(overlapping@.take(k as int)) + near@);
            assert(changed@ + flatten_lists(next) =~= changed@ + flatten_lists(overlapping@.take(k as int)) + near@);
            assert forall|e: EntityId| in_any(next, e) <==> in_any(overlapping@.take(k as int), e)
                || near@.contains(e) by {
                if in_any(next, e) {
                    let w = choose|w: int| 0 <= w < next.len() && (#[trigger] next[w]@).contains(e);
                    if w < k {
                        assert(overlapping@.take(k as int)[w] == next[w]);
                    }
                }
                if in_any(overlapping@.take(k as int), e) {
                    let w = choose|w: int|
                        0 <= w < k && (#[trigger] overlapping@.take(k as int)[w]@).contains(e);
                    assert(next[w] == overlapping@.take(k as int)[w]);
                }
                if near@.contains(e) {
                    assert(next[k as int] == near);
                }
            }
        }
        k = k + 1;
    }
    proof {
        assert(overlapping@.take(k as int) =~= overlapping@);
    }
    res
}

/// Whether brush `entity` clips itself a second time against `other`, after
/// inversion: only against brushes with a larger id.
pub open spec fn clips_again(entity: EntityId, other: EntityId) -> bool {
    entity < other
}

/// The brushes that `entity` is clipped against, from those found touching
/// it, without itself; each is paired with whether it also clips `entity`
/// once more after inversion. That second clip removes faces the two share,
/// and happens only against brushes with a larger id, so that exactly one of
/// two touching brushes keeps a shared face.
pub fn clip_partners(entity: EntityId, touching: &Vec<EntityId>) -> (res: Vec<(EntityId, bool)>)
    ensures
        res@ == touching@.filter(|e: EntityId| e != entity).map_values(
            |e: EntityId| (e, clips_again(entity, e)),
        ),
{
    let mut res: Vec<(EntityId, bool)> = Vec::new();
    let mut i: usize = 0;
    while i < touching.len()
        invariant
            i <= touching@.len(),
            res@ == touching@.subrange(0, i as int).filter(|e: EntityId| e != entity).map_values(
                |e: EntityId| (e, clips_again(entity, e)),
            ),
        decreases touching@.len() - i,
    {
        let other = touching[i];
        let ghost prefix = touching@.subrange(0, i as int);
        let ghost next = touching@.subrange(0, i + 1);
        proof {
            assert(next =~= prefix.push(other));
            reveal(Seq::filter);
            assert(next.drop_last() =~= prefix);
        }
        if other != entity {
            res.push((other, entity < other));
            proof {
                assert(next.filter(|e: EntityId| e != entity) == prefix.filter(|e: EntityId| e != entity).push(other));
            }
        } else {
            proof {
                assert(next.filter(|e: EntityId| e != entity) == prefix.filter(|e: EntityId| e != entity));
            }
        }
        proof {
            assert(res@ =~= next.filter(|e: EntityId| e != entity).map_values(
                |e: EntityId| (e, clips_again(entity, e)),
            ));
        }
        i = i + 1;
    }
    proof {
        assert(touching@.subrange(0, i as int) =~= touching@);
    }
    res
}

/// Of two distinct touching brushes, exactly one clips the other a second
/// time, so a face they share survives on one side only.
pub proof fn lemma_second_clip_one_sided(a: EntityId, b: EntityId)
    requires
        a != b,
    ensures
        clips_again(a, b) != clips_again(b, a),
{
}

} // verus!
