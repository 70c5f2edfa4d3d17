//! The occupancy rules of the similarity-search tree (SS-tree) that indexes
//! brushes by their bounding spheres: when a node has room, when it splits,
//! which siblings can lend an entry to a node that became too small or take
//! it in, and how two merged siblings leave their parent's list. Distances
//! and variances, which pick among the candidates, are floating point and are
//! computed by the caller.

use vstd::prelude::*;

verus! {

/// A node with `len` entries takes one more without splitting when it holds
/// fewer than `capacity`.
pub fn leaf_has_room(len: usize, capacity: usize) -> (res: bool)
    ensures
        res == (len < capacity),
{
    len < capacity
}

/// An inner node that lost the child which split takes the two halves
/// without splitting itself when, without that child, it holds fewer than
/// `capacity - 1` children.
pub fn inner_has_room_for_halves(len_without_child: usize, capacity: usize) -> (res: bool)
    requires
        capacity >= 1,
    ensures
        res == (len_without_child + 2 <= capacity),
{
    len_without_child < capacity - 1
}

/// A node is too small when it holds fewer than `m` entries.
pub fn underfull(len: usize, m: usize) -> (res: bool)
    ensures
        res == (len < m),
{
    len < m
}

/// The siblings (by position) other than `node_to_fix` with more than `m`
/// entries: they can lend one and stay large enough.
pub fn siblings_to_borrow_from(sizes: &Vec<usize>, node_to_fix: usize, m: usize) -> (res: Vec<usize>)
    ensures
        forall|k: int| 0 <= k < res@.len() ==> #[trigger] res@[k] < sizes@.len() && res@[k] != node_to_fix
            && sizes@[res@[k] as int] > m,
        forall|i: int| 0 <= i < sizes@.len() && i != node_to_fix && sizes@[i] > m ==> res@.contains(i as usize),
        forall|a: int, b: int| 0 <= a < b < res@.len() ==> res@[a] < res@[b],
{
    let mut res: Vec<usize> = Vec::new();
    let mut i: usize = 0;
    while i < sizes.len()
        invariant
            i <= sizes@.len(),
            forall|k: int| 0 <= k < res@.len() ==> #[trigger] res@[k] < i && res@[k] != node_to_fix && sizes@[res@[k] as int] > m,
            forall|j: int| 0 <= j < i && j != node_to_fix && sizes@[j] > m ==> res@.contains(j as usize),
            forall|a: int, b: int| 0 <= a < b < res@.len() ==> res@[a] < res@[b],
        decreases sizes@.len() - i,
    {
        let ghost before = res@;
        if i != node_to_fix && sizes[i] > m {
            res.push(i);
            proof {
                assert(res@[res@.len() - 1] == i);
            }
        }
        proof {
            assert forall|j: int| 0 <= j < i + 1 && j != node_to_fix && sizes@[j] > m implies res@.contains(j as usize) by {
                if j < i {
                    let k = choose|k: int| 0 <= k < before.len() && before[k] == j as usize;
                    assert(res@[k] == before[k]);
                } else {
                    assert(res@[res@.len() - 1] == j as usize);
                }
            }
        }
        i = i + 1;
    }
    res
}

/// The siblings other than `node_to_fix` with exactly `m` entries: a node
/// one short of `m` can be merged into one of them.
pub fn siblings_to_merge_to(sizes: &Vec<usize>, node_to_fix: usize, m: usize) -> (res: Vec<usize>)
    ensures
        forall|k: int| 0 <= k < res@.len() ==> #[trigger] res@[k] < sizes@.len() && res@[k] != node_to_fix
            && sizes@[res@[k] as int] == m,
        forall|i: int| 0 <= i < sizes@.len() && i != node_to_fix && sizes@[i] == m ==> res@.contains(i as usize),
        forall|a: int, b: int| 0 <= a < b < res@.len() ==> res@[a] < res@[b],
{
    let mut res: Vec<usize> = Vec::new();
    let mut i: usize = 0;
    while i < sizes.len()
        invariant
            i <= sizes@.len(),
            forall|k: int| 0 <= k < res@.len() ==> #[trigger] res@[k] < i && res@[k] != node_to_fix && sizes@[res@[k] as int] == m,
            forall|j: int| 0 <= j < i && j != node_to_fix && sizes@[j] == m ==> res@.contains(j as usize),
            forall|a: int, b: int| 0 <= a < b < res@.len() ==> res@[a] < res@[b],
        decreases sizes@.len() - i,
    {
        let ghost before = res@;
        if i != node_to_fix && sizes[i] == m {
            res.push(i);
            proof {
                assert(res@[res@.len() - 1] == i);
            }
        }
        proof {
            assert forall|j: int| 0 <= j < i + 1 && j != node_to_fix && sizes@[j] == m implies res@.contains(j as usize) by {
                if j < i {
                    let k = choose|k: int| 0 <= k < before.len() && before[k] == j as usize;
                    assert(res@[k] == before[k]);
                } else {
                    assert(res@[res@.len() - 1] == j as usize);
                }
            }
        }
        i = i + 1;
    }
    res
}

/// Takes the two siblings at `a` and `b` out of the list, the one further
/// back first so that the other keeps its position, and gives them in list
/// order; the rest keep their order.
pub fn take_two<T>(nodes: &mut Vec<T>, a: usize, b: usize) -> (res: (T, T))
    requires
        a < old(nodes)@.len(),
        b < old(nodes)@.len(),
        a != b,
    ensures
        ({
            let lo = if a < b { a as int } else { b as int };
            let hi = if a < b { b as int } else { a as int };
            &&& res.0 == old(nodes)@[lo]
            &&& res.1 == old(nodes)@[hi]
            &&& final(nodes)@ == old(nodes)@.remove(hi).remove(lo)
        }),
{
    let (lo, hi) = if a < b { (a, b) } else { (b, a) };
    let second = nodes.remove(hi);
    let first = nodes.remove(lo);
    (first, second)
}

/// The split positions tried when an overfull node of `len` entries splits
/// into two of at least `m` each: `m` through `len - m`, both included.
pub fn split_positions(len: usize, m: usize) -> (res: Vec<usize>)
    requires
        m <= len < usize::MAX,
    ensures
        res@.len() == if len - m >= m { len - 2 * m + 1 } else { 0 },
        forall|k: int| 0 <= k < res@.len() ==> #[trigger] res@[k] == m + k,
{
    let mut res: Vec<usize> = Vec::new();
    let last = len - m;
    if last < m {
        return res;
    }
    let mut i: usize = m;
    while i <= last
        invariant
            m <= i,
            last == len - m,
            len < usize::MAX,
            i <= last + 1,
            res@.len() == i - m,
            forall|k: int| 0 <= k < res@.len() ==> #[trigger] res@[k] == m + k,
        decreases last + 1 - i,
    {
        res.push(i);
        i = i + 1;
    }
    res
}

/// A sibling that lends an entry keeps at least `m` entries, and the node it
/// lends to, one short of `m`, reaches `m`.
pub proof fn lemma_borrowing_restores_minimum(lender: nat, borrower: nat, m: nat)
    requires
        lender > m,
        borrower + 1 == m,
    ensures
        lender - 1 >= m,
        borrower + 1 >= m,
{
}

/// Merging a node one short of `m` into a sibling with `m` entries gives a
/// node of `2m - 1` entries, which fits a node of capacity at least `2m`.
pub proof fn lemma_merge_fits(m: nat, capacity: nat)
    requires
        m >= 1,
        2 * m <= capacity,
    ensures
        (m - 1) + m < capacity,
        (m - 1) + m >= m,
{
}

/// Every split position leaves at least `m` entries on both sides.
pub proof fn lemma_split_halves_large_enough(len: nat, m: nat, i: nat)
    requires
        m <= i <= len - m,
    ensures
        i >= m,
        len - i >= m,
{
}

} // verus!
