use vstd::prelude::*;

verus! {

/// Where a point or a polygon lies relative to a plane. The variants are the
/// bit sets `0` (coplanar), `1` (front), `2` (back) and `3` (spanning).
#[derive(Clone, Copy, Debug, PartialEq, Eq, Structural)]
pub enum Location {
    Coplanar,
    Front,
    Back,
    Spanning,
}

impl Location {
    /// The bit set that the location stands for.
    pub open spec fn bits(self) -> u32 {
        match self {
            Location::Coplanar => 0,
            Location::Front => 1,
            Location::Back => 2,
            Location::Spanning => 3,
        }
    }

    pub open spec fn from_bits(b: u32) -> Location {
        if b == 0 {
            Location::Coplanar
        } else if b == 1 {
            Location::Front
        } else if b == 2 {
            Location::Back
        } else {
            Location::Spanning
        }
    }

    /// Union of two locations, the bitwise or of their bit sets.
    pub open spec fn spec_union(self, other: Location) -> Location {
        Location::from_bits(self.bits() | other.bits())
    }

    /// The bit set of this location.
    pub fn to_bits(&self) -> (b: u32)
        ensures
            b == self.bits(),
            b < 4,
    {
        match self {
            Location::Coplanar => 0,
            Location::Front => 1,
            Location::Back => 2,
            Location::Spanning => 3,
        }
    }

    /// Union of two locations: a polygon with one vertex in front and one
    /// behind the plane spans it.
    pub fn union(&self, other: &Location) -> (res: Location)
        ensures
            res == self.spec_union(*other),
            res.bits() == self.bits() | other.bits(),
    {
        let a = self.to_bits();
        let b = other.to_bits();
        let c = a | b;
        assert(c < 4 && (c == 0 || c == 1 || c == 2 || c == 3)) by (bit_vector)
            requires
                a < 4,
                b < 4,
                c == a | b,
        ;
        if c == 0 {
            Location::Coplanar
        } else if c == 1 {
            Location::Front
        } else if c == 2 {
            Location::Back
        } else {
            Location::Spanning
        }
    }

    /// Location of a point whose signed distance to the plane is below the
    /// negative tolerance (`behind`) or above the positive one (`in_front`).
    pub fn classify(behind: bool, in_front: bool) -> (res: Location)
        ensures
            behind ==> res == Location::Back,
            !behind && in_front ==> res == Location::Front,
            !behind && !in_front ==> res == Location::Coplanar,
    {
        if behind {
            Location::Back
        } else if in_front {
            Location::Front
        } else {
            Location::Coplanar
        }
    }
}

/// Union of the first `n` locations.
pub open spec fn union_prefix(types: Seq<Location>, n: nat) -> Location
    decreases n,
{
    if n == 0 {
        Location::Coplanar
    } else {
        union_prefix(types, (n - 1) as nat).spec_union(types[n - 1])
    }
}

/// Location of a whole polygon: the union of its vertices' locations.
pub fn polygon_location(types: &Vec<Location>) -> (res: Location)
    ensures
        res == union_prefix(types@, types@.len()),
{
    let mut acc = Location::Coplanar;
    let mut i: usize = 0;
    while i < types.len()
        invariant
            i <= types@.len(),
            acc == union_prefix(types@, i as nat),
        decreases types@.len() - i,
    {
        acc = acc.union(&types[i]);
        i = i + 1;
    }
    acc
}

/// A point of a polygon fragment: a vertex of the polygon, or the point where the
/// edge from one vertex to the next crosses the plane.
#[derive(Clone, Copy, Debug, PartialEq, Eq, Structural)]
pub enum SplitPoint {
    Vertex(usize),
    Between(usize, usize),
}

/// Index of the vertex after vertex `i` on a closed loop of `n` vertices.
pub open spec fn next_index(i: int, n: int) -> int {
    (i + 1) % n
}

/// What vertex `i` contributes to the fragment in front of the plane.
pub open spec fn front_contribution(types: Seq<Location>, i: int) -> Seq<SplitPoint> {
    let j = next_index(i, types.len() as int);
    (if types[i] != Location::Back {
        seq![SplitPoint::Vertex(i as usize)]
    } else {
        seq![]
    }) + (if types[i].spec_union(types[j]) == Location::Spanning {
        seq![SplitPoint::Between(i as usize, j as usize)]
    } else {
        seq![]
    })
}

/// What vertex `i` contributes to the fragment behind the plane.
pub open spec fn back_contribution(types: Seq<Location>, i: int) -> Seq<SplitPoint> {
    let j = next_index(i, types.len() as int);
    (if types[i] != Location::Front {
        seq![SplitPoint::Vertex(i as usize)]
    } else {
        seq![]
    }) + (if types[i].spec_union(types[j]) == Location::Spanning {
        seq![SplitPoint::Between(i as usize, j as usize)]
    } else {
        seq![]
    })
}

/// The front fragment built from the first `n` vertices.
pub open spec fn front_points(types: Seq<Location>, n: nat) -> Seq<SplitPoint>
    decreases n,
{
    if n == 0 {
        seq![]
    } else {
        front_points(types, (n - 1) as nat) + front_contribution(types, n - 1)
    }
}

/// The back fragment built from the first `n` vertices.
pub open spec fn back_points(types: Seq<Location>, n: nat) -> Seq<SplitPoint>
    decreases n,
{
    if n == 0 {
        seq![]
    } else {
        back_points(types, (n - 1) as nat) + back_contribution(types, n - 1)
    }
}

/// Cuts a polygon whose vertices lie at `types` into the point lists of its
/// front and back fragments: each vertex goes to the side it lies on (both
/// when it lies on the plane), and each edge that crosses the plane adds its
/// crossing point to both.
pub fn split_points(types: &Vec<Location>) -> (res: (Vec<SplitPoint>, Vec<SplitPoint>))
    ensures
        res.0@ == front_points(types@, types@.len()),
        res.1@ == back_points(types@, types@.len()),
{
    let n = types.len();
    let mut front: Vec<SplitPoint> = Vec::new();
    let mut back: Vec<SplitPoint> = Vec::new();
    let mut i: usize = 0;
    while i < n
        invariant
            n == types@.len(),
            i <= n,
            front@ == front_points(types@, i as nat),
            back@ == back_points(types@, i as nat),
        decreases n - i,
    {
        let j = (i + 1) % n;
        let ti = types[i];
        let tj = types[j];
        let ghost f0 = front@;
        let ghost b0 = back@;
        if ti != Location::Back {
            front.push(SplitPoint::Vertex(i));
        }
        if ti != Location::Front {
            back.push(SplitPoint::Vertex(i));
        }
        if ti.union(&tj) == Location::Spanning {
            front.push(SplitPoint::Between(i, j));
            back.push(SplitPoint::Between(i, j));
        }
        assert(front@ =~= f0 + front_contribution(types@, i as int));
        assert(back@ =~= b0 + back_contribution(types@, i as int));
        i = i + 1;
    }
    (front, back)
}


/// Whether a fragment point is a crossing point of an edge and the plane.
pub open spec fn is_cut(p: SplitPoint) -> bool {
    p is Between
}

/// The crossing points of a fragment, in order.
pub open spec fn cut_points(s: Seq<SplitPoint>) -> Seq<SplitPoint> {
    s.filter(|p: SplitPoint| is_cut(p))
}

/// Both fragments of a cut polygon hold the same crossing points, in the same
/// order: the front and back pieces meet along one shared cut.
pub proof fn lemma_fragments_share_cut_points(types: Seq<Location>, n: nat)
    requires
        n <= types.len(),
    ensures
        cut_points(front_points(types, n)) == cut_points(back_points(types, n)),
    decreases n,
{
    if n > 0 {
        let m = (n - 1) as nat;
        lemma_fragments_share_cut_points(types, m);
        let pred = |p: SplitPoint| is_cut(p);
        Seq::filter_distributes_over_add(front_points(types, m), front_contribution(types, n - 1), pred);
        Seq::filter_distributes_over_add(back_points(types, m), back_contribution(types, n - 1), pred);
        let i = n - 1;
        let j = next_index(i, types.len() as int);
        let fv: Seq<SplitPoint> = if types[i] != Location::Back { seq![SplitPoint::Vertex(i as usize)] } else { seq![] };
        let bv: Seq<SplitPoint> = if types[i] != Location::Front { seq![SplitPoint::Vertex(i as usize)] } else { seq![] };
        let c: Seq<SplitPoint> = if types[i].spec_union(types[j]) == Location::Spanning {
            seq![SplitPoint::Between(i as usize, j as usize)]
        } else {
            seq![]
        };
        Seq::filter_distributes_over_add(fv, c, pred);
        Seq::filter_distributes_over_add(bv, c, pred);
        reveal_with_fuel(Seq::filter, 2);
        assert(fv.filter(pred) =~= Seq::<SplitPoint>::empty());
        assert(bv.filter(pred) =~= Seq::<SplitPoint>::empty());
        assert(front_contribution(types, i) == fv + c);
        assert(back_contribution(types, i) == bv + c);
        assert(cut_points(front_contribution(types, i)) =~= cut_points(back_contribution(types, i)));
    }
}

/// No vertex location is `Spanning`: a single point lies on one side of the
/// plane or in it.
pub open spec fn vertex_locations(types: Seq<Location>) -> bool {
    forall|i: int| 0 <= i < types.len() ==> types[i] != Location::Spanning
}

proof fn lemma_union_facts()
    ensures
        Location::Coplanar.spec_union(Location::Coplanar) == Location::Coplanar,
        Location::Coplanar.spec_union(Location::Back) == Location::Back,
        Location::Back.spec_union(Location::Coplanar) == Location::Back,
        Location::Back.spec_union(Location::Back) == Location::Back,
        Location::Coplanar.spec_union(Location::Front) == Location::Front,
        Location::Front.spec_union(Location::Coplanar) == Location::Front,
        Location::Front.spec_union(Location::Front) == Location::Front,
        Location::Front.spec_union(Location::Back) == Location::Spanning,
        Location::Back.spec_union(Location::Front) == Location::Spanning,
{
    assert(0u32 | 0u32 == 0u32 && 0u32 | 2u32 == 2u32 && 2u32 | 0u32 == 2u32 && 2u32 | 2u32 == 2u32)
        by (bit_vector);
    assert(0u32 | 1u32 == 1u32 && 1u32 | 0u32 == 1u32 && 1u32 | 1u32 == 1u32 && 1u32 | 2u32 == 3u32
        && 2u32 | 1u32 == 3u32) by (bit_vector);
}

/// Without a vertex in front, the union stays coplanar or back; without one
/// behind, it stays coplanar or front.
proof fn lemma_union_without(types: Seq<Location>, n: nat)
    requires
        n <= types.len(),
        vertex_locations(types),
    ensures
        (forall|i: int| 0 <= i < n ==> types[i] != Location::Front) ==> (union_prefix(types, n)
            == Location::Coplanar || union_prefix(types, n) == Location::Back),
        (forall|i: int| 0 <= i < n ==> types[i] != Location::Back) ==> (union_prefix(types, n)
            == Location::Coplanar || union_prefix(types, n) == Location::Front),
    decreases n,
{
    lemma_union_facts();
    if n > 0 {
        lemma_union_without(types, (n - 1) as nat);
    }
}

/// A fragment holds at least what three distinct vertices contribute.
proof fn lemma_points_at_least(types: Seq<Location>, n: nat, a: int, b: int, c: int, front: bool)
    requires
        n <= types.len(),
        a != b && b != c && a != c,
        0 <= a && 0 <= b && 0 <= c,
    ensures
        (if front { front_points(types, n).len() } else { back_points(types, n).len() }) >= (if a < n {
            contribution_len(types, a, front)
        } else {
            0
        }) + (if b < n {
            contribution_len(types, b, front)
        } else {
            0
        }) + (if c < n {
            contribution_len(types, c, front)
        } else {
            0
        }),
    decreases n,
{
    if n > 0 {
        lemma_points_at_least(types, (n - 1) as nat, a, b, c, front);
    }
}

pub open spec fn contribution_len(types: Seq<Location>, i: int, front: bool) -> nat {
    if front {
        front_contribution(types, i).len()
    } else {
        back_contribution(types, i).len()
    }
}

/// A polygon of at least three vertices that spans the plane is cut into two
/// pieces that each keep at least three points, so neither is dropped.
pub proof fn lemma_spanning_split_keeps_both(types: Seq<Location>)
    requires
        types.len() >= 3,
        vertex_locations(types),
        union_prefix(types, types.len()) == Location::Spanning,
    ensures
        front_points(types, types.len()).len() >= 3,
        back_points(types, types.len()).len() >= 3,
{
    let n = types.len() as int;
    lemma_union_facts();
    lemma_union_without(types, types.len());
    let f = choose|i: int| 0 <= i < n && types[i] == Location::Front;
    let b = choose|i: int| 0 <= i < n && types[i] == Location::Back;
    lemma_side_needs_three(types, f, true);
    lemma_side_needs_three(types, b, false);
}

/// Around a vertex on one side, the previous vertex, the vertex and the next
/// one together contribute at least three points to that side's piece.
proof fn lemma_side_needs_three(types: Seq<Location>, v: int, front: bool)
    requires
        types.len() >= 3,
        vertex_locations(types),
        0 <= v < types.len(),
        types[v] == (if front { Location::Front } else { Location::Back }),
    ensures
        (if front { front_points(types, types.len()).len() } else { back_points(types, types.len()).len() }) >= 3,
{
    let n = types.len() as int;
    lemma_union_facts();
    let p = if v == 0 { n - 1 } else { v - 1 };
    let q = if v + 1 < n { v + 1 } else { 0 };
    assert(next_index(p, n) == v) by {
        if v == 0 {
            assert((n - 1 + 1) % n == 0) by (nonlinear_arith)
                requires
                    n >= 3,
            ;
        } else {
            assert(v % n == v) by (nonlinear_arith)
                requires
                    0 < v < n,
            ;
        }
    }
    assert(next_index(v, n) == q) by {
        if v + 1 < n {
            assert((v + 1) % n == v + 1) by (nonlinear_arith)
                requires
                    0 <= v,
                    v + 1 < n,
            ;
        } else {
            assert((v + 1) % n == 0) by (nonlinear_arith)
                requires
                    v + 1 == n,
                    n >= 3,
            ;
        }
    }
    lemma_points_at_least(types, types.len(), p, v, q, front);
    assert(contribution_len(types, p, front) >= 1);
    assert(contribution_len(types, v, front) + contribution_len(types, q, front) >= 2);
}

/// Where `split_polygon` puts a polygon, given the union of its vertices'
/// locations and, for a coplanar polygon, whether it faces the same way as the
/// plane. A spanning polygon is cut; a fragment with fewer than three points is
/// dropped (`None`).
#[derive(Debug)]
pub enum SplitPlan {
    CoplanarFront,
    CoplanarBack,
    Front,
    Back,
    Spanning { front: Option<Vec<SplitPoint>>, back: Option<Vec<SplitPoint>> },
}

/// A fragment is kept when it has at least three points.
pub open spec fn kept(points: Seq<SplitPoint>) -> Option<Seq<SplitPoint>> {
    if points.len() >= 3 {
        Some(points)
    } else {
        None
    }
}

pub open spec fn option_view(o: Option<Vec<SplitPoint>>) -> Option<Seq<SplitPoint>> {
    match o {
        Some(v) => Some(v@),
        None => None,
    }
}

/// Decides where a polygon whose vertices lie at `types` goes when split by a
/// plane, and for a spanning polygon which points make up its two fragments.
pub fn split_polygon_plan(types: &Vec<Location>, faces_plane_direction: bool) -> (res: SplitPlan)
    ensures
        ({
            let t = union_prefix(types@, types@.len());
            &&& (t == Location::Coplanar && faces_plane_direction) ==> res == SplitPlan::CoplanarFront
            &&& (t == Location::Coplanar && !faces_plane_direction) ==> res == SplitPlan::CoplanarBack
            &&& t == Location::Front ==> res == SplitPlan::Front
            &&& t == Location::Back ==> res == SplitPlan::Back
            &&& t == Location::Spanning ==> (res matches SplitPlan::Spanning { front, back }
                && option_view(front) == kept(front_points(types@, types@.len()))
                && option_view(back) == kept(back_points(types@, types@.len())))
        }),
{
    let t = polygon_location(types);
    match t {
        Location::Coplanar => {
            if faces_plane_direction {
                SplitPlan::CoplanarFront
            } else {
                SplitPlan::CoplanarBack
            }
        },
        Location::Front => SplitPlan::Front,
        Location::Back => SplitPlan::Back,
        Location::Spanning => {
            let (f, b) = split_points(types);
            let front = if f.len() >= 3 { Some(f) } else { None };
            let back = if b.len() >= 3 { Some(b) } else { None };
            SplitPlan::Spanning { front, back }
        },
    }
}

/// The fragment counts that a split produces, as a split that fills four
/// output lists counts them: (coplanar front, coplanar back, front, back).
pub open spec fn plan_counts(plan: SplitPlan) -> (nat, nat, nat, nat) {
    match plan {
        SplitPlan::CoplanarFront => (1, 0, 0, 0),
        SplitPlan::CoplanarBack => (0, 1, 0, 0),
        SplitPlan::Front => (0, 0, 1, 0),
        SplitPlan::Back => (0, 0, 0, 1),
        SplitPlan::Spanning { front, back } => (
            0,
            0,
            if front is Some { 1 } else { 0 },
            if back is Some { 1 } else { 0 },
        ),
    }
}

/// Whether a face of a brush stays sound after being cut by another of the
/// brush's planes: it must not lie in that plane, and exactly one piece of
/// it must remain behind the plane (with at most one in front). Anything
/// else means the planes enclose no volume and the brush is degenerate.
pub fn face_survives_cut(plan: &SplitPlan) -> (res: bool)
    ensures
        res == ({
            let c = plan_counts(*plan);
            c.0 == 0 && c.1 == 0 && c.3 == 1 && c.2 <= 1
        }),
{
    match plan {
        SplitPlan::CoplanarFront => false,
        SplitPlan::CoplanarBack => false,
        SplitPlan::Front => false,
        SplitPlan::Back => true,
        SplitPlan::Spanning { front: _, back } => back.is_some(),
    }
}

} // verus!
