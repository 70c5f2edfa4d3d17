use vstd::prelude::*;

verus! {

// ---------------------------------------------------------------------------
// Triangulation of convex polygons

/// The triangles of the fan of polygon `polygon` with `n` vertices: the pair
/// `(polygon, k)` stands for the triangle of vertices 0, `k` and `k + 1`.
/// A polygon with fewer than three vertices has none.
pub open spec fn fan_of(polygon: usize, n: usize) -> Seq<(usize, usize)> {
    if n < 3 {
        Seq::empty()
    } else {
        Seq::new((n - 2) as nat, |k: int| (polygon, (k + 1) as usize))
    }
}

/// The fans of all polygons, polygon by polygon, where `counts[p]` is the
/// number of vertices of polygon `p`.
pub open spec fn fans(counts: Seq<usize>) -> Seq<(usize, usize)>
    decreases counts.len(),
{
    if counts.len() == 0 {
        Seq::empty()
    } else {
        fans(counts.drop_last()) + fan_of((counts.len() - 1) as usize, counts.last())
    }
}

/// Splits each convex polygon into a fan of triangles that all share its
/// first vertex.
pub fn triangle_fans(counts: &Vec<usize>) -> (res: Vec<(usize, usize)>)
    ensures
        res@ == fans(counts@),
{
    let mut res: Vec<(usize, usize)> = Vec::new();
    let mut i: usize = 0;
    while i < counts.len()
        invariant
            i <= counts@.len(),
            res@ == fans(counts@.take(i as int)),
        decreases counts@.len() - i,
    {
        let n = counts[i];
        let ghost before = res@;
        if n >= 3 {
            let mut k: usize = 1;
            while k < n - 1
                invariant
                    3 <= n,
                    1 <= k <= n - 1,
                    res@ == before + Seq::new((k - 1) as nat, |j: int| (i, (j + 1) as usize)),
                decreases n - k,
            {
                res.push((i, k));
                proof {
                    assert(Seq::new(k as nat, |j: int| (i, (j + 1) as usize)) =~= Seq::new(
                        (k - 1) as nat,
                        |j: int| (i, (j + 1) as usize),
                    ).push((i, k)));
                }
                k = k + 1;
            }
        }
        proof {
            assert(counts@.take(i + 1).drop_last() =~= counts@.take(i as int));
            assert(res@ =~= before + fan_of(i, n));
        }
        i = i + 1;
    }
    proof {
        assert(counts@.take(i as int) =~= counts@);
    }
    res
}

/// Every fan triangle refers to an existing polygon and to three of its
/// vertices: 0, `k` and `k + 1` with `1 <= k` and `k + 1 < n`.
pub proof fn lemma_fan_vertices_in_range(counts: Seq<usize>, t: int)
    requires
        0 <= t < fans(counts).len(),
        counts.len() <= usize::MAX,
    ensures
        fans(counts)[t].0 < counts.len(),
        1 <= fans(counts)[t].1,
        fans(counts)[t].1 + 1 < counts[fans(counts)[t].0 as int],
    decreases counts.len(),
{
    let prev = fans(counts.drop_last());
    let last = fan_of((counts.len() - 1) as usize, counts.last());
    assert(fans(counts) == prev + last);
    if t < prev.len() {
        lemma_fan_vertices_in_range(counts.drop_last(), t);
        assert(fans(counts)[t] == prev[t]);
        assert(counts.drop_last()[prev[t].0 as int] == counts[prev[t].0 as int]);
    } else {
        assert(fans(counts)[t] == last[t - prev.len()]);
    }
}

/// A polygon with `n >= 3` vertices gives `n - 2` triangles, so the fans
/// hold the sum of those counts.
pub proof fn lemma_fan_count(counts: Seq<usize>)
    ensures
        fans(counts).len() == fan_total(counts),
    decreases counts.len(),
{
    if counts.len() > 0 {
        lemma_fan_count(counts.drop_last());
    }
}

/// The number of triangles the fans of polygons with these vertex counts
/// have.
pub open spec fn fan_total(counts: Seq<usize>) -> nat
    decreases counts.len(),
{
    if counts.len() == 0 {
        0
    } else {
        fan_total(counts.drop_last()) + if counts.last() >= 3 {
            (counts.last() - 2) as nat
        } else {
            0
        }
    }
}

/// The index buffer of a mesh whose triangles each have their own three
/// vertices, stored one after the other: index `i` is vertex `i`.
pub fn triangle_list_indices(num_triangles: usize) -> (res: Vec<u32>)
    requires
        3 * num_triangles <= u32::MAX + 1,
    ensures
        res@.len() == 3 * num_triangles,
        forall|i: int| 0 <= i < 3 * num_triangles ==> #[trigger] res@[i] == i,
{
    let mut res: Vec<u32> = Vec::new();
    let mut t: usize = 0;
    while t < num_triangles
        invariant
            t <= num_triangles,
            3 * num_triangles <= u32::MAX + 1,
            res@.len() == 3 * t,
            forall|i: int| 0 <= i < 3 * t ==> #[trigger] res@[i] == i,
        decreases num_triangles - t,
    {
        let idx0 = (3 * t) as u32;
        res.push(idx0);
        res.push(idx0 + 1);
        res.push(idx0 + 2);
        t = t + 1;
    }
    res
}

// ---------------------------------------------------------------------------
// Cube

/// Coordinate `axis` (0, 1, 2 for x, y, z) of corner `i` of the cube from
/// -1 to 1: bit `axis` of the corner's number set means +1.
pub open spec fn corner_coord(i: u8, axis: int) -> int {
    if (i as int / pow2_small(axis)) % 2 == 1 {
        1
    } else {
        -1
    }
}

pub open spec fn pow2_small(axis: int) -> int {
    if axis == 0 {
        1
    } else if axis == 1 {
        2
    } else {
        4
    }
}

/// The position of corner `i` of the cube from -1 to 1 on each axis.
pub fn cube_corner(i: u8) -> (res: (i8, i8, i8))
    requires
        i < 8,
    ensures
        res.0 == corner_coord(i, 0),
        res.1 == corner_coord(i, 1),
        res.2 == corner_coord(i, 2),
{
    assert((i & 1u8) != 0 <==> (i as int / 1) % 2 == 1) by (bit_vector)
        requires
            i < 8,
    ;
    assert((i & 2u8) != 0 <==> (i as int / 2) % 2 == 1) by (bit_vector)
        requires
            i < 8,
    ;
    assert((i & 4u8) != 0 <==> (i as int / 4) % 2 == 1) by (bit_vector)
        requires
            i < 8,
    ;
    let x: i8 = if (i & 1) != 0 { 1 } else { -1 };
    let y: i8 = if (i & 2) != 0 { 1 } else { -1 };
    let z: i8 = if (i & 4) != 0 { 1 } else { -1 };
    (x, y, z)
}

/// Face `f` of the cube: its four corners in order, and its outward normal.
pub open spec fn spec_cube_face(f: int) -> (Seq<u8>, (i8, i8, i8)) {
    if f == 0 {
        (seq![0u8, 4, 6, 2], (-1i8, 0i8, 0i8))
    } else if f == 1 {
        (seq![1u8, 3, 7, 5], (1i8, 0i8, 0i8))
    } else if f == 2 {
        (seq![0u8, 1, 5, 4], (0i8, -1i8, 0i8))
    } else if f == 3 {
        (seq![2u8, 6, 7, 3], (0i8, 1i8, 0i8))
    } else if f == 4 {
        (seq![0u8, 2, 3, 1], (0i8, 0i8, -1i8))
    } else {
        (seq![4u8, 5, 7, 6], (0i8, 0i8, 1i8))
    }
}

/// The six faces of the cube, each with its corners and outward normal.
pub fn cube_face(f: usize) -> (res: (Vec<u8>, (i8, i8, i8)))
    requires
        f < 6,
    ensures
        res.0@ == spec_cube_face(f as int).0,
        res.1 == spec_cube_face(f as int).1,
{
    if f == 0 {
        (vec![0, 4, 6, 2], (-1, 0, 0))
    } else if f == 1 {
        (vec![1, 3, 7, 5], (1, 0, 0))
    } else if f == 2 {
        (vec![0, 1, 5, 4], (0, -1, 0))
    } else if f == 3 {
        (vec![2, 6, 7, 3], (0, 1, 0))
    } else if f == 4 {
        (vec![0, 2, 3, 1], (0, 0, -1))
    } else {
        (vec![4, 5, 7, 6], (0, 0, 1))
    }
}

/// The axis a face normal points along, and its sign.
pub open spec fn normal_axis(n: (i8, i8, i8)) -> int {
    if n.0 != 0 {
        0
    } else if n.1 != 0 {
        1
    } else {
        2
    }
}

pub open spec fn normal_sign(n: (i8, i8, i8)) -> int {
    if n.0 != 0 {
        n.0 as int
    } else if n.1 != 0 {
        n.1 as int
    } else {
        n.2 as int
    }
}

/// Every corner of a cube face lies on the side of the cube that the face's
/// normal points to.
pub proof fn lemma_cube_faces_lie_on_their_side(f: int, c: int)
    requires
        0 <= f < 6,
        0 <= c < 4,
    ensures
        corner_coord(spec_cube_face(f).0[c], normal_axis(spec_cube_face(f).1)) == normal_sign(
            spec_cube_face(f).1,
        ),
{
}

/// The four corners of each cube face are distinct corners of the cube.
pub proof fn lemma_cube_face_corners_distinct(f: int)
    requires
        0 <= f < 6,
    ensures
        spec_cube_face(f).0.len() == 4,
        forall|a: int, b: int|
            0 <= a < b < 4 ==> spec_cube_face(f).0[a] != spec_cube_face(f).0[b],
        forall|a: int| 0 <= a < 4 ==> spec_cube_face(f).0[a] < 8,
{
}

/// The position of corner `i` of the cube as a vector.
pub open spec fn corner_point(i: u8) -> (int, int, int) {
    (corner_coord(i, 0), corner_coord(i, 1), corner_coord(i, 2))
}

/// `a - b`.
pub open spec fn vec_sub(a: (int, int, int), b: (int, int, int)) -> (int, int, int) {
    (a.0 - b.0, a.1 - b.1, a.2 - b.2)
}

/// The cross product `a x b`.
pub open spec fn vec_cross(a: (int, int, int), b: (int, int, int)) -> (int, int, int) {
    (a.1 * b.2 - a.2 * b.1, a.2 * b.0 - a.0 * b.2, a.0 * b.1 - a.1 * b.0)
}

/// Whether face `f` of the cube turns the right way at its corner `k`: the
/// edge from corner `k` to the next corner, turned into the edge after it,
/// points along the face's outward normal. The edges have length 2, so the
/// cross product `(p1 - p0) x (p2 - p1)` (equal to `(p1 - p0) x (p2 - p0)`)
/// is four times the unit normal.
pub open spec fn wound_outward_at(f: int, k: int) -> bool {
    let c = spec_cube_face(f).0;
    let n = spec_cube_face(f).1;
    let p0 = corner_point(c[k]);
    let p1 = corner_point(c[(k + 1) % 4]);
    let p2 = corner_point(c[(k + 2) % 4]);
    &&& vec_cross(vec_sub(p1, p0), vec_sub(p2, p1)) == (4 * n.0, 4 * n.1, 4 * n.2)
    &&& vec_cross(vec_sub(p1, p0), vec_sub(p2, p0)) == (4 * n.0, 4 * n.1, 4 * n.2)
}

/// Each cube face is wound counter-clockwise seen from outside: at every
/// corner it turns about its outward normal, so the plane a polygon computes
/// from any three consecutive corners faces outward, as the normal does.
pub proof fn lemma_cube_faces_wound_outward(f: int, k: int)
    requires
        0 <= f < 6,
        0 <= k < 4,
    ensures
        wound_outward_at(f, k),
{
    if f == 0 && k == 0 {
        assert(wound_outward_at(0, 0)) by (nonlinear_arith);
    } else if f == 0 && k == 1 {
        assert(wound_outward_at(0, 1)) by (nonlinear_arith);
    } else if f == 0 && k == 2 {
        assert(wound_outward_at(0, 2)) by (nonlinear_arith);
    } else if f == 0 && k == 3 {
        assert(wound_outward_at(0, 3)) by (nonlinear_arith);
    } else if f == 1 && k == 0 {
        assert(wound_outward_at(1, 0)) by (nonlinear_arith);
    } else if f == 1 && k == 1 {
        assert(wound_outward_at(1, 1)) by (nonlinear_arith);
    } else if f == 1 && k == 2 {
        assert(wound_outward_at(1, 2)) by (nonlinear_arith);
    } else if f == 1 && k == 3 {
        assert(wound_outward_at(1, 3)) by (nonlinear_arith);
    } else if f == 2 && k == 0 {
        assert(wound_outward_at(2, 0)) by (nonlinear_arith);
    } else if f == 2 && k == 1 {
        assert(wound_outward_at(2, 1)) by (nonlinear_arith);
    } else if f == 2 && k == 2 {
        assert(wound_outward_at(2, 2)) by (nonlinear_arith);
    } else if f == 2 && k == 3 {
        assert(wound_outward_at(2, 3)) by (nonlinear_arith);
    } else if f == 3 && k == 0 {
        assert(wound_outward_at(3, 0)) by (nonlinear_arith);
    } else if f == 3 && k == 1 {
        assert(wound_outward_at(3, 1)) by (nonlinear_arith);
    } else if f == 3 && k == 2 {
        assert(wound_outward_at(3, 2)) by (nonlinear_arith);
    } else if f == 3 && k == 3 {
        assert(wound_outward_at(3, 3)) by (nonlinear_arith);
    } else if f == 4 && k == 0 {
        assert(wound_outward_at(4, 0)) by (nonlinear_arith);
    } else if f == 4 && k == 1 {
        assert(wound_outward_at(4, 1)) by (nonlinear_arith);
    } else if f == 4 && k == 2 {
        assert(wound_outward_at(4, 2)) by (nonlinear_arith);
    } else if f == 4 && k == 3 {
        assert(wound_outward_at(4, 3)) by (nonlinear_arith);
    } else if f == 5 && k == 0 {
        assert(wound_outward_at(5, 0)) by (nonlinear_arith);
    } else if f == 5 && k == 1 {
        assert(wound_outward_at(5, 1)) by (nonlinear_arith);
    } else if f == 5 && k == 2 {
        assert(wound_outward_at(5, 2)) by (nonlinear_arith);
    } else if f == 5 && k == 3 {
        assert(wound_outward_at(5, 3)) by (nonlinear_arith);
    }
}


// ---------------------------------------------------------------------------
// Sphere

/// The grid points of the patch of a sphere at slice `i` and stack `j`:
/// `(s, t)` stands for the point at longitude `s / slices` and latitude
/// `t / stacks`. Patches at the top and bottom stacks are triangles, since
/// their points at the pole coincide; the others are quads.
pub open spec fn sphere_patch(i: usize, j: usize, stacks: usize) -> Seq<(usize, usize)> {
    let first = seq![(i, j)];
    let second = if j > 0 {
        seq![((i + 1) as usize, j)]
    } else {
        Seq::empty()
    };
    let third = if j + 1 < stacks {
        seq![((i + 1) as usize, (j + 1) as usize)]
    } else {
        Seq::empty()
    };
    first + second + third + seq![(i, (j + 1) as usize)]
}

/// The patch at index `p` of the sphere, which runs through the stacks of
/// each slice in turn.
pub open spec fn sphere_patch_at(p: int, stacks: usize) -> Seq<(usize, usize)> {
    sphere_patch((p / stacks as int) as usize, (p % stacks as int) as usize, stacks)
}

/// The grid points of one patch of a sphere.
pub fn sphere_patch_points(i: usize, j: usize, stacks: usize) -> (res: Vec<(usize, usize)>)
    requires
        i < usize::MAX,
        j < stacks,
    ensures
        res@ == sphere_patch(i, j, stacks),
{
    let mut v: Vec<(usize, usize)> = Vec::new();
    v.push((i, j));
    if j > 0 {
        v.push((i + 1, j));
    }
    if j < stacks - 1 {
        v.push((i + 1, j + 1));
    }
    v.push((i, j + 1));
    proof {
        assert(v@ =~= sphere_patch(i, j, stacks));
    }
    v
}

/// The patches of a sphere of `slices` by `stacks`, slice by slice.
pub fn sphere_patches(slices: usize, stacks: usize) -> (res: Vec<Vec<(usize, usize)>>)
    requires
        slices < usize::MAX,
        slices * stacks <= usize::MAX,
    ensures
        res@.len() == slices * stacks,
        forall|p: int| 0 <= p < slices * stacks ==> (#[trigger] res@[p])@ == sphere_patch_at(p, stacks),
{
    let mut res: Vec<Vec<(usize, usize)>> = Vec::new();
    let mut i: usize = 0;
    while i < slices
        invariant
            i <= slices < usize::MAX,
            slices * stacks <= usize::MAX,
            res@.len() == i * stacks,
            forall|p: int| 0 <= p < i * stacks ==> (#[trigger] res@[p])@ == sphere_patch_at(p, stacks),
        decreases slices - i,
    {
        let mut j: usize = 0;
        while j < stacks
            invariant
                i < slices < usize::MAX,
                slices * stacks <= usize::MAX,
                j <= stacks,
                res@.len() == i * stacks + j,
                forall|p: int| 0 <= p < i * stacks + j ==> (#[trigger] res@[p])@ == sphere_patch_at(p, stacks),
            decreases stacks - j,
        {
            proof {
                lemma_grid_index(i as int, j as int, slices as int, stacks as int);
            }
            let patch = sphere_patch_points(i, j, stacks);
            res.push(patch);
            j = j + 1;
        }
        proof {
            assert((i + 1) * stacks == i * stacks + stacks) by (nonlinear_arith);
        }
        i = i + 1;
    }
    res
}

proof fn lemma_grid_index(i: int, j: int, slices: int, stacks: int)
    by (nonlinear_arith)
    requires
        0 <= i < slices,
        0 <= j < stacks,
    ensures
        (i * stacks + j) / stacks == i,
        (i * stacks + j) % stacks == j,
        i * stacks + j < slices * stacks,
{
    assert(i * stacks + j < (i + 1) * stacks);
    assert((i + 1) * stacks <= slices * stacks);
}

/// With at least two stacks, the patches at the poles are triangles and all
/// others are quads.
pub proof fn lemma_sphere_patch_shapes(i: usize, j: usize, stacks: usize)
    requires
        stacks >= 2,
        j < stacks,
        i < usize::MAX,
    ensures
        (j == 0 || j == stacks - 1) ==> sphere_patch(i, j, stacks).len() == 3,
        (0 < j < stacks - 1) ==> sphere_patch(i, j, stacks).len() == 4,
{
}

// ---------------------------------------------------------------------------
// Cylinder

/// A point of a cylinder's surface: the centre of the start or end cap, or a
/// point on a rim. `stack` is 0 at the start and 1 at the end, `slice`
/// counts around the axis (slice `slices` is slice 0 again), and `blend`
/// says whether the point's normal is the cap's (-1 or 1) or points out (0).
#[derive(Debug, Clone, Copy, PartialEq, Eq, Structural)]
pub enum CylinderPoint {
    StartCenter,
    EndCenter,
    Rim { stack: u8, slice: usize, blend: i8 },
}

/// The three polygons of slice `i`: a triangle of the start cap, a quad of
/// the side and a triangle of the end cap.
pub open spec fn cylinder_slice(i: usize) -> Seq<Seq<CylinderPoint>> {
    let t0 = i;
    let t1 = (i + 1) as usize;
    seq![
        seq![
            CylinderPoint::StartCenter,
            CylinderPoint::Rim { stack: 0, slice: t0, blend: -1i8 },
            CylinderPoint::Rim { stack: 0, slice: t1, blend: -1i8 },
        ],
        seq![
            CylinderPoint::Rim { stack: 0, slice: t1, blend: 0 },
            CylinderPoint::Rim { stack: 0, slice: t0, blend: 0 },
            CylinderPoint::Rim { stack: 1, slice: t0, blend: 0 },
            CylinderPoint::Rim { stack: 1, slice: t1, blend: 0 },
        ],
        seq![
            CylinderPoint::EndCenter,
            CylinderPoint::Rim { stack: 1, slice: t1, blend: 1 },
            CylinderPoint::Rim { stack: 1, slice: t0, blend: 1 },
        ],
    ]
}

fn cylinder_slice_polygons(i: usize) -> (res: (Vec<CylinderPoint>, Vec<CylinderPoint>, Vec<CylinderPoint>))
    requires
        i < usize::MAX,
    ensures
        res.0@ == cylinder_slice(i)[0],
        res.1@ == cylinder_slice(i)[1],
        res.2@ == cylinder_slice(i)[2],
{
    let t0 = i;
    let t1 = i + 1;
    let start_cap = vec![
        CylinderPoint::StartCenter,
        CylinderPoint::Rim { stack: 0, slice: t0, blend: -1i8 },
        CylinderPoint::Rim { stack: 0, slice: t1, blend: -1i8 },
    ];
    let side = vec![
        CylinderPoint::Rim { stack: 0, slice: t1, blend: 0 },
        CylinderPoint::Rim { stack: 0, slice: t0, blend: 0 },
        CylinderPoint::Rim { stack: 1, slice: t0, blend: 0 },
        CylinderPoint::Rim { stack: 1, slice: t1, blend: 0 },
    ];
    let end_cap = vec![
        CylinderPoint::EndCenter,
        CylinderPoint::Rim { stack: 1, slice: t1, blend: 1 },
        CylinderPoint::Rim { stack: 1, slice: t0, blend: 1 },
    ];
    (start_cap, side, end_cap)
}

/// The polygons of a cylinder with `slices` slices: three per slice, in
/// slice order.
pub fn cylinder_polygons(slices: usize) -> (res: Vec<Vec<CylinderPoint>>)
    requires
        3 * slices <= usize::MAX,
    ensures
        res@.len() == 3 * slices,
        forall|p: int| 0 <= p < 3 * slices ==> (#[trigger] res@[p])@ == cylinder_slice((p / 3) as usize)[p % 3],
{
    let mut res: Vec<Vec<CylinderPoint>> = Vec::new();
    let mut i: usize = 0;
    while i < slices
        invariant
            i <= slices,
            3 * slices <= usize::MAX,
            res@.len() == 3 * i,
            forall|p: int| 0 <= p < 3 * i ==> (#[trigger] res@[p])@ == cylinder_slice((p / 3) as usize)[p % 3],
        decreases slices - i,
    {
        let (a, b, c) = cylinder_slice_polygons(i);
        res.push(a);
        res.push(b);
        res.push(c);
        i = i + 1;
    }
    res
}

/// The slice of a rim point, or -1 for a cap centre.
pub open spec fn rim_slice(p: CylinderPoint) -> int {
    match p {
        CylinderPoint::Rim { slice, .. } => slice as int,
        _ => -1,
    }
}

/// The stack of a point: 0 at the start of the axis, 1 at its end.
pub open spec fn point_stack(p: CylinderPoint) -> int {
    match p {
        CylinderPoint::StartCenter => 0,
        CylinderPoint::EndCenter => 1,
        CylinderPoint::Rim { stack, .. } => stack as int,
    }
}

/// How a point's normal leans along the axis: -1 backward (the start cap),
/// 1 forward (the end cap), 0 straight out (the side).
pub open spec fn point_blend(p: CylinderPoint) -> int {
    match p {
        CylinderPoint::StartCenter => -1,
        CylinderPoint::EndCenter => 1,
        CylinderPoint::Rim { blend, .. } => blend as int,
    }
}

/// Every polygon of a cylinder slice faces the way its normals point. Going
/// forward through the slices (slice `t` to `t + 1`) turns
/// counter-clockwise about the backward direction of the axis, so by the
/// right-hand rule:
/// - each cap has its centre first and its two rim points on its own end,
///   all with the cap's normal, and runs its rim against its normal: the
///   start cap (normal backward) forward by one slice, the end cap (normal
///   forward) backward by one slice; so the end cap's rim is the start
///   cap's rim in reverse order, and the two caps turn in opposite
///   directions;
/// - the side quad runs one slice backward along the start rim, up the axis
///   to the end rim, and one slice forward along it, with normals straight
///   out.
pub proof fn lemma_cylinder_slice_faces_out(i: usize)
    requires
        i < usize::MAX,
    ensures
        ({
            let start_cap = cylinder_slice(i)[0];
            let side = cylinder_slice(i)[1];
            let end_cap = cylinder_slice(i)[2];
            &&& start_cap.len() == 3 && side.len() == 4 && end_cap.len() == 3
            &&& start_cap[0] == CylinderPoint::StartCenter && end_cap[0] == CylinderPoint::EndCenter
            &&& forall|k: int| 0 <= k < 3 ==> point_stack(#[trigger] start_cap[k]) == 0 && point_blend(start_cap[k]) == -1
            &&& forall|k: int| 0 <= k < 3 ==> point_stack(#[trigger] end_cap[k]) == 1 && point_blend(end_cap[k]) == 1
            &&& rim_slice(start_cap[2]) - rim_slice(start_cap[1]) == -point_blend(start_cap[0])
            &&& rim_slice(end_cap[2]) - rim_slice(end_cap[1]) == -point_blend(end_cap[0])
            &&& rim_slice(end_cap[1]) == rim_slice(start_cap[2]) && rim_slice(end_cap[2]) == rim_slice(start_cap[1])
            &&& rim_slice(start_cap[1]) == i
            &&& forall|k: int| 0 <= k < 4 ==> point_blend(#[trigger] side[k]) == 0
            &&& point_stack(side[0]) == 0 && point_stack(side[1]) == 0 && point_stack(side[2]) == 1 && point_stack(side[3]) == 1
            &&& rim_slice(side[1]) - rim_slice(side[0]) == -1
            &&& rim_slice(side[2]) == rim_slice(side[1])
            &&& rim_slice(side[3]) - rim_slice(side[2]) == 1
            &&& rim_slice(side[1]) == i
        }),
{
    let start_cap = cylinder_slice(i)[0];
    let side = cylinder_slice(i)[1];
    let end_cap = cylinder_slice(i)[2];
    assert forall|k: int| 0 <= k < 3 implies point_stack(#[trigger] start_cap[k]) == 0 && point_blend(start_cap[k]) == -1 by {
        if k == 0 {} else if k == 1 {} else {}
    }
    assert forall|k: int| 0 <= k < 3 implies point_stack(#[trigger] end_cap[k]) == 1 && point_blend(end_cap[k]) == 1 by {
        if k == 0 {} else if k == 1 {} else {}
    }
    assert forall|k: int| 0 <= k < 4 implies point_blend(#[trigger] side[k]) == 0 by {
        if k == 0 {} else if k == 1 {} else if k == 2 {} else {}
    }
}

/// Neighbouring side quads share an edge: the edge of slice `i` at its end
/// of the turn is the edge of slice `i + 1` at its start.
pub proof fn lemma_cylinder_sides_join(i: usize)
    requires
        i + 2 <= usize::MAX,
    ensures
        cylinder_slice(i)[1][0] == cylinder_slice((i + 1) as usize)[1][1],
        cylinder_slice(i)[1][3] == cylinder_slice((i + 1) as usize)[1][2],
{
}

} // verus!
