use physics::csg::split::{
    face_survives_cut, polygon_location, split_points, split_polygon_plan, Location, SplitPlan,
    SplitPoint,
};
use physics::csg::texgen::MajorAxis;
use physics::csg::split::Location::{Back, Coplanar, Front, Spanning};
use physics::csg::topology::{
    cube_corner, cube_face, cylinder_polygons, sphere_patch_points, sphere_patches,
    triangle_fans, triangle_list_indices, CylinderPoint,
};

#[test]
fn location_bits_and_union() {
    assert_eq!(Location::Coplanar.to_bits(), 0);
    assert_eq!(Location::Front.to_bits(), 1);
    assert_eq!(Location::Back.to_bits(), 2);
    assert_eq!(Location::Spanning.to_bits(), 3);
    assert_eq!(Location::Front.union(&Location::Back), Location::Spanning);
    assert_eq!(Location::Coplanar.union(&Location::Back), Location::Back);
    assert_eq!(Location::Front.union(&Location::Front), Location::Front);
}

#[test]
fn classify_by_side() {
    assert_eq!(Location::classify(true, false), Location::Back);
    assert_eq!(Location::classify(false, true), Location::Front);
    assert_eq!(Location::classify(false, false), Location::Coplanar);
}

#[test]
fn polygon_location_unions_vertices() {
    assert_eq!(polygon_location(&vec![Coplanar, Coplanar, Coplanar]), Coplanar);
    assert_eq!(polygon_location(&vec![Front, Coplanar, Front]), Front);
    assert_eq!(polygon_location(&vec![Front, Back, Coplanar]), Spanning);
    assert_eq!(polygon_location(&vec![]), Coplanar);
}

#[test]
fn split_of_a_square_through_two_edges() {
    // vertices 0,1 in front, 2,3 behind: the plane cuts edges 1-2 and 3-0
    let (front, back) = split_points(&vec![Front, Front, Back, Back]);
    assert_eq!(
        front,
        vec![SplitPoint::Vertex(0), SplitPoint::Vertex(1), SplitPoint::Between(1, 2), SplitPoint::Between(3, 0)]
    );
    assert_eq!(
        back,
        vec![SplitPoint::Between(1, 2), SplitPoint::Vertex(2), SplitPoint::Vertex(3), SplitPoint::Between(3, 0)]
    );
}

#[test]
fn split_through_a_vertex_keeps_it_on_both_sides() {
    let (front, back) = split_points(&vec![Coplanar, Front, Back]);
    assert_eq!(front, vec![SplitPoint::Vertex(0), SplitPoint::Vertex(1), SplitPoint::Between(1, 2)]);
    assert_eq!(back, vec![SplitPoint::Vertex(0), SplitPoint::Between(1, 2), SplitPoint::Vertex(2)]);
}

#[test]
fn split_plans() {
    assert!(matches!(split_polygon_plan(&vec![Coplanar, Coplanar, Coplanar], true), SplitPlan::CoplanarFront));
    assert!(matches!(split_polygon_plan(&vec![Coplanar, Coplanar, Coplanar], false), SplitPlan::CoplanarBack));
    assert!(matches!(split_polygon_plan(&vec![Front, Coplanar, Front], true), SplitPlan::Front));
    assert!(matches!(split_polygon_plan(&vec![Back, Back, Back], true), SplitPlan::Back));
    match split_polygon_plan(&vec![Front, Front, Back, Back], true) {
        SplitPlan::Spanning { front: Some(f), back: Some(b) } => {
            assert_eq!(f.len(), 4);
            assert_eq!(b.len(), 4);
        }
        _ => panic!("expected a spanning split"),
    }
}

#[test]
fn brush_face_cut_soundness() {
    assert!(face_survives_cut(&split_polygon_plan(&vec![Back, Back, Back], true)));
    assert!(face_survives_cut(&split_polygon_plan(&vec![Front, Front, Back, Back], true)));
    assert!(!face_survives_cut(&split_polygon_plan(&vec![Front, Front, Front], true)));
    assert!(!face_survives_cut(&split_polygon_plan(&vec![Coplanar, Coplanar, Coplanar], false)));
    assert!(!face_survives_cut(&SplitPlan::Spanning { front: Some(vec![]), back: None }));
}

#[test]
fn major_axis_projection() {
    assert_eq!(MajorAxis::Xneg.projected_axes(), Some((2, 1)));
    assert_eq!(MajorAxis::Ypos.projected_axes(), Some((0, 2)));
    assert_eq!(MajorAxis::Zpos.projected_axes(), Some((0, 1)));
    assert_eq!(MajorAxis::NoAxis.projected_axes(), None);
    assert_eq!(MajorAxis::Yneg.axis_index(), Some(1));
}

#[test]
fn fans_of_polygons() {
    let fans = triangle_fans(&vec![4, 2, 3]);
    assert_eq!(fans, vec![(0, 1), (0, 2), (2, 1)]);
    assert!(triangle_fans(&vec![]).is_empty());
    assert_eq!(triangle_fans(&vec![5]).len(), 3);
}

#[test]
fn index_buffer_counts_up() {
    assert_eq!(triangle_list_indices(2), vec![0, 1, 2, 3, 4, 5]);
    assert!(triangle_list_indices(0).is_empty());
}

#[test]
fn cube_corners_and_faces() {
    assert_eq!(cube_corner(0), (-1, -1, -1));
    assert_eq!(cube_corner(5), (1, -1, 1));
    assert_eq!(cube_corner(7), (1, 1, 1));
    let (corners, normal) = cube_face(1);
    assert_eq!(corners, vec![1, 3, 7, 5]);
    assert_eq!(normal, (1, 0, 0));
    for f in 0..6 {
        let (corners, n) = cube_face(f);
        for c in corners {
            let p = cube_corner(c);
            if n.0 != 0 {
                assert_eq!(p.0, n.0);
            } else if n.1 != 0 {
                assert_eq!(p.1, n.1);
            } else {
                assert_eq!(p.2, n.2);
            }
        }
    }
}

#[test]
fn sphere_patches_are_triangles_at_the_poles() {
    assert_eq!(sphere_patch_points(0, 0, 3), vec![(0, 0), (1, 1), (0, 1)]);
    assert_eq!(sphere_patch_points(0, 1, 3), vec![(0, 1), (1, 1), (1, 2), (0, 2)]);
    assert_eq!(sphere_patch_points(2, 2, 3), vec![(2, 2), (3, 2), (2, 3)]);
    let all = sphere_patches(2, 3);
    assert_eq!(all.len(), 6);
    assert_eq!(all[4], vec![(1, 1), (2, 1), (2, 2), (1, 2)]);
}

#[test]
fn cylinder_slices() {
    let polys = cylinder_polygons(2);
    assert_eq!(polys.len(), 6);
    assert_eq!(polys[0][0], CylinderPoint::StartCenter);
    assert_eq!(polys[3][1], CylinderPoint::Rim { stack: 0, slice: 1, blend: -1 });
    assert_eq!(polys[4], vec![
        CylinderPoint::Rim { stack: 0, slice: 2, blend: 0 },
        CylinderPoint::Rim { stack: 0, slice: 1, blend: 0 },
        CylinderPoint::Rim { stack: 1, slice: 1, blend: 0 },
        CylinderPoint::Rim { stack: 1, slice: 2, blend: 0 },
    ]);
    assert_eq!(polys[5][0], CylinderPoint::EndCenter);
}

#[test]
fn neighbouring_cylinder_sides_share_an_edge() {
    let polys = cylinder_polygons(3);
    for i in 0..2 {
        assert_eq!(polys[3 * i + 1][0], polys[3 * (i + 1) + 1][1]);
        assert_eq!(polys[3 * i + 1][3], polys[3 * (i + 1) + 1][2]);
    }
}

#[test]
fn projection_keeps_the_other_two_axes() {
    for a in [MajorAxis::Xpos, MajorAxis::Xneg, MajorAxis::Ypos, MajorAxis::Yneg, MajorAxis::Zpos, MajorAxis::Zneg] {
        let (u, v) = a.projected_axes().unwrap();
        let axis = a.axis_index().unwrap();
        assert!(u != v && u != axis && v != axis);
    }
    assert_eq!(MajorAxis::NoAxis.axis_index(), None);
}
