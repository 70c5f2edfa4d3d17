use physics::wsx::{is_csg_brush_node, is_pointlight_node, node_class_of, AppearanceTable};

fn s(x: &str) -> Option<String> {
    Some(x.to_string())
}

#[test]
fn node_class_prefers_def() {
    assert_eq!(node_class_of(&s("CsgBrush"), &s("PointLight")), "CsgBrush");
    assert_eq!(node_class_of(&None, &s("PointLight")), "PointLight");
    assert_eq!(node_class_of(&None, &None), "");
}

#[test]
fn brush_nodes_by_class_and_level() {
    assert!(is_csg_brush_node(&s("CsgBrush"), &None, None));
    assert!(is_csg_brush_node(&None, &s("CsgBrush"), Some(1)));
    assert!(!is_csg_brush_node(&s("CsgBrush"), &None, Some(2)));
    assert!(!is_csg_brush_node(&s("Other"), &s("CsgBrush"), None));
    assert!(is_pointlight_node(&None, &s("PointLight")));
    assert!(!is_pointlight_node(&s("CsgBrush"), &s("PointLight")));
}

#[test]
fn appearance_ids_are_stable() {
    let mut t = AppearanceTable::new();
    assert_eq!(t.intern("a/b"), 0);
    assert_eq!(t.intern("c/d"), 1);
    assert_eq!(t.intern("a/b"), 0);
    assert_eq!(t.len(), 2);
    assert_eq!(t.name_of(1), Some("c/d".to_string()));
    assert_eq!(t.name_of(2), None);
    assert_eq!(t.name_of(-1), None);
    let ids = t.intern_all(&vec!["x".to_string(), "c/d".to_string(), "x".to_string()]);
    assert_eq!(ids, vec![2, 1, 2]);
    assert_eq!(t.face_materials(&vec![2, 0]), vec!["x", "a/b"]);
    assert_eq!(t.names(), &vec!["a/b".to_string(), "c/d".to_string(), "x".to_string()]);
}
