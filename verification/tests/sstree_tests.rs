use physics::sstree::{
    inner_has_room_for_halves, leaf_has_room, siblings_to_borrow_from, siblings_to_merge_to,
    split_positions, take_two, underfull,
};

#[test]
fn node_room_and_minimum() {
    assert!(leaf_has_room(7, 8));
    assert!(!leaf_has_room(8, 8));
    assert!(inner_has_room_for_halves(6, 8));
    assert!(!inner_has_room_for_halves(7, 8));
    assert!(underfull(3, 4));
    assert!(!underfull(4, 4));
}

#[test]
fn sibling_candidates() {
    let sizes = vec![5, 3, 4, 6, 4];
    assert_eq!(siblings_to_borrow_from(&sizes, 1, 4), vec![0, 3]);
    assert_eq!(siblings_to_merge_to(&sizes, 1, 4), vec![2, 4]);
    assert_eq!(siblings_to_borrow_from(&sizes, 0, 4), vec![3]);
    assert!(siblings_to_borrow_from(&vec![4, 3], 1, 4).is_empty());
}

#[test]
fn take_two_keeps_order() {
    let mut v = vec!['a', 'b', 'c', 'd', 'e'];
    assert_eq!(take_two(&mut v, 3, 1), ('b', 'd'));
    assert_eq!(v, vec!['a', 'c', 'e']);
    let mut v = vec![1, 2];
    assert_eq!(take_two(&mut v, 0, 1), (1, 2));
    assert!(v.is_empty());
}

#[test]
fn split_positions_leave_m_each_side() {
    assert_eq!(split_positions(9, 4), vec![4, 5]);
    assert_eq!(split_positions(8, 4), vec![4]);
    assert!(split_positions(7, 4).is_empty());
    assert_eq!(split_positions(3, 0), vec![0, 1, 2, 3]);
}
