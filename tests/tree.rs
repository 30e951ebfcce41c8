use epsilon_rig::tree::{BinaryTree, Position};

#[test]
fn new_keeps_value_and_children() {
    let t = BinaryTree::new(1u32, Some(BinaryTree::new(2u32, None, None)), None);
    assert_eq!(t.value, 1);
    assert_eq!(t.left().map(|c| c.value), Some(2));
    assert!(t.right().is_none());
    assert!(t.left().unwrap().left().is_none());
}

#[test]
fn right_child_is_reachable() {
    let t = BinaryTree::new(1u32, None, Some(BinaryTree::new(3u32, None, None)));
    assert!(t.left().is_none());
    assert_eq!(t.right().map(|c| c.value), Some(3));
}

#[test]
fn mutable_children_write_in_place() {
    let mut t = BinaryTree::new(
        1u32,
        Some(BinaryTree::new(2u32, None, None)),
        Some(BinaryTree::new(3u32, None, None)),
    );
    t.left_mut().unwrap().value = 20;
    t.right_mut().unwrap().value = 30;
    assert_eq!(t.value, 1);
    assert_eq!(t.left().unwrap().value, 20);
    assert_eq!(t.right().unwrap().value, 30);
}

#[test]
fn missing_children_give_none() {
    let mut t = BinaryTree::new(5u32, None, None);
    assert!(t.left_mut().is_none());
    assert!(t.right_mut().is_none());
    assert_eq!(t.value, 5);
}

#[test]
fn positions_differ() {
    assert_ne!(Position::Left, Position::Right);
}
