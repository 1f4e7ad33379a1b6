use savefile::samples::recursive_type::{RecursiveType, Relay};
use savefile::save::bare_serialize;
use savefile::samples::recursive::{Tree, Tree2, TreeNode};
use savefile::save::{assert_roundtrip, roundtrip};

#[test]
pub fn test_cyclic() {
    let example = Tree::Node(Box::new(Tree::Leaf), Box::new(Tree::Leaf));
    assert_roundtrip(example);

    let example = Tree::Node(Box::new(Tree::Node(Box::new(Tree::Leaf), Box::new(Tree::Leaf))), Box::new(Tree::Leaf));
    assert_roundtrip(example);
}

#[test]
pub fn test_cyclic2() {
    let example = Tree2::Node(TreeNode { tree: Box::new(Tree2::Leaf("hej".into())) });
    assert_roundtrip(example);
}

#[test]
fn roundtrip_recursive_type() {
    let value = RecursiveType {
        left: Some(Box::new(RecursiveType { left: None, right: None, mid: vec![] })),
        right: None,
        mid: vec![Relay { relay: Box::new(RecursiveType { left: None, right: None, mid: vec![] }) }],
    };
    roundtrip(value);
}

#[test]
fn recursive_type_comes_back_equal() {
    let make = || RecursiveType {
        left: None,
        right: Some(Box::new(RecursiveType {
            left: None,
            right: None,
            mid: vec![Relay { relay: Box::new(RecursiveType { left: None, right: None, mid: vec![] }) }],
        })),
        mid: vec![],
    };
    assert_eq!(roundtrip(make()), make());
    let bytes = bare_serialize(0, &make()).unwrap();
    assert_eq!(bytes.len(), 1 + (1 + 1 + 1 + 8 + (1 + 1 + 8)) + 8);
}
