use tree_builder::error::ReferenceError;
use tree_builder::node::{Node, NodeKind};
use tree_builder::text::{attributes_of, i32_text, label_of};
use tree_builder::tree::Tree;

fn node_line(pos: usize, label: &str) -> String {
    format!("    {} [ label = \"{}\" ]\n", pos, label)
}

fn edge_line(from: usize, to: usize, id: usize) -> String {
    format!("    {} -> {} [ label = \"{}\" ]\n", from, to, id)
}

#[test]
fn branch_then_leaf_scenario() {
    let mut t = Tree::new();
    assert_eq!(t.add_branch(1, None), Ok(()));
    assert_eq!(t.node_count(), 1);
    assert_eq!(t.add_branch(2, Some(1)), Ok(()));
    assert_eq!(t.node_count(), 2);
    assert_eq!(t.add_leaf(3, 2), Ok(()));
    assert_eq!(t.node_count(), 3);
    let err = t.add_leaf(4, 99).unwrap_err();
    assert_eq!(err, ReferenceError { branch: 99 });
    assert_eq!(err.message(), "Branch_99 doesn't exist!");
    assert_eq!(t.node_count(), 4);
    let expected = String::from("digraph {\n")
        + &node_line(0, "(Branch_1)")
        + &node_line(1, "(Branch_2)")
        + &node_line(2, "(Leaf_3)")
        + &node_line(3, "(Leaf_4)")
        + &edge_line(0, 1, 0)
        + &edge_line(1, 2, 1)
        + "}\n";
    assert_eq!(t.render(), expected);
}

#[test]
fn missing_parent_on_empty_tree() {
    let mut t = Tree::new();
    let err = t.add_branch(5, Some(100)).unwrap_err();
    assert_eq!(err, ReferenceError { branch: 100 });
    assert_eq!(err.message(), "Branch_100 doesn't exist!");
    assert_eq!(t.node_count(), 1);
    let expected = String::from("digraph {\n") + &node_line(0, "(Branch_5)") + "}\n";
    assert_eq!(t.render(), expected);
}

#[test]
fn empty_tree_renders_no_entries() {
    let t = Tree::new();
    assert_eq!(t.node_count(), 0);
    assert_eq!(t.render(), "digraph {\n}\n");
}

#[test]
fn count_follows_every_call() {
    let mut t = Tree::new();
    let mut calls: usize = 0;
    for i in 0..10 {
        let _ = t.add_branch(i, if i % 3 == 0 { None } else { Some(i - 1) });
        calls += 1;
        let _ = t.add_leaf(100 + i, i * 7);
        calls += 1;
        assert_eq!(t.node_count(), calls);
    }
}

#[test]
fn root_branch_has_no_parent_edge() {
    let mut t = Tree::new();
    assert_eq!(t.add_branch(-3, None), Ok(()));
    assert_eq!(t.add_branch(8, None), Ok(()));
    let expected = String::from("digraph {\n")
        + &node_line(0, "(Branch_-3)")
        + &node_line(1, "(Branch_8)")
        + "}\n";
    assert_eq!(t.render(), expected);
}

#[test]
fn readded_branch_takes_later_children() {
    let mut t = Tree::new();
    assert_eq!(t.add_branch(1, None), Ok(()));
    assert_eq!(t.add_branch(1, None), Ok(()));
    assert_eq!(t.add_leaf(2, 1), Ok(()));
    assert_eq!(t.add_branch(3, Some(1)), Ok(()));
    assert_eq!(t.node_count(), 4);
    let expected = String::from("digraph {\n")
        + &node_line(0, "(Branch_1)")
        + &node_line(1, "(Branch_1)")
        + &node_line(2, "(Leaf_2)")
        + &node_line(3, "(Branch_3)")
        + &edge_line(1, 2, 0)
        + &edge_line(1, 3, 1)
        + "}\n";
    assert_eq!(t.render(), expected);
}

#[test]
fn leaf_is_never_a_parent() {
    let mut t = Tree::new();
    assert_eq!(t.add_branch(1, None), Ok(()));
    assert_eq!(t.add_leaf(2, 1), Ok(()));
    assert_eq!(t.add_leaf(3, 2), Err(ReferenceError { branch: 2 }));
    assert_eq!(t.add_branch(4, Some(2)), Err(ReferenceError { branch: 2 }));
    assert_eq!(t.node_count(), 4);
}

#[test]
fn branch_may_name_itself_as_parent() {
    let mut t = Tree::new();
    assert_eq!(t.add_branch(7, Some(7)), Ok(()));
    let expected = String::from("digraph {\n") + &node_line(0, "(Branch_7)") + &edge_line(0, 0, 0) + "}\n";
    assert_eq!(t.render(), expected);
}

#[test]
fn decimal_text_of_extremes() {
    assert_eq!(i32_text(0), "0");
    assert_eq!(i32_text(42), "42");
    assert_eq!(i32_text(-7), "-7");
    assert_eq!(i32_text(i32::MAX), "2147483647");
    assert_eq!(i32_text(i32::MIN), "-2147483648");
}

#[test]
fn node_text() {
    assert_eq!(label_of(&Node { index: 12, kind: NodeKind::Branch }), "(Branch_12)");
    assert_eq!(label_of(&Node { index: -1, kind: NodeKind::Leaf }), "(Leaf_-1)");
    assert_eq!(attributes_of(&Node { index: 3, kind: NodeKind::Leaf }), "label = \"(Leaf_3)\" ");
}
