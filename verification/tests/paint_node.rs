use mutter::paint_node::{PaintContext, PaintNode, Rgba};

#[derive(Debug, Clone, PartialEq)]
enum Kind {
    Root,
    Color(Rgba),
    Texture,
}

#[derive(Debug, Clone, PartialEq)]
enum Op {
    Rect(i32, i32, i32, i32),
}

type Node = PaintNode<Kind, Op>;

fn leaf(name: &str) -> Node {
    let mut n = PaintNode::new(Kind::Color(Rgba::new(255, 0, 0, 255)));
    n.set_name(name);
    n
}

fn child_names(node: &Node) -> Vec<String> {
    (0..node.n_children()).map(|i| node.child(i).unwrap().name().unwrap().to_string()).collect()
}

#[test]
fn new_node_has_no_children() {
    let root: Node = PaintNode::new(Kind::Root);
    assert_eq!(root.n_children(), 0);
    assert!(root.child(0).is_none());
    assert_eq!(root.kind(), &Kind::Root);
}

#[test]
fn add_child_increments_count_and_preserves_order() {
    let mut root: Node = PaintNode::new(Kind::Root);
    root.add_child(leaf("a"));
    root.add_child(leaf("b"));
    root.add_child(leaf("c"));
    assert_eq!(root.n_children(), 3);
    assert_eq!(child_names(&root), ["a", "b", "c"]);
}

#[test]
fn remove_child_by_index_preserves_remaining_order() {
    let mut root: Node = PaintNode::new(Kind::Root);
    root.add_child(leaf("a"));
    root.add_child(leaf("b"));
    root.add_child(leaf("c"));
    let removed = root.remove_child(1).unwrap();
    assert_eq!(removed.name(), Some("b"));
    assert_eq!(root.n_children(), 2);
    assert_eq!(child_names(&root), ["a", "c"]);
}

#[test]
fn remove_child_out_of_bounds_returns_none() {
    let mut root: Node = PaintNode::new(Kind::Root);
    root.add_child(leaf("a"));
    assert!(root.remove_child(5).is_none());
    assert_eq!(root.n_children(), 1);
}

#[test]
fn remove_all_children_clears_tree() {
    let mut root: Node = PaintNode::new(Kind::Root);
    root.add_child(leaf("a"));
    root.add_child(leaf("b"));
    root.remove_all_children();
    assert_eq!(root.n_children(), 0);
}

#[test]
fn paint_visits_self_then_children_in_order_then_grandchildren() {
    let mut root: Node = PaintNode::new(Kind::Root);
    let mut child_a = leaf("a");
    child_a.add_child(leaf("a1"));
    child_a.add_child(leaf("a2"));
    let child_b = leaf("b");
    root.add_child(child_a);
    root.add_child(child_b);
    let ctx = PaintContext::default();
    root.paint(&ctx);
    assert_eq!(root.n_children(), 2);
    assert_eq!(root.child(0).unwrap().n_children(), 2);
}

#[test]
fn operations_are_kept_in_order() {
    let mut node: Node = PaintNode::new(Kind::Texture);
    node.add_operation(Op::Rect(0, 0, 10, 10));
    node.add_operation(Op::Rect(1, 1, 2, 2));
    assert_eq!(node.get_operations(), &[Op::Rect(0, 0, 10, 10), Op::Rect(1, 1, 2, 2)]);
    node.clear_operations();
    assert!(node.get_operations().is_empty());
}

#[test]
fn get_framebuffer_is_stubbed_to_none() {
    let node: Node = PaintNode::new(Kind::Root);
    assert!(node.get_framebuffer().is_none());
}

#[test]
fn new_node_has_no_parent() {
    let node: Node = PaintNode::new(Kind::Root);
    assert!(node.get_parent().is_none());
}

#[test]
fn add_child_sets_child_parent_to_parent_name() {
    let mut root: Node = PaintNode::new(Kind::Root);
    root.set_name("root");
    root.add_child(leaf("child"));
    assert_eq!(root.child(0).unwrap().get_parent(), Some("root"));
}

#[test]
fn add_child_with_unnamed_parent_sets_parent_to_none_identity() {
    let mut root: Node = PaintNode::new(Kind::Root);
    root.add_child(leaf("child"));
    let added = root.child(0).unwrap();
    assert_eq!(added.get_parent(), None);
    assert_eq!(added.name(), Some("child"));
}

#[test]
fn set_parent_records_parent_name() {
    let mut parent: Node = PaintNode::new(Kind::Root);
    parent.set_name("p");
    let mut child: Node = PaintNode::new(Kind::Color(Rgba::new(0, 0, 0, 255)));
    assert_eq!(child.get_parent(), None);
    child.set_parent(&parent);
    assert_eq!(child.get_parent(), Some("p"));
}

#[test]
fn clear_parent_resets_back_pointer() {
    let mut parent: Node = PaintNode::new(Kind::Root);
    parent.set_name("p");
    let mut child: Node = PaintNode::new(Kind::Color(Rgba::new(0, 0, 0, 255)));
    child.set_parent(&parent);
    assert_eq!(child.get_parent(), Some("p"));
    child.clear_parent();
    assert_eq!(child.get_parent(), None);
}

#[test]
fn remove_child_clears_its_parent_back_pointer() {
    let mut root: Node = PaintNode::new(Kind::Root);
    root.set_name("root");
    root.add_child(leaf("child"));
    let removed = root.remove_child(0).unwrap();
    assert_eq!(removed.name(), Some("child"));
    assert_eq!(removed.get_parent(), None);
}

#[test]
fn nested_tree_children_mut_can_mutate() {
    let mut root: Node = PaintNode::new(Kind::Root);
    root.add_child(leaf("a"));
    for i in 0..root.n_children() {
        root.child_mut(i).unwrap().set_name("renamed");
    }
    assert_eq!(root.child(0).unwrap().name(), Some("renamed"));
    assert!(root.child_mut(1).is_none());
}
