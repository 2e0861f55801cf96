use mutter::actor::ActorId;
use mutter::flow_layout::{FlowLayout, Orientation};

#[test]
fn creates_flow_layout() {
    let layout = FlowLayout::new(Orientation::Horizontal);
    assert_eq!(layout.orientation(), Orientation::Horizontal);
    assert_eq!(layout.n_children(), 0);
    assert!(!layout.homogeneous());
    assert!(!layout.snap_to_grid());
}

#[test]
fn sets_orientation() {
    let mut layout = FlowLayout::new(Orientation::Horizontal);
    layout.set_orientation(Orientation::Vertical);
    assert_eq!(layout.orientation(), Orientation::Vertical);
}

#[test]
fn adds_child() {
    let mut layout = FlowLayout::new(Orientation::Horizontal);
    let actor = ActorId::new(1, 0);
    layout.add_child(actor);
    assert_eq!(layout.n_children(), 1);
}

#[test]
fn removes_child() {
    let mut layout = FlowLayout::new(Orientation::Horizontal);
    let actor = ActorId::new(1, 0);
    layout.add_child(actor);
    layout.remove_child(actor);
    assert_eq!(layout.n_children(), 0);
}

#[test]
fn flow_layout_sets_homogeneous() {
    let mut layout = FlowLayout::new(Orientation::Horizontal);
    layout.set_homogeneous(true);
    assert!(layout.homogeneous());
}

#[test]
fn sets_snap_to_grid() {
    let mut layout = FlowLayout::new(Orientation::Horizontal);
    layout.set_snap_to_grid(true);
    assert!(layout.snap_to_grid());
}

#[test]
fn adding_a_child_twice_keeps_one() {
    let mut layout = FlowLayout::new(Orientation::Vertical);
    let a = ActorId::new(1, 0);
    let b = ActorId::new(2, 0);
    layout.add_child(a);
    layout.add_child(b);
    layout.add_child(a);
    assert_eq!(layout.children(), &[a, b]);
    assert!(layout.has_child(b));
    layout.remove_child(a);
    assert_eq!(layout.children(), &[b]);
    assert!(!layout.has_child(a));
}
