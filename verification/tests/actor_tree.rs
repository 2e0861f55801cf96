use mutter::actor::{needs_expand, ActorFlags, ActorId};
use mutter::actor_tree::ActorTree;
use mutter::enums::Orientation;
use mutter::layout_manager::visible_children;

#[test]
fn create_and_destroy_tracks_len() {
    let mut tree = ActorTree::new();
    let a = tree.create(10u32);
    assert_eq!(tree.len(), 1);
    tree.destroy(a);
    assert_eq!(tree.len(), 0);
    assert!(tree.is_empty());
}

#[test]
fn generation_guards_against_stale_id() {
    let mut tree = ActorTree::new();
    let a = tree.create(1u32);
    tree.destroy(a);
    let b = tree.create(2u32);
    assert_eq!(a.index, b.index);
    assert_ne!(a.generation, b.generation);
    assert!(tree.payload(a).is_none());
    assert!(tree.payload(b).is_some());
}

#[test]
fn add_child_reparents_and_tracks_children() {
    let mut tree = ActorTree::new();
    let parent = tree.create(100u32);
    let child = tree.create(10u32);
    tree.add_child(parent, child);
    assert_eq!(tree.children(parent), &[child]);
    assert_eq!(tree.parent(child), Some(parent));

    let other_parent = tree.create(50u32);
    tree.add_child(other_parent, child);
    assert!(tree.children(parent).is_empty());
    assert_eq!(tree.children(other_parent), &[child]);
    assert_eq!(tree.parent(child), Some(other_parent));
}

#[test]
fn destroy_recurses_into_children() {
    let mut tree = ActorTree::new();
    let parent = tree.create(1u32);
    let child = tree.create(1u32);
    tree.add_child(parent, child);
    tree.destroy(parent);
    assert_eq!(tree.len(), 0);
    assert!(tree.payload(child).is_none());
}

#[test]
fn freed_slots_are_reused_last_first() {
    let mut tree = ActorTree::new();
    let a = tree.create(1u32);
    let b = tree.create(2u32);
    let c = tree.create(3u32);
    assert_eq!((a.index, b.index, c.index), (0, 1, 2));
    tree.destroy(a);
    tree.destroy(c);
    let d = tree.create(4u32);
    assert_eq!(d, ActorId::new(2, 1));
    let e = tree.create(5u32);
    assert_eq!(e, ActorId::new(0, 1));
    let f = tree.create(6u32);
    assert_eq!(f, ActorId::new(3, 0));
    assert_eq!(tree.len(), 4);
    assert_eq!(tree.payload(b), Some(&2));
}

#[test]
fn destroy_frees_descendants_deepest_first() {
    let mut tree = ActorTree::new();
    let root = tree.create(0u32);
    let mid = tree.create(1u32);
    let leaf = tree.create(2u32);
    tree.add_child(root, mid);
    tree.add_child(mid, leaf);
    tree.destroy(root);
    assert!(tree.is_empty());
    // The root was freed last, so it is reused first.
    assert_eq!(tree.create(9u32), ActorId::new(0, 1));
    assert_eq!(tree.create(9u32), ActorId::new(1, 1));
    assert_eq!(tree.create(9u32), ActorId::new(2, 1));
}

#[test]
fn destroying_a_child_unlinks_it_from_its_parent() {
    let mut tree = ActorTree::new();
    let parent = tree.create(0u32);
    let a = tree.create(1u32);
    let b = tree.create(2u32);
    tree.add_child(parent, a);
    tree.add_child(parent, b);
    tree.destroy(a);
    assert_eq!(tree.children(parent), &[b]);
    tree.remove_from_parent(b);
    assert!(tree.children(parent).is_empty());
    assert_eq!(tree.parent(b), None);
}

#[test]
fn payload_writes_reach_the_actor() {
    let mut tree = ActorTree::new();
    let a = tree.create(String::from("first"));
    if let Some(p) = tree.payload_mut(a) {
        p.push_str(" and more");
    }
    assert_eq!(tree.payload(a).map(|s| s.as_str()), Some("first and more"));
    tree.destroy(a);
    assert!(tree.payload_mut(a).is_none());
    assert!(!tree.contains(a));
}

#[test]
fn stale_handles_see_nothing() {
    let mut tree = ActorTree::new();
    let a = tree.create(1u32);
    let b = tree.create(2u32);
    tree.add_child(a, b);
    tree.destroy(b);
    let stale = b;
    let fresh = tree.create(3u32);
    assert_eq!(fresh.index, stale.index);
    assert!(tree.children(stale).is_empty());
    assert_eq!(tree.parent(stale), None);
    assert!(tree.children(a).is_empty());
}

#[test]
fn destroy_ends_on_a_tree_and_depth_bounds_descent() {
    let mut tree = ActorTree::new();
    let root = tree.create(0u32);
    let mid = tree.create(1u32);
    let leaf = tree.create(2u32);
    tree.add_child(root, mid);
    tree.add_child(mid, leaf);
    assert!(tree.destroy_ends(root));
    assert!(tree.destroy_ends(leaf));
    assert!(!tree.descent_within(root, 0));
    assert!(!tree.descent_within(root, 2));
    assert!(tree.descent_within(root, 3));
    assert!(tree.descent_within(leaf, 1));
    tree.destroy(root);
    assert!(tree.is_empty());
}

#[test]
fn visible_children_filters_invisible() {
    let mut tree = ActorTree::new();
    let parent = tree.create(ActorFlags::default());
    let vis = tree.create(ActorFlags::default());
    let mut hidden = ActorFlags::default();
    hidden.visible = false;
    let hid = tree.create(hidden);
    tree.add_child(parent, vis);
    tree.add_child(parent, hid);
    let children = tree.children(parent).to_vec();
    let visible: Vec<bool> = children
        .iter()
        .map(|&c| tree.payload(c).map_or(false, |f| f.visible))
        .collect();
    assert_eq!(visible_children(&children, &visible), vec![vis]);
}

#[test]
fn needs_expand_only_for_visible_actors() {
    let shown = ActorFlags::default();
    let mut hidden = ActorFlags::default();
    hidden.visible = false;
    assert!(needs_expand(shown, true, false, Orientation::Horizontal));
    assert!(!needs_expand(shown, true, false, Orientation::Vertical));
    assert!(needs_expand(shown, false, true, Orientation::Vertical));
    assert!(!needs_expand(hidden, true, true, Orientation::Horizontal));
    assert!(!needs_expand(hidden, true, true, Orientation::Vertical));
}
