use mutter::grab::{Grab, GrabKind, GrabStack};

#[test]
fn new_grab_is_revoked_until_activated() {
    let g = Grab::new(1u32, false);
    assert!(g.is_revoked());
    assert!(!g.linked);
}

#[test]
fn activate_pushes_and_links() {
    let mut stack = GrabStack::new();
    assert!(stack.is_empty());
    assert!(stack.activate(Grab::new(1u32, false)));
    assert_eq!(stack.len(), 1);
    assert_eq!(stack.grab_actor(), Some(1u32));
    assert!(!stack.topmost().unwrap().is_revoked());
}

#[test]
fn activate_on_already_linked_is_noop() {
    let mut stack = GrabStack::new();
    let g = Grab::new(1u32, false);
    assert!(stack.activate(g.clone()));
    assert!(!stack.activate(g));
    assert_eq!(stack.len(), 1);
}

#[test]
fn dismiss_removes_and_reports_outcome() {
    let mut stack = GrabStack::new();
    stack.activate(Grab::new(1u32, false));
    stack.activate(Grab::new(2u32, false));
    let outcome = stack.dismiss(1).unwrap();
    assert_eq!(outcome.actor_to_destroy, None);
    assert!(outcome.topmost_changed);
    assert_eq!(stack.len(), 1);
    assert_eq!(stack.grab_actor(), Some(1u32));
}

#[test]
fn dismiss_only_grab_leaves_empty() {
    let mut stack = GrabStack::new();
    stack.activate(Grab::new(1u32, false));
    let outcome = stack.dismiss(0).unwrap();
    assert_eq!(outcome.actor_to_destroy, None);
    assert!(!outcome.topmost_changed);
    assert!(stack.is_empty());
}

#[test]
fn dismiss_owned_actor_returns_actor_to_destroy() {
    let mut stack = GrabStack::new();
    stack.activate(Grab::new(5u32, true));
    let outcome = stack.dismiss(0).unwrap();
    assert_eq!(outcome.actor_to_destroy, Some(5u32));
}

#[test]
fn dismiss_non_topmost_does_not_change_topmost() {
    let mut stack = GrabStack::new();
    stack.activate(Grab::new(1u32, false));
    stack.activate(Grab::new(2u32, false));
    let outcome = stack.dismiss(0).unwrap();
    assert!(!outcome.topmost_changed);
    assert_eq!(stack.grab_actor(), Some(2u32));
}

#[test]
fn dismiss_out_of_bounds_returns_none() {
    let mut stack = GrabStack::new();
    stack.activate(Grab::new(1u32, false));
    assert!(stack.dismiss(5).is_none());
    assert!(stack.dismiss(0).is_some());
    assert!(stack.dismiss(0).is_none());
}

#[test]
fn dismiss_topmost_convenience() {
    let mut stack = GrabStack::new();
    stack.activate(Grab::new(1u32, false));
    stack.activate(Grab::new(2u32, false));
    let outcome = stack.dismiss_topmost().unwrap();
    assert!(outcome.topmost_changed);
    assert_eq!(stack.grab_actor(), Some(1u32));
}

#[test]
fn iter_goes_bottom_to_top() {
    let mut stack = GrabStack::new();
    stack.activate(Grab::new(1u32, false));
    stack.activate(Grab::new(2u32, false));
    stack.activate(Grab::new(3u32, false));
    let actors: Vec<u32> = stack.iter().map(|g| g.actor).collect();
    assert_eq!(actors, vec![1u32, 2u32, 3u32]);
}

#[test]
fn with_kind_keeps_kind_through_activation() {
    let mut stack = GrabStack::new();
    assert!(stack.activate(Grab::with_kind(7u32, false, GrabKind::Move)));
    assert_eq!(stack.topmost().unwrap().kind, GrabKind::Move);
    assert_eq!(Grab::new(1u32, false).kind, GrabKind::Actor);
}

#[test]
fn activate_then_dismiss_topmost_restores_stack() {
    let mut stack = GrabStack::new();
    stack.activate(Grab::new(1u32, false));
    let before: Vec<u32> = stack.iter().map(|g| g.actor).collect();
    stack.activate(Grab::new(9u32, true));
    let outcome = stack.dismiss_topmost().unwrap();
    assert_eq!(outcome.actor_to_destroy, Some(9u32));
    assert!(outcome.topmost_changed);
    let after: Vec<u32> = stack.iter().map(|g| g.actor).collect();
    assert_eq!(before, after);
}

#[test]
fn dismiss_topmost_on_empty_is_none() {
    let mut stack: GrabStack<u32> = GrabStack::new();
    assert!(stack.dismiss_topmost().is_none());
    assert_eq!(stack.grab_actor(), None);
    assert!(stack.topmost().is_none());
}

#[test]
fn linked_grab_is_refused_and_other_grabs_accepted() {
    let mut stack = GrabStack::new();
    assert!(stack.activate(Grab::new(1u32, false)));
    let linked = stack.topmost().unwrap().clone();
    assert!(!stack.activate(linked));
    assert!(stack.activate(Grab::new(1u32, true)));
    assert_eq!(stack.len(), 2);
}
