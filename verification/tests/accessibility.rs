use mutter::accessibility::{AccessibilityRoot, AccessibilityState, AccessibleRole, AccessibleState};

#[test]
fn new_state_defaults() {
    let state = AccessibilityState::new();
    assert!(state.is_enabled());
    assert!(!state.is_initialized());
}

#[test]
fn init_creates_root() {
    let mut state = AccessibilityState::new();
    assert!(state.init());
    assert!(state.is_initialized());
    assert!(!state.init());
}

#[test]
fn get_root_initializes_lazily() {
    let mut state = AccessibilityState::new();
    assert!(!state.is_initialized());
    let _ = state.get_root();
    assert!(state.is_initialized());
}

#[test]
fn disable_accessibility() {
    let mut state = AccessibilityState::new();
    assert!(state.is_enabled());
    state.disable();
    assert!(!state.is_enabled());
    state.enable();
    assert!(state.is_enabled());
}

#[test]
fn root_has_default_states() {
    let mut state = AccessibilityState::new();
    let root = state.get_root();
    assert!(root.has_state(AccessibleState::Visible));
    assert!(root.has_state(AccessibleState::Enabled));
    assert_eq!(root.role(), AccessibleRole::Application);
}

#[test]
fn root_add_remove_state() {
    let mut state = AccessibilityState::new();
    let root = state.get_root_mut();
    assert!(!root.has_state(AccessibleState::Focused));
    root.add_state(AccessibleState::Focused);
    assert!(root.has_state(AccessibleState::Focused));
    root.remove_state(AccessibleState::Focused);
    assert!(!root.has_state(AccessibleState::Focused));
}

#[test]
fn root_add_remove_child() {
    let mut state = AccessibilityState::new();
    let root = state.get_root_mut();
    assert_eq!(root.n_children(), 0);
    root.add_child(1);
    root.add_child(2);
    assert_eq!(root.n_children(), 2);
    root.add_child(1);
    assert_eq!(root.n_children(), 2);
    root.remove_child(1);
    assert_eq!(root.n_children(), 1);
}

#[test]
fn allocate_id_increments() {
    let mut state = AccessibilityState::new();
    assert_eq!(state.allocate_id(), 1);
    assert_eq!(state.allocate_id(), 2);
    assert_eq!(state.allocate_id(), 3);
}

#[test]
fn root_identity_fields() {
    let mut root = AccessibilityRoot::new(7);
    assert_eq!(root.id(), 7);
    assert_eq!(root.name(), "Clutter Application");
    assert_eq!(root.description(), "Clutter accessibility root");
    assert_eq!(root.states(), &[AccessibleState::Visible, AccessibleState::Enabled]);
    root.set_name("panel");
    root.set_description("the top panel");
    assert_eq!(root.name(), "panel");
    assert_eq!(root.description(), "the top panel");
    assert_eq!(root.role(), AccessibleRole::Application);
}

#[test]
fn add_state_twice_then_remove_restores() {
    let mut root = AccessibilityRoot::new(1);
    root.add_state(AccessibleState::Busy);
    root.add_state(AccessibleState::Busy);
    assert_eq!(
        root.states(),
        &[AccessibleState::Visible, AccessibleState::Enabled, AccessibleState::Busy]
    );
    root.remove_state(AccessibleState::Busy);
    assert_eq!(root.states(), &[AccessibleState::Visible, AccessibleState::Enabled]);
    root.remove_state(AccessibleState::Editable);
    assert_eq!(root.states(), &[AccessibleState::Visible, AccessibleState::Enabled]);
}

#[test]
fn children_keep_insertion_order() {
    let mut root = AccessibilityRoot::new(1);
    root.add_child(5);
    root.add_child(3);
    root.add_child(9);
    root.remove_child(3);
    assert_eq!(root.children(), &[5, 9]);
}

#[test]
fn root_takes_next_id_and_allocation_continues() {
    let mut state = AccessibilityState::new();
    assert_eq!(state.allocate_id(), 1);
    assert_eq!(state.get_root().id(), 2);
    assert_eq!(state.allocate_id(), 3);
    state.set_enabled(false);
    assert!(!state.is_enabled());
    assert_eq!(state.get_root().id(), 2);
}
