use mutter::actor::ActorId;
use mutter::grid_layout::{GridLayout, GridPosition, Orientation};

#[test]
fn creates_grid_layout() {
    let grid = GridLayout::new();
    assert_eq!(grid.orientation(), Orientation::Horizontal);
    assert!(!grid.row_homogeneous());
    assert!(!grid.column_homogeneous());
}

#[test]
fn attaches_child() {
    let mut grid = GridLayout::new();
    let actor = ActorId::new(1, 0);
    grid.attach(actor, 0, 0, 1, 1);
    assert_eq!(grid.child_position(actor), Some((0, 0, 1, 1)));
}

#[test]
fn attach_next_to_right() {
    let mut grid = GridLayout::new();
    let a = ActorId::new(1, 0);
    let b = ActorId::new(2, 0);
    grid.attach(a, 0, 0, 1, 1);
    grid.attach_next_to(b, Some(a), GridPosition::Right, 1, 1);
    assert_eq!(grid.child_position(b), Some((1, 0, 1, 1)));
}

#[test]
fn grid_layout_sets_homogeneous() {
    let mut grid = GridLayout::new();
    grid.set_row_homogeneous(true);
    grid.set_column_homogeneous(true);
    assert!(grid.row_homogeneous());
    assert!(grid.column_homogeneous());
}

#[test]
fn attach_next_to_without_sibling_follows_the_used_cells() {
    let mut grid = GridLayout::new();
    let a = ActorId::new(1, 0);
    let b = ActorId::new(2, 0);
    let c = ActorId::new(3, 0);
    grid.attach(a, 0, 0, 2, 3);
    grid.attach_next_to(b, None, GridPosition::Right, 1, 1);
    assert_eq!(grid.child_position(b), Some((2, 0, 1, 1)));
    grid.attach_next_to(c, None, GridPosition::Bottom, 4, 0);
    assert_eq!(grid.child_position(c), Some((0, 3, 4, 1)));
}

#[test]
fn attach_next_to_other_sides() {
    let mut grid = GridLayout::new();
    let a = ActorId::new(1, 0);
    let b = ActorId::new(2, 0);
    let c = ActorId::new(3, 0);
    let d = ActorId::new(4, 0);
    grid.attach(a, 5, 5, 2, 2);
    grid.attach_next_to(b, Some(a), GridPosition::Left, 3, 1);
    assert_eq!(grid.child_position(b), Some((2, 5, 3, 1)));
    grid.attach_next_to(c, Some(a), GridPosition::Top, 1, 2);
    assert_eq!(grid.child_position(c), Some((5, 3, 1, 2)));
    grid.attach_next_to(d, Some(ActorId::new(9, 0)), GridPosition::Bottom, 1, 1);
    assert_eq!(grid.child_position(d), Some((0, 0, 1, 1)));
}

#[test]
fn reattach_and_remove() {
    let mut grid = GridLayout::new();
    let a = ActorId::new(1, 0);
    grid.attach(a, 0, 0, 1, 1);
    grid.attach(a, 3, 4, -2, 0);
    assert_eq!(grid.child_position(a), Some((3, 4, 1, 1)));
    assert_eq!(grid.cells().len(), 1);
    grid.remove_child(a);
    assert_eq!(grid.child_position(a), None);
    assert!(grid.cells().is_empty());
}

#[test]
fn cells_keep_first_attach_order() {
    let mut grid = GridLayout::new();
    let a = ActorId::new(1, 0);
    let b = ActorId::new(2, 0);
    let c = ActorId::new(3, 0);
    grid.attach(a, 0, 0, 1, 1);
    grid.attach(b, 1, 0, 1, 1);
    grid.attach(c, 2, 0, 1, 1);
    grid.attach(a, 5, 5, 2, 2);
    let order: Vec<ActorId> = grid.cells().iter().map(|e| e.0).collect();
    assert_eq!(order, vec![a, b, c]);
    assert_eq!(grid.cells()[0].1.left, 5);
    grid.remove_child(b);
    let order: Vec<ActorId> = grid.cells().iter().map(|e| e.0).collect();
    assert_eq!(order, vec![a, c]);
}
