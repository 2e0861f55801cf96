use mutter::pick_stack::PickStack;

/// An axis-aligned box that holds the points strictly inside it.
#[derive(Debug, Clone, Copy, Default)]
struct TestBox {
    x1: f32,
    y1: f32,
    x2: f32,
    y2: f32,
}

fn bx(x1: f32, y1: f32, x2: f32, y2: f32) -> TestBox {
    TestBox { x1, y1, x2, y2 }
}

fn holds(b: &TestBox, p: (f32, f32)) -> bool {
    (p.0 > b.x1 && p.0 < b.x2) && (p.1 > b.y1 && p.1 < b.y2)
}

fn search(stack: &PickStack<TestBox>, p: (f32, f32)) -> Option<usize> {
    let record_hits: Vec<bool> = stack
        .records()
        .iter()
        .map(|r| r.box_.map_or(false, |b| holds(&b, p)))
        .collect();
    let clip_hits: Vec<bool> = stack.clips().iter().map(|c| holds(&c.box_, p)).collect();
    stack.search_actor_with(&record_hits, &clip_hits)
}

#[test]
fn new_stack_is_empty() {
    let stack = PickStack::<TestBox>::new();
    assert!(stack.is_empty());
    assert_eq!(stack.len(), 0);
}

#[test]
fn log_pick_adds_record() {
    let mut stack = PickStack::new();
    stack.log_pick(bx(0.0, 0.0, 10.0, 10.0), 1);
    assert_eq!(stack.len(), 1);
}

#[test]
fn log_overlap_adds_record() {
    let mut stack = PickStack::<TestBox>::new();
    stack.log_overlap(1);
    assert_eq!(stack.len(), 1);
}

#[test]
fn search_actor_finds_topmost_hit() {
    let mut stack = PickStack::new();
    stack.log_pick(bx(0.0, 0.0, 5.0, 5.0), 1);
    stack.log_pick(bx(5.0, 5.0, 10.0, 10.0), 2);
    assert_eq!(search(&stack, (7.0, 7.0)), Some(2));
    assert_eq!(search(&stack, (2.0, 2.0)), Some(1));
    assert_eq!(search(&stack, (15.0, 15.0)), None);
}

#[test]
fn search_actor_returns_topmost_in_stack_order() {
    let mut stack = PickStack::new();
    stack.log_pick(bx(0.0, 0.0, 10.0, 10.0), 1);
    stack.log_pick(bx(2.0, 2.0, 8.0, 8.0), 2);
    assert_eq!(search(&stack, (5.0, 5.0)), Some(2));
}

#[test]
fn search_actor_skips_overlap_records() {
    let mut stack = PickStack::new();
    stack.log_pick(bx(0.0, 0.0, 10.0, 10.0), 1);
    stack.log_overlap(2);
    stack.log_pick(bx(0.0, 0.0, 10.0, 10.0), 3);
    assert_eq!(search(&stack, (5.0, 5.0)), Some(3));
}

#[test]
fn clip_stack_push_pop() {
    let mut stack = PickStack::new();
    assert_eq!(stack.current_clip_index(), -1);
    stack.push_clip(bx(0.0, 0.0, 10.0, 10.0));
    assert_eq!(stack.current_clip_index(), 0);
    stack.push_clip(bx(2.0, 2.0, 8.0, 8.0));
    assert_eq!(stack.current_clip_index(), 1);
    stack.pop_clip();
    assert_eq!(stack.current_clip_index(), 0);
    stack.pop_clip();
    assert_eq!(stack.current_clip_index(), -1);
}

#[test]
fn pick_record_respects_clip_chain() {
    let mut stack = PickStack::new();
    stack.push_clip(bx(0.0, 0.0, 5.0, 5.0));
    stack.log_pick(bx(1.0, 1.0, 4.0, 4.0), 1);
    assert_eq!(search(&stack, (2.0, 2.0)), Some(1));
    assert_eq!(search(&stack, (4.5, 4.5)), None);
}

#[test]
fn clear_empties_stack() {
    let mut stack = PickStack::new();
    stack.log_pick(bx(0.0, 0.0, 10.0, 10.0), 1);
    stack.push_clip(bx(0.0, 0.0, 5.0, 5.0));
    assert!(!stack.is_empty());
    stack.clear();
    assert!(stack.is_empty());
    assert_eq!(stack.current_clip_index(), -1);
}

#[test]
fn outer_clip_cuts_off_a_record_under_a_nested_clip() {
    let mut stack = PickStack::new();
    stack.push_clip(bx(0.0, 0.0, 5.0, 5.0));
    stack.push_clip(bx(0.0, 0.0, 20.0, 20.0));
    stack.log_pick(bx(0.0, 0.0, 20.0, 20.0), 7);
    stack.pop_clip();
    stack.pop_clip();
    stack.log_pick(bx(0.0, 0.0, 3.0, 3.0), 8);
    assert_eq!(search(&stack, (10.0, 10.0)), None);
    assert_eq!(search(&stack, (4.0, 4.0)), Some(7));
    assert_eq!(search(&stack, (1.0, 1.0)), Some(8));
    assert_eq!(stack.records()[0].clip_index, 1);
    assert_eq!(stack.clips()[1].prev, 0);
}

#[test]
fn actor_zero_is_never_picked() {
    let mut stack = PickStack::new();
    stack.log_pick(bx(0.0, 0.0, 10.0, 10.0), 4);
    stack.log_pick(bx(0.0, 0.0, 10.0, 10.0), 0);
    assert_eq!(search(&stack, (5.0, 5.0)), Some(4));
}
