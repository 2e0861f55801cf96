use mutter::pick_context::{PickContext, PickMode};

type Point = (f32, f32, f32);
type Ray = (f32, f32, f32, f32, f32, f32);
type Box4 = [f32; 4];

#[test]
fn new_for_view_creates_context() {
    let point: Point = (1.0, 2.0, 3.0);
    let ray: Ray = (0.0, 0.0, 0.0, 0.0, 0.0, 1.0);
    let ctx: PickContext<Box4, Point, Ray> = PickContext::new_for_view(PickMode::All, point, ray);
    assert_eq!(ctx.mode(), PickMode::All);
    assert_eq!(ctx.point().0, 1.0);
    assert_eq!(ctx.ray().5, 1.0);
}

#[test]
fn steal_stack_returns_empty_stack() {
    let ctx: PickContext<Box4, Point, Ray> =
        PickContext::new_for_view(PickMode::Reactive, (0.0, 0.0, 0.0), (0.0, 0.0, 0.0, 0.0, 0.0, 1.0));
    let stack = ctx.steal_stack();
    assert!(stack.is_empty());
}

#[test]
fn log_pick_delegates_to_stack() {
    let mut ctx: PickContext<Box4, Point, Ray> =
        PickContext::new_for_view(PickMode::All, (0.0, 0.0, 0.0), (0.0, 0.0, 0.0, 0.0, 0.0, 1.0));
    ctx.log_pick([0.0, 0.0, 10.0, 10.0], 1);
    let stack = ctx.steal_stack();
    assert_eq!(stack.len(), 1);
}

#[test]
fn pass_clips_and_overlaps_reach_the_stack() {
    let mut ctx: PickContext<Box4, Point, Ray> =
        PickContext::new_for_view(PickMode::All, (0.0, 0.0, 0.0), (0.0, 0.0, 0.0, 0.0, 0.0, 1.0));
    ctx.push_clip([0.0, 0.0, 5.0, 5.0]);
    assert_eq!(ctx.stack().current_clip_index(), 0);
    ctx.log_pick([1.0, 1.0, 2.0, 2.0], 7);
    ctx.log_overlap(8);
    ctx.pop_clip();
    assert_eq!(ctx.stack().current_clip_index(), -1);
    let stack = ctx.steal_stack();
    assert_eq!(stack.len(), 2);
    assert_eq!(stack.records()[0].clip_index, 0);
    assert!(stack.records()[1].is_overlap);
}
