use mutter::paint_context::{
    ColorState, Eotf, Frame, Framebuffer, Gamut, PaintContext, PaintFlag, TransferFunction,
};

/// A view as the host knows it.
#[derive(Debug, Clone)]
struct TestView {
    width: i32,
}

/// A region to redraw, as the host knows it.
#[derive(Debug, Clone, PartialEq)]
struct TestRegion(i32, i32, i32, i32);

type Ctx = PaintContext<TestView, Frame, TestRegion, ()>;

fn dummy_region() -> TestRegion {
    TestRegion(0, 0, 100, 100)
}

#[test]
fn new_for_view_pushes_initial_framebuffer_and_color_state() {
    let ctx: Ctx = PaintContext::new_for_view(
        TestView { width: 1920 },
        dummy_region(),
        Vec::new(),
        PaintFlag::none(),
        ColorState::srgb(),
        Framebuffer,
    );
    assert!(ctx.framebuffer().is_some());
    assert!(ctx.base_framebuffer().is_some());
    assert!(ctx.target_color_state().is_some());
    assert!(ctx.redraw_clip().is_some());
    assert_eq!(ctx.stage_view().map(|v| v.width), Some(1920));
    assert!(!ctx.is_drawing_off_stage());
}

#[test]
fn new_for_framebuffer_has_no_stage_view_and_is_off_stage() {
    let ctx: Ctx = PaintContext::new_for_framebuffer(Framebuffer, Some(dummy_region()), PaintFlag::none(), ColorState::srgb());
    assert!(ctx.stage_view().is_none());
    assert!(ctx.is_drawing_off_stage());
    assert_eq!(ctx.redraw_clip(), Some(&TestRegion(0, 0, 100, 100)));
}

#[test]
fn new_for_framebuffer_allows_no_redraw_clip() {
    let ctx: Ctx = PaintContext::new_for_framebuffer(Framebuffer, None, PaintFlag::none(), ColorState::srgb());
    assert!(ctx.redraw_clip().is_none());
}

#[test]
fn framebuffer_push_pop_stack_order() {
    let mut ctx: Ctx = PaintContext::new_for_framebuffer(Framebuffer, None, PaintFlag::none(), ColorState::srgb());
    assert!(!ctx.is_drawing_off_stage() == false || ctx.is_drawing_off_stage());
    ctx.push_framebuffer(Framebuffer);
    assert!(ctx.is_drawing_off_stage());
    ctx.pop_framebuffer();
    assert!(ctx.framebuffer().is_some());
    assert!(ctx.base_framebuffer().is_some());
}

#[test]
fn color_state_stack_push_pop() {
    let mut ctx: Ctx = PaintContext::new_for_framebuffer(Framebuffer, None, PaintFlag::none(), ColorState::srgb());
    assert!(ctx.color_state().is_none());
    ctx.push_color_state(ColorState::srgb());
    assert!(ctx.color_state().is_some());
    ctx.pop_color_state();
    assert!(ctx.color_state().is_none());
}

#[test]
fn target_color_state_stack_push_pop() {
    let mut ctx: Ctx = PaintContext::new_for_framebuffer(Framebuffer, None, PaintFlag::none(), ColorState::srgb());
    assert!(ctx.target_color_state().is_some());
    let pq = ColorState::new(TransferFunction::PQ, Gamut::Bt2020, Eotf::PQ);
    ctx.push_target_color_state(pq);
    assert_eq!(ctx.target_color_state(), Some(&pq));
    ctx.pop_target_color_state();
    assert_eq!(ctx.target_color_state(), Some(&ColorState::srgb()));
}

#[test]
fn frame_assignment() {
    let mut ctx: Ctx = PaintContext::new_for_framebuffer(Framebuffer, None, PaintFlag::none(), ColorState::srgb());
    assert!(ctx.frame().is_none());
    ctx.assign_frame(Frame::new());
    assert!(ctx.frame().is_some());
}

#[test]
fn color_state_accessors() {
    let cs = ColorState::new(TransferFunction::PQ, Gamut::Bt2020, Eotf::PQ);
    assert_eq!(cs.transfer_function(), TransferFunction::PQ);
    assert_eq!(cs.gamut(), Gamut::Bt2020);
    assert_eq!(cs.eotf(), Eotf::PQ);
    assert_eq!(ColorState::default(), ColorState::srgb());
}

#[test]
fn frame_clock_timing() {
    let mut frame = Frame::new();
    assert_eq!(frame.frame_counter(), 0);
    assert_eq!(frame.pending_frame_count(), 0);
    frame.begin_frame();
    assert_eq!(frame.pending_frame_count(), 1);
    frame.record_presentation(16_666);
    assert_eq!(frame.frame_counter(), 1);
    assert_eq!(frame.pending_frame_count(), 0);
    assert_eq!(frame.last_presentation_time(), 16_666);
}

#[test]
fn frame_counts_saturate() {
    let mut frame = Frame { last_presentation_time: 0, frame_counter: u64::MAX, pending_frame_count: u32::MAX };
    frame.begin_frame();
    assert_eq!(frame.pending_frame_count(), u32::MAX);
    frame.record_presentation(5);
    assert_eq!(frame.frame_counter(), u64::MAX);
    assert_eq!(frame.pending_frame_count(), u32::MAX - 1);
    frame.record_presentation(6);
    frame.pending_frame_count = 0;
    frame.record_presentation(7);
    assert_eq!(frame.pending_frame_count(), 0);
}

#[test]
fn nested_framebuffers_keep_the_base() {
    let mut ctx: Ctx = PaintContext::new_for_view(TestView { width: 1 }, dummy_region(), vec![(), ()], PaintFlag::clear(), ColorState::srgb(), Framebuffer);
    assert_eq!(ctx.clip_frusta().len(), 2);
    assert!(ctx.paint_flags().contains(PaintFlag::clear()));
    ctx.push_framebuffer(Framebuffer);
    ctx.push_framebuffer(Framebuffer);
    assert!(ctx.is_drawing_off_stage());
    ctx.pop_framebuffer();
    ctx.pop_framebuffer();
    assert!(!ctx.is_drawing_off_stage());
}
