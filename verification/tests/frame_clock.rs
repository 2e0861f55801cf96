use mutter::frame::{Frame, FrameResult};
use mutter::frame_clock::{FrameClock, FrameClockListener, FrameClockMode, FrameClockState};

fn clock() -> FrameClock {
    // 60 Hz: a refresh interval of 16667 microseconds.
    FrameClock::new(16667, 1000, "HDMI-1")
}

#[test]
fn new_frame_clock() {
    let clock = clock();
    assert_eq!(clock.refresh_interval(), 16667);
    assert_eq!(clock.mode(), FrameClockMode::Fixed);
    assert_eq!(clock.state(), FrameClockState::Init);
    assert_eq!(clock.frame_count(), 0);
    assert_eq!(clock.output_name(), "HDMI-1");
}

#[test]
fn set_mode_and_refresh_interval() {
    let mut clock = clock();
    clock.set_mode(FrameClockMode::Variable);
    assert_eq!(clock.mode(), FrameClockMode::Variable);
    clock.set_refresh_interval(6944);
    assert_eq!(clock.refresh_interval(), 6944);
}

#[test]
fn inhibit_and_uninhibit() {
    let mut clock = clock();
    clock.inhibit();
    assert_eq!(clock.inhibit_count(), 1);
    clock.inhibit();
    assert_eq!(clock.inhibit_count(), 2);
    clock.uninhibit();
    assert_eq!(clock.inhibit_count(), 1);
    clock.uninhibit();
    assert_eq!(clock.inhibit_count(), 0);
}

#[test]
fn schedule_update_transitions_state() {
    let mut clock = clock();
    clock.schedule_update();
    assert_eq!(clock.state(), FrameClockState::Scheduled);
}

#[test]
fn schedule_update_now_takes_precedence() {
    let mut clock = clock();
    clock.schedule_update();
    assert_eq!(clock.state(), FrameClockState::Scheduled);
    clock.schedule_update_now();
    assert_eq!(clock.state(), FrameClockState::ScheduledNow);
}

#[test]
fn inhibit_blocks_scheduling() {
    let mut clock = clock();
    clock.inhibit();
    clock.schedule_update();
    assert!(clock.pending_reschedule());
    assert_eq!(clock.state(), FrameClockState::Init);
}

#[test]
fn uninhibit_runs_the_noted_update() {
    let mut clock = clock();
    clock.schedule_update_now();
    clock.inhibit();
    assert_eq!(clock.state(), FrameClockState::Idle);
    assert_eq!(clock.next_update_time(), -1);
    clock.uninhibit();
    assert_eq!(clock.state(), FrameClockState::ScheduledNow);
    assert!(!clock.pending_reschedule());
}

#[test]
fn passive_clock_does_not_schedule() {
    let mut clock = clock();
    clock.set_mode(FrameClockMode::Passive);
    clock.schedule_update();
    clock.schedule_update_now();
    clock.schedule_update_later(500);
    assert_eq!(clock.state(), FrameClockState::Init);
}

#[test]
fn schedule_later_sets_target_time() {
    let mut clock = clock();
    clock.schedule_update_later(12345);
    assert_eq!(clock.state(), FrameClockState::ScheduledLater);
    assert_eq!(clock.next_update_time(), 12345);
    clock.inhibit();
    assert_eq!(clock.state(), FrameClockState::Idle);
    assert!(clock.pending_reschedule());
}

struct Painter {
    painted: Vec<i64>,
    result: FrameResult,
}

impl FrameClockListener for Painter {
    fn before_frame(&mut self, _frame: &Frame) {}

    fn frame(&mut self, frame: &Frame) -> FrameResult {
        self.painted.push(frame.count());
        self.result
    }

    fn new_frame(&mut self) -> Frame {
        Frame::new()
    }
}

#[test]
fn dispatch_counts_frames_and_moves_state() {
    let mut clock = clock();
    let mut painter = Painter { painted: Vec::new(), result: FrameResult::PendingPresented };
    clock.schedule_update();
    assert_eq!(clock.dispatch(0, &mut painter), FrameResult::PendingPresented);
    assert_eq!(clock.state(), FrameClockState::DispatchedOne);
    assert_eq!(clock.frame_count(), 1);
    clock.notify_ready();
    assert_eq!(clock.state(), FrameClockState::Idle);
    clock.schedule_update();
    clock.dispatch(0, &mut painter);
    assert_eq!(painter.painted, vec![0, 1]);
}

#[test]
fn ignored_frames_do_not_await_presentation() {
    let mut clock = clock();
    let mut painter = Painter { painted: Vec::new(), result: FrameResult::Ignored };
    clock.schedule_update_now();
    assert_eq!(clock.dispatch(0, &mut painter), FrameResult::Ignored);
    assert_eq!(clock.state(), FrameClockState::DispatchedOne);
    clock.notify_presented(100);
    assert_eq!(clock.state(), FrameClockState::DispatchedOne);
}

struct Recorder {
    seen: Vec<(i64, Option<i64>, Option<i64>)>,
}

impl FrameClockListener for Recorder {
    fn before_frame(&mut self, _frame: &Frame) {}

    fn frame(&mut self, frame: &Frame) -> FrameResult {
        self.seen.push((frame.count(), frame.expected_presentation_time(), frame.frame_deadline()));
        FrameResult::PendingPresented
    }

    fn new_frame(&mut self) -> Frame {
        Frame::new()
    }
}

#[test]
fn presentation_times_the_next_update() {
    let mut clock = clock();
    let mut rec = Recorder { seen: Vec::new() };
    clock.schedule_update();
    clock.dispatch(0, &mut rec);
    clock.schedule_update_now();
    assert!(clock.pending_reschedule());
    clock.dispatch(0, &mut rec);
    clock.notify_presented(1000);
    assert_eq!(clock.state(), FrameClockState::Idle);
    clock.schedule_update();
    assert_eq!(clock.state(), FrameClockState::Scheduled);
    assert_eq!(clock.next_update_time(), 17667);
    clock.dispatch(0, &mut rec);
    assert_eq!(rec.seen, vec![(0, None, None), (1, None, None), (2, Some(17667), Some(16667))]);
}
