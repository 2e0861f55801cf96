use mutter::frame::{Frame, FrameResult};

#[test]
fn new_frame_has_no_results_or_times() {
    let f = Frame::new();
    assert_eq!(f.count(), 0);
    assert!(f.expected_presentation_time().is_none());
    assert!(f.frame_deadline().is_none());
    assert!(!f.has_result());
    assert_eq!(f.try_result(), None);
}

#[test]
fn set_result_round_trips() {
    let mut f = Frame::new();
    f.set_result(FrameResult::PendingPresented);
    assert!(f.has_result());
    assert_eq!(f.result(), FrameResult::PendingPresented);
    assert_eq!(f.try_result(), Some(FrameResult::PendingPresented));
}

#[test]
fn result_defaults_to_idle_when_unset() {
    let f = Frame::new();
    assert_eq!(f.result(), FrameResult::Idle);
}

#[test]
fn presentation_time_and_deadline_round_trip() {
    let mut f = Frame::new();
    f.expected_presentation_time_us = Some(1_000_000);
    f.frame_deadline_us = Some(900_000);
    assert_eq!(f.expected_presentation_time(), Some(1_000_000));
    assert_eq!(f.frame_deadline(), Some(900_000));
}
