//! The result of dispatching a frame.
use vstd::prelude::*;

verus! {

/// The result of a frame dispatch: presented later, idle, or ignored.
#[derive(Debug, Clone, Copy, PartialEq, Eq, Structural, Hash, Default)]
pub enum FrameResult {
    PendingPresented,
    #[default]
    Idle,
    Ignored,
}

/// A frame: its count, its expected presentation time and deadline (when
/// known), and the result of dispatching it (once set).
#[derive(Debug, Clone, PartialEq)]
pub struct Frame {
    pub frame_count: i64,
    pub expected_presentation_time_us: Option<i64>,
    pub is_target_presentation_time: bool,
    pub frame_deadline_us: Option<i64>,
    result: Option<FrameResult>,
}

impl Frame {
    /// The frame count, as a spec value.
    pub closed spec fn spec_count(&self) -> i64 {
        self.frame_count
    }

    /// The expected presentation time, as a spec value.
    pub closed spec fn spec_expected(&self) -> Option<i64> {
        self.expected_presentation_time_us
    }

    /// Whether the presentation time is a target, as a spec value.
    pub closed spec fn spec_is_target(&self) -> bool {
        self.is_target_presentation_time
    }

    /// The deadline, as a spec value.
    pub closed spec fn spec_deadline(&self) -> Option<i64> {
        self.frame_deadline_us
    }

    /// The dispatch result, once set.
    pub closed spec fn spec_result(&self) -> Option<FrameResult> {
        self.result
    }

    /// Frame 0, with no presentation time, deadline or result.
    pub fn new() -> (f: Self)
        ensures
            f.spec_count() == 0,
            f.spec_expected() is None,
            !f.spec_is_target(),
            f.spec_deadline() is None,
            f.spec_result() is None,
    {
        Frame {
            frame_count: 0,
            expected_presentation_time_us: None,
            is_target_presentation_time: false,
            frame_deadline_us: None,
            result: None,
        }
    }

    /// The frame count.
    pub fn count(&self) -> (r: i64)
        ensures
            r == self.spec_count(),
    {
        self.frame_count
    }

    /// The expected presentation time.
    pub fn expected_presentation_time(&self) -> (r: Option<i64>)
        ensures
            r == self.spec_expected(),
    {
        self.expected_presentation_time_us
    }

    /// The frame deadline.
    pub fn frame_deadline(&self) -> (r: Option<i64>)
        ensures
            r == self.spec_deadline(),
    {
        self.frame_deadline_us
    }

    /// Whether the dispatch result is set.
    pub fn has_result(&self) -> (r: bool)
        ensures
            r == self.spec_result() is Some,
    {
        self.result.is_some()
    }

    /// The dispatch result; `Idle` while none is set.
    pub fn result(&self) -> (r: FrameResult)
        ensures
            r == match self.spec_result() {
                Some(x) => x,
                None => FrameResult::Idle,
            },
    {
        match self.result {
            Some(r) => r,
            None => FrameResult::Idle,
        }
    }

    /// The dispatch result, if set.
    pub fn try_result(&self) -> (r: Option<FrameResult>)
        ensures
            r == self.spec_result(),
    {
        self.result
    }

    /// Sets the dispatch result. A frame's result is set once: setting it
    /// again is a caller error.
    pub fn set_result(&mut self, result: FrameResult)
        requires
            old(self).spec_result() is None,
        ensures
            final(self).spec_result() == Some(result),
            final(self).spec_count() == old(self).spec_count(),
            final(self).spec_expected() == old(self).spec_expected(),
            final(self).spec_is_target() == old(self).spec_is_target(),
            final(self).spec_deadline() == old(self).spec_deadline(),
    {
        self.result = Some(result);
    }
}

impl Frame {
    /// The frame with its expected presentation time replaced by `t`.
    pub closed spec fn with_expected(self, t: Option<i64>) -> Frame {
        Frame { expected_presentation_time_us: t, ..self }
    }

    /// The frame with its count replaced by `count`.
    pub closed spec fn with_count(self, count: i64) -> Frame {
        Frame { frame_count: count, ..self }
    }

    /// The frame with its expected presentation time and whether that time
    /// is a target replaced.
    pub closed spec fn with_presentation(self, t: Option<i64>, is_target: bool) -> Frame {
        Frame { expected_presentation_time_us: t, is_target_presentation_time: is_target, ..self }
    }

    /// The frame with its deadline replaced by `deadline`.
    pub closed spec fn with_deadline(self, deadline: Option<i64>) -> Frame {
        Frame { frame_deadline_us: deadline, ..self }
    }

    pub(crate) fn set_count(&mut self, count: i64)
        ensures
            *final(self) == old(self).with_count(count),
    {
        self.frame_count = count;
    }

    pub(crate) fn set_expected(&mut self, t: Option<i64>)
        ensures
            *final(self) == old(self).with_expected(t),
    {
        self.expected_presentation_time_us = t;
    }

    pub(crate) fn set_presentation(&mut self, t: Option<i64>, is_target: bool)
        ensures
            *final(self) == old(self).with_presentation(t, is_target),
    {
        self.expected_presentation_time_us = t;
        self.is_target_presentation_time = is_target;
    }

    pub(crate) fn set_deadline(&mut self, deadline: Option<i64>)
        ensures
            *final(self) == old(self).with_deadline(deadline),
    {
        self.frame_deadline_us = deadline;
    }
}

impl Default for Frame {
    fn default() -> (f: Self)
        ensures
            f.spec_count() == 0,
            f.spec_expected() is None,
            f.spec_deadline() is None,
            f.spec_result() is None,
    {
        Frame::new()
    }
}

} // verus!
