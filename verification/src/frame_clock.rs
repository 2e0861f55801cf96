//! The frame clock: the state machine that schedules frame dispatches
//! against the presentations of earlier frames, with the timing it
//! derives from the last presentation.
use vstd::prelude::*;

use crate::frame::{Frame, FrameResult};

verus! {

/// How the frame clock schedules dispatches.
#[derive(Debug, Clone, Copy, PartialEq, Eq, Structural)]
pub enum FrameClockMode {
    Fixed,
    Variable,
    Passive,
}

/// The state of the frame clock.
#[derive(Debug, Clone, Copy, PartialEq, Eq, Structural)]
pub enum FrameClockState {
    Init,
    Idle,
    Scheduled,
    ScheduledNow,
    ScheduledLater,
    DispatchedOne,
    DispatchedOneAndScheduled,
    DispatchedOneAndScheduledNow,
    DispatchedOneAndScheduledLater,
    DispatchedTwo,
}

/// The driver of a frame clock in passive mode, which is told to schedule
/// updates.
pub trait FrameClockDriver {
    /// Asks the driver to schedule an update.
    fn schedule_update(&mut self);
}

/// What a frame clock drives: it makes the frames and paints them.
pub trait FrameClockListener {
    /// Told that `frame` is about to be painted.
    fn before_frame(&mut self, frame: &Frame);

    /// Paints `frame`.
    fn frame(&mut self, frame: &Frame) -> FrameResult;

    /// A new frame to dispatch.
    fn new_frame(&mut self) -> Frame;
}

/// The state of a frame clock.
pub struct FrameClockView {
    pub refresh_interval_us: i64,
    pub vblank_duration_us: i64,
    pub mode: FrameClockMode,
    pub state: FrameClockState,
    pub next_update_time_us: i64,
    pub prev_dispatch: Option<Frame>,
    pub next_presentation: Option<Frame>,
    pub next_next_presentation: Option<Frame>,
    pub prev_presentation: Option<Frame>,
    pub is_next_presentation_time_valid: bool,
    pub is_target_presentation_time: bool,
    pub next_presentation_time_us: i64,
    pub has_next_frame_deadline: bool,
    pub next_frame_deadline_us: i64,
    pub longterm_max_update_duration_us: i64,
    pub shortterm_max_update_duration_us: i64,
    pub pending_reschedule: bool,
    pub pending_reschedule_now: bool,
    pub inhibit_count: usize,
    pub frame_count: i64,
    pub deadline_evasion_us: i64,
}

/// The longest an update is expected to take.
pub open spec fn max_update_duration(v: FrameClockView) -> i64 {
    if v.longterm_max_update_duration_us >= v.shortterm_max_update_duration_us {
        v.longterm_max_update_duration_us
    } else {
        v.shortterm_max_update_duration_us
    }
}

/// The presentation time of the last presented frame, when known.
pub open spec fn last_presentation_time(v: FrameClockView) -> Option<i64> {
    match v.prev_presentation {
        Some(f) => f.spec_expected(),
        None => None,
    }
}

/// A second frame may be dispatched before the first is presented: the
/// last presentation time is known and an update takes a refresh interval
/// or longer.
pub open spec fn want_triple_buffering(v: FrameClockView) -> bool {
    last_presentation_time(v) is Some && max_update_duration(v) >= v.refresh_interval_us
}

/// The times derived from the last presentation fit in `i64`.
pub open spec fn timing_fits(v: FrameClockView) -> bool {
    match last_presentation_time(v) {
        Some(t) => {
            let p = t + v.refresh_interval_us;
            &&& i64::MIN <= p <= i64::MAX
            &&& i64::MIN <= p - v.vblank_duration_us <= i64::MAX
            &&& i64::MIN <= p - max_update_duration(v) <= i64::MAX
        },
        None => true,
    }
}

/// The next update time, from the last presentation: the next
/// presentation is one refresh interval after it, and the update starts
/// the longest update duration before that, but not before now (time 0).
/// In fixed mode the presentation time is a target and the deadline is
/// the start of the vertical blank; in variable mode the deadline is the
/// update time. Without a last presentation the update is now. A passive
/// clock keeps its times.
pub open spec fn with_next_update(v: FrameClockView) -> FrameClockView {
    match v.mode {
        FrameClockMode::Passive => v,
        _ => match last_presentation_time(v) {
            Some(t) => {
                let p = (t + v.refresh_interval_us) as i64;
                let start = p - max_update_duration(v);
                let update = (if start > 0 { start } else { 0 }) as i64;
                if v.mode == FrameClockMode::Fixed {
                    FrameClockView {
                        next_presentation_time_us: p,
                        has_next_frame_deadline: true,
                        next_frame_deadline_us: (p - v.vblank_duration_us) as i64,
                        is_next_presentation_time_valid: true,
                        is_target_presentation_time: true,
                        next_update_time_us: update,
                        ..v
                    }
                } else {
                    FrameClockView {
                        next_presentation_time_us: p,
                        next_update_time_us: update,
                        has_next_frame_deadline: true,
                        next_frame_deadline_us: update,
                        is_next_presentation_time_valid: true,
                        is_target_presentation_time: false,
                        ..v
                    }
                }
            },
            None => FrameClockView { next_update_time_us: 0, is_next_presentation_time_valid: false, ..v },
        },
    }
}

/// `schedule_update`: while inhibited, only a reschedule is noted; a
/// passive clock does nothing; otherwise an update is scheduled, after the
/// frame in flight when triple buffering is wanted, else noted for later.
pub open spec fn schedule_update_model(v: FrameClockView) -> FrameClockView {
    if v.inhibit_count > 0 {
        FrameClockView { pending_reschedule: true, ..v }
    } else if v.mode == FrameClockMode::Passive {
        v
    } else {
        match v.state {
            FrameClockState::Init => FrameClockView { state: FrameClockState::Scheduled, next_update_time_us: 0, ..v },
            FrameClockState::Idle | FrameClockState::ScheduledLater => with_next_update(
                FrameClockView { state: FrameClockState::Scheduled, ..v },
            ),
            FrameClockState::DispatchedOne | FrameClockState::DispatchedOneAndScheduledLater => if want_triple_buffering(v) {
                with_next_update(FrameClockView { state: FrameClockState::DispatchedOneAndScheduled, ..v })
            } else {
                FrameClockView { pending_reschedule: true, ..v }
            },
            FrameClockState::DispatchedTwo => FrameClockView { pending_reschedule: true, ..v },
            _ => v,
        }
    }
}

/// The update is now: time 0, no known presentation time, no target.
pub open spec fn update_now(v: FrameClockView) -> FrameClockView {
    FrameClockView {
        next_update_time_us: 0,
        is_next_presentation_time_valid: false,
        is_target_presentation_time: false,
        ..v
    }
}

/// `schedule_update_now`: as `schedule_update`, but for an immediate
/// update.
pub open spec fn schedule_update_now_model(v: FrameClockView) -> FrameClockView {
    if v.inhibit_count > 0 {
        FrameClockView { pending_reschedule: true, pending_reschedule_now: true, ..v }
    } else if v.mode == FrameClockMode::Passive {
        v
    } else {
        match v.state {
            FrameClockState::Init | FrameClockState::Idle | FrameClockState::Scheduled
            | FrameClockState::ScheduledLater => update_now(FrameClockView { state: FrameClockState::ScheduledNow, ..v }),
            FrameClockState::DispatchedOneAndScheduled | FrameClockState::DispatchedOneAndScheduledLater => update_now(
                FrameClockView { state: FrameClockState::DispatchedOneAndScheduledNow, ..v },
            ),
            FrameClockState::DispatchedOne => if want_triple_buffering(v) {
                update_now(FrameClockView { state: FrameClockState::DispatchedOneAndScheduledNow, ..v })
            } else {
                FrameClockView { pending_reschedule: true, pending_reschedule_now: true, ..v }
            },
            FrameClockState::DispatchedTwo => FrameClockView {
                pending_reschedule: true,
                pending_reschedule_now: true,
                ..v
            },
            _ => v,
        }
    }
}

/// `schedule_update_later`: as `schedule_update`, but for an update at
/// `target_us`.
pub open spec fn schedule_update_later_model(v: FrameClockView, target_us: i64) -> FrameClockView {
    if v.inhibit_count > 0 {
        FrameClockView { pending_reschedule: true, ..v }
    } else if v.mode == FrameClockMode::Passive {
        v
    } else {
        match v.state {
            FrameClockState::Init | FrameClockState::Idle | FrameClockState::ScheduledLater => FrameClockView {
                state: FrameClockState::ScheduledLater,
                next_update_time_us: target_us,
                ..v
            },
            FrameClockState::DispatchedOne | FrameClockState::DispatchedOneAndScheduledLater => if want_triple_buffering(v) {
                with_next_update(FrameClockView { state: FrameClockState::DispatchedOneAndScheduled, ..v })
            } else {
                FrameClockView { pending_reschedule: true, ..v }
            },
            FrameClockState::DispatchedTwo => FrameClockView { pending_reschedule: true, ..v },
            _ => v,
        }
    }
}

/// `inhibit`: the first inhibition takes back a scheduled update, noting
/// it for later, and clears the update time; the count goes up.
pub open spec fn inhibit_model(v: FrameClockView) -> FrameClockView {
    let v1 = if v.inhibit_count == 0 {
        let v0 = match v.state {
            FrameClockState::Scheduled | FrameClockState::ScheduledLater => FrameClockView {
                pending_reschedule: true,
                state: FrameClockState::Idle,
                ..v
            },
            FrameClockState::ScheduledNow => FrameClockView {
                pending_reschedule: true,
                pending_reschedule_now: true,
                state: FrameClockState::Idle,
                ..v
            },
            FrameClockState::DispatchedOneAndScheduled | FrameClockState::DispatchedOneAndScheduledLater => FrameClockView {
                pending_reschedule: true,
                state: FrameClockState::DispatchedOne,
                ..v
            },
            FrameClockState::DispatchedOneAndScheduledNow => FrameClockView {
                pending_reschedule: true,
                pending_reschedule_now: true,
                state: FrameClockState::DispatchedOne,
                ..v
            },
            _ => v,
        };
        FrameClockView { next_update_time_us: -1i64, ..v0 }
    } else {
        v
    };
    FrameClockView { inhibit_count: (v1.inhibit_count + 1) as usize, ..v1 }
}

/// `uninhibit`: the count goes down; when the last inhibition ends with a
/// reschedule noted, the update is scheduled again (now, if so noted).
pub open spec fn uninhibit_model(v: FrameClockView) -> FrameClockView {
    if v.inhibit_count > 0 {
        let v1 = FrameClockView { inhibit_count: (v.inhibit_count - 1) as usize, ..v };
        if v1.inhibit_count == 0 && v1.pending_reschedule {
            let v2 = FrameClockView { pending_reschedule: false, ..v1 };
            if v2.pending_reschedule_now {
                schedule_update_now_model(FrameClockView { pending_reschedule_now: false, ..v2 })
            } else {
                schedule_update_model(v2)
            }
        } else {
            v1
        }
    } else {
        v
    }
}

/// After a frame in flight is presented or dropped: one frame less is in
/// flight, and a noted reschedule is forgotten.
pub open spec fn after_presentation(v: FrameClockView) -> FrameClockView {
    match v.state {
        FrameClockState::DispatchedOne => FrameClockView { pending_reschedule: false, state: FrameClockState::Idle, ..v },
        FrameClockState::DispatchedOneAndScheduled => FrameClockView {
            pending_reschedule: false,
            state: FrameClockState::Scheduled,
            ..v
        },
        FrameClockState::DispatchedOneAndScheduledNow => FrameClockView {
            pending_reschedule: false,
            state: FrameClockState::ScheduledNow,
            ..v
        },
        FrameClockState::DispatchedOneAndScheduledLater => FrameClockView {
            pending_reschedule: false,
            state: FrameClockState::ScheduledLater,
            ..v
        },
        FrameClockState::DispatchedTwo => FrameClockView {
            pending_reschedule: false,
            state: FrameClockState::DispatchedOne,
            ..v
        },
        _ => v,
    }
}

/// `notify_presented`: with a frame awaiting presentation, it becomes the
/// last presented frame, presented at `t`, the frame after it moves up,
/// and one frame less is in flight; without one, nothing changes.
pub open spec fn notify_presented_model(v: FrameClockView, t: i64) -> FrameClockView {
    match v.next_presentation {
        None => v,
        Some(f) => after_presentation(
            FrameClockView {
                prev_presentation: Some(f.with_expected(Some(t))),
                next_presentation: v.next_next_presentation,
                next_next_presentation: None,
                ..v
            },
        ),
    }
}

/// `notify_ready`: the later awaited frame is dropped (the first when only
/// one awaits), and one frame less is in flight.
pub open spec fn notify_ready_model(v: FrameClockView) -> FrameClockView {
    let v1 = if v.next_next_presentation is Some {
        FrameClockView { next_next_presentation: None, ..v }
    } else if v.next_presentation is Some {
        FrameClockView { next_presentation: None, ..v }
    } else {
        v
    };
    after_presentation(v1)
}

/// The state after a dispatch: a scheduled (or initial) clock has one
/// frame in flight; other states stay.
pub open spec fn dispatched_state(s: FrameClockState) -> FrameClockState {
    match s {
        FrameClockState::Init | FrameClockState::Scheduled | FrameClockState::ScheduledNow
        | FrameClockState::ScheduledLater => FrameClockState::DispatchedOne,
        _ => s,
    }
}

/// The frame `g` made by the listener, stamped with the clock's frame
/// count and, when known, the next presentation time and the deadline.
pub open spec fn stamped(v: FrameClockView, g: Frame) -> Frame {
    let g1 = g.with_count(v.frame_count);
    let g2 = if v.is_next_presentation_time_valid {
        g1.with_presentation(Some(v.next_presentation_time_us), v.is_target_presentation_time)
    } else {
        g1
    };
    if v.has_next_frame_deadline {
        g2.with_deadline(Some(v.next_frame_deadline_us))
    } else {
        g2
    }
}

/// `dispatch` of frame `f` with result `r`: the count goes up, the state
/// moves on, and a frame not ignored joins the frames awaiting
/// presentation where there is room; otherwise it stays the last
/// dispatched frame.
pub open spec fn dispatch_model(v: FrameClockView, f: Frame, r: FrameResult) -> FrameClockView {
    let v1 = FrameClockView { frame_count: (v.frame_count + 1) as i64, state: dispatched_state(v.state), ..v };
    if r != FrameResult::Ignored && v.next_next_presentation is None {
        FrameClockView { next_next_presentation: Some(f), prev_dispatch: None, ..v1 }
    } else if r != FrameResult::Ignored && v.next_presentation is None {
        FrameClockView { next_presentation: Some(f), prev_dispatch: None, ..v1 }
    } else {
        FrameClockView { prev_dispatch: Some(f), ..v1 }
    }
}

/// A frame clock.
pub struct FrameClock {
    refresh_interval_us: i64,
    vblank_duration_us: i64,
    mode: FrameClockMode,
    state: FrameClockState,
    next_update_time_us: i64,
    prev_dispatch: Option<Frame>,
    next_presentation: Option<Frame>,
    next_next_presentation: Option<Frame>,
    prev_presentation: Option<Frame>,
    is_next_presentation_time_valid: bool,
    is_target_presentation_time: bool,
    next_presentation_time_us: i64,
    has_next_frame_deadline: bool,
    next_frame_deadline_us: i64,
    longterm_promotion_us: i64,
    longterm_max_update_duration_us: i64,
    shortterm_max_update_duration_us: i64,
    ever_got_measurements: bool,
    pending_reschedule: bool,
    pending_reschedule_now: bool,
    inhibit_count: usize,
    frame_count: i64,
    deadline_evasion_us: i64,
    output_name: &'static str,
}

impl View for FrameClock {
    type V = FrameClockView;

    closed spec fn view(&self) -> FrameClockView {
        FrameClockView {
            refresh_interval_us: self.refresh_interval_us,
            vblank_duration_us: self.vblank_duration_us,
            mode: self.mode,
            state: self.state,
            next_update_time_us: self.next_update_time_us,
            prev_dispatch: self.prev_dispatch,
            next_presentation: self.next_presentation,
            next_next_presentation: self.next_next_presentation,
            prev_presentation: self.prev_presentation,
            is_next_presentation_time_valid: self.is_next_presentation_time_valid,
            is_target_presentation_time: self.is_target_presentation_time,
            next_presentation_time_us: self.next_presentation_time_us,
            has_next_frame_deadline: self.has_next_frame_deadline,
            next_frame_deadline_us: self.next_frame_deadline_us,
            longterm_max_update_duration_us: self.longterm_max_update_duration_us,
            shortterm_max_update_duration_us: self.shortterm_max_update_duration_us,
            pending_reschedule: self.pending_reschedule,
            pending_reschedule_now: self.pending_reschedule_now,
            inhibit_count: self.inhibit_count,
            frame_count: self.frame_count,
            deadline_evasion_us: self.deadline_evasion_us,
        }
    }
}

impl FrameClock {
    /// The output the clock drives, as a spec value.
    pub closed spec fn spec_output_name(&self) -> &'static str {
        self.output_name
    }

    /// A clock in its initial state, in fixed mode, for a refresh interval
    /// and vertical blank of the given lengths.
    pub fn new(refresh_interval_us: i64, vblank_duration_us: i64, output_name: &'static str) -> (c: Self)
        ensures
            c@ == (FrameClockView {
                refresh_interval_us,
                vblank_duration_us,
                mode: FrameClockMode::Fixed,
                state: FrameClockState::Init,
                next_update_time_us: 0,
                prev_dispatch: None,
                next_presentation: None,
                next_next_presentation: None,
                prev_presentation: None,
                is_next_presentation_time_valid: false,
                is_target_presentation_time: false,
                next_presentation_time_us: 0,
                has_next_frame_deadline: false,
                next_frame_deadline_us: 0,
                longterm_max_update_duration_us: 0,
                shortterm_max_update_duration_us: 0,
                pending_reschedule: false,
                pending_reschedule_now: false,
                inhibit_count: 0,
                frame_count: 0,
                deadline_evasion_us: 0,
            }),
            c.spec_output_name() == output_name,
    {
        FrameClock {
            refresh_interval_us,
            vblank_duration_us,
            mode: FrameClockMode::Fixed,
            state: FrameClockState::Init,
            next_update_time_us: 0,
            prev_dispatch: None,
            next_presentation: None,
            next_next_presentation: None,
            prev_presentation: None,
            is_next_presentation_time_valid: false,
            is_target_presentation_time: false,
            next_presentation_time_us: 0,
            has_next_frame_deadline: false,
            next_frame_deadline_us: 0,
            longterm_promotion_us: 0,
            longterm_max_update_duration_us: 0,
            shortterm_max_update_duration_us: 0,
            ever_got_measurements: false,
            pending_reschedule: false,
            pending_reschedule_now: false,
            inhibit_count: 0,
            frame_count: 0,
            deadline_evasion_us: 0,
            output_name,
        }
    }

    /// Sets the refresh interval.
    pub fn set_refresh_interval(&mut self, refresh_interval_us: i64)
        ensures
            final(self)@ == (FrameClockView { refresh_interval_us, ..old(self)@ }),
    {
        self.refresh_interval_us = refresh_interval_us;
    }

    /// The refresh interval.
    pub fn refresh_interval(&self) -> (r: i64)
        ensures
            r == self@.refresh_interval_us,
    {
        self.refresh_interval_us
    }

    /// The output the clock drives.
    pub fn output_name(&self) -> (r: &'static str)
        ensures
            r == self.spec_output_name(),
    {
        self.output_name
    }

    /// Sets the mode.
    pub fn set_mode(&mut self, mode: FrameClockMode)
        ensures
            final(self)@ == (FrameClockView { mode, ..old(self)@ }),
    {
        self.mode = mode;
    }

    /// The mode.
    pub fn mode(&self) -> (r: FrameClockMode)
        ensures
            r == self@.mode,
    {
        self.mode
    }

    /// The state.
    pub fn state(&self) -> (r: FrameClockState)
        ensures
            r == self@.state,
    {
        self.state
    }

    /// The number of frames dispatched.
    pub fn frame_count(&self) -> (r: i64)
        ensures
            r == self@.frame_count,
    {
        self.frame_count
    }

    /// The number of inhibitions in force.
    pub fn inhibit_count(&self) -> (r: usize)
        ensures
            r == self@.inhibit_count,
    {
        self.inhibit_count
    }

    /// Whether an update is noted for later.
    pub fn pending_reschedule(&self) -> (r: bool)
        ensures
            r == self@.pending_reschedule,
    {
        self.pending_reschedule
    }

    /// The time of the next update; -1 while inhibited with an update time
    /// after 0.
    pub fn next_update_time(&self) -> (r: i64)
        ensures
            r == if self@.inhibit_count > 0 && self@.next_update_time_us > 0 {
                -1i64
            } else {
                self@.next_update_time_us
            },
    {
        if self.inhibit_count > 0 && self.next_update_time_us > 0 {
            -1
        } else {
            self.next_update_time_us
        }
    }

    /// Sets how long before a deadline the update should end.
    pub fn set_deadline_evasion(&mut self, deadline_evasion_us: i64)
        ensures
            final(self)@ == (FrameClockView { deadline_evasion_us, ..old(self)@ }),
    {
        self.deadline_evasion_us = deadline_evasion_us;
    }

    fn after_presentation(&mut self)
        ensures
            final(self)@ == after_presentation(old(self)@),
            final(self).output_name == old(self).output_name,
    {
        match self.state {
            FrameClockState::DispatchedOne => {
                self.pending_reschedule = false;
                self.state = FrameClockState::Idle;
            },
            FrameClockState::DispatchedOneAndScheduled => {
                self.pending_reschedule = false;
                self.state = FrameClockState::Scheduled;
            },
            FrameClockState::DispatchedOneAndScheduledNow => {
                self.pending_reschedule = false;
                self.state = FrameClockState::ScheduledNow;
            },
            FrameClockState::DispatchedOneAndScheduledLater => {
                self.pending_reschedule = false;
                self.state = FrameClockState::ScheduledLater;
            },
            FrameClockState::DispatchedTwo => {
                self.pending_reschedule = false;
                self.state = FrameClockState::DispatchedOne;
            },
            _ => {},
        }
    }

    /// The frame awaiting presentation was presented at
    /// `presentation_time_us`; see `notify_presented_model`.
    pub fn notify_presented(&mut self, presentation_time_us: i64)
        ensures
            final(self)@ == notify_presented_model(old(self)@, presentation_time_us),
    {
        if self.next_presentation.is_none() {
            return;
        }
        self.prev_presentation = None;
        if let Some(mut frame) = self.next_presentation.take() {
            frame.set_expected(Some(presentation_time_us));
            self.prev_presentation = Some(frame);
        }
        self.next_presentation = self.next_next_presentation.take();
        self.after_presentation();
    }

    /// A frame in flight is done without presentation; see
    /// `notify_ready_model`.
    pub fn notify_ready(&mut self)
        ensures
            final(self)@ == notify_ready_model(old(self)@),
    {
        if self.next_next_presentation.is_some() {
            self.next_next_presentation = None;
        } else if self.next_presentation.is_some() {
            self.next_presentation = None;
        }
        self.after_presentation();
    }

    fn now_us(&self) -> (r: i64)
        ensures
            r == 0,
    {
        0
    }

    fn max_update_duration_us(&self) -> (r: i64)
        ensures
            r == max_update_duration(self@),
    {
        if self.longterm_max_update_duration_us >= self.shortterm_max_update_duration_us {
            self.longterm_max_update_duration_us
        } else {
            self.shortterm_max_update_duration_us
        }
    }

    fn want_triple_buffering(&self) -> (r: bool)
        ensures
            r == want_triple_buffering(self@),
    {
        if let Some(last) = &self.prev_presentation {
            if last.expected_presentation_time().is_some() {
                return self.max_update_duration_us() >= self.refresh_interval_us;
            }
        }
        false
    }

    fn calculate_next_update_time(&mut self)
        requires
            timing_fits(old(self)@),
        ensures
            final(self)@ == with_next_update(old(self)@),
    {
        let last = match &self.prev_presentation {
            Some(f) => f.expected_presentation_time(),
            None => None,
        };
        match self.mode {
            FrameClockMode::Passive => {},
            _ => match last {
                Some(pres_time) => {
                    let p = pres_time + self.refresh_interval_us;
                    let start = p - self.max_update_duration_us();
                    let now = self.now_us();
                    let update = if now >= start {
                        now
                    } else {
                        start
                    };
                    self.next_presentation_time_us = p;
                    self.next_update_time_us = update;
                    self.has_next_frame_deadline = true;
                    self.is_next_presentation_time_valid = true;
                    match self.mode {
                        FrameClockMode::Fixed => {
                            self.next_frame_deadline_us = p - self.vblank_duration_us;
                            self.is_target_presentation_time = true;
                        },
                        _ => {
                            self.next_frame_deadline_us = update;
                            self.is_target_presentation_time = false;
                        },
                    }
                },
                None => {
                    self.next_update_time_us = self.now_us();
                    self.is_next_presentation_time_valid = false;
                },
            },
        }
    }

    /// Schedules an update; see `schedule_update_model`. The times derived
    /// from the last presentation must fit in `i64`.
    pub fn schedule_update(&mut self)
        requires
            timing_fits(old(self)@),
        ensures
            final(self)@ == schedule_update_model(old(self)@),
    {
        if self.inhibit_count > 0 {
            self.pending_reschedule = true;
            return;
        }
        if self.mode == FrameClockMode::Passive {
            return;
        }
        match self.state {
            FrameClockState::Init => {
                self.state = FrameClockState::Scheduled;
                self.next_update_time_us = self.now_us();
            },
            FrameClockState::Idle | FrameClockState::ScheduledLater => {
                self.state = FrameClockState::Scheduled;
                self.calculate_next_update_time();
            },
            FrameClockState::DispatchedOne | FrameClockState::DispatchedOneAndScheduledLater => {
                if self.want_triple_buffering() {
                    self.state = FrameClockState::DispatchedOneAndScheduled;
                    self.calculate_next_update_time();
                } else {
                    self.pending_reschedule = true;
                }
            },
            FrameClockState::DispatchedTwo => {
                self.pending_reschedule = true;
            },
            _ => {},
        }
    }

    /// Schedules an immediate update; see `schedule_update_now_model`.
    pub fn schedule_update_now(&mut self)
        ensures
            final(self)@ == schedule_update_now_model(old(self)@),
    {
        if self.inhibit_count > 0 {
            self.pending_reschedule = true;
            self.pending_reschedule_now = true;
            return;
        }
        if self.mode == FrameClockMode::Passive {
            return;
        }
        match self.state {
            FrameClockState::Init | FrameClockState::Idle | FrameClockState::Scheduled
            | FrameClockState::ScheduledLater => {
                self.state = FrameClockState::ScheduledNow;
            },
            FrameClockState::ScheduledNow | FrameClockState::DispatchedOneAndScheduledNow => {
                return;
            },
            FrameClockState::DispatchedOneAndScheduled
            | FrameClockState::DispatchedOneAndScheduledLater => {
                self.state = FrameClockState::DispatchedOneAndScheduledNow;
            },
            FrameClockState::DispatchedOne => {
                if self.want_triple_buffering() {
                    self.state = FrameClockState::DispatchedOneAndScheduledNow;
                } else {
                    self.pending_reschedule = true;
                    self.pending_reschedule_now = true;
                    return;
                }
            },
            FrameClockState::DispatchedTwo => {
                self.pending_reschedule = true;
                self.pending_reschedule_now = true;
                return;
            },
        }
        self.next_update_time_us = self.now_us();
        self.is_next_presentation_time_valid = false;
        self.is_target_presentation_time = false;
    }

    /// Schedules an update at `target_us`; see
    /// `schedule_update_later_model`. The times derived from the last
    /// presentation must fit in `i64`.
    pub fn schedule_update_later(&mut self, target_us: i64)
        requires
            timing_fits(old(self)@),
        ensures
            final(self)@ == schedule_update_later_model(old(self)@, target_us),
    {
        if self.inhibit_count > 0 {
            self.pending_reschedule = true;
            return;
        }
        if self.mode == FrameClockMode::Passive {
            return;
        }
        match self.state {
            FrameClockState::Init | FrameClockState::Idle | FrameClockState::ScheduledLater => {
                self.state = FrameClockState::ScheduledLater;
                self.next_update_time_us = target_us;
            },
            FrameClockState::DispatchedOne | FrameClockState::DispatchedOneAndScheduledLater => {
                if self.want_triple_buffering() {
                    self.state = FrameClockState::DispatchedOneAndScheduled;
                    self.calculate_next_update_time();
                } else {
                    self.pending_reschedule = true;
                }
            },
            FrameClockState::DispatchedTwo => {
                self.pending_reschedule = true;
            },
            _ => {},
        }
    }

    /// Inhibits updates; see `inhibit_model`. The count must stay within
    /// `usize`.
    pub fn inhibit(&mut self)
        requires
            old(self)@.inhibit_count < usize::MAX,
        ensures
            final(self)@ == inhibit_model(old(self)@),
    {
        if self.inhibit_count == 0 {
            match self.state {
                FrameClockState::Scheduled | FrameClockState::ScheduledLater => {
                    self.pending_reschedule = true;
                    self.state = FrameClockState::Idle;
                },
                FrameClockState::ScheduledNow => {
                    self.pending_reschedule = true;
                    self.pending_reschedule_now = true;
                    self.state = FrameClockState::Idle;
                },
                FrameClockState::DispatchedOneAndScheduled
                | FrameClockState::DispatchedOneAndScheduledLater => {
                    self.pending_reschedule = true;
                    self.state = FrameClockState::DispatchedOne;
                },
                FrameClockState::DispatchedOneAndScheduledNow => {
                    self.pending_reschedule = true;
                    self.pending_reschedule_now = true;
                    self.state = FrameClockState::DispatchedOne;
                },
                _ => {},
            }
            self.next_update_time_us = -1;
        }
        self.inhibit_count += 1;
    }

    /// Lifts one inhibition; see `uninhibit_model`. The times derived from
    /// the last presentation must fit in `i64`.
    pub fn uninhibit(&mut self)
        requires
            timing_fits(old(self)@),
        ensures
            final(self)@ == uninhibit_model(old(self)@),
    {
        if self.inhibit_count > 0 {
            self.inhibit_count -= 1;
            if self.inhibit_count == 0 && self.pending_reschedule {
                self.pending_reschedule = false;
                if self.pending_reschedule_now {
                    self.pending_reschedule_now = false;
                    self.schedule_update_now();
                } else {
                    self.schedule_update();
                }
            }
        }
    }

    /// Dispatches a frame made by `listener`: stamps it, lets the listener
    /// paint it, and files it; returns the listener's result. See
    /// `stamped` and `dispatch_model`; the frame count must stay within
    /// `i64`.
    pub fn dispatch<L: FrameClockListener>(&mut self, time_us: i64, listener: &mut L) -> (r: FrameResult)
        requires
            old(self)@.frame_count < i64::MAX,
        ensures
            exists|g: Frame| final(self)@ == dispatch_model(old(self)@, #[trigger] stamped(old(self)@, g), r),
    {
        let _ = time_us;
        let mut frame = listener.new_frame();
        let ghost g = frame;
        frame.set_count(self.frame_count);
        self.frame_count += 1;
        if self.is_next_presentation_time_valid {
            frame.set_presentation(Some(self.next_presentation_time_us), self.is_target_presentation_time);
        }
        if self.has_next_frame_deadline {
            frame.set_deadline(Some(self.next_frame_deadline_us));
        }
        listener.before_frame(&frame);
        let result = listener.frame(&frame);
        self.prev_dispatch = Some(frame);
        self.state = match self.state {
            FrameClockState::Init | FrameClockState::Scheduled | FrameClockState::ScheduledNow
            | FrameClockState::ScheduledLater => FrameClockState::DispatchedOne,
            other => other,
        };
        if result != FrameResult::Ignored {
            if self.next_next_presentation.is_none() {
                self.next_next_presentation = self.prev_dispatch.take();
            } else if self.next_presentation.is_none() {
                self.next_presentation = self.prev_dispatch.take();
            }
        }
        assert(self@ == dispatch_model(old(self)@, stamped(old(self)@, g), result));
        result
    }
}

/// While a clock is inhibited, scheduling only notes a reschedule: the
/// state and times stay.
pub proof fn law_inhibited_clock_only_notes(v: FrameClockView, target_us: i64)
    requires
        v.inhibit_count > 0,
    ensures
        schedule_update_model(v) == (FrameClockView { pending_reschedule: true, ..v }),
        schedule_update_now_model(v) == (FrameClockView {
            pending_reschedule: true,
            pending_reschedule_now: true,
            ..v
        }),
        schedule_update_later_model(v, target_us) == (FrameClockView { pending_reschedule: true, ..v }),
{
}

/// Inhibiting a clock that has an update scheduled, or scheduled now, and
/// lifting the inhibition again gives back that state; a passive clock is
/// excluded, since it does not schedule, and so is a scheduled clock that
/// also has an immediate update noted, which comes back scheduled now.
pub proof fn law_inhibit_then_uninhibit_reschedules(v: FrameClockView)
    requires
        v.inhibit_count == 0,
        v.mode != FrameClockMode::Passive,
        v.state == FrameClockState::Scheduled || v.state == FrameClockState::ScheduledNow,
        v.state == FrameClockState::Scheduled ==> !v.pending_reschedule_now,
        timing_fits(v),
    ensures
        uninhibit_model(inhibit_model(v)).state == v.state,
        uninhibit_model(inhibit_model(v)).inhibit_count == 0,
        !uninhibit_model(inhibit_model(v)).pending_reschedule,
{
}

/// A dispatch moves a scheduled clock with no frame awaiting presentation
/// to one frame in flight, awaiting presentation; when that frame is done,
/// the clock is idle again and no frame awaits.
pub proof fn law_dispatch_then_ready_idles(v: FrameClockView, f: Frame)
    requires
        v.state == FrameClockState::Scheduled || v.state == FrameClockState::ScheduledNow
            || v.state == FrameClockState::ScheduledLater,
        v.next_presentation is None,
        v.next_next_presentation is None,
    ensures
        dispatch_model(v, f, FrameResult::PendingPresented).state == FrameClockState::DispatchedOne,
        dispatch_model(v, f, FrameResult::PendingPresented).next_next_presentation == Some(f),
        notify_ready_model(dispatch_model(v, f, FrameResult::PendingPresented)).state == FrameClockState::Idle,
        notify_ready_model(dispatch_model(v, f, FrameResult::PendingPresented)).next_next_presentation is None,
        notify_ready_model(dispatch_model(v, f, FrameResult::PendingPresented)).next_presentation is None,
{
}

/// Asking for an update while one is scheduled for later brings it
/// forward: a running clock that is not inhibited goes to the scheduled
/// state, exactly as from idle, with the update now when no presentation
/// is known and otherwise the longest update duration before the next
/// presentation (not before now); the later target is dropped.
pub proof fn law_schedule_update_brings_later_forward(v: FrameClockView)
    requires
        v.inhibit_count == 0,
        v.mode != FrameClockMode::Passive,
        v.state == FrameClockState::ScheduledLater,
    ensures
        schedule_update_model(v).state == FrameClockState::Scheduled,
        schedule_update_model(v) == schedule_update_model(FrameClockView { state: FrameClockState::Idle, ..v }),
        last_presentation_time(v) is None ==> schedule_update_model(v).next_update_time_us == 0,
        timing_fits(v) ==> (last_presentation_time(v) matches Some(t) ==> schedule_update_model(v).next_update_time_us == {
            let start = t + v.refresh_interval_us - max_update_duration(v);
            if start > 0 { start } else { 0 }
        }),
{
}

/// Scheduling an update for later and then asking for an update gives the
/// same clock as asking for the update straight away: the later target
/// leaves no trace.
pub proof fn law_schedule_later_then_update(v: FrameClockView, target_us: i64)
    requires
        v.inhibit_count == 0,
        v.mode != FrameClockMode::Passive,
        v.state == FrameClockState::Idle,
    ensures
        schedule_update_later_model(v, target_us).state == FrameClockState::ScheduledLater,
        schedule_update_model(schedule_update_later_model(v, target_us)) == schedule_update_model(v),
        schedule_update_model(schedule_update_later_model(v, target_us)).state == FrameClockState::Scheduled,
{
    let w = schedule_update_later_model(v, target_us);
    assert(w == FrameClockView { state: FrameClockState::ScheduledLater, next_update_time_us: target_us, ..v });
}

/// A running clock that is not inhibited and has no frame in flight goes
/// to the scheduled state when an update is asked for; a fresh clock
/// updates at once.
pub proof fn law_schedule_update_from_rest(v: FrameClockView)
    requires
        v.inhibit_count == 0,
        v.mode != FrameClockMode::Passive,
        v.state == FrameClockState::Init || v.state == FrameClockState::Idle || v.state
            == FrameClockState::ScheduledLater,
    ensures
        schedule_update_model(v).state == FrameClockState::Scheduled,
        v.state == FrameClockState::Init ==> schedule_update_model(v).next_update_time_us == 0,
        schedule_update_model(v).inhibit_count == v.inhibit_count,
        schedule_update_model(v).mode == v.mode,
{
}

} // verus!
