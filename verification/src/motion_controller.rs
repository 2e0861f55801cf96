//! The motion controller: an action that tells a handler when a pointer
//! enters an actor, moves over it, or leaves it.
use vstd::prelude::*;

use crate::action::Action;
use crate::actor_meta::ActorMeta;
use crate::event::{Event, EventType};

verus! {

/// What a motion controller reports. `M` is the type of the measurements
/// that events carry, the pointer position among them; `sprite` names the
/// pointer.
pub trait MotionHandler<M>: Sized {
    /// A pointer entered the actor at `at`. By default nothing happens.
    fn on_enter(&mut self, sprite: u32, at: &M)
        default_ensures
            *final(self) == *old(self),
    {
    }

    /// A pointer moved over the actor to `at`. By default nothing happens.
    fn on_motion(&mut self, sprite: u32, at: &M)
        default_ensures
            *final(self) == *old(self),
    {
    }

    /// A pointer left the actor. By default nothing happens.
    fn on_leave(&mut self, sprite: u32)
        default_ensures
            *final(self) == *old(self),
    {
    }
}

/// A motion handler that does nothing.
#[derive(Debug, Default)]
pub struct NullMotionHandler;

impl<M> MotionHandler<M> for NullMotionHandler {
}

/// What a motion controller reports for an event, with the pointer it
/// names.
#[derive(Debug, Clone, Copy, PartialEq, Eq, Structural)]
pub enum MotionReport {
    Enter(u32),
    Motion(u32),
    Leave(u32),
    Ignore,
}

/// The report for `event`: an enter, a pointer or touch motion, or a leave,
/// naming the pointer by its device's number (0 when the device is
/// unknown); any other event is ignored.
pub open spec fn spec_motion_report<M>(event: Event<M>) -> MotionReport {
    let sprite: u32 = match event.header().source_device {
        Some(d) => d.0,
        None => 0,
    };
    let t = event.event_type();
    if t == EventType::Enter {
        MotionReport::Enter(sprite)
    } else if t == EventType::Motion || t == EventType::TouchUpdate {
        MotionReport::Motion(sprite)
    } else if t == EventType::Leave {
        MotionReport::Leave(sprite)
    } else {
        MotionReport::Ignore
    }
}

/// The report a motion controller makes for `event`.
pub fn motion_report<M>(event: &Event<M>) -> (r: MotionReport)
    ensures
        r == spec_motion_report(*event),
{
    let sprite: u32 = match event.source_device() {
        Some(d) => d.0,
        None => 0,
    };
    match event.type_() {
        EventType::Enter => MotionReport::Enter(sprite),
        EventType::Motion | EventType::TouchUpdate => MotionReport::Motion(sprite),
        EventType::Leave => MotionReport::Leave(sprite),
        _ => MotionReport::Ignore,
    }
}

/// An action that reports enter, motion and leave events to a handler.
pub struct MotionController<H> {
    handler: H,
}

impl<H> MotionController<H> {
    /// The handler.
    pub closed spec fn spec_handler(&self) -> H {
        self.handler
    }

    /// A controller that reports to `handler`.
    pub fn new(handler: H) -> (c: Self)
        ensures
            c.spec_handler() == handler,
    {
        MotionController { handler }
    }

    /// The handler.
    pub fn handler(&self) -> (r: &H)
        ensures
            *r == self.spec_handler(),
    {
        &self.handler
    }

    /// The handler, to change it.
    pub fn handler_mut(&mut self) -> (r: &mut H)
        ensures
            *r == old(self).spec_handler(),
            final(self).spec_handler() == *final(r),
    {
        &mut self.handler
    }
}

impl<M, H: MotionHandler<M>> Action<M> for MotionController<H> {
    /// Reports an enter, a motion (of a pointer or a touch) or a leave to the
    /// handler, with the pointer the event comes from; other events change
    /// nothing. Every event propagates.
    fn handle_event(&mut self, meta: &mut ActorMeta, event: &Event<M>) -> (stop: bool)
        ensures
            !stop,
            *final(meta) == *old(meta),
            spec_motion_report(*event) is Ignore ==> *final(self) == *old(self),
    {
        match motion_report(event) {
            MotionReport::Enter(sprite) => {
                if let Some(at) = event.measures() {
                    self.handler.on_enter(sprite, at);
                }
            },
            MotionReport::Motion(sprite) => {
                if let Some(at) = event.measures() {
                    self.handler.on_motion(sprite, at);
                }
            },
            MotionReport::Leave(sprite) => {
                self.handler.on_leave(sprite);
            },
            MotionReport::Ignore => {},
        }
        false
    }
}

/// A touch point moving is reported as motion, just as a pointer moving
/// is, naming the source device's number (0 when it is unknown); only
/// motion and touch updates are reported as motion.
pub proof fn law_touch_update_is_motion<M>(event: Event<M>)
    ensures
        event.event_type() == EventType::TouchUpdate || event.event_type() == EventType::Motion
            ==> spec_motion_report(event) == MotionReport::Motion(
            match event.header().source_device {
                Some(d) => d.0,
                None => 0u32,
            },
        ),
        spec_motion_report(event) is Motion ==> (event.event_type() == EventType::TouchUpdate
            || event.event_type() == EventType::Motion),
        event is Touch ==> spec_motion_report(event) is Motion,
{
}

/// Crossing into an actor is reported as an enter and crossing out as a
/// leave, naming the device; events that are neither crossings, motion nor
/// touch updates are ignored.
pub proof fn law_motion_report_kinds<M>(event: Event<M>)
    ensures
        event.event_type() == EventType::Enter ==> spec_motion_report(event) == MotionReport::Enter(
            match event.header().source_device {
                Some(d) => d.0,
                None => 0u32,
            },
        ),
        event.event_type() == EventType::Leave ==> spec_motion_report(event) == MotionReport::Leave(
            match event.header().source_device {
                Some(d) => d.0,
                None => 0u32,
            },
        ),
        event.event_type() != EventType::Enter && event.event_type() != EventType::Leave
            && event.event_type() != EventType::Motion && event.event_type() != EventType::TouchUpdate
            ==> spec_motion_report(event) is Ignore,
{
}

} // verus!
