//! The focus interface: a focus policy tracks the focused actor and is told
//! when a grab changes where key events may go.
use vstd::prelude::*;
use crate::event::{DeviceId, Event};

verus! {

/// The timestamp that stands for "now".
pub const CURRENT_TIME: u32 = 0;

/// A focus policy over actors known by ids of type `Id`.
pub trait Focus<Id>: Sized {
    /// Gives the focus to `actor` (or to nobody); returns whether the focus
    /// moved.
    fn set_current_actor(&mut self, actor: Option<Id>, source_device: Option<DeviceId>, time_ms: u32) -> bool;

    /// The focused actor, if any.
    fn current_actor(&self) -> Option<Id>;

    /// Hands `event` down the focus chain. By default nothing happens.
    fn propagate_event<M>(&mut self, event: &Event<M>)
        default_ensures
            *final(self) == *old(self),
    {
    }

    /// Updates the focus from `event` (a click focusing the clicked actor,
    /// say). By default nothing happens.
    fn update_from_event<M>(&mut self, event: &Event<M>)
        default_ensures
            *final(self) == *old(self),
    {
    }

    /// Told that the grab moved from `old_grab_actor` to `grab_actor`. By
    /// default nothing happens.
    fn notify_grab(&mut self, grab_actor: Option<Id>, old_grab_actor: Option<Id>)
        default_ensures
            *final(self) == *old(self),
    {
    }
}

/// Gives the focus of `focus` to `actor`; returns whether it moved.
pub fn set_current_actor<F: Focus<Id>, Id>(
    focus: &mut F,
    actor: Option<Id>,
    source_device: Option<DeviceId>,
    time_ms: u32,
) -> bool {
    focus.set_current_actor(actor, source_device, time_ms)
}

/// The actor focused by `focus`.
pub fn current_actor<F: Focus<Id>, Id>(focus: &F) -> Option<Id> {
    focus.current_actor()
}

/// Hands `event` to the focus chain of `focus`.
pub fn propagate_event<F: Focus<Id>, Id, M>(focus: &mut F, event: &Event<M>) {
    focus.propagate_event(event)
}

/// Lets `focus` update itself from `event`.
pub fn update_from_event<F: Focus<Id>, Id, M>(focus: &mut F, event: &Event<M>) {
    focus.update_from_event(event)
}

/// Tells `focus` that the grab moved from `old_grab_actor` to `grab_actor`.
pub fn notify_grab<F: Focus<Id>, Id>(focus: &mut F, grab_actor: Option<Id>, old_grab_actor: Option<Id>) {
    focus.notify_grab(grab_actor, old_grab_actor)
}

} // verus!
