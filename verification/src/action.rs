//! Actions: event handlers attached to an actor through an actor meta, and
//! the event phase each one runs in.
use vstd::prelude::*;

use crate::actor_meta::ActorMeta;
use crate::enums::EventPhase;
use crate::event::Event;

verus! {

/// An event handler attached to an actor. `M` is the type of the
/// continuous measurements the events carry.
pub trait Action<M>: Sized {
    /// Handles `event`; `true` stops its propagation. By default the event
    /// propagates and nothing changes.
    fn handle_event(&mut self, meta: &mut ActorMeta, event: &Event<M>) -> (stop: bool)
        default_ensures
            !stop,
            *final(self) == *old(self),
            *final(meta) == *old(meta),
    {
        false
    }

    /// Told that the touch sequence of `sprite` was cancelled. By default
    /// nothing happens.
    fn sequence_cancelled(&mut self, sprite: u32)
        default_ensures
            *final(self) == *old(self),
    {
    }

    /// Registers the sequence that `event` starts; `true` on success, which
    /// is the default.
    fn register_sequence(&mut self, event: &Event<M>) -> (ok: bool)
        default_ensures
            ok,
            *final(self) == *old(self),
    {
        true
    }

    /// Relates this action to the action `other` for the sequence of
    /// `sprite`; a status, 0 by default.
    fn setup_sequence_relationship<B>(&mut self, other: &mut B, sprite: u32) -> (status: i32)
        default_ensures
            status == 0,
            *final(self) == *old(self),
            *final(other) == *old(other),
    {
        0
    }
}

/// Hands `event` to `action` when the meta is attached to an actor; an
/// unattached meta lets every event propagate and nothing changes.
pub fn handle_event<A: Action<M>, M>(action: &mut A, meta: &mut ActorMeta, event: &Event<M>) -> (stop: bool)
    ensures
        old(meta).actor is None ==> !stop && *final(action) == *old(action) && *final(meta) == *old(meta),
{
    if meta.actor.is_none() {
        return false;
    }
    action.handle_event(meta, event)
}

/// Tells `action` that the touch sequence of `sprite` was cancelled.
pub fn sequence_cancelled<A: Action<M>, M>(action: &mut A, sprite: u32) {
    action.sequence_cancelled(sprite)
}

/// Lets `action` register the sequence that `event` starts.
pub fn register_sequence<A: Action<M>, M>(action: &mut A, event: &Event<M>) -> bool {
    action.register_sequence(event)
}

/// Relates `action_1` to `action_2` for the sequence of `sprite`.
pub fn setup_sequence_relationship<A: Action<M>, B: Action<M>, M>(action_1: &mut A, action_2: &mut B, sprite: u32) -> i32 {
    action_1.setup_sequence_relationship(action_2, sprite)
}

/// The phase in which an action sees events.
#[derive(Debug, Clone, Copy, PartialEq, Eq, Structural, Hash)]
pub struct ActionState {
    pub phase: EventPhase,
}

impl Default for ActionState {
    /// An action that runs in the capture phase.
    fn default() -> (s: Self)
        ensures
            s.phase == EventPhase::Capture,
    {
        ActionState { phase: EventPhase::Capture }
    }
}

impl ActionState {
    /// An action that runs in the capture phase.
    pub fn new() -> (s: Self)
        ensures
            s.phase == EventPhase::Capture,
    {
        ActionState { phase: EventPhase::Capture }
    }

    /// Sets the phase.
    pub fn set_phase(&mut self, phase: EventPhase)
        ensures
            final(self).phase == phase,
    {
        self.phase = phase;
    }

    /// The phase.
    pub fn phase(&self) -> (r: EventPhase)
        ensures
            r == self.phase,
    {
        self.phase
    }
}

} // verus!
