//! Keyboard focus: the actor that has the key focus and the actor that
//! actually receives key events.
use vstd::prelude::*;

verus! {

/// The keyboard focus state. Actors are known by `u32` ids.
#[derive(Debug, Clone, Default)]
pub struct KeyFocus<Id = u32> {
    pub key_focused_actor: Option<Id>,
    pub effective_focused_actor: Option<Id>,
}

/// Whether an actor stands inside a grab: there is no grab, or the grab is
/// on that actor.
pub open spec fn in_grab(grab_actor: Option<u32>, actor: Option<u32>) -> bool {
    grab_actor is None || grab_actor == actor
}

impl KeyFocus<u32> {
    /// No actor focused.
    pub fn new() -> (f: Self)
        ensures
            f.key_focused_actor is None,
            f.effective_focused_actor is None,
    {
        KeyFocus { key_focused_actor: None, effective_focused_actor: None }
    }

    /// Removes the focus.
    pub fn clear(&mut self)
        ensures
            final(self).key_focused_actor is None,
            final(self).effective_focused_actor is None,
    {
        self.key_focused_actor = None;
        self.effective_focused_actor = None;
    }

    /// Gives the focus to `actor` (or to nobody). Returns whether the focus
    /// moved; both the key focus and the effective focus become `actor`.
    pub fn set_current_actor(
        &mut self,
        actor: Option<u32>,
        _source_device: Option<crate::event::DeviceId>,
        _time_ms: u32,
    ) -> (moved: bool)
        ensures
            moved == !(old(self).key_focused_actor == actor && old(self).effective_focused_actor
                == actor),
            final(self).key_focused_actor == actor,
            final(self).effective_focused_actor == actor,
    {
        if self.key_focused_actor == actor && self.effective_focused_actor == actor {
            return false;
        }
        self.key_focused_actor = actor;
        self.effective_focused_actor = actor;
        true
    }

    /// The actor that has the key focus.
    pub fn current_actor(&self) -> (r: Option<u32>)
        ensures
            r == self.key_focused_actor,
    {
        self.key_focused_actor
    }

    /// Reacts to a change of grab from `old_grab_actor` to `grab_actor`.
    /// Returns `Some(true)` when the effective focus regains key events (it
    /// is inside the new grab and was not inside the old one), `Some(false)`
    /// when it loses them (the reverse), and `None` when nothing changes.
    /// The focus state itself is kept.
    pub fn notify_grab(&mut self, grab_actor: Option<u32>, old_grab_actor: Option<u32>) -> (change: Option<bool>)
        ensures
            *final(self) == *old(self),
            change == if in_grab(grab_actor, old(self).effective_focused_actor) && !in_grab(
                old_grab_actor,
                old(self).effective_focused_actor,
            ) {
                Some(true)
            } else if !in_grab(grab_actor, old(self).effective_focused_actor) && in_grab(
                old_grab_actor,
                old(self).effective_focused_actor,
            ) {
                Some(false)
            } else {
                None
            },
    {
        let focus_actor = self.effective_focused_actor;
        let focus_in_grab = grab_actor.is_none() || grab_actor == focus_actor;
        let focus_in_old_grab = old_grab_actor.is_none() || old_grab_actor == focus_actor;
        if focus_in_grab && !focus_in_old_grab {
            Some(true)
        } else if !focus_in_grab && focus_in_old_grab {
            Some(false)
        } else {
            None
        }
    }
}

impl crate::focus::Focus<u32> for KeyFocus<u32> {
    fn set_current_actor(
        &mut self,
        actor: Option<u32>,
        source_device: Option<crate::event::DeviceId>,
        time_ms: u32,
    ) -> (moved: bool)
        ensures
            moved == !(old(self).key_focused_actor == actor && old(self).effective_focused_actor
                == actor),
            final(self).key_focused_actor == actor,
            final(self).effective_focused_actor == actor,
    {
        KeyFocus::<u32>::set_current_actor(self, actor, source_device, time_ms)
    }

    fn current_actor(&self) -> (r: Option<u32>)
        ensures
            r == self.key_focused_actor,
    {
        self.key_focused_actor
    }

    /// Key events are not handed down a chain here: nothing changes.
    fn propagate_event<M>(&mut self, event: &crate::event::Event<M>)
        ensures
            *final(self) == *old(self),
    {
    }

    fn notify_grab(&mut self, grab_actor: Option<u32>, old_grab_actor: Option<u32>)
        ensures
            *final(self) == *old(self),
    {
        let _ = KeyFocus::<u32>::notify_grab(self, grab_actor, old_grab_actor);
    }
}

} // verus!
