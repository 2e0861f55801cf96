//! The state shared by actions, constraints and effects attached to an
//! actor: the actor, a name, the enabled switch and a priority.
use vstd::prelude::*;

use crate::actor::ActorId;

verus! {

/// Default priority of an actor meta.
pub const PRIORITY_DEFAULT: i32 = 0;

/// Metas of this priority run before those of the default priority.
pub const PRIORITY_HIGH: i32 = 1;

/// Metas of this priority run after those of the default priority.
pub const PRIORITY_LOW: i32 = -1;

/// An actor meta: the actor it is attached to (if any), its name, whether
/// it is enabled, and its priority among metas of one actor.
#[derive(Debug, Clone)]
pub struct ActorMeta {
    pub actor: Option<ActorId>,
    pub name: Option<String>,
    pub enabled: bool,
    pub priority: i32,
}

impl Default for ActorMeta {
    /// Detached, unnamed, enabled, of default priority.
    fn default() -> (m: Self)
        ensures
            m.actor is None,
            m.name is None,
            m.enabled,
            m.priority == PRIORITY_DEFAULT,
    {
        ActorMeta { actor: None, name: None, enabled: true, priority: PRIORITY_DEFAULT }
    }
}

impl ActorMeta {
    /// Detached, unnamed, enabled, of default priority.
    pub fn new() -> (m: Self)
        ensures
            m.actor is None,
            m.name is None,
            m.enabled,
            m.priority == PRIORITY_DEFAULT,
    {
        ActorMeta { actor: None, name: None, enabled: true, priority: PRIORITY_DEFAULT }
    }

    /// Names the meta `name`.
    pub fn set_name(&mut self, name: &str)
        ensures
            final(self).name matches Some(n) && n@ == name@,
            final(self).actor == old(self).actor,
            final(self).enabled == old(self).enabled,
            final(self).priority == old(self).priority,
    {
        self.name = Some(String::from_str(name));
    }

    /// The meta's name, if it has one.
    pub fn name(&self) -> (r: Option<&str>)
        ensures
            self.name is None ==> r is None,
            self.name matches Some(n) ==> r is Some && r.unwrap()@ == n@,
    {
        match &self.name {
            Some(n) => Some(n.as_str()),
            None => None,
        }
    }

    /// Switches the meta on or off.
    pub fn set_enabled(&mut self, enabled: bool)
        ensures
            final(self).enabled == enabled,
            final(self).actor == old(self).actor,
            final(self).name == old(self).name,
            final(self).priority == old(self).priority,
    {
        self.enabled = enabled;
    }

    /// Whether the meta is enabled.
    pub fn enabled(&self) -> (r: bool)
        ensures
            r == self.enabled,
    {
        self.enabled
    }

    /// The actor the meta is attached to, if any.
    pub fn actor(&self) -> (r: Option<ActorId>)
        ensures
            r == self.actor,
    {
        self.actor
    }

    /// Attaches the meta to `actor`, or detaches it with `None`.
    pub fn set_actor(&mut self, actor: Option<ActorId>)
        ensures
            final(self).actor == actor,
            final(self).name == old(self).name,
            final(self).enabled == old(self).enabled,
            final(self).priority == old(self).priority,
    {
        if self.actor == actor {
            return;
        }
        self.actor = actor;
    }
}

} // verus!
