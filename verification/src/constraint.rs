//! Constraints: actor metas that adjust an actor's allocation.
use vstd::prelude::*;

use crate::actor_meta::ActorMeta;

verus! {

/// Sets a constraint's enabled switch. Returns whether the attached actor
/// needs a relayout: the switch changed and the constraint is attached.
pub fn set_enabled(meta: &mut ActorMeta, enabled: bool) -> (relayout: bool)
    ensures
        relayout == (old(meta).enabled != enabled && old(meta).actor is Some),
        final(meta).enabled == enabled,
        final(meta).actor == old(meta).actor,
        final(meta).name == old(meta).name,
        final(meta).priority == old(meta).priority,
{
    let changed = meta.enabled != enabled;
    let attached = meta.actor.is_some();
    meta.enabled = enabled;
    changed && attached
}

} // verus!
