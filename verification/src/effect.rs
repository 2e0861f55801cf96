//! Effects: actor metas that modify how an actor is painted.
use vstd::prelude::*;

use crate::actor::ActorId;
use crate::actor_meta::ActorMeta;
use crate::enums::EffectPaintFlags;

verus! {

/// An effect: it can take over painting and picking of the actor it is
/// attached to and change the volume the actor paints into. `C` is the type
/// of paint contexts, `N` that of paint nodes. The paint volume is not
/// modelled here and stands as a unit value.
pub trait Effect<C, N>: Sized {
    /// Runs before the actor paints; `true` when the effect takes over the
    /// painting. By default it does not, and nothing changes.
    fn pre_paint(&mut self, meta: &mut ActorMeta, actor: ActorId, ctx: &C, flags: EffectPaintFlags) -> (took_over: bool)
        default_ensures
            !took_over,
            *final(self) == *old(self),
            *final(meta) == *old(meta),
    {
        false
    }

    /// Runs after the actor painted. By default nothing changes.
    fn post_paint(&mut self, meta: &mut ActorMeta, actor: ActorId, ctx: &C, flags: EffectPaintFlags)
        default_ensures
            *final(self) == *old(self),
            *final(meta) == *old(meta),
    {
    }

    /// Changes the paint volume; whether it did. By default it does not.
    fn modify_paint_volume(&mut self, meta: &mut ActorMeta, actor: ActorId, volume: &mut ()) -> (modified: bool)
        default_ensures
            !modified,
            *final(self) == *old(self),
            *final(meta) == *old(meta),
    {
        false
    }

    /// Reports the paint volume; whether it did. By default it does not.
    fn get_paint_volume(&mut self, meta: &mut ActorMeta, actor: ActorId, volume: &()) -> (reported: bool)
        default_ensures
            !reported,
            *final(self) == *old(self),
            *final(meta) == *old(meta),
    {
        false
    }

    /// Picks the actor; `true` when the effect takes over picking. By
    /// default it does not, and nothing changes.
    fn pick(&mut self, meta: &mut ActorMeta, actor: ActorId, node: &mut N, ctx: &C) -> (took_over: bool)
        default_ensures
            !took_over,
            *final(self) == *old(self),
            *final(meta) == *old(meta),
            *final(node) == *old(node),
    {
        false
    }
}

/// Runs the effect's pre-paint step; whether it took over painting.
pub fn run_pre_paint<E: Effect<C, N>, C, N>(effect: &mut E, meta: &mut ActorMeta, actor: ActorId, ctx: &C, flags: EffectPaintFlags) -> bool {
    effect.pre_paint(meta, actor, ctx, flags)
}

/// Runs the effect's post-paint step.
pub fn run_post_paint<E: Effect<C, N>, C, N>(effect: &mut E, meta: &mut ActorMeta, actor: ActorId, ctx: &C, flags: EffectPaintFlags) {
    effect.post_paint(meta, actor, ctx, flags)
}

/// Lets the effect change the paint volume; whether it did.
pub fn run_modify_paint_volume<E: Effect<C, N>, C, N>(effect: &mut E, meta: &mut ActorMeta, actor: ActorId, volume: &mut ()) -> bool {
    effect.modify_paint_volume(meta, actor, volume)
}

/// Asks the effect for the paint volume; whether it gave one.
pub fn run_get_paint_volume<E: Effect<C, N>, C, N>(effect: &mut E, meta: &mut ActorMeta, actor: ActorId, volume: &()) -> bool {
    effect.get_paint_volume(meta, actor, volume)
}

/// Runs the effect's pick step; whether it took over picking.
pub fn run_pick<E: Effect<C, N>, C, N>(effect: &mut E, meta: &mut ActorMeta, actor: ActorId, node: &mut N, ctx: &C) -> bool {
    effect.pick(meta, actor, node, ctx)
}

/// Whether a repaint of the effect's actor must be queued: the effect is
/// attached to an actor.
pub fn queue_repaint(meta: &ActorMeta) -> (repaint: bool)
    ensures
        repaint == meta.actor is Some,
{
    meta.actor.is_some()
}

/// Sets an effect's enabled switch. Returns whether the attached actor
/// needs a redraw: the switch changed and the effect is attached.
pub fn set_enabled(meta: &mut ActorMeta, enabled: bool) -> (redraw: bool)
    ensures
        redraw == (old(meta).enabled != enabled && old(meta).actor is Some),
        final(meta).enabled == enabled,
        final(meta).actor == old(meta).actor,
        final(meta).name == old(meta).name,
        final(meta).priority == old(meta).priority,
{
    let changed = meta.enabled != enabled;
    let attached = meta.actor.is_some();
    meta.enabled = enabled;
    changed && attached
}

} // verus!
