use mutter::actor::ActorId;
use mutter::actor_meta::ActorMeta;
use mutter::effect::{
    run_get_paint_volume, run_modify_paint_volume, run_pick, run_post_paint, run_pre_paint, Effect,
};
use mutter::enums::EffectPaintFlags;

/// An effect that takes over painting.
struct TakeOver;

impl Effect<(), ()> for TakeOver {
    fn pre_paint(&mut self, _meta: &mut ActorMeta, _actor: ActorId, _ctx: &(), _flags: EffectPaintFlags) -> bool {
        true
    }
}

/// An effect that keeps every default.
struct Noop;

impl Effect<(), ()> for Noop {}

#[test]
fn default_pre_paint_returns_false() {
    let mut e = Noop;
    let mut meta = ActorMeta::new();
    let id = ActorId::new(0, 0);
    assert!(!run_pre_paint(&mut e, &mut meta, id, &(), EffectPaintFlags::none()));
}

#[test]
fn takeover_pre_paint_returns_true() {
    let mut e = TakeOver;
    let mut meta = ActorMeta::new();
    let id = ActorId::new(0, 0);
    assert!(run_pre_paint(&mut e, &mut meta, id, &(), EffectPaintFlags::none()));
}

#[test]
fn default_effect_steps_do_nothing() {
    let mut e = Noop;
    let mut meta = ActorMeta::new();
    let id = ActorId::new(2, 0);
    run_post_paint(&mut e, &mut meta, id, &(), EffectPaintFlags::none());
    assert!(!run_modify_paint_volume(&mut e, &mut meta, id, &mut ()));
    assert!(!run_get_paint_volume(&mut e, &mut meta, id, &()));
    assert!(!run_pick(&mut e, &mut meta, id, &mut (), &()));
    assert!(meta.enabled);
}
