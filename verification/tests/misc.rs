use mutter::action::ActionState;
use mutter::actor::{ActorAlign, ActorFlags, ActorId, RequestMode};
use mutter::backend::FeatureFlags;
use mutter::clone::Clone as CloneActor;
use mutter::color_state::{Colorspace, TransferFunction};
use mutter::easing::{easing_name_for_mode, AnimationMode};
use mutter::enums::{EffectPaintFlags, EventPhase};
use mutter::layout_manager::{LayoutManagerState, LayoutMeta};
use mutter::paint_context::PaintFlag;
use mutter::paint_nodes::PaintFlags;
use mutter::pick_context::PickMode;

#[test]
fn phase_round_trips() {
    let mut st = ActionState::new();
    assert_eq!(st.phase(), EventPhase::Capture);
    st.set_phase(EventPhase::Bubble);
    assert_eq!(st.phase(), EventPhase::Bubble);
}

#[test]
fn feature_flags_bitfield() {
    let flags = FeatureFlags::stage_cursor().union(FeatureFlags::shaders_glsl());
    assert!(flags.contains(FeatureFlags::stage_cursor()));
    assert!(flags.contains(FeatureFlags::shaders_glsl()));
    assert!(!flags.contains(FeatureFlags::texture_yuv()));
}

#[test]
fn paint_flags_bitfield() {
    let flags = PaintFlags::no_cursors().union(PaintFlags::clear());
    assert!(flags.contains(PaintFlags::no_cursors()));
    assert!(flags.contains(PaintFlags::clear()));
    assert!(!flags.contains(PaintFlags::force_cursors()));
}

#[test]
fn test_colorspace_variants_distinct() {
    assert_ne!(Colorspace::Srgb, Colorspace::Bt2020);
    assert_eq!(Colorspace::Srgb, Colorspace::Srgb);
}

#[test]
fn test_transfer_function_variants_distinct() {
    assert_ne!(TransferFunction::Pq, TransferFunction::Linear);
    assert_eq!(TransferFunction::Gamma22, TransferFunction::Gamma22);
}

#[test]
fn easing_name_for_mode_matches_table() {
    assert_eq!(easing_name_for_mode(AnimationMode::Linear), "linear");
    assert_eq!(easing_name_for_mode(AnimationMode::EaseInQuad), "easeInQuad");
    assert_eq!(easing_name_for_mode(AnimationMode::CustomMode), "custom");
    assert_eq!(easing_name_for_mode(AnimationMode::AnimationLast), "sentinel");
    assert_eq!(easing_name_for_mode(AnimationMode::Ease), "ease");
}

#[test]
fn animation_mode_values_match_c_numbering() {
    assert_eq!(AnimationMode::CustomMode as u32, 0);
    assert_eq!(AnimationMode::Linear as u32, 1);
    assert_eq!(AnimationMode::EaseInQuad as u32, 2);
    assert_eq!(AnimationMode::Steps as u32, 32);
    assert_eq!(AnimationMode::CubicBezier as u32, 35);
    assert_eq!(AnimationMode::AnimationLast as u32, 40);
}

#[test]
fn effect_flags_are_bitfield() {
    let f = EffectPaintFlags::actor_dirty();
    assert!(f.contains(EffectPaintFlags::actor_dirty()));
    assert!(!f.contains(EffectPaintFlags::bypass_effect()));
    let both = EffectPaintFlags(EffectPaintFlags::actor_dirty().0 | EffectPaintFlags::bypass_effect().0);
    assert!(both.contains(EffectPaintFlags::actor_dirty()));
    assert!(both.contains(EffectPaintFlags::bypass_effect()));
}

#[test]
fn mismatched_thaw_returns_false() {
    let mut state = LayoutManagerState::new();
    assert!(!state.thaw_layout_change());
}

#[test]
fn freeze_thaw_counts() {
    let mut state = LayoutManagerState::new();
    state.freeze_layout_change();
    state.freeze_layout_change();
    assert_eq!(state.freeze_level(), 2);
    assert!(state.thaw_layout_change());
    assert!(state.thaw_layout_change());
    assert_eq!(state.freeze_level(), 0);
    assert!(!state.thaw_layout_change());
    assert_eq!(state.freeze_level(), 0);
}

#[test]
fn paint_flag_union_and_contains() {
    let flags = PaintFlag::no_cursors().union(PaintFlag::clear());
    assert!(flags.contains(PaintFlag::no_cursors()));
    assert!(flags.contains(PaintFlag::clear()));
    assert!(!flags.contains(PaintFlag::force_cursors()));
}

#[test]
fn pick_mode_variants() {
    assert_eq!(PickMode::NoPicking, PickMode::NoPicking);
    assert_ne!(PickMode::Reactive, PickMode::All);
}

#[test]
fn getters_return_stored_ids() {
    let c = ActorId::new(0, 0);
    let a = ActorId::new(1, 0);
    let meta = LayoutMeta::new(c, a);
    assert_eq!(meta.get_container(), c);
    assert_eq!(meta.get_actor(), a);
}

#[test]
fn is_for_matches_both_ids() {
    let c = ActorId::new(0, 0);
    let a = ActorId::new(1, 0);
    let other_c = ActorId::new(2, 0);
    let other_a = ActorId::new(3, 0);
    let meta = LayoutMeta::new(c, a);
    assert!(meta.is_for(c, a));
    assert!(!meta.is_for(other_c, a));
    assert!(!meta.is_for(c, other_a));
    assert!(!meta.is_for(other_c, other_a));
}

#[test]
fn actor_value_types() {
    let id = ActorId::new(4, 2);
    assert_eq!(id.index(), 4);
    assert_eq!(id.generation(), 2);
    assert_ne!(id, ActorId::new(4, 3));
    let f = ActorFlags::default();
    assert!(f.visible && !f.mapped && !f.reactive);
    assert_eq!(ActorAlign::default(), ActorAlign::Start);
    assert_eq!(RequestMode::default(), RequestMode::WidthForHeight);
}

#[test]
fn clone_source_round_trips() {
    let a = ActorId::new(1, 0);
    let mut c = CloneActor::new(None);
    assert_eq!(c.source(), None);
    c.set_source(Some(a));
    assert_eq!(c.source(), Some(a));
}

#[test]
fn action_state_new_is_default() {
    assert_eq!(ActionState::new(), ActionState::default());
    assert_eq!(ActionState::default().phase(), EventPhase::Capture);
}
