use mutter::actor::ActorId;
use mutter::actor_meta::{ActorMeta, PRIORITY_DEFAULT};
use mutter::{constraint, effect};

#[test]
fn actor_meta_defaults_match_c_init() {
    let m = ActorMeta::new();
    assert!(m.enabled());
    assert_eq!(m.priority, PRIORITY_DEFAULT);
    assert_eq!(m.actor(), None);
    assert_eq!(m.name(), None);
}

#[test]
fn set_name_round_trips() {
    let mut m = ActorMeta::new();
    m.set_name("green-x");
    assert_eq!(m.name(), Some("green-x"));
}

#[test]
fn set_actor_noop_on_same() {
    let id = ActorId::new(0, 1);
    let mut m = ActorMeta::new();
    m.set_actor(Some(id));
    m.set_actor(Some(id));
    assert_eq!(m.actor(), Some(id));
    m.set_actor(None);
    assert_eq!(m.actor(), None);
}

#[test]
fn set_enabled_returns_relayout_signal() {
    let id = ActorId::new(0, 0);
    let mut meta = ActorMeta::new();
    assert!(!constraint::set_enabled(&mut meta, false));
    meta.set_actor(Some(id));
    assert!(constraint::set_enabled(&mut meta, true));
    assert!(!constraint::set_enabled(&mut meta, true));
}

#[test]
fn queue_repaint_signals_only_when_attached() {
    let mut meta = ActorMeta::new();
    assert!(!effect::queue_repaint(&meta));
    let id = ActorId::new(0, 0);
    meta.set_actor(Some(id));
    assert!(effect::queue_repaint(&meta));
}

#[test]
fn set_enabled_returns_redraw_signal() {
    let id = ActorId::new(0, 0);
    let mut meta = ActorMeta::new();
    assert!(!effect::set_enabled(&mut meta, false));
    meta.set_actor(Some(id));
    assert!(effect::set_enabled(&mut meta, true));
    assert!(!effect::set_enabled(&mut meta, true));
}

#[test]
fn set_enabled_keeps_actor_name_priority() {
    let mut meta = ActorMeta::new();
    meta.set_name("blur");
    meta.set_actor(Some(ActorId::new(2, 5)));
    assert!(effect::set_enabled(&mut meta, false));
    assert_eq!(meta.name(), Some("blur"));
    assert_eq!(meta.actor(), Some(ActorId::new(2, 5)));
    assert_eq!(meta.priority, PRIORITY_DEFAULT);
}
