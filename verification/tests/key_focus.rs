use mutter::event::{DeviceId, Event, EventFlags, KeyEvent, ModifierSet, ModifierType};
use mutter::focus::Focus;
use mutter::key_focus::KeyFocus;

#[test]
fn new_has_no_focus() {
    let kf = KeyFocus::<u32>::new();
    assert_eq!(kf.key_focused_actor, None);
    assert_eq!(kf.effective_focused_actor, None);
    assert_eq!(kf.current_actor(), None);
}

#[test]
fn key_focus_set_current_actor_returns_true_on_move() {
    let mut kf = KeyFocus::<u32>::new();
    assert!(kf.set_current_actor(Some(1), None, 0));
    assert_eq!(kf.current_actor(), Some(1));
    assert!(!kf.set_current_actor(Some(1), None, 0));
    assert!(kf.set_current_actor(Some(2), None, 0));
    assert_eq!(kf.current_actor(), Some(2));
    assert!(kf.set_current_actor(None, None, 0));
    assert_eq!(kf.current_actor(), None);
}

#[test]
fn effective_focus_matches_key_focus_when_no_grab() {
    let mut kf = KeyFocus::<u32>::new();
    kf.set_current_actor(Some(42), None, 0);
    assert_eq!(kf.effective_focused_actor, Some(42));
}

#[test]
fn clear_resets_both_actors() {
    let mut kf = KeyFocus::<u32>::new();
    kf.set_current_actor(Some(99), None, 0);
    kf.clear();
    assert_eq!(kf.key_focused_actor, None);
    assert_eq!(kf.effective_focused_actor, None);
}

#[test]
fn notify_grab_recognizes_focus_restriction() {
    let mut kf = KeyFocus::<u32>::new();
    kf.set_current_actor(Some(10), None, 0);
    // A grab on another actor takes key events away from the focus.
    assert_eq!(kf.notify_grab(Some(20), None), Some(false));
    // Clearing that grab gives them back.
    assert_eq!(kf.notify_grab(None, Some(20)), Some(true));
    // No grab before or after: nothing changes.
    assert_eq!(kf.notify_grab(None, None), None);
    assert_eq!(kf.current_actor(), Some(10));
}

#[test]
fn grab_on_focused_actor_keeps_events() {
    let mut kf = KeyFocus::<u32>::new();
    kf.set_current_actor(Some(10), None, 0);
    assert_eq!(kf.notify_grab(Some(10), None), None);
    assert_eq!(kf.notify_grab(Some(10), Some(30)), Some(true));
}

#[test]
fn propagate_event_is_noop() {
    let mut kf = KeyFocus::<u32>::new();
    let event: Event<()> = Event::Key(KeyEvent {
        time_us: 1000,
        flags: EventFlags::none(),
        source_device: Some(DeviceId(1)),
        raw_modifiers: ModifierSet::default(),
        modifier_state: ModifierType::none(),
        keyval: 65,
        hardware_keycode: 50,
        unicode_value: 0,
        evdev_code: 30,
    });
    kf.propagate_event(&event);
    assert_eq!(kf.key_focused_actor, None);
}
