use mutter::event::{DeviceId, Event, EventFlags, KeyEvent, ModifierSet, ModifierType};
use mutter::focus::{
    current_actor, notify_grab, propagate_event, set_current_actor, update_from_event, Focus,
    CURRENT_TIME,
};
use mutter::key_focus::KeyFocus;

/// A minimal focus policy: the focus moves only to a different actor.
struct SimpleFocus {
    current: Option<u32>,
}

impl Focus<u32> for SimpleFocus {
    fn set_current_actor(
        &mut self,
        actor: Option<u32>,
        _source_device: Option<DeviceId>,
        _time_ms: u32,
    ) -> bool {
        if self.current == actor {
            return false;
        }
        self.current = actor;
        true
    }

    fn current_actor(&self) -> Option<u32> {
        self.current
    }
}

#[test]
fn focus_set_current_actor_returns_true_on_move() {
    let mut f = SimpleFocus { current: None };
    assert!(set_current_actor(&mut f, Some(1u32), None, CURRENT_TIME));
    assert_eq!(current_actor(&f), Some(1u32));
    assert!(!set_current_actor(&mut f, Some(1u32), None, CURRENT_TIME));
    assert!(set_current_actor(&mut f, Some(2u32), None, CURRENT_TIME));
    assert_eq!(current_actor(&f), Some(2u32));
    assert!(set_current_actor(&mut f, None, None, CURRENT_TIME));
    assert_eq!(current_actor(&f), None);
}

#[test]
fn notify_grab_default_is_noop() {
    let mut f = SimpleFocus { current: Some(3) };
    notify_grab(&mut f, Some(1u32), None);
    assert_eq!(current_actor(&f), Some(3));
}

#[test]
fn key_focus_through_focus_interface() {
    let mut kf = KeyFocus::<u32>::new();
    assert!(set_current_actor(&mut kf, Some(7u32), Some(DeviceId(1)), CURRENT_TIME));
    assert_eq!(current_actor(&kf), Some(7));
    notify_grab(&mut kf, Some(8u32), None);
    assert_eq!(current_actor(&kf), Some(7));
    assert_eq!(kf.effective_focused_actor, Some(7));
}

fn key_event() -> Event<()> {
    Event::Key(KeyEvent {
        time_us: 1000,
        flags: EventFlags::none(),
        source_device: Some(DeviceId(1)),
        raw_modifiers: ModifierSet::default(),
        modifier_state: ModifierType::none(),
        keyval: 65,
        hardware_keycode: 50,
        unicode_value: 0,
        evdev_code: 30,
    })
}

#[test]
fn propagate_event_default_is_noop() {
    let mut f = SimpleFocus { current: Some(4) };
    propagate_event(&mut f, &key_event());
    assert_eq!(current_actor(&f), Some(4));
}

#[test]
fn update_from_event_default_is_noop() {
    let mut f = SimpleFocus { current: None };
    update_from_event(&mut f, &key_event());
    assert_eq!(current_actor(&f), None);
}
