use mutter::action::{handle_event, register_sequence, setup_sequence_relationship, Action};
use mutter::actor::ActorId;
use mutter::actor_meta::ActorMeta;
use mutter::event::{ButtonEvent, DeviceId, Event, EventFlags, ModifierType};

/// An action that consumes button presses.
struct ConsumePress;

impl Action<(f32, f32)> for ConsumePress {
    fn handle_event(&mut self, _meta: &mut ActorMeta, event: &Event<(f32, f32)>) -> bool {
        matches!(event, Event::Button(b) if b.button != 0)
    }
}

/// An action that keeps every default.
struct Noop;

impl Action<(f32, f32)> for Noop {}

fn press_event() -> Event<(f32, f32)> {
    Event::Button(ButtonEvent {
        time_us: 0,
        flags: EventFlags::none(),
        source_device: Some(DeviceId(0)),
        measures: (0.0, 0.0),
        modifier_state: ModifierType::none(),
        button: 1,
        tool: None,
        evdev_code: 0,
    })
}

#[test]
fn default_handle_event_propagates() {
    let mut a = Noop;
    let mut meta = ActorMeta::new();
    meta.set_actor(Some(ActorId::new(0, 0)));
    assert!(!handle_event(&mut a, &mut meta, &press_event()));
}

#[test]
fn handle_event_guarded_by_actor_set() {
    let mut a = ConsumePress;
    let mut meta = ActorMeta::new();
    assert!(!handle_event(&mut a, &mut meta, &press_event()));
    meta.set_actor(Some(ActorId::new(0, 0)));
    assert!(handle_event(&mut a, &mut meta, &press_event()));
}

#[test]
fn register_sequence_defaults_true() {
    let mut a = Noop;
    assert!(register_sequence(&mut a, &press_event()));
}

#[test]
fn setup_sequence_relationship_defaults_zero() {
    let mut a = Noop;
    let mut b = Noop;
    assert_eq!(setup_sequence_relationship(&mut a, &mut b, 0), 0);
}
