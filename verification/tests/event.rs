use mutter::actor::ActorId;
use mutter::event::{
    ButtonEvent, CrossingEvent, DeviceEvent, DeviceId, Event, EventFlags, EventSequence, EventType,
    ImEvent, KeyEvent, ModifierSet, ModifierType, PadDialEvent, PreeditResetMode, ProximityEvent,
    ScrollDirection, ScrollEvent, ScrollFinishFlags, ScrollFlags, ScrollSource, TouchEvent,
    TouchpadGesturePhase, TouchpadPinchEvent,
};

#[derive(Debug, Clone, Copy, PartialEq)]
struct Pinch {
    x: f32,
    y: f32,
    dx: f32,
    dy: f32,
    dx_unaccel: f32,
    dy_unaccel: f32,
    angle_delta: f32,
    scale: f32,
}

fn key_event() -> Event<(f32, f32)> {
    Event::Key(KeyEvent {
        time_us: 1000,
        flags: EventFlags::none(),
        source_device: Some(DeviceId(1)),
        raw_modifiers: ModifierSet::default(),
        modifier_state: ModifierType::shift_mask(),
        keyval: 65,
        hardware_keycode: 50,
        unicode_value: b'A' as u32,
        evdev_code: 30,
    })
}

fn button_event(x: f32, y: f32) -> Event<(f32, f32)> {
    Event::Button(ButtonEvent {
        time_us: 2000,
        flags: EventFlags::none(),
        source_device: Some(DeviceId(2)),
        measures: (x, y),
        modifier_state: ModifierType::control_mask(),
        button: 1,
        tool: None,
        evdev_code: 0x110,
    })
}

#[test]
fn type_discriminator_matches_variant() {
    assert_eq!(key_event().type_(), EventType::KeyPress);
    assert_eq!(button_event(0.0, 0.0).type_(), EventType::ButtonPress);
    let mut e = button_event(0.0, 0.0);
    if let Event::Button(b) = &mut e {
        b.button = 0;
    }
    assert_eq!(e.type_(), EventType::ButtonRelease);
}

#[test]
fn common_accessors_dispatch() {
    let e = key_event();
    assert_eq!(e.time_us(), 1000);
    assert_eq!(e.source_device(), Some(DeviceId(1)));
    assert_eq!(e.flags(), EventFlags::none());
    assert_eq!(e.modifier_state(), ModifierType::shift_mask());
    assert!(e.measures().is_none());
}

#[test]
fn key_accessors() {
    let e = key_event();
    assert_eq!(e.key_symbol(), Some(65));
    assert_eq!(e.key_code(), Some(50));
    assert_eq!(e.key_unicode(), Some(b'A' as u32));
}

#[test]
fn button_coords_and_modifier() {
    let e = button_event(10.0, 20.0);
    assert_eq!(e.measures(), Some(&(10.0, 20.0)));
    assert_eq!(e.button(), Some(1));
    assert!(e.has_control_modifier());
    assert!(!e.has_shift_modifier());
}

#[test]
fn scroll_delta_and_direction() {
    let e: Event<(f32, f32, f64, f64)> = Event::Scroll(ScrollEvent {
        time_us: 0,
        flags: EventFlags::none(),
        source_device: None,
        measures: (0.0, 0.0, 1.5, -2.0),
        direction: ScrollDirection::Smooth,
        modifier_state: ModifierType::none(),
        tool: None,
        scroll_flags: ScrollFlags::none(),
        scroll_source: ScrollSource::Finger,
        finish_flags: ScrollFinishFlags::none(),
    });
    assert_eq!(e.scroll_direction(), Some(ScrollDirection::Smooth));
    let m = e.measures().unwrap();
    assert_eq!((m.2, m.3), (1.5, -2.0));
    assert_eq!(e.scroll_source(), Some(ScrollSource::Finger));
}

#[test]
fn touchpad_gesture_accessors() {
    let e = Event::TouchpadPinch(TouchpadPinchEvent {
        time_us: 0,
        flags: EventFlags::none(),
        source_device: None,
        phase: TouchpadGesturePhase::Update,
        measures: Pinch {
            x: 5.0,
            y: 5.0,
            dx: 1.0,
            dy: 2.0,
            dx_unaccel: 0.5,
            dy_unaccel: 1.0,
            angle_delta: 0.1,
            scale: 1.5,
        },
        n_fingers: 2,
    });
    assert_eq!(e.gesture_finger_count(), Some(2));
    assert_eq!(e.gesture_phase(), Some(TouchpadGesturePhase::Update));
    let m = e.measures().unwrap();
    assert_eq!(m.angle_delta, 0.1);
    assert_eq!(m.scale, 1.5);
    assert_eq!((m.dx as f64, m.dy as f64), (1.0, 2.0));
    assert_eq!((m.dx_unaccel as f64, m.dy_unaccel as f64), (0.5, 1.0));
}

#[test]
fn event_sequence_round_trips() {
    let seq = EventSequence(42);
    let e = Event::Touch(TouchEvent {
        time_us: 0,
        flags: EventFlags::none(),
        source_device: None,
        measures: (0.0f32, 0.0f32),
        sequence: Some(seq),
        modifier_state: ModifierType::none(),
    });
    assert_eq!(e.event_sequence(), Some(seq));
}

#[test]
fn is_pointer_emulated_reads_flag() {
    let mut e = button_event(0.0, 0.0);
    if let Event::Button(b) = &mut e {
        b.flags = EventFlags::pointer_emulated();
    }
    assert!(e.is_pointer_emulated());
}

#[test]
fn im_event_text_round_trips() {
    let e: Event<()> = Event::Im(ImEvent {
        time_us: 0,
        flags: EventFlags::input_method(),
        source_device: None,
        text: String::from("hello"),
        offset: 0,
        anchor: 5,
        len: 5,
        mode: PreeditResetMode::Commit,
    });
    assert_eq!(e.type_(), EventType::ImCommit);
    assert!(e.flags().contains(EventFlags::input_method()));
}

#[test]
fn im_event_preedit_mode_is_preedit() {
    let e: Event<()> = Event::Im(ImEvent {
        time_us: 0,
        flags: EventFlags::input_method(),
        source_device: None,
        text: String::from("he"),
        offset: 0,
        anchor: 2,
        len: 2,
        mode: PreeditResetMode::ClearClient,
    });
    assert_eq!(e.type_(), EventType::ImPreedit);
}

#[test]
fn crossing_enter_leave_and_actors() {
    let a = ActorId::new(3, 1);
    let b = ActorId::new(4, 0);
    let enter: Event<(f32, f32)> = Event::Crossing(CrossingEvent {
        time_us: 7,
        flags: EventFlags::none(),
        source_device: None,
        measures: (1.0, 1.0),
        sequence: Some(EventSequence(9)),
        source: Some(a),
        related: Some(b),
    });
    assert_eq!(enter.type_(), EventType::Enter);
    assert_eq!(enter.source(), Some(a));
    assert_eq!(enter.related(), Some(b));
    assert_eq!(enter.event_sequence(), Some(EventSequence(9)));
    assert_eq!(enter.modifier_state(), ModifierType::none());
    let leave: Event<(f32, f32)> = Event::Crossing(CrossingEvent {
        time_us: 8,
        flags: EventFlags::none(),
        source_device: None,
        measures: (1.0, 1.0),
        sequence: None,
        source: Some(a),
        related: None,
    });
    assert_eq!(leave.type_(), EventType::Leave);
}

#[test]
fn proximity_device_and_pad_types() {
    let tool = mutter::event::DeviceToolId(5);
    let pin: Event<()> = Event::Proximity(ProximityEvent {
        time_us: 0,
        flags: EventFlags::none(),
        source_device: None,
        tool: Some(tool),
    });
    assert_eq!(pin.type_(), EventType::ProximityIn);
    assert_eq!(pin.device_tool(), Some(tool));
    let added: Event<()> = Event::Device(DeviceEvent {
        time_us: 0,
        flags: EventFlags::none(),
        source_device: Some(DeviceId(3)),
    });
    assert_eq!(added.type_(), EventType::DeviceAdded);
    let removed: Event<()> = Event::Device(DeviceEvent {
        time_us: 0,
        flags: EventFlags::none(),
        source_device: None,
    });
    assert_eq!(removed.type_(), EventType::DeviceRemoved);
    let dial: Event<f64> = Event::PadDial(PadDialEvent {
        time_us: 0,
        flags: EventFlags::none(),
        source_device: None,
        dial_number: 1,
        group: 2,
        measures: 120.0,
        mode: 3,
    });
    assert_eq!(dial.type_(), EventType::PadDial);
    assert_eq!(dial.pad_group(), Some(2));
    assert_eq!(dial.pad_mode(), Some(3));
    assert_eq!(dial.measures(), Some(&120.0));
    assert_eq!(dial.button(), None);
}
