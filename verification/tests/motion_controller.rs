use mutter::action::handle_event;
use mutter::actor::ActorId;
use mutter::actor_meta::ActorMeta;
use mutter::event::{
    CrossingEvent, DeviceId, Event, EventFlags, KeyEvent, ModifierSet, ModifierType, MotionEvent,
};
use mutter::motion_controller::{
    motion_report, MotionController, MotionHandler, MotionReport, NullMotionHandler,
};

/// A handler that records the last report of each kind.
#[derive(Debug, Default)]
struct Recorder {
    last_enter: Option<(u32, f32, f32)>,
    last_motion: Option<(u32, f32, f32)>,
    last_leave: Option<u32>,
}

impl MotionHandler<(f32, f32)> for Recorder {
    fn on_enter(&mut self, sprite: u32, at: &(f32, f32)) {
        self.last_enter = Some((sprite, at.0, at.1));
    }

    fn on_motion(&mut self, sprite: u32, at: &(f32, f32)) {
        self.last_motion = Some((sprite, at.0, at.1));
    }

    fn on_leave(&mut self, sprite: u32) {
        self.last_leave = Some(sprite);
    }
}

fn crossing(x: f32, y: f32, related: Option<ActorId>) -> Event<(f32, f32)> {
    Event::Crossing(CrossingEvent {
        time_us: 0,
        flags: EventFlags::none(),
        source_device: Some(DeviceId(7)),
        measures: (x, y),
        sequence: None,
        source: None,
        related,
    })
}

fn enter_event(x: f32, y: f32) -> Event<(f32, f32)> {
    crossing(x, y, Some(ActorId::new(0, 0)))
}

fn leave_event(x: f32, y: f32) -> Event<(f32, f32)> {
    crossing(x, y, None)
}

fn motion_event(x: f32, y: f32) -> Event<(f32, f32)> {
    Event::Motion(MotionEvent {
        time_us: 0,
        flags: EventFlags::none(),
        source_device: Some(DeviceId(7)),
        measures: (x, y),
        modifier_state: ModifierType::none(),
        tool: None,
    })
}

fn attached_meta() -> ActorMeta {
    let mut meta = ActorMeta::new();
    meta.set_actor(Some(ActorId::new(1, 0)));
    meta
}

#[test]
fn enter_dispatches_on_enter() {
    let mut ctrl = MotionController::new(Recorder::default());
    let mut meta = attached_meta();
    let _ = handle_event(&mut ctrl, &mut meta, &enter_event(10.0, 20.0));
    assert_eq!(ctrl.handler().last_enter, Some((7, 10.0, 20.0)));
    assert!(ctrl.handler().last_motion.is_none());
    assert!(ctrl.handler().last_leave.is_none());
}

#[test]
fn motion_dispatches_on_motion() {
    let mut ctrl = MotionController::new(Recorder::default());
    let mut meta = attached_meta();
    let _ = handle_event(&mut ctrl, &mut meta, &motion_event(30.0, 40.0));
    assert_eq!(ctrl.handler().last_motion, Some((7, 30.0, 40.0)));
    assert!(ctrl.handler().last_enter.is_none());
}

#[test]
fn leave_dispatches_on_leave() {
    let mut ctrl = MotionController::new(Recorder::default());
    let mut meta = attached_meta();
    let _ = handle_event(&mut ctrl, &mut meta, &leave_event(0.0, 0.0));
    assert_eq!(ctrl.handler().last_leave, Some(7));
}

#[test]
fn always_propagates() {
    let mut ctrl = MotionController::new(Recorder::default());
    let mut meta = attached_meta();
    assert!(!handle_event(&mut ctrl, &mut meta, &enter_event(0.0, 0.0)));
    let key: Event<(f32, f32)> = Event::Key(KeyEvent {
        time_us: 0,
        flags: EventFlags::none(),
        source_device: Some(DeviceId(7)),
        raw_modifiers: ModifierSet::default(),
        modifier_state: ModifierType::none(),
        keyval: 0,
        hardware_keycode: 0,
        unicode_value: 0,
        evdev_code: 0,
    });
    assert!(!handle_event(&mut ctrl, &mut meta, &key));
}

#[test]
fn no_actor_set_still_propagates() {
    let mut ctrl = MotionController::new(Recorder::default());
    let mut meta = ActorMeta::new();
    assert!(!handle_event(&mut ctrl, &mut meta, &enter_event(0.0, 0.0)));
    assert!(ctrl.handler().last_enter.is_none());
}

#[test]
fn unknown_device_reports_sprite_zero() {
    let mut ctrl = MotionController::new(Recorder::default());
    let mut meta = attached_meta();
    let e = Event::Motion(MotionEvent {
        time_us: 0,
        flags: EventFlags::none(),
        source_device: None,
        measures: (1.0, 2.0),
        modifier_state: ModifierType::none(),
        tool: None,
    });
    let _ = handle_event(&mut ctrl, &mut meta, &e);
    assert_eq!(ctrl.handler().last_motion, Some((0, 1.0, 2.0)));
}

#[test]
fn null_handler_controller_propagates() {
    let mut ctrl = MotionController::new(NullMotionHandler);
    let mut meta = attached_meta();
    assert!(!handle_event(&mut ctrl, &mut meta, &motion_event(1.0, 1.0)));
}

#[test]
fn motion_report_names_the_kind_and_the_pointer() {
    assert_eq!(motion_report(&enter_event(1.0, 2.0)), MotionReport::Enter(7));
    assert_eq!(motion_report(&leave_event(1.0, 2.0)), MotionReport::Leave(7));
    assert_eq!(motion_report(&motion_event(1.0, 2.0)), MotionReport::Motion(7));
    let key: Event<(f32, f32)> = Event::Key(KeyEvent {
        time_us: 0,
        flags: EventFlags::none(),
        source_device: None,
        raw_modifiers: ModifierSet::default(),
        modifier_state: ModifierType::none(),
        keyval: 0,
        hardware_keycode: 0,
        unicode_value: 0,
        evdev_code: 0,
    });
    assert_eq!(motion_report(&key), MotionReport::Ignore);
}
