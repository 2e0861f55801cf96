//! Event types, event flags and the plain event payloads.
use vstd::prelude::*;
use crate::actor::ActorId;

verus! {

/// The type of an event. `EventLast` counts the types.
#[derive(Debug, Clone, Copy, PartialEq, Eq, Structural, Hash, Default)]
pub enum EventType {
    #[default]
    Nothing,
    KeyPress,
    KeyRelease,
    Motion,
    Enter,
    Leave,
    ButtonPress,
    ButtonRelease,
    Scroll,
    TouchBegin,
    TouchUpdate,
    TouchEnd,
    TouchCancel,
    TouchpadPinch,
    TouchpadSwipe,
    TouchpadHold,
    ProximityIn,
    ProximityOut,
    PadButtonPress,
    PadButtonRelease,
    PadStrip,
    PadRing,
    PadDial,
    DeviceAdded,
    DeviceRemoved,
    ImCommit,
    ImDelete,
    ImPreedit,
    KeyState,
    EventLast,
}

/// Event flags, as a bit set.
#[derive(Debug, Clone, Copy, PartialEq, Eq, Structural, Hash, Default)]
pub struct EventFlags(pub u32);

impl EventFlags {
    /// No flag.
    pub fn none() -> (r: Self)
        ensures
            r.0 == 0,
    {
        EventFlags(0)
    }

    /// The event was synthesized.
    pub fn synthetic() -> (r: Self)
        ensures
            r.0 == 1,
    {
        EventFlags(1)
    }

    /// The event comes from an input method.
    pub fn input_method() -> (r: Self)
        ensures
            r.0 == 2,
    {
        EventFlags(2)
    }

    /// The event is a key repeat.
    pub fn repeated() -> (r: Self)
        ensures
            r.0 == 4,
    {
        EventFlags(4)
    }

    /// The motion is relative.
    pub fn relative_motion() -> (r: Self)
        ensures
            r.0 == 8,
    {
        EventFlags(8)
    }

    /// The event notifies a grab change.
    pub fn grab_notify() -> (r: Self)
        ensures
            r.0 == 16,
    {
        EventFlags(16)
    }

    /// The pointer event is emulated from touch.
    pub fn pointer_emulated() -> (r: Self)
        ensures
            r.0 == 32,
    {
        EventFlags(32)
    }

    /// The first click of an accessibility modifier.
    pub fn a11y_modifier_first_click() -> (r: Self)
        ensures
            r.0 == 64,
    {
        EventFlags(64)
    }

    /// Whether every bit of `other` is set in `self`.
    pub fn contains(self, other: Self) -> (r: bool)
        ensures
            r == (self.0 & other.0 == other.0),
    {
        (self.0 & other.0) == other.0
    }

    /// Whether no bit is set.
    pub fn is_empty(self) -> (r: bool)
        ensures
            r == (self.0 == 0),
    {
        self.0 == 0
    }

}

/// The direction of a scroll event.
#[derive(Debug, Clone, Copy, PartialEq, Eq, Structural, Hash, Default)]
pub enum ScrollDirection {
    #[default]
    Up,
    Down,
    Left,
    Right,
    Smooth,
}

/// The source of a scroll event.
#[derive(Debug, Clone, Copy, PartialEq, Eq, Structural, Hash, Default)]
pub enum ScrollSource {
    #[default]
    Unknown,
    Wheel,
    Finger,
    Continuous,
}

/// The axes on which a scroll sequence finished, as a bit set.
#[derive(Debug, Clone, Copy, PartialEq, Eq, Structural, Hash, Default)]
pub struct ScrollFinishFlags(pub u32);

impl ScrollFinishFlags {
    /// No axis.
    pub fn none() -> (r: Self)
        ensures
            r.0 == 0,
    {
        ScrollFinishFlags(0)
    }

    /// The horizontal axis.
    pub fn horizontal() -> (r: Self)
        ensures
            r.0 == 1,
    {
        ScrollFinishFlags(1)
    }

    /// The vertical axis.
    pub fn vertical() -> (r: Self)
        ensures
            r.0 == 2,
    {
        ScrollFinishFlags(2)
    }

    /// Both axes.
    pub fn both() -> (r: Self)
        ensures
            r.0 == 3,
    {
        ScrollFinishFlags(3)
    }

    /// Whether every bit of `other` is set in `self`.
    pub fn contains(self, other: Self) -> (r: bool)
        ensures
            r == (self.0 & other.0 == other.0),
    {
        (self.0 & other.0) == other.0
    }

}

/// Scroll flags, as a bit set.
#[derive(Debug, Clone, Copy, PartialEq, Eq, Structural, Hash, Default)]
pub struct ScrollFlags(pub u32);

impl ScrollFlags {
    /// No flag.
    pub fn none() -> (r: Self)
        ensures
            r.0 == 0,
    {
        ScrollFlags(0)
    }

    /// The scroll sequence finished.
    pub fn finished() -> (r: Self)
        ensures
            r.0 == 1,
    {
        ScrollFlags(1)
    }

    /// The direction is meaningful.
    pub fn direction() -> (r: Self)
        ensures
            r.0 == 2,
    {
        ScrollFlags(2)
    }

    /// Whether every bit of `other` is set in `self`.
    pub fn contains(self, other: Self) -> (r: bool)
        ensures
            r == (self.0 & other.0 == other.0),
    {
        (self.0 & other.0) == other.0
    }

}

/// The phase of a touchpad gesture.
#[derive(Debug, Clone, Copy, PartialEq, Eq, Structural, Hash, Default)]
pub enum TouchpadGesturePhase {
    #[default]
    Begin,
    Update,
    End,
    Cancel,
}

/// The source of a tablet pad event.
#[derive(Debug, Clone, Copy, PartialEq, Eq, Structural, Hash, Default)]
pub enum InputDevicePadSource {
    #[default]
    Unknown,
    Button,
    Strip,
    Ring,
}

/// What an input method does with its preedit text on reset.
#[derive(Debug, Clone, Copy, PartialEq, Eq, Structural, Hash, Default)]
pub enum PreeditResetMode {
    #[default]
    ClearClient,
    ClearClientRetain,
    Commit,
}

/// Modifier keys and mouse buttons held, as a bit set.
#[derive(Debug, Clone, Copy, PartialEq, Eq, Structural, Hash, Default)]
pub struct ModifierType(pub u32);

impl ModifierType {
    /// No modifier.
    pub fn none() -> (r: Self)
        ensures
            r.0 == 0,
    {
        ModifierType(0)
    }

    /// Shift.
    pub fn shift_mask() -> (r: Self)
        ensures
            r.0 == 1,
    {
        ModifierType(1)
    }

    /// Caps lock.
    pub fn lock_mask() -> (r: Self)
        ensures
            r.0 == 2,
    {
        ModifierType(2)
    }

    /// Control.
    pub fn control_mask() -> (r: Self)
        ensures
            r.0 == 4,
    {
        ModifierType(4)
    }

    /// Mod1 (usually Alt).
    pub fn mod1_mask() -> (r: Self)
        ensures
            r.0 == 8,
    {
        ModifierType(8)
    }

    /// Mod2.
    pub fn mod2_mask() -> (r: Self)
        ensures
            r.0 == 16,
    {
        ModifierType(16)
    }

    /// Mod3.
    pub fn mod3_mask() -> (r: Self)
        ensures
            r.0 == 32,
    {
        ModifierType(32)
    }

    /// Mod4 (usually Super).
    pub fn mod4_mask() -> (r: Self)
        ensures
            r.0 == 64,
    {
        ModifierType(64)
    }

    /// Mod5.
    pub fn mod5_mask() -> (r: Self)
        ensures
            r.0 == 128,
    {
        ModifierType(128)
    }

    /// Mouse button 1.
    pub fn button1_mask() -> (r: Self)
        ensures
            r.0 == 256,
    {
        ModifierType(256)
    }

    /// Mouse button 2.
    pub fn button2_mask() -> (r: Self)
        ensures
            r.0 == 512,
    {
        ModifierType(512)
    }

    /// Mouse button 3.
    pub fn button3_mask() -> (r: Self)
        ensures
            r.0 == 1024,
    {
        ModifierType(1024)
    }

    /// Mouse button 4.
    pub fn button4_mask() -> (r: Self)
        ensures
            r.0 == 2048,
    {
        ModifierType(2048)
    }

    /// Mouse button 5.
    pub fn button5_mask() -> (r: Self)
        ensures
            r.0 == 4096,
    {
        ModifierType(4096)
    }

    /// All of the modifiers above.
    pub fn modifier_mask() -> (r: Self)
        ensures
            r.0 == 0x1fff,
    {
        ModifierType(0x1fff)
    }

    /// Whether every bit of `other` is set in `self`.
    pub fn contains(self, other: Self) -> (r: bool)
        ensures
            r == (self.0 & other.0 == other.0),
    {
        (self.0 & other.0) == other.0
    }

    /// Whether no bit is set.
    pub fn is_empty(self) -> (r: bool)
        ensures
            r == (self.0 == 0),
    {
        self.0 == 0
    }

}

/// The pressed, latched and locked modifiers of a key event.
#[derive(Debug, Clone, Copy, PartialEq, Eq, Structural, Hash, Default)]
pub struct ModifierSet {
    pub pressed: ModifierType,
    pub latched: ModifierType,
    pub locked: ModifierType,
}

/// The identifier of a touch sequence.
#[derive(Debug, Clone, Copy, PartialEq, Eq, Structural, Hash, Default)]
pub struct EventSequence(pub u64);

/// The identifier of the input device an event comes from.
#[derive(Debug, Clone, Copy, PartialEq, Eq, Structural, Hash, Default)]
pub struct DeviceId(pub u32);

/// The identifier of a tablet tool.
#[derive(Debug, Clone, Copy, PartialEq, Eq, Structural, Hash, Default)]
pub struct DeviceToolId(pub u32);

/// The fields common to every event.
#[derive(Debug, Clone, Copy, PartialEq, Eq, Structural)]
pub struct AnyEvent {
    pub time_us: i64,
    pub flags: EventFlags,
    pub source_device: Option<DeviceId>,
}

/// A key press or release.
#[derive(Debug, Clone, Copy, PartialEq, Eq, Structural)]
pub struct KeyEvent {
    pub time_us: i64,
    pub flags: EventFlags,
    pub source_device: Option<DeviceId>,
    pub raw_modifiers: ModifierSet,
    pub modifier_state: ModifierType,
    pub keyval: u32,
    pub hardware_keycode: u16,
    pub unicode_value: u32,
    pub evdev_code: u32,
}

/// A tablet tool entering or leaving proximity.
#[derive(Debug, Clone, Copy, PartialEq, Eq, Structural)]
pub struct ProximityEvent {
    pub time_us: i64,
    pub flags: EventFlags,
    pub source_device: Option<DeviceId>,
    pub tool: Option<DeviceToolId>,
}

/// A tablet pad button press or release.
#[derive(Debug, Clone, Copy, PartialEq, Eq, Structural)]
pub struct PadButtonEvent {
    pub time_us: i64,
    pub flags: EventFlags,
    pub source_device: Option<DeviceId>,
    pub button: u32,
    pub group: u32,
    pub mode: u32,
}

/// An input device being added or removed.
#[derive(Debug, Clone, Copy, PartialEq, Eq, Structural)]
pub struct DeviceEvent {
    pub time_us: i64,
    pub flags: EventFlags,
    pub source_device: Option<DeviceId>,
}

/// An input-method event: committed text, a deletion, or preedit text.
#[derive(Debug, Clone, PartialEq)]
pub struct ImEvent {
    pub time_us: i64,
    pub flags: EventFlags,
    pub source_device: Option<DeviceId>,
    pub text: String,
    pub offset: i32,
    pub anchor: i32,
    pub len: u32,
    pub mode: PreeditResetMode,
}

/// A pointer button press or release; `measures` holds the pointer position.
#[derive(Debug, Clone, Copy, PartialEq)]
pub struct ButtonEvent<M> {
    pub time_us: i64,
    pub flags: EventFlags,
    pub source_device: Option<DeviceId>,
    pub measures: M,
    pub modifier_state: ModifierType,
    pub button: u32,
    pub tool: Option<DeviceToolId>,
    pub evdev_code: u32,
}

/// The pointer entering or leaving an actor; `measures` holds the pointer position.
#[derive(Debug, Clone, Copy, PartialEq)]
pub struct CrossingEvent<M> {
    pub time_us: i64,
    pub flags: EventFlags,
    pub source_device: Option<DeviceId>,
    pub measures: M,
    pub sequence: Option<EventSequence>,
    pub source: Option<ActorId>,
    pub related: Option<ActorId>,
}

/// Pointer motion; `measures` holds the position and the (unaccelerated, constrained) deltas.
#[derive(Debug, Clone, Copy, PartialEq)]
pub struct MotionEvent<M> {
    pub time_us: i64,
    pub flags: EventFlags,
    pub source_device: Option<DeviceId>,
    pub measures: M,
    pub modifier_state: ModifierType,
    pub tool: Option<DeviceToolId>,
}

/// A scroll; `measures` holds the pointer position and the scroll deltas.
#[derive(Debug, Clone, Copy, PartialEq)]
pub struct ScrollEvent<M> {
    pub time_us: i64,
    pub flags: EventFlags,
    pub source_device: Option<DeviceId>,
    pub measures: M,
    pub direction: ScrollDirection,
    pub modifier_state: ModifierType,
    pub tool: Option<DeviceToolId>,
    pub scroll_flags: ScrollFlags,
    pub scroll_source: ScrollSource,
    pub finish_flags: ScrollFinishFlags,
}

/// A touch point; `measures` holds its position.
#[derive(Debug, Clone, Copy, PartialEq)]
pub struct TouchEvent<M> {
    pub time_us: i64,
    pub flags: EventFlags,
    pub source_device: Option<DeviceId>,
    pub measures: M,
    pub sequence: Option<EventSequence>,
    pub modifier_state: ModifierType,
}

/// A touchpad pinch; `measures` holds the position, deltas, angle delta and scale.
#[derive(Debug, Clone, Copy, PartialEq)]
pub struct TouchpadPinchEvent<M> {
    pub time_us: i64,
    pub flags: EventFlags,
    pub source_device: Option<DeviceId>,
    pub phase: TouchpadGesturePhase,
    pub measures: M,
    pub n_fingers: u32,
}

/// A touchpad swipe; `measures` holds the position and deltas.
#[derive(Debug, Clone, Copy, PartialEq)]
pub struct TouchpadSwipeEvent<M> {
    pub time_us: i64,
    pub flags: EventFlags,
    pub source_device: Option<DeviceId>,
    pub phase: TouchpadGesturePhase,
    pub n_fingers: u32,
    pub measures: M,
}

/// A touchpad hold; `measures` holds the position.
#[derive(Debug, Clone, Copy, PartialEq)]
pub struct TouchpadHoldEvent<M> {
    pub time_us: i64,
    pub flags: EventFlags,
    pub source_device: Option<DeviceId>,
    pub phase: TouchpadGesturePhase,
    pub n_fingers: u32,
    pub measures: M,
}

/// A tablet pad strip moved; `measures` holds the strip value.
#[derive(Debug, Clone, Copy, PartialEq)]
pub struct PadStripEvent<M> {
    pub time_us: i64,
    pub flags: EventFlags,
    pub source_device: Option<DeviceId>,
    pub strip_source: InputDevicePadSource,
    pub strip_number: u32,
    pub group: u32,
    pub measures: M,
    pub mode: u32,
}

/// A tablet pad ring moved; `measures` holds the ring angle.
#[derive(Debug, Clone, Copy, PartialEq)]
pub struct PadRingEvent<M> {
    pub time_us: i64,
    pub flags: EventFlags,
    pub source_device: Option<DeviceId>,
    pub ring_source: InputDevicePadSource,
    pub ring_number: u32,
    pub group: u32,
    pub measures: M,
    pub mode: u32,
}

/// A tablet pad dial turned; `measures` holds the dial value in 120ths of a detent.
#[derive(Debug, Clone, Copy, PartialEq)]
pub struct PadDialEvent<M> {
    pub time_us: i64,
    pub flags: EventFlags,
    pub source_device: Option<DeviceId>,
    pub dial_number: u32,
    pub group: u32,
    pub measures: M,
    pub mode: u32,
}

/// An event of any kind. The continuous quantities that an event carries
/// (positions, deltas, angles, scales) are held in a payload of type `M`, which
/// the accessors below never inspect.
#[derive(Debug, Clone, PartialEq)]
pub enum Event<M> {
    Any(AnyEvent),
    Key(KeyEvent),
    Button(ButtonEvent<M>),
    Motion(MotionEvent<M>),
    Scroll(ScrollEvent<M>),
    Crossing(CrossingEvent<M>),
    Touch(TouchEvent<M>),
    TouchpadPinch(TouchpadPinchEvent<M>),
    TouchpadSwipe(TouchpadSwipeEvent<M>),
    TouchpadHold(TouchpadHoldEvent<M>),
    Proximity(ProximityEvent),
    PadButton(PadButtonEvent),
    PadStrip(PadStripEvent<M>),
    PadRing(PadRingEvent<M>),
    PadDial(PadDialEvent<M>),
    Device(DeviceEvent),
    Im(ImEvent),
}

impl<M> Event<M> {
    /// The fields that every event carries.
    pub open spec fn header(&self) -> AnyEvent {
        match *self {
            Event::Any(e) => AnyEvent { time_us: e.time_us, flags: e.flags, source_device: e.source_device },
            Event::Key(e) => AnyEvent { time_us: e.time_us, flags: e.flags, source_device: e.source_device },
            Event::Button(e) => AnyEvent { time_us: e.time_us, flags: e.flags, source_device: e.source_device },
            Event::Motion(e) => AnyEvent { time_us: e.time_us, flags: e.flags, source_device: e.source_device },
            Event::Scroll(e) => AnyEvent { time_us: e.time_us, flags: e.flags, source_device: e.source_device },
            Event::Crossing(e) => AnyEvent { time_us: e.time_us, flags: e.flags, source_device: e.source_device },
            Event::Touch(e) => AnyEvent { time_us: e.time_us, flags: e.flags, source_device: e.source_device },
            Event::TouchpadPinch(e) => AnyEvent { time_us: e.time_us, flags: e.flags, source_device: e.source_device },
            Event::TouchpadSwipe(e) => AnyEvent { time_us: e.time_us, flags: e.flags, source_device: e.source_device },
            Event::TouchpadHold(e) => AnyEvent { time_us: e.time_us, flags: e.flags, source_device: e.source_device },
            Event::Proximity(e) => AnyEvent { time_us: e.time_us, flags: e.flags, source_device: e.source_device },
            Event::PadButton(e) => AnyEvent { time_us: e.time_us, flags: e.flags, source_device: e.source_device },
            Event::PadStrip(e) => AnyEvent { time_us: e.time_us, flags: e.flags, source_device: e.source_device },
            Event::PadRing(e) => AnyEvent { time_us: e.time_us, flags: e.flags, source_device: e.source_device },
            Event::PadDial(e) => AnyEvent { time_us: e.time_us, flags: e.flags, source_device: e.source_device },
            Event::Device(e) => AnyEvent { time_us: e.time_us, flags: e.flags, source_device: e.source_device },
            Event::Im(e) => AnyEvent { time_us: e.time_us, flags: e.flags, source_device: e.source_device },
        }
    }

    /// The type of the event: a key event is a press, a button event with
    /// button 0 a release, a crossing with a related actor an enter, a
    /// proximity event with a tool a proximity-in, a device event with a
    /// device an addition, an input-method event in commit mode a commit.
    pub open spec fn event_type(&self) -> EventType {
        match *self {
            Event::Any(_) => EventType::Nothing,
            Event::Key(_) => EventType::KeyPress,
            Event::Button(b) => if b.button == 0 { EventType::ButtonRelease } else { EventType::ButtonPress },
            Event::Motion(_) => EventType::Motion,
            Event::Scroll(_) => EventType::Scroll,
            Event::Crossing(c) => if c.related is Some { EventType::Enter } else { EventType::Leave },
            Event::Touch(_) => EventType::TouchUpdate,
            Event::TouchpadPinch(_) => EventType::TouchpadPinch,
            Event::TouchpadSwipe(_) => EventType::TouchpadSwipe,
            Event::TouchpadHold(_) => EventType::TouchpadHold,
            Event::Proximity(p) => if p.tool is Some { EventType::ProximityIn } else { EventType::ProximityOut },
            Event::PadButton(b) => if b.button == 0 { EventType::PadButtonRelease } else { EventType::PadButtonPress },
            Event::PadStrip(_) => EventType::PadStrip,
            Event::PadRing(_) => EventType::PadRing,
            Event::PadDial(_) => EventType::PadDial,
            Event::Device(d) => if d.source_device is Some { EventType::DeviceAdded } else { EventType::DeviceRemoved },
            Event::Im(im) => if im.mode == PreeditResetMode::Commit { EventType::ImCommit } else { EventType::ImPreedit },
        }
    }

    /// The modifier state of key, button, motion, scroll and touch events;
    /// no modifier for the others.
    pub open spec fn modifiers(&self) -> ModifierType {
        match *self {
            Event::Key(e) => e.modifier_state,
            Event::Button(e) => e.modifier_state,
            Event::Motion(e) => e.modifier_state,
            Event::Scroll(e) => e.modifier_state,
            Event::Touch(e) => e.modifier_state,
            _ => ModifierType(0),
        }
    }

    /// The type of the event.
    pub fn type_(&self) -> (r: EventType)
        ensures
            r == self.event_type(),
    {
        match self {
            Event::Any(_) => EventType::Nothing,
            Event::Key(_) => EventType::KeyPress,
            Event::Button(b) => if b.button == 0 { EventType::ButtonRelease } else { EventType::ButtonPress },
            Event::Motion(_) => EventType::Motion,
            Event::Scroll(_) => EventType::Scroll,
            Event::Crossing(c) => if c.related.is_some() { EventType::Enter } else { EventType::Leave },
            Event::Touch(_) => EventType::TouchUpdate,
            Event::TouchpadPinch(_) => EventType::TouchpadPinch,
            Event::TouchpadSwipe(_) => EventType::TouchpadSwipe,
            Event::TouchpadHold(_) => EventType::TouchpadHold,
            Event::Proximity(p) => if p.tool.is_some() { EventType::ProximityIn } else { EventType::ProximityOut },
            Event::PadButton(b) => if b.button == 0 { EventType::PadButtonRelease } else { EventType::PadButtonPress },
            Event::PadStrip(_) => EventType::PadStrip,
            Event::PadRing(_) => EventType::PadRing,
            Event::PadDial(_) => EventType::PadDial,
            Event::Device(d) => if d.source_device.is_some() { EventType::DeviceAdded } else { EventType::DeviceRemoved },
            Event::Im(im) => match im.mode {
                PreeditResetMode::Commit => EventType::ImCommit,
                _ => EventType::ImPreedit,
            },
        }
    }

    /// The event's flags.
    pub fn flags(&self) -> (r: EventFlags)
        ensures
            r == self.header().flags,
    {
        match self {
            Event::Any(e) => e.flags,
            Event::Key(e) => e.flags,
            Event::Button(e) => e.flags,
            Event::Motion(e) => e.flags,
            Event::Scroll(e) => e.flags,
            Event::Crossing(e) => e.flags,
            Event::Touch(e) => e.flags,
            Event::TouchpadPinch(e) => e.flags,
            Event::TouchpadSwipe(e) => e.flags,
            Event::TouchpadHold(e) => e.flags,
            Event::Proximity(e) => e.flags,
            Event::PadButton(e) => e.flags,
            Event::PadStrip(e) => e.flags,
            Event::PadRing(e) => e.flags,
            Event::PadDial(e) => e.flags,
            Event::Device(e) => e.flags,
            Event::Im(e) => e.flags,
        }
    }

    /// The event's time, in microseconds.
    pub fn time_us(&self) -> (r: i64)
        ensures
            r == self.header().time_us,
    {
        match self {
            Event::Any(e) => e.time_us,
            Event::Key(e) => e.time_us,
            Event::Button(e) => e.time_us,
            Event::Motion(e) => e.time_us,
            Event::Scroll(e) => e.time_us,
            Event::Crossing(e) => e.time_us,
            Event::Touch(e) => e.time_us,
            Event::TouchpadPinch(e) => e.time_us,
            Event::TouchpadSwipe(e) => e.time_us,
            Event::TouchpadHold(e) => e.time_us,
            Event::Proximity(e) => e.time_us,
            Event::PadButton(e) => e.time_us,
            Event::PadStrip(e) => e.time_us,
            Event::PadRing(e) => e.time_us,
            Event::PadDial(e) => e.time_us,
            Event::Device(e) => e.time_us,
            Event::Im(e) => e.time_us,
        }
    }

    /// The device the event comes from, if known.
    pub fn source_device(&self) -> (r: Option<DeviceId>)
        ensures
            r == self.header().source_device,
    {
        match self {
            Event::Any(e) => e.source_device,
            Event::Key(e) => e.source_device,
            Event::Button(e) => e.source_device,
            Event::Motion(e) => e.source_device,
            Event::Scroll(e) => e.source_device,
            Event::Crossing(e) => e.source_device,
            Event::Touch(e) => e.source_device,
            Event::TouchpadPinch(e) => e.source_device,
            Event::TouchpadSwipe(e) => e.source_device,
            Event::TouchpadHold(e) => e.source_device,
            Event::Proximity(e) => e.source_device,
            Event::PadButton(e) => e.source_device,
            Event::PadStrip(e) => e.source_device,
            Event::PadRing(e) => e.source_device,
            Event::PadDial(e) => e.source_device,
            Event::Device(e) => e.source_device,
            Event::Im(e) => e.source_device,
        }
    }

    /// The modifier state (no modifier for events that carry none).
    pub fn modifier_state(&self) -> (r: ModifierType)
        ensures
            r == self.modifiers(),
    {
        match self {
            Event::Key(e) => e.modifier_state,
            Event::Button(e) => e.modifier_state,
            Event::Motion(e) => e.modifier_state,
            Event::Scroll(e) => e.modifier_state,
            Event::Touch(e) => e.modifier_state,
            _ => ModifierType(0),
        }
    }

    /// The key symbol of a key event.
    pub fn key_symbol(&self) -> (r: Option<u32>)
        ensures
            r == (match *self {
                Event::Key(e) => Some(e.keyval),
                _ => None::<u32>,
            }),
    {
        match self {
            Event::Key(e) => Some(e.keyval),
            _ => None,
        }
    }

    /// The hardware keycode of a key event.
    pub fn key_code(&self) -> (r: Option<u16>)
        ensures
            r == (match *self {
                Event::Key(e) => Some(e.hardware_keycode),
                _ => None::<u16>,
            }),
    {
        match self {
            Event::Key(e) => Some(e.hardware_keycode),
            _ => None,
        }
    }

    /// The Unicode value of a key event.
    pub fn key_unicode(&self) -> (r: Option<u32>)
        ensures
            r == (match *self {
                Event::Key(e) => Some(e.unicode_value),
                _ => None::<u32>,
            }),
    {
        match self {
            Event::Key(e) => Some(e.unicode_value),
            _ => None,
        }
    }

    /// The button of a pointer or pad button event.
    pub fn button(&self) -> (r: Option<u32>)
        ensures
            r == (match *self {
                Event::Button(e) => Some(e.button),
                Event::PadButton(e) => Some(e.button),
                _ => None::<u32>,
            }),
    {
        match self {
            Event::Button(e) => Some(e.button),
            Event::PadButton(e) => Some(e.button),
            _ => None,
        }
    }

    /// The related actor of a crossing event.
    pub fn related(&self) -> (r: Option<ActorId>)
        ensures
            r == (match *self {
                Event::Crossing(e) => e.related,
                _ => None::<ActorId>,
            }),
    {
        match self {
            Event::Crossing(e) => e.related,
            _ => None,
        }
    }

    /// The actor a crossing event enters or leaves.
    pub fn source(&self) -> (r: Option<ActorId>)
        ensures
            r == (match *self {
                Event::Crossing(e) => e.source,
                _ => None::<ActorId>,
            }),
    {
        match self {
            Event::Crossing(e) => e.source,
            _ => None,
        }
    }

    /// The direction of a scroll event.
    pub fn scroll_direction(&self) -> (r: Option<ScrollDirection>)
        ensures
            r == (match *self {
                Event::Scroll(e) => Some(e.direction),
                _ => None::<ScrollDirection>,
            }),
    {
        match self {
            Event::Scroll(e) => Some(e.direction),
            _ => None,
        }
    }

    /// The source of a scroll event.
    pub fn scroll_source(&self) -> (r: Option<ScrollSource>)
        ensures
            r == (match *self {
                Event::Scroll(e) => Some(e.scroll_source),
                _ => None::<ScrollSource>,
            }),
    {
        match self {
            Event::Scroll(e) => Some(e.scroll_source),
            _ => None,
        }
    }

    /// The finish flags of a scroll event.
    pub fn scroll_finish_flags(&self) -> (r: Option<ScrollFinishFlags>)
        ensures
            r == (match *self {
                Event::Scroll(e) => Some(e.finish_flags),
                _ => None::<ScrollFinishFlags>,
            }),
    {
        match self {
            Event::Scroll(e) => Some(e.finish_flags),
            _ => None,
        }
    }

    /// The flags of a scroll event.
    pub fn scroll_flags(&self) -> (r: Option<ScrollFlags>)
        ensures
            r == (match *self {
                Event::Scroll(e) => Some(e.scroll_flags),
                _ => None::<ScrollFlags>,
            }),
    {
        match self {
            Event::Scroll(e) => Some(e.scroll_flags),
            _ => None,
        }
    }

    /// The touch sequence of a touch or crossing event.
    pub fn event_sequence(&self) -> (r: Option<EventSequence>)
        ensures
            r == (match *self {
                Event::Touch(e) => e.sequence,
                Event::Crossing(e) => e.sequence,
                _ => None::<EventSequence>,
            }),
    {
        match self {
            Event::Touch(e) => e.sequence,
            Event::Crossing(e) => e.sequence,
            _ => None,
        }
    }

    /// The number of fingers of a touchpad gesture.
    pub fn gesture_finger_count(&self) -> (r: Option<u32>)
        ensures
            r == (match *self {
                Event::TouchpadPinch(e) => Some(e.n_fingers),
                Event::TouchpadSwipe(e) => Some(e.n_fingers),
                Event::TouchpadHold(e) => Some(e.n_fingers),
                _ => None::<u32>,
            }),
    {
        match self {
            Event::TouchpadPinch(e) => Some(e.n_fingers),
            Event::TouchpadSwipe(e) => Some(e.n_fingers),
            Event::TouchpadHold(e) => Some(e.n_fingers),
            _ => None,
        }
    }

    /// The phase of a touchpad gesture.
    pub fn gesture_phase(&self) -> (r: Option<TouchpadGesturePhase>)
        ensures
            r == (match *self {
                Event::TouchpadPinch(e) => Some(e.phase),
                Event::TouchpadSwipe(e) => Some(e.phase),
                Event::TouchpadHold(e) => Some(e.phase),
                _ => None::<TouchpadGesturePhase>,
            }),
    {
        match self {
            Event::TouchpadPinch(e) => Some(e.phase),
            Event::TouchpadSwipe(e) => Some(e.phase),
            Event::TouchpadHold(e) => Some(e.phase),
            _ => None,
        }
    }

    /// The tablet tool of a button, motion, scroll or proximity event.
    pub fn device_tool(&self) -> (r: Option<DeviceToolId>)
        ensures
            r == (match *self {
                Event::Button(e) => e.tool,
                Event::Motion(e) => e.tool,
                Event::Scroll(e) => e.tool,
                Event::Proximity(e) => e.tool,
                _ => None::<DeviceToolId>,
            }),
    {
        match self {
            Event::Button(e) => e.tool,
            Event::Motion(e) => e.tool,
            Event::Scroll(e) => e.tool,
            Event::Proximity(e) => e.tool,
            _ => None,
        }
    }

    /// The group of a pad event.
    pub fn pad_group(&self) -> (r: Option<u32>)
        ensures
            r == (match *self {
                Event::PadButton(e) => Some(e.group),
                Event::PadStrip(e) => Some(e.group),
                Event::PadRing(e) => Some(e.group),
                Event::PadDial(e) => Some(e.group),
                _ => None::<u32>,
            }),
    {
        match self {
            Event::PadButton(e) => Some(e.group),
            Event::PadStrip(e) => Some(e.group),
            Event::PadRing(e) => Some(e.group),
            Event::PadDial(e) => Some(e.group),
            _ => None,
        }
    }

    /// The mode of a pad event.
    pub fn pad_mode(&self) -> (r: Option<u32>)
        ensures
            r == (match *self {
                Event::PadButton(e) => Some(e.mode),
                Event::PadStrip(e) => Some(e.mode),
                Event::PadRing(e) => Some(e.mode),
                Event::PadDial(e) => Some(e.mode),
                _ => None::<u32>,
            }),
    {
        match self {
            Event::PadButton(e) => Some(e.mode),
            Event::PadStrip(e) => Some(e.mode),
            Event::PadRing(e) => Some(e.mode),
            Event::PadDial(e) => Some(e.mode),
            _ => None,
        }
    }

    /// The continuous quantities the event carries, for the kinds that carry any.
    pub fn measures(&self) -> (r: Option<&M>)
        ensures
            r == (match *self {
                Event::Button(e) => Some(&e.measures),
                Event::Motion(e) => Some(&e.measures),
                Event::Scroll(e) => Some(&e.measures),
                Event::Crossing(e) => Some(&e.measures),
                Event::Touch(e) => Some(&e.measures),
                Event::TouchpadPinch(e) => Some(&e.measures),
                Event::TouchpadSwipe(e) => Some(&e.measures),
                Event::TouchpadHold(e) => Some(&e.measures),
                Event::PadStrip(e) => Some(&e.measures),
                Event::PadRing(e) => Some(&e.measures),
                Event::PadDial(e) => Some(&e.measures),
                _ => None::<&M>,
            }),
    {
        match self {
            Event::Button(e) => Some(&e.measures),
            Event::Motion(e) => Some(&e.measures),
            Event::Scroll(e) => Some(&e.measures),
            Event::Crossing(e) => Some(&e.measures),
            Event::Touch(e) => Some(&e.measures),
            Event::TouchpadPinch(e) => Some(&e.measures),
            Event::TouchpadSwipe(e) => Some(&e.measures),
            Event::TouchpadHold(e) => Some(&e.measures),
            Event::PadStrip(e) => Some(&e.measures),
            Event::PadRing(e) => Some(&e.measures),
            Event::PadDial(e) => Some(&e.measures),
            _ => None,
        }
    }

    /// Whether Shift is held.
    pub fn has_shift_modifier(&self) -> (r: bool)
        ensures
            r == (self.modifiers().0 & 1 == 1),
    {
        self.modifier_state().contains(ModifierType::shift_mask())
    }

    /// Whether Control is held.
    pub fn has_control_modifier(&self) -> (r: bool)
        ensures
            r == (self.modifiers().0 & 4 == 4),
    {
        self.modifier_state().contains(ModifierType::control_mask())
    }

    /// Whether the pointer event is emulated from touch.
    pub fn is_pointer_emulated(&self) -> (r: bool)
        ensures
            r == (self.header().flags.0 & 32 == 32),
    {
        self.flags().contains(EventFlags::pointer_emulated())
    }
}

/// Every event that carries a modifier state reports that state: key,
/// button, motion, scroll and touch events alike.
pub proof fn law_modifiers_are_carried<M>(
    k: KeyEvent,
    b: ButtonEvent<M>,
    m: MotionEvent<M>,
    s: ScrollEvent<M>,
    t: TouchEvent<M>,
)
    ensures
        Event::<M>::Key(k).modifiers() == k.modifier_state,
        Event::Button(b).modifiers() == b.modifier_state,
        Event::Motion(m).modifiers() == m.modifier_state,
        Event::Scroll(s).modifiers() == s.modifier_state,
        Event::Touch(t).modifiers() == t.modifier_state,
{
}

} // verus!
