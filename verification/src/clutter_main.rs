//! The global toolkit state: initialization, main-loop nesting, grabs,
//! and the queue of events not consumed by a grab.
use vstd::prelude::*;

use crate::actor::ActorId;
use crate::context::TextDirection;

verus! {

/// The result of initializing the toolkit.
#[derive(Debug, Clone, Copy, PartialEq, Eq, Structural, Hash)]
pub enum InitResult {
    Success,
    ErrorAlreadyInitialized,
    ErrorBackendUnavailable,
}

/// A windowing backend. `NoBackend` stands for none.
#[derive(Debug, Clone, Copy, PartialEq, Eq, Structural, Hash, Default)]
pub enum BackendType {
    #[default]
    NoBackend,
    Native,
    X11,
    Wayland,
    Headless,
}

/// How an event is routed while grabs are active: pointer events (button,
/// motion, scroll, touch, crossing) go to a pointer grab, key events to a
/// keyboard grab, other events to neither.
#[derive(Debug, Clone, Copy, PartialEq, Eq, Structural)]
pub enum EventRouting {
    Pointer,
    Key,
    Other,
}

/// The global state of the toolkit, with events of type `E`.
#[derive(Debug)]
pub struct MainContext<E> {
    is_initialized: bool,
    main_loop_level: i32,
    has_quit: bool,
    show_fps: bool,
    font_name: String,
    text_direction: TextDirection,
    custom_backend_func: Option<u32>,
    backend_type: BackendType,
    pointer_grab: Option<ActorId>,
    keyboard_grab: Option<ActorId>,
    accessibility_enabled: bool,
    glyph_cache_dirty: bool,
    pending_events: Vec<E>,
}

/// The abstract state of the main context.
pub struct MainModel<E> {
    pub is_initialized: bool,
    pub main_loop_level: i32,
    pub has_quit: bool,
    pub show_fps: bool,
    pub font_name: Seq<char>,
    pub text_direction: TextDirection,
    pub custom_backend_func: Option<u32>,
    pub backend_type: BackendType,
    pub pointer_grab: Option<ActorId>,
    pub keyboard_grab: Option<ActorId>,
    pub accessibility_enabled: bool,
    pub glyph_cache_dirty: bool,
    pub pending_events: Seq<E>,
}

/// The main-loop level after entering a loop (it stops at `i32::MAX`).
pub open spec fn enter_level(level: i32) -> i32 {
    if level < i32::MAX {
        (level + 1) as i32
    } else {
        level
    }
}

/// The main-loop level after quitting a loop (it does not go below zero).
pub open spec fn quit_level(level: i32) -> i32 {
    if level > 0 {
        (level - 1) as i32
    } else {
        level
    }
}

/// `do_event`: an event is consumed by an active grab of its kind;
/// otherwise it joins the pending queue.
pub open spec fn do_event_model<E>(m: MainModel<E>, event: E, routing: EventRouting) -> (MainModel<E>, bool) {
    if (m.pointer_grab is Some && routing == EventRouting::Pointer) || (m.keyboard_grab is Some
        && routing == EventRouting::Key) {
        (m, true)
    } else {
        (MainModel { pending_events: m.pending_events.push(event), ..m }, false)
    }
}

impl<E> View for MainContext<E> {
    type V = MainModel<E>;

    closed spec fn view(&self) -> MainModel<E> {
        MainModel {
            is_initialized: self.is_initialized,
            main_loop_level: self.main_loop_level,
            has_quit: self.has_quit,
            show_fps: self.show_fps,
            font_name: self.font_name@,
            text_direction: self.text_direction,
            custom_backend_func: self.custom_backend_func,
            backend_type: self.backend_type,
            pointer_grab: self.pointer_grab,
            keyboard_grab: self.keyboard_grab,
            accessibility_enabled: self.accessibility_enabled,
            glyph_cache_dirty: self.glyph_cache_dirty,
            pending_events: self.pending_events@,
        }
    }
}

impl<E> MainContext<E> {
    /// Not initialized, not in a main loop, font "Sans 12", left-to-right,
    /// no backend, no grabs, accessibility on, nothing pending.
    pub fn new() -> (c: Self)
        ensures
            c@ == (MainModel::<E> {
                is_initialized: false,
                main_loop_level: 0,
                has_quit: false,
                show_fps: false,
                font_name: "Sans 12"@,
                text_direction: TextDirection::Ltr,
                custom_backend_func: None,
                backend_type: BackendType::NoBackend,
                pointer_grab: None,
                keyboard_grab: None,
                accessibility_enabled: true,
                glyph_cache_dirty: false,
                pending_events: Seq::empty(),
            }),
    {
        let c = MainContext {
            is_initialized: false,
            main_loop_level: 0,
            has_quit: false,
            show_fps: false,
            font_name: String::from_str("Sans 12"),
            text_direction: TextDirection::Ltr,
            custom_backend_func: None,
            backend_type: BackendType::NoBackend,
            pointer_grab: None,
            keyboard_grab: None,
            accessibility_enabled: true,
            glyph_cache_dirty: false,
            pending_events: Vec::new(),
        };
        assert(c@.pending_events =~= Seq::<E>::empty());
        c
    }

    /// Initializes the toolkit; a second initialization is an error.
    pub fn init(&mut self) -> (r: InitResult)
        ensures
            old(self)@.is_initialized ==> r == InitResult::ErrorAlreadyInitialized && final(self)@
                == old(self)@,
            !old(self)@.is_initialized ==> r == InitResult::Success && final(self)@ == (MainModel {
                is_initialized: true,
                ..old(self)@
            }),
    {
        if self.is_initialized {
            return InitResult::ErrorAlreadyInitialized;
        }
        self.is_initialized = true;
        InitResult::Success
    }

    /// Initializes the toolkit on a backend. A second initialization is an
    /// error; so is `NoBackend`, which leaves the toolkit uninitialized.
    pub fn init_with_args(&mut self, backend_type: BackendType) -> (r: InitResult)
        ensures
            old(self)@.is_initialized ==> r == InitResult::ErrorAlreadyInitialized && final(self)@
                == old(self)@,
            !old(self)@.is_initialized && backend_type == BackendType::NoBackend ==> r
                == InitResult::ErrorBackendUnavailable && final(self)@ == old(self)@,
            !old(self)@.is_initialized && backend_type != BackendType::NoBackend ==> r
                == InitResult::Success && final(self)@ == (MainModel {
                is_initialized: true,
                backend_type,
                ..old(self)@
            }),
    {
        if self.is_initialized {
            return InitResult::ErrorAlreadyInitialized;
        }
        if backend_type == BackendType::NoBackend {
            return InitResult::ErrorBackendUnavailable;
        }
        self.backend_type = backend_type;
        self.is_initialized = true;
        InitResult::Success
    }

    /// Whether the toolkit is initialized.
    pub fn is_initialized(&self) -> (r: bool)
        ensures
            r == self@.is_initialized,
    {
        self.is_initialized
    }

    /// Enters a main loop: one level deeper (stopping at `i32::MAX`),
    /// quit flag cleared.
    pub fn main(&mut self)
        ensures
            final(self)@ == (MainModel {
                main_loop_level: enter_level(old(self)@.main_loop_level),
                has_quit: false,
                ..old(self)@
            }),
    {
        if self.main_loop_level < i32::MAX {
            self.main_loop_level = self.main_loop_level + 1;
        }
        self.has_quit = false;
    }

    /// Quits the innermost main loop: one level up (not below zero), quit
    /// flag set. Returns the new level.
    pub fn main_quit(&mut self) -> (level: i32)
        ensures
            final(self)@ == (MainModel {
                main_loop_level: quit_level(old(self)@.main_loop_level),
                has_quit: true,
                ..old(self)@
            }),
            level == final(self)@.main_loop_level,
    {
        self.has_quit = true;
        if self.main_loop_level > 0 {
            self.main_loop_level -= 1;
        }
        self.main_loop_level
    }

    /// The depth of nested main loops.
    pub fn main_level(&self) -> (r: i32)
        ensures
            r == self@.main_loop_level,
    {
        self.main_loop_level
    }

    /// Whether the innermost main loop was told to quit.
    pub fn has_quit(&self) -> (r: bool)
        ensures
            r == self@.has_quit,
    {
        self.has_quit
    }

    /// Whether the frame rate is shown.
    pub fn get_show_fps(&self) -> (r: bool)
        ensures
            r == self@.show_fps,
    {
        self.show_fps
    }

    /// Sets whether the frame rate is shown.
    pub fn set_show_fps(&mut self, show: bool)
        ensures
            final(self)@ == (MainModel { show_fps: show, ..old(self)@ }),
    {
        self.show_fps = show;
    }

    /// The font name.
    pub fn get_font_name(&self) -> (r: &str)
        ensures
            r@ == self@.font_name,
    {
        self.font_name.as_str()
    }

    /// Sets the font name.
    pub fn set_font_name(&mut self, name: &str)
        ensures
            final(self)@ == (MainModel { font_name: name@, ..old(self)@ }),
    {
        self.font_name = String::from_str(name);
    }

    /// The default text direction.
    pub fn get_default_text_direction(&self) -> (r: TextDirection)
        ensures
            r == self@.text_direction,
    {
        self.text_direction
    }

    /// Sets the default text direction.
    pub fn set_default_text_direction(&mut self, dir: TextDirection)
        ensures
            final(self)@ == (MainModel { text_direction: dir, ..old(self)@ }),
    {
        self.text_direction = dir;
    }

    /// Sets the token of the custom backend constructor.
    pub fn set_custom_backend_func(&mut self, func_token: u32)
        ensures
            final(self)@ == (MainModel { custom_backend_func: Some(func_token), ..old(self)@ }),
    {
        self.custom_backend_func = Some(func_token);
    }

    /// The token of the custom backend constructor, if set.
    pub fn get_custom_backend_func(&self) -> (r: Option<u32>)
        ensures
            r == self@.custom_backend_func,
    {
        self.custom_backend_func
    }

    /// Whether the toolkit runs on `backend_type`.
    pub fn check_windowing_backend(&self, backend_type: BackendType) -> (r: bool)
        ensures
            r == (self@.backend_type == backend_type),
    {
        self.backend_type == backend_type
    }

    /// Sets the backend type.
    pub fn set_backend_type(&mut self, backend_type: BackendType)
        ensures
            final(self)@ == (MainModel { backend_type, ..old(self)@ }),
    {
        self.backend_type = backend_type;
    }

    /// The backend type.
    pub fn get_backend_type(&self) -> (r: BackendType)
        ensures
            r == self@.backend_type,
    {
        self.backend_type
    }

    /// Whether accessibility support is on.
    pub fn get_accessibility_enabled(&self) -> (r: bool)
        ensures
            r == self@.accessibility_enabled,
    {
        self.accessibility_enabled
    }

    /// Switches accessibility support off.
    pub fn disable_accessibility(&mut self)
        ensures
            final(self)@ == (MainModel { accessibility_enabled: false, ..old(self)@ }),
    {
        self.accessibility_enabled = false;
    }

    /// Switches accessibility support on or off.
    pub fn set_accessibility_enabled(&mut self, enabled: bool)
        ensures
            final(self)@ == (MainModel { accessibility_enabled: enabled, ..old(self)@ }),
    {
        self.accessibility_enabled = enabled;
    }

    /// Grabs the pointer for `actor`; returns the previous pointer grab.
    pub fn grab_pointer(&mut self, actor: ActorId) -> (prev: Option<ActorId>)
        ensures
            prev == old(self)@.pointer_grab,
            final(self)@ == (MainModel { pointer_grab: Some(actor), ..old(self)@ }),
    {
        let prev = self.pointer_grab;
        self.pointer_grab = Some(actor);
        prev
    }

    /// Releases the pointer grab.
    pub fn ungrab_pointer(&mut self)
        ensures
            final(self)@ == (MainModel { pointer_grab: None, ..old(self)@ }),
    {
        self.pointer_grab = None;
    }

    /// The pointer grab.
    pub fn get_pointer_grab(&self) -> (r: Option<ActorId>)
        ensures
            r == self@.pointer_grab,
    {
        self.pointer_grab
    }

    /// Grabs the keyboard for `actor`; returns the previous keyboard grab.
    pub fn grab_keyboard(&mut self, actor: ActorId) -> (prev: Option<ActorId>)
        ensures
            prev == old(self)@.keyboard_grab,
            final(self)@ == (MainModel { keyboard_grab: Some(actor), ..old(self)@ }),
    {
        let prev = self.keyboard_grab;
        self.keyboard_grab = Some(actor);
        prev
    }

    /// Releases the keyboard grab.
    pub fn ungrab_keyboard(&mut self)
        ensures
            final(self)@ == (MainModel { keyboard_grab: None, ..old(self)@ }),
    {
        self.keyboard_grab = None;
    }

    /// The keyboard grab.
    pub fn get_keyboard_grab(&self) -> (r: Option<ActorId>)
        ensures
            r == self@.keyboard_grab,
    {
        self.keyboard_grab
    }

    /// Delivers `event`, of the given routing: `true` when a grab consumes
    /// it; otherwise it is queued and `false` returned.
    pub fn do_event(&mut self, event: E, routing: EventRouting) -> (consumed: bool)
        ensures
            (final(self)@, consumed) == do_event_model(old(self)@, event, routing),
    {
        if self.pointer_grab.is_some() && routing == EventRouting::Pointer {
            return true;
        }
        if self.keyboard_grab.is_some() && routing == EventRouting::Key {
            return true;
        }
        self.pending_events.push(event);
        false
    }

    /// Takes the pending events, oldest first, leaving none.
    pub fn drain_pending_events(&mut self) -> (r: Vec<E>)
        ensures
            r@ == old(self)@.pending_events,
            final(self)@ == (MainModel { pending_events: Seq::empty(), ..old(self)@ }),
    {
        let mut taken: Vec<E> = Vec::new();
        std::mem::swap(&mut taken, &mut self.pending_events);
        assert(self@.pending_events =~= Seq::<E>::empty());
        taken
    }

    /// The number of pending events.
    pub fn n_pending_events(&self) -> (r: usize)
        ensures
            r == self@.pending_events.len(),
    {
        self.pending_events.len()
    }

    /// Marks the glyph cache dirty.
    pub fn clear_glyph_cache(&mut self)
        ensures
            final(self)@ == (MainModel { glyph_cache_dirty: true, ..old(self)@ }),
    {
        self.glyph_cache_dirty = true;
    }

    /// Whether the glyph cache must be rebuilt.
    pub fn is_glyph_cache_dirty(&self) -> (r: bool)
        ensures
            r == self@.glyph_cache_dirty,
    {
        self.glyph_cache_dirty
    }

    /// Marks the glyph cache as rebuilt.
    pub fn clear_glyph_cache_dirty(&mut self)
        ensures
            final(self)@ == (MainModel { glyph_cache_dirty: false, ..old(self)@ }),
    {
        self.glyph_cache_dirty = false;
    }
}

impl<E> Default for MainContext<E> {
    fn default() -> (c: Self)
        ensures
            !c@.is_initialized,
            c@.main_loop_level == 0,
            c@.pending_events == Seq::<E>::empty(),
    {
        MainContext::new()
    }
}

/// Entering and quitting a main loop gives back the level it started at,
/// below the maximum.
pub proof fn law_main_then_quit(level: i32)
    requires
        0 <= level < i32::MAX,
    ensures
        quit_level(enter_level(level)) == level,
        quit_level(level) >= 0,
{
}

/// Events that no grab consumes queue up in delivery order; an event that
/// a grab consumes leaves the queue as it was.
pub proof fn law_do_event_queue<E>(m: MainModel<E>, event: E, routing: EventRouting)
    ensures
        do_event_model(m, event, routing).1 ==> do_event_model(m, event, routing).0.pending_events
            == m.pending_events,
        !do_event_model(m, event, routing).1 ==> do_event_model(m, event, routing).0.pending_events
            == m.pending_events.push(event),
        m.pointer_grab is None && m.keyboard_grab is None ==> !do_event_model(m, event, routing).1,
        routing == EventRouting::Other ==> !do_event_model(m, event, routing).1,
{
}

} // verus!
