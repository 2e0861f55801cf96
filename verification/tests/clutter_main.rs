use mutter::actor::ActorId;
use mutter::clutter_main::{BackendType, EventRouting, InitResult, MainContext};
use mutter::event::{AnyEvent, EventFlags};

fn dummy_event() -> AnyEvent {
    AnyEvent { time_us: 0, flags: EventFlags::none(), source_device: None }
}

#[test]
fn init_defaults() {
    let ctx = MainContext::<AnyEvent>::new();
    assert!(!ctx.is_initialized());
    assert_eq!(ctx.main_level(), 0);
    assert!(!ctx.has_quit());
    assert_eq!(ctx.get_font_name(), "Sans 12");
    assert!(ctx.get_accessibility_enabled());
}

#[test]
fn init_success_then_already_initialized() {
    let mut ctx = MainContext::<AnyEvent>::new();
    assert_eq!(ctx.init(), InitResult::Success);
    assert_eq!(ctx.init(), InitResult::ErrorAlreadyInitialized);
}

#[test]
fn init_with_args_sets_backend() {
    let mut ctx = MainContext::<AnyEvent>::new();
    assert_eq!(ctx.init_with_args(BackendType::Native), InitResult::Success);
    assert!(ctx.check_windowing_backend(BackendType::Native));
}

#[test]
fn init_with_args_none_backend_fails() {
    let mut ctx = MainContext::<AnyEvent>::new();
    assert_eq!(ctx.init_with_args(BackendType::NoBackend), InitResult::ErrorBackendUnavailable);
}

#[test]
fn main_loop_nesting() {
    let mut ctx = MainContext::<AnyEvent>::new();
    ctx.main();
    assert_eq!(ctx.main_level(), 1);
    ctx.main();
    assert_eq!(ctx.main_level(), 2);
    ctx.main_quit();
    assert_eq!(ctx.main_level(), 1);
    ctx.main_quit();
    assert_eq!(ctx.main_level(), 0);
    ctx.main_quit();
    assert_eq!(ctx.main_level(), 0);
}

#[test]
fn do_event_queues_unhandled() {
    let mut ctx = MainContext::new();
    let event = dummy_event();
    assert!(!ctx.do_event(event, EventRouting::Other));
    assert_eq!(ctx.n_pending_events(), 1);
    let drained = ctx.drain_pending_events();
    assert_eq!(drained.len(), 1);
    assert_eq!(ctx.n_pending_events(), 0);
}

#[test]
fn grabs_consume_their_events() {
    let mut ctx = MainContext::new();
    let a = ActorId::new(1, 0);
    assert_eq!(ctx.grab_pointer(a), None);
    assert!(ctx.do_event(dummy_event(), EventRouting::Pointer));
    assert!(!ctx.do_event(dummy_event(), EventRouting::Key));
    assert_eq!(ctx.grab_keyboard(a), None);
    assert!(ctx.do_event(dummy_event(), EventRouting::Key));
    assert_eq!(ctx.n_pending_events(), 1);
    ctx.ungrab_pointer();
    ctx.ungrab_keyboard();
    assert!(!ctx.do_event(dummy_event(), EventRouting::Pointer));
    assert_eq!(ctx.n_pending_events(), 2);
    assert_eq!(ctx.get_pointer_grab(), None);
}

#[test]
fn settings_round_trip() {
    let mut ctx = MainContext::<AnyEvent>::default();
    ctx.set_font_name("Cantarell 11");
    assert_eq!(ctx.get_font_name(), "Cantarell 11");
    ctx.disable_accessibility();
    assert!(!ctx.get_accessibility_enabled());
    ctx.clear_glyph_cache();
    assert!(ctx.is_glyph_cache_dirty());
    ctx.clear_glyph_cache_dirty();
    assert!(!ctx.is_glyph_cache_dirty());
    ctx.set_custom_backend_func(7);
    assert_eq!(ctx.get_custom_backend_func(), Some(7));
    ctx.set_backend_type(BackendType::Wayland);
    assert_eq!(ctx.get_backend_type(), BackendType::Wayland);
    assert!(!ctx.is_initialized());
    assert_eq!(ctx.init_with_args(BackendType::X11), InitResult::Success);
    assert_eq!(ctx.init_with_args(BackendType::X11), InitResult::ErrorAlreadyInitialized);
    assert_eq!(ctx.main_quit(), 0);
    assert!(ctx.has_quit());
}
