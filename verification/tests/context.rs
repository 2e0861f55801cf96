use mutter::context::{Backend, Context, TextDirection};

#[test]
fn new_context_defaults() {
    let ctx = Context::new();
    assert_eq!(ctx.text_direction, TextDirection::Ltr);
    assert!(!ctx.show_fps);
    assert_eq!(ctx.last_repaint_id, 1);
    assert!(ctx.backend.is_none());
    assert!(ctx.settings.is_none());
    assert!(ctx.stage_manager.is_none());
    assert!(ctx.color_manager.is_none());
    assert!(ctx.pipeline_cache.is_none());
    assert!(ctx.events_queue.is_none());
}

#[test]
fn set_get_backend() {
    let mut ctx = Context::new();
    let backend = Backend;
    ctx.set_backend(backend);
    assert!(ctx.get_backend().is_some());
}

#[test]
fn set_get_text_direction() {
    let mut ctx = Context::new();
    ctx.set_text_direction(TextDirection::Rtl);
    assert_eq!(ctx.get_text_direction(), TextDirection::Rtl);
}

#[test]
fn set_get_show_fps() {
    let mut ctx = Context::new();
    ctx.set_show_fps(true);
    assert!(ctx.get_show_fps());
}

#[test]
fn set_get_last_repaint_id() {
    let mut ctx = Context::new();
    ctx.set_last_repaint_id(42);
    assert_eq!(ctx.get_last_repaint_id(), 42);
}
