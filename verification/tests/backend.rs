use mutter::backend::{
    Backend, BackendImpl, CoglContext, InputMethod, NullBackend, StageId, StageManager,
    StageWindow, UnitType,
};
use mutter::context::TextDirection;

#[test]
fn add_remove_stages() {
    let mut backend = Backend::default();
    let s1 = StageId(0);
    let s2 = StageId(1);
    backend.add_stage(s1);
    backend.add_stage(s2);
    assert_eq!(backend.n_stages(), 2);
    backend.add_stage(s1);
    assert_eq!(backend.n_stages(), 2);
    backend.remove_stage(s1);
    assert_eq!(backend.n_stages(), 1);
    assert_eq!(backend.stages(), &[s2]);
}

struct TestBackend;

impl BackendImpl for TestBackend {
    fn create_context(&mut self) -> Option<CoglContext> {
        Some(CoglContext { handle: 99 })
    }
}

#[test]
fn ensure_context_creates_cogl_context() {
    let mut backend = Backend::new(TestBackend);
    assert!(backend.get_cogl_context().is_none());
    backend.ensure_context(StageId(0));
    assert_eq!(backend.get_cogl_context().unwrap().handle, 99);
}

#[test]
fn new_backend_state() {
    let mut backend = Backend::default();
    assert!(backend.get_context().is_none());
    assert!(backend.get_cogl_context().is_none());
    assert_eq!(backend.get_text_direction(), TextDirection::Ltr);
    assert!(!backend.has_changed_dpi());
    assert_eq!(backend.get_sync_delay(), 0);
    assert!(!backend.get_caps_lock_state());
    assert!(!backend.get_num_lock_state());
    assert_eq!(backend.get_allowed_units(), UnitType::Pixel);
    assert_eq!(backend.n_stages(), 0);
    assert!(backend.get_stage_manager().is_none());
    assert!(backend.get_stage_window().is_none());
    assert!(backend.get_input_method().is_none());
    assert_eq!(backend.get_features().0, 0);
    assert_eq!(backend.get_max_texture_size(), 0);
    assert_eq!(backend.get_buffer_age(StageId(3)), 0);
}

#[test]
fn dpi_change_is_remembered_until_cleared() {
    let mut backend = Backend::new(NullBackend);
    backend.record_dpi_change(false);
    assert!(!backend.has_changed_dpi());
    backend.record_dpi_change(true);
    backend.record_dpi_change(false);
    assert!(backend.has_changed_dpi());
    backend.clear_dpi_changed();
    assert!(!backend.has_changed_dpi());
}

/// A platform that reports its own values for every query.
struct LoudBackend {
    sync_delay: i32,
    told_delay: i32,
}

impl BackendImpl for LoudBackend {
    fn get_stage_manager(&self) -> Option<StageManager> {
        Some(StageManager { handle: 5 })
    }
    fn get_sync_delay(&self) -> i32 {
        self.sync_delay
    }
    fn set_sync_delay(&mut self, delay: i32) {
        self.told_delay = delay;
    }
    fn get_caps_lock_state(&self) -> bool {
        true
    }
    fn get_stage_window(&self) -> Option<StageWindow> {
        Some(StageWindow { handle: 6 })
    }
    fn get_input_method(&self) -> Option<InputMethod> {
        Some(InputMethod { handle: 7 })
    }
}

#[test]
fn platform_values_take_precedence() {
    let mut backend = Backend::new(LoudBackend { sync_delay: 16, told_delay: 0 });
    backend.set_stage_manager(StageManager { handle: 1 });
    backend.set_stage_window(StageWindow { handle: 2 });
    backend.set_input_method(InputMethod { handle: 3 });
    backend.set_sync_delay(4);
    backend.set_caps_lock_state(false);
    assert_eq!(backend.get_stage_manager(), Some(StageManager { handle: 5 }));
    assert_eq!(backend.get_stage_window(), Some(StageWindow { handle: 6 }));
    assert_eq!(backend.get_input_method(), Some(InputMethod { handle: 7 }));
    assert_eq!(backend.get_sync_delay(), 16);
    assert!(backend.get_caps_lock_state());
}

#[test]
fn backend_values_stand_in_for_a_silent_platform() {
    let mut backend = Backend::new(LoudBackend { sync_delay: 0, told_delay: 0 });
    backend.set_sync_delay(9);
    assert_eq!(backend.get_sync_delay(), 9);
    let mut quiet = Backend::new(NullBackend);
    quiet.set_stage_manager(StageManager { handle: 1 });
    quiet.set_num_lock_state(true);
    quiet.set_context(12);
    quiet.set_text_direction(TextDirection::Rtl);
    quiet.set_allowed_units(UnitType::Mm);
    assert_eq!(quiet.get_stage_manager(), Some(StageManager { handle: 1 }));
    assert!(quiet.get_num_lock_state());
    assert_eq!(quiet.get_context(), Some(12));
    assert_eq!(quiet.get_text_direction(), TextDirection::Rtl);
    assert_eq!(quiet.get_allowed_units(), UnitType::Mm);
}

#[test]
fn stage_registration_round_trip() {
    let mut backend = Backend::default();
    backend.add_stage(StageId(4));
    backend.add_stage(StageId(9));
    backend.add_stage(StageId(4));
    assert_eq!(backend.stages(), &[StageId(4), StageId(9)]);
    backend.remove_stage(StageId(7));
    assert_eq!(backend.stages(), &[StageId(4), StageId(9)]);
    backend.remove_stage(StageId(9));
    assert_eq!(backend.stages(), &[StageId(4)]);
}

#[test]
fn platform_answers_are_combined_with_the_stored_values() {
    let mut backend = Backend::new(NullBackend);
    backend.set_stage_manager(StageManager { handle: 4 });
    assert_eq!(backend.stage_manager_from_platform(Some(StageManager { handle: 9 })), Some(StageManager { handle: 9 }));
    assert_eq!(backend.stage_manager_from_platform(None), Some(StageManager { handle: 4 }));
    assert_eq!(backend.stage_window_from_platform(None), None);
    backend.set_input_method(InputMethod { handle: 2 });
    assert_eq!(backend.input_method_from_platform(None), Some(InputMethod { handle: 2 }));
    backend.set_sync_delay(7);
    assert_eq!(backend.sync_delay_from_platform(0), 7);
    assert_eq!(backend.sync_delay_from_platform(3), 3);
    assert!(backend.caps_lock_from_platform(true));
    assert!(!backend.caps_lock_from_platform(false));
    backend.set_num_lock_state(true);
    assert!(backend.num_lock_from_platform(false));
}

#[test]
fn adopt_context_keeps_an_existing_context() {
    let mut backend = Backend::new(NullBackend);
    backend.adopt_context(None);
    assert_eq!(backend.get_cogl_context(), None);
    backend.adopt_context(Some(CoglContext { handle: 1 }));
    assert_eq!(backend.get_cogl_context(), Some(&CoglContext { handle: 1 }));
    backend.adopt_context(Some(CoglContext { handle: 2 }));
    assert_eq!(backend.get_cogl_context(), Some(&CoglContext { handle: 1 }));
}
