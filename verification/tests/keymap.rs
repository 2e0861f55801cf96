use mutter::keymap::{
    caps_lock_state, current_display_name, current_short_name, get_direction, layout_index,
    modifier_state, num_lock_state, Keymap, TextDirection,
};

struct TestKeymap {
    caps_locked: bool,
    num_locked: bool,
}

impl Keymap for TestKeymap {
    fn get_direction(&self) -> TextDirection {
        TextDirection::Ltr
    }
    fn caps_lock_state(&self) -> bool {
        self.caps_locked
    }
    fn num_lock_state(&self) -> bool {
        self.num_locked
    }
}

#[test]
fn get_direction_returns_impl_value() {
    let km = TestKeymap { caps_locked: false, num_locked: false };
    assert_eq!(get_direction(&km), TextDirection::Ltr);
}

#[test]
fn lock_states_return_impl_values() {
    let km = TestKeymap { caps_locked: true, num_locked: false };
    assert_eq!(caps_lock_state(&km), true);
    assert_eq!(num_lock_state(&km), false);
}

#[test]
fn default_impl_returns_none() {
    let km = TestKeymap { caps_locked: false, num_locked: false };
    assert_eq!(current_display_name(&km), None);
    assert_eq!(current_short_name(&km), None);
    assert_eq!(modifier_state(&km), (0, 0, 0));
    assert_eq!(layout_index(&km), 0);
}

struct RtlKeymap;

impl Keymap for RtlKeymap {
    fn get_direction(&self) -> TextDirection {
        TextDirection::Rtl
    }
    fn current_short_name(&self) -> Option<&str> {
        Some("he")
    }
    fn layout_index(&self) -> u32 {
        2
    }
}

#[test]
fn overridden_queries_are_forwarded() {
    let km = RtlKeymap;
    assert_eq!(get_direction(&km), TextDirection::Rtl);
    assert_eq!(current_short_name(&km), Some("he"));
    assert_eq!(layout_index(&km), 2);
    assert!(!caps_lock_state(&km));
}
