//! The keymap interface: text direction, lock states, modifier state and
//! layout of the keyboard, implemented per keymap source.
use vstd::prelude::*;

verus! {

/// A modifier mask.
pub type XkbModMask = u32;

/// The index of a keyboard layout.
pub type XkbLayoutIndex = u32;

/// The text direction of the current layout.
#[derive(Debug, Clone, Copy, PartialEq, Eq, Structural)]
pub enum TextDirection {
    Ltr,
    Rtl,
}

/// A keymap. Only the direction must be given; the other queries default
/// to neutral values.
pub trait Keymap {
    /// The text direction of the current layout.
    fn get_direction(&self) -> TextDirection;

    /// Whether Caps Lock is on.
    fn caps_lock_state(&self) -> (r: bool)
        default_ensures
            r == false,
    {
        false
    }

    /// Whether Num Lock is on.
    fn num_lock_state(&self) -> (r: bool)
        default_ensures
            r == false,
    {
        false
    }

    /// The pressed, latched and locked modifier masks.
    fn modifier_state(&self) -> (r: (XkbModMask, XkbModMask, XkbModMask))
        default_ensures
            r == (0u32, 0u32, 0u32),
    {
        (0, 0, 0)
    }

    /// The index of the active layout.
    fn layout_index(&self) -> (r: XkbLayoutIndex)
        default_ensures
            r == 0,
    {
        0
    }

    /// The display name of the active layout.
    fn current_display_name(&self) -> (r: Option<&str>)
        default_ensures
            r is None,
    {
        None
    }

    /// The short name of the active layout.
    fn current_short_name(&self) -> (r: Option<&str>)
        default_ensures
            r is None,
    {
        None
    }
}

/// The keymap's text direction.
pub fn get_direction<K: Keymap>(keymap: &K) -> TextDirection {
    keymap.get_direction()
}

/// Whether Caps Lock is on.
pub fn caps_lock_state<K: Keymap>(keymap: &K) -> bool {
    keymap.caps_lock_state()
}

/// Whether Num Lock is on.
pub fn num_lock_state<K: Keymap>(keymap: &K) -> bool {
    keymap.num_lock_state()
}

/// The pressed, latched and locked modifier masks.
pub fn modifier_state<K: Keymap>(keymap: &K) -> (XkbModMask, XkbModMask, XkbModMask) {
    keymap.modifier_state()
}

/// The index of the active layout.
pub fn layout_index<K: Keymap>(keymap: &K) -> XkbLayoutIndex {
    keymap.layout_index()
}

/// The display name of the active layout.
pub fn current_display_name<K: Keymap>(keymap: &K) -> Option<&str> {
    keymap.current_display_name()
}

/// The short name of the active layout.
pub fn current_short_name<K: Keymap>(keymap: &K) -> Option<&str> {
    keymap.current_short_name()
}

} // verus!
