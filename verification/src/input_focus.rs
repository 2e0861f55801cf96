//! The input-method focus interface of text widgets, and the preedit
//! types it exchanges.
use vstd::prelude::*;

verus! {

/// The style hint of a span of preedit text. `NoStyle` means unstyled.
#[derive(Debug, Clone, Copy, PartialEq, Eq, Structural, Hash)]
pub enum PreeditStyleHint {
    NoStyle,
    Default,
    Highlight,
    Underline,
    Active,
}

/// A styled span of preedit text, in characters.
#[derive(Debug, Clone, Copy, PartialEq, Eq, Structural)]
pub struct PreeditAttribute {
    pub hint: PreeditStyleHint,
    pub start: u32,
    pub end: u32,
}

/// What happens to the preedit text on reset.
#[derive(Debug, Clone, Copy, PartialEq, Eq, Structural, Hash)]
pub enum PreeditResetMode {
    Clear,
    Commit,
}

/// An input-method action.
#[derive(Debug, Clone, Copy, PartialEq, Eq, Structural, Hash)]
pub enum InputAction {
    Commit,
    Delete,
    SwitchGroup,
}

/// A text widget that an input method talks to. Every method does nothing
/// unless the widget overrides it.
pub trait InputFocus {
    /// The widget gained input-method focus.
    fn focus_in(&mut self) {
    }

    /// The widget lost input-method focus.
    fn focus_out(&mut self) {
    }

    /// The input method asks for the text around the cursor.
    fn request_surrounding(&mut self) {
    }

    /// Deletes `len` characters starting `offset` characters from the
    /// cursor.
    fn delete_surrounding(&mut self, _offset: i32, _len: u32) {
    }

    /// Commits `text` from the input method.
    fn commit_text(&mut self, _text: &str) {
    }

    /// Sets (or, with `None`, clears) the preedit text.
    fn set_preedit_text(
        &mut self,
        _preedit: Option<&str>,
        _cursor: u32,
        _anchor: u32,
        _style_hints: &[PreeditAttribute],
    ) {
    }

    /// Performs an input-method action.
    fn action(&mut self, _action: InputAction) {
    }
}

/// Tells `focus` that it gained focus.
pub fn focus_in<F: InputFocus>(focus: &mut F) {
    focus.focus_in();
}

/// Tells `focus` that it lost focus.
pub fn focus_out<F: InputFocus>(focus: &mut F) {
    focus.focus_out();
}

/// Asks `focus` for its surrounding text.
pub fn request_surrounding<F: InputFocus>(focus: &mut F) {
    focus.request_surrounding();
}

/// Asks `focus` to delete text around the cursor.
pub fn delete_surrounding<F: InputFocus>(focus: &mut F, offset: i32, len: u32) {
    focus.delete_surrounding(offset, len);
}

/// Commits `text` to `focus`.
pub fn commit_text<F: InputFocus>(focus: &mut F, text: &str) {
    focus.commit_text(text);
}

/// Sets the preedit text of `focus`.
pub fn set_preedit_text<F: InputFocus>(
    focus: &mut F,
    preedit: Option<&str>,
    cursor: u32,
    anchor: u32,
    style_hints: &[PreeditAttribute],
) {
    focus.set_preedit_text(preedit, cursor, anchor, style_hints);
}

/// Performs `action` on `focus`.
pub fn trigger_action<F: InputFocus>(focus: &mut F, action: InputAction) {
    focus.action(action);
}

} // verus!
