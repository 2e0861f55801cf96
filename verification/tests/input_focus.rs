use mutter::input_focus::{
    commit_text, delete_surrounding, focus_in, focus_out, request_surrounding, set_preedit_text,
    trigger_action, InputAction, InputFocus, PreeditAttribute, PreeditStyleHint,
};

struct TestFocus {
    preedit: Option<String>,
}

impl InputFocus for TestFocus {
    fn commit_text(&mut self, text: &str) {
        self.preedit = Some(text.into());
    }
    fn set_preedit_text(
        &mut self,
        preedit: Option<&str>,
        _cursor: u32,
        _anchor: u32,
        _style_hints: &[PreeditAttribute],
    ) {
        self.preedit = preedit.map(|s| s.into());
    }
}

#[test]
fn commit_text_sets_preedit() {
    let mut f = TestFocus { preedit: None };
    commit_text(&mut f, "hello");
    assert_eq!(f.preedit.as_deref(), Some("hello"));
}

#[test]
fn set_preedit_text_with_none_clears() {
    let mut f = TestFocus { preedit: Some("hello".into()) };
    set_preedit_text(&mut f, None, 0, 0, &[]);
    assert_eq!(f.preedit, None);
}

#[test]
fn preedit_attribute_fields() {
    let attr = PreeditAttribute { hint: PreeditStyleHint::Underline, start: 0, end: 5 };
    assert_eq!(attr.hint, PreeditStyleHint::Underline);
    assert_eq!(attr.start, 0);
    assert_eq!(attr.end, 5);
}

#[test]
fn default_methods_are_noop() {
    struct Bare;
    impl InputFocus for Bare {}
    let mut f = Bare;
    focus_in(&mut f);
    focus_out(&mut f);
    request_surrounding(&mut f);
    delete_surrounding(&mut f, -1, 5);
    commit_text(&mut f, "text");
    set_preedit_text(&mut f, Some("pre"), 0, 1, &[]);
    trigger_action(&mut f, InputAction::Commit);
}
