//! Easing modes and their names.
use vstd::prelude::*;

verus! {

/// An animation easing mode, numbered from `CustomMode` (0) to the
/// `AnimationLast` sentinel (40).
#[derive(Debug, Clone, Copy, PartialEq, Eq, Structural, Hash, Default)]
pub enum AnimationMode {
    #[default]
    CustomMode,
    Linear,
    EaseInQuad,
    EaseOutQuad,
    EaseInOutQuad,
    EaseInCubic,
    EaseOutCubic,
    EaseInOutCubic,
    EaseInQuart,
    EaseOutQuart,
    EaseInOutQuart,
    EaseInQuint,
    EaseOutQuint,
    EaseInOutQuint,
    EaseInSine,
    EaseOutSine,
    EaseInOutSine,
    EaseInExpo,
    EaseOutExpo,
    EaseInOutExpo,
    EaseInCirc,
    EaseOutCirc,
    EaseInOutCirc,
    EaseInElastic,
    EaseOutElastic,
    EaseInOutElastic,
    EaseInBack,
    EaseOutBack,
    EaseInOutBack,
    EaseInBounce,
    EaseOutBounce,
    EaseInOutBounce,
    Steps,
    StepStart,
    StepEnd,
    CubicBezier,
    Ease,
    EaseIn,
    EaseOut,
    EaseInOut,
    AnimationLast,
}

/// The name of a mode: "custom" for `CustomMode`, "sentinel" for
/// `AnimationLast`, and the camel-case mode name otherwise.
pub open spec fn spec_easing_name(mode: AnimationMode) -> Seq<char> {
    match mode {
        AnimationMode::CustomMode => "custom"@,
        AnimationMode::Linear => "linear"@,
        AnimationMode::EaseInQuad => "easeInQuad"@,
        AnimationMode::EaseOutQuad => "easeOutQuad"@,
        AnimationMode::EaseInOutQuad => "easeInOutQuad"@,
        AnimationMode::EaseInCubic => "easeInCubic"@,
        AnimationMode::EaseOutCubic => "easeOutCubic"@,
        AnimationMode::EaseInOutCubic => "easeInOutCubic"@,
        AnimationMode::EaseInQuart => "easeInQuart"@,
        AnimationMode::EaseOutQuart => "easeOutQuart"@,
        AnimationMode::EaseInOutQuart => "easeInOutQuart"@,
        AnimationMode::EaseInQuint => "easeInQuint"@,
        AnimationMode::EaseOutQuint => "easeOutQuint"@,
        AnimationMode::EaseInOutQuint => "easeInOutQuint"@,
        AnimationMode::EaseInSine => "easeInSine"@,
        AnimationMode::EaseOutSine => "easeOutSine"@,
        AnimationMode::EaseInOutSine => "easeInOutSine"@,
        AnimationMode::EaseInExpo => "easeInExpo"@,
        AnimationMode::EaseOutExpo => "easeOutExpo"@,
        AnimationMode::EaseInOutExpo => "easeInOutExpo"@,
        AnimationMode::EaseInCirc => "easeInCirc"@,
        AnimationMode::EaseOutCirc => "easeOutCirc"@,
        AnimationMode::EaseInOutCirc => "easeInOutCirc"@,
        AnimationMode::EaseInElastic => "easeInElastic"@,
        AnimationMode::EaseOutElastic => "easeOutElastic"@,
        AnimationMode::EaseInOutElastic => "easeInOutElastic"@,
        AnimationMode::EaseInBack => "easeInBack"@,
        AnimationMode::EaseOutBack => "easeOutBack"@,
        AnimationMode::EaseInOutBack => "easeInOutBack"@,
        AnimationMode::EaseInBounce => "easeInBounce"@,
        AnimationMode::EaseOutBounce => "easeOutBounce"@,
        AnimationMode::EaseInOutBounce => "easeInOutBounce"@,
        AnimationMode::Steps => "steps"@,
        AnimationMode::StepStart => "stepStart"@,
        AnimationMode::StepEnd => "stepEnd"@,
        AnimationMode::CubicBezier => "cubicBezier"@,
        AnimationMode::Ease => "ease"@,
        AnimationMode::EaseIn => "easeIn"@,
        AnimationMode::EaseOut => "easeOut"@,
        AnimationMode::EaseInOut => "easeInOut"@,
        AnimationMode::AnimationLast => "sentinel"@,
    }
}

/// The name of an easing mode.
pub fn easing_name_for_mode(mode: AnimationMode) -> (name: &'static str)
    ensures
        name@ == spec_easing_name(mode),
{
    match mode {
        AnimationMode::CustomMode => "custom",
        AnimationMode::Linear => "linear",
        AnimationMode::EaseInQuad => "easeInQuad",
        AnimationMode::EaseOutQuad => "easeOutQuad",
        AnimationMode::EaseInOutQuad => "easeInOutQuad",
        AnimationMode::EaseInCubic => "easeInCubic",
        AnimationMode::EaseOutCubic => "easeOutCubic",
        AnimationMode::EaseInOutCubic => "easeInOutCubic",
        AnimationMode::EaseInQuart => "easeInQuart",
        AnimationMode::EaseOutQuart => "easeOutQuart",
        AnimationMode::EaseInOutQuart => "easeInOutQuart",
        AnimationMode::EaseInQuint => "easeInQuint",
        AnimationMode::EaseOutQuint => "easeOutQuint",
        AnimationMode::EaseInOutQuint => "easeInOutQuint",
        AnimationMode::EaseInSine => "easeInSine",
        AnimationMode::EaseOutSine => "easeOutSine",
        AnimationMode::EaseInOutSine => "easeInOutSine",
        AnimationMode::EaseInExpo => "easeInExpo",
        AnimationMode::EaseOutExpo => "easeOutExpo",
        AnimationMode::EaseInOutExpo => "easeInOutExpo",
        AnimationMode::EaseInCirc => "easeInCirc",
        AnimationMode::EaseOutCirc => "easeOutCirc",
        AnimationMode::EaseInOutCirc => "easeInOutCirc",
        AnimationMode::EaseInElastic => "easeInElastic",
        AnimationMode::EaseOutElastic => "easeOutElastic",
        AnimationMode::EaseInOutElastic => "easeInOutElastic",
        AnimationMode::EaseInBack => "easeInBack",
        AnimationMode::EaseOutBack => "easeOutBack",
        AnimationMode::EaseInOutBack => "easeInOutBack",
        AnimationMode::EaseInBounce => "easeInBounce",
        AnimationMode::EaseOutBounce => "easeOutBounce",
        AnimationMode::EaseInOutBounce => "easeInOutBounce",
        AnimationMode::Steps => "steps",
        AnimationMode::StepStart => "stepStart",
        AnimationMode::StepEnd => "stepEnd",
        AnimationMode::CubicBezier => "cubicBezier",
        AnimationMode::Ease => "ease",
        AnimationMode::EaseIn => "easeIn",
        AnimationMode::EaseOut => "easeOut",
        AnimationMode::EaseInOut => "easeInOut",
        AnimationMode::AnimationLast => "sentinel",
    }
}

} // verus!
