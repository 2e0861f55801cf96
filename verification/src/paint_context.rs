//! Paint flags and the color description types of a paint context.
use vstd::prelude::*;

verus! {

/// Flags of a paint pass, as a bit set over `NO_CURSORS`, `FORCE_CURSORS`
/// and `CLEAR`.
#[derive(Debug, Clone, Copy, PartialEq, Eq, Structural, Default)]
pub struct PaintFlag(u32);

impl PaintFlag {
    /// The bits of the set.
    pub closed spec fn bits(self) -> u32 {
        self.0
    }

    /// The empty set.
    pub fn none() -> (r: Self)
        ensures
            r.bits() == 0,
    {
        PaintFlag(0)
    }

    /// Cursors are not painted.
    pub fn no_cursors() -> (r: Self)
        ensures
            r.bits() == 1,
    {
        PaintFlag(1)
    }

    /// Cursors are painted even where they would be skipped.
    pub fn force_cursors() -> (r: Self)
        ensures
            r.bits() == 2,
    {
        PaintFlag(2)
    }

    /// The target is cleared before painting.
    pub fn clear() -> (r: Self)
        ensures
            r.bits() == 4,
    {
        PaintFlag(4)
    }

    /// The set holding the bits of both operands.
    pub fn union(self, other: PaintFlag) -> (r: PaintFlag)
        ensures
            r.bits() == self.bits() | other.bits(),
    {
        PaintFlag(self.0 | other.0)
    }

    /// Whether every bit of `flag` is set in `self`.
    pub fn contains(self, flag: PaintFlag) -> (r: bool)
        ensures
            r == (self.bits() & flag.bits() == flag.bits()),
    {
        (self.0 & flag.0) == flag.0
    }
}

/// A render target. All framebuffers compare equal: only the depth of the
/// framebuffer stack matters.
#[derive(Debug, Clone, PartialEq, Eq)]
pub struct Framebuffer;

/// The transfer function that encodes color values.
#[derive(Debug, Clone, Copy, PartialEq, Eq, Structural)]
pub enum TransferFunction {
    SRGB,
    PQ,
    Linear,
}

/// The primaries of a color space.
#[derive(Debug, Clone, Copy, PartialEq, Eq, Structural)]
pub enum Gamut {
    SRGB,
    Bt2020,
}

/// The electro-optical transfer function of a color state.
#[derive(Debug, Clone, Copy, PartialEq, Eq, Structural)]
pub enum Eotf {
    SRGB,
    PQ,
    Linear,
}

/// A color state: transfer function, gamut and transfer to light.
#[derive(Debug, Clone, Copy, PartialEq, Eq, Structural)]
pub struct ColorState {
    transfer_function: TransferFunction,
    gamut: Gamut,
    eotf: Eotf,
}

impl ColorState {
    /// The transfer function, as a spec value.
    pub closed spec fn spec_transfer_function(&self) -> TransferFunction {
        self.transfer_function
    }

    /// The gamut, as a spec value.
    pub closed spec fn spec_gamut(&self) -> Gamut {
        self.gamut
    }

    /// The transfer to light, as a spec value.
    pub closed spec fn spec_eotf(&self) -> Eotf {
        self.eotf
    }

    /// The color state of the given parts.
    pub fn new(transfer_function: TransferFunction, gamut: Gamut, eotf: Eotf) -> (c: ColorState)
        ensures
            c.spec_transfer_function() == transfer_function,
            c.spec_gamut() == gamut,
            c.spec_eotf() == eotf,
    {
        ColorState { transfer_function, gamut, eotf }
    }

    /// sRGB throughout.
    pub fn srgb() -> (c: ColorState)
        ensures
            c.spec_transfer_function() == TransferFunction::SRGB,
            c.spec_gamut() == Gamut::SRGB,
            c.spec_eotf() == Eotf::SRGB,
    {
        ColorState::new(TransferFunction::SRGB, Gamut::SRGB, Eotf::SRGB)
    }

    /// The transfer function.
    pub fn transfer_function(&self) -> (r: TransferFunction)
        ensures
            r == self.spec_transfer_function(),
    {
        self.transfer_function
    }

    /// The gamut.
    pub fn gamut(&self) -> (r: Gamut)
        ensures
            r == self.spec_gamut(),
    {
        self.gamut
    }

    /// The transfer to light.
    pub fn eotf(&self) -> (r: Eotf)
        ensures
            r == self.spec_eotf(),
    {
        self.eotf
    }
}

impl Default for ColorState {
    /// sRGB throughout.
    fn default() -> (c: ColorState)
        ensures
            c.spec_transfer_function() == TransferFunction::SRGB,
            c.spec_gamut() == Gamut::SRGB,
            c.spec_eotf() == Eotf::SRGB,
    {
        ColorState::srgb()
    }
}

/// The presentation record of a view: when it last presented, how many
/// frames it presented, and how many are begun and not yet presented.
#[derive(Debug, Clone, PartialEq)]
pub struct Frame {
    pub last_presentation_time: i64,
    pub frame_counter: u64,
    pub pending_frame_count: u32,
}

impl Frame {
    /// Nothing presented or begun.
    pub fn new() -> (f: Frame)
        ensures
            f == (Frame { last_presentation_time: 0, frame_counter: 0, pending_frame_count: 0 }),
    {
        Frame { last_presentation_time: 0, frame_counter: 0, pending_frame_count: 0 }
    }

    /// The time of the last presentation.
    pub fn last_presentation_time(&self) -> (r: i64)
        ensures
            r == self.last_presentation_time,
    {
        self.last_presentation_time
    }

    /// The number of frames presented, saturating.
    pub fn frame_counter(&self) -> (r: u64)
        ensures
            r == self.frame_counter,
    {
        self.frame_counter
    }

    /// The number of frames begun and not yet presented.
    pub fn pending_frame_count(&self) -> (r: u32)
        ensures
            r == self.pending_frame_count,
    {
        self.pending_frame_count
    }

    /// Records a presentation at `time`: one more frame presented (the
    /// count saturating) and one fewer pending (none fewer than zero).
    pub fn record_presentation(&mut self, time: i64)
        ensures
            final(self).last_presentation_time == time,
            final(self).frame_counter == if old(self).frame_counter == u64::MAX {
                u64::MAX
            } else {
                (old(self).frame_counter + 1) as u64
            },
            final(self).pending_frame_count == if old(self).pending_frame_count > 0 {
                (old(self).pending_frame_count - 1) as u32
            } else {
                0
            },
    {
        self.last_presentation_time = time;
        self.frame_counter = self.frame_counter.saturating_add(1);
        if self.pending_frame_count > 0 {
            self.pending_frame_count -= 1;
        }
    }

    /// Records a begun frame: one more pending, saturating.
    pub fn begin_frame(&mut self)
        ensures
            final(self).pending_frame_count == if old(self).pending_frame_count == u32::MAX {
                u32::MAX
            } else {
                (old(self).pending_frame_count + 1) as u32
            },
            final(self).last_presentation_time == old(self).last_presentation_time,
            final(self).frame_counter == old(self).frame_counter,
    {
        self.pending_frame_count = self.pending_frame_count.saturating_add(1);
    }
}

/// A frame begun and then presented leaves the pending count as it was,
/// below saturation.
pub proof fn law_begin_then_present_balances(pending: u32)
    requires
        pending < u32::MAX,
    ensures
        ({
            let begun = (pending + 1) as u32;
            (if begun > 0 { (begun - 1) as u32 } else { 0u32 }) == pending
        }),
{
}

/// The state of a paint context: its flags, the stack of framebuffers
/// (innermost first), the view and frame it paints, the region to redraw,
/// the clip frusta, and the stacks of target and current color states
/// (innermost first).
pub struct PaintContextView<V, F, R, K> {
    pub paint_flags: PaintFlag,
    pub framebuffers: Seq<Framebuffer>,
    pub view: Option<V>,
    pub frame: Option<F>,
    pub redraw_clip: Option<R>,
    pub clip_frusta: Seq<K>,
    pub target_color_states: Seq<ColorState>,
    pub color_states: Seq<ColorState>,
    pub framebuffer_color_state: Option<ColorState>,
}

/// A paint context, over views of type `V`, frames of type `F`, redraw
/// regions of type `R` and clip frusta of type `K`.
pub struct PaintContext<V, F, R, K> {
    paint_flags: PaintFlag,
    framebuffers: Vec<Framebuffer>,
    view: Option<V>,
    frame: Option<F>,
    redraw_clip: Option<R>,
    clip_frusta: Vec<K>,
    target_color_states: Vec<ColorState>,
    color_states: Vec<ColorState>,
    framebuffer_color_state: Option<ColorState>,
}

impl<V, F, R, K> View for PaintContext<V, F, R, K> {
    type V = PaintContextView<V, F, R, K>;

    closed spec fn view(&self) -> PaintContextView<V, F, R, K> {
        PaintContextView {
            paint_flags: self.paint_flags,
            framebuffers: self.framebuffers@,
            view: self.view,
            frame: self.frame,
            redraw_clip: self.redraw_clip,
            clip_frusta: self.clip_frusta@,
            target_color_states: self.target_color_states@,
            color_states: self.color_states@,
            framebuffer_color_state: self.framebuffer_color_state,
        }
    }
}

impl<V, F, R, K> PaintContext<V, F, R, K> {
    /// A context painting `view`: its framebuffer and color state are the
    /// first on their stacks.
    pub fn new_for_view(
        view: V,
        redraw_clip: R,
        clip_frusta: Vec<K>,
        paint_flags: PaintFlag,
        view_color_state: ColorState,
        view_framebuffer: Framebuffer,
    ) -> (c: Self)
        ensures
            c@.paint_flags == paint_flags,
            c@.framebuffers == seq![view_framebuffer],
            c@.view == Some(view),
            c@.frame is None,
            c@.redraw_clip == Some(redraw_clip),
            c@.clip_frusta == clip_frusta@,
            c@.target_color_states == seq![view_color_state],
            c@.color_states == Seq::<ColorState>::empty(),
            c@.framebuffer_color_state == Some(view_color_state),
    {
        let mut ctx = PaintContext {
            paint_flags,
            framebuffers: Vec::new(),
            view: Some(view),
            frame: None,
            redraw_clip: Some(redraw_clip),
            clip_frusta,
            target_color_states: Vec::new(),
            color_states: Vec::new(),
            framebuffer_color_state: Some(view_color_state),
        };
        ctx.push_target_color_state(view_color_state);
        ctx.push_framebuffer(view_framebuffer);
        ctx
    }

    /// A context painting off stage into `framebuffer`.
    pub fn new_for_framebuffer(
        framebuffer: Framebuffer,
        redraw_clip: Option<R>,
        paint_flags: PaintFlag,
        color_state: ColorState,
    ) -> (c: Self)
        ensures
            c@.paint_flags == paint_flags,
            c@.framebuffers == seq![framebuffer],
            c@.view is None,
            c@.frame is None,
            c@.redraw_clip == redraw_clip,
            c@.clip_frusta == Seq::<K>::empty(),
            c@.target_color_states == seq![color_state],
            c@.color_states == Seq::<ColorState>::empty(),
            c@.framebuffer_color_state == Some(color_state),
    {
        let mut ctx = PaintContext {
            paint_flags,
            framebuffers: Vec::new(),
            view: None,
            frame: None,
            redraw_clip,
            clip_frusta: Vec::new(),
            target_color_states: Vec::new(),
            color_states: Vec::new(),
            framebuffer_color_state: Some(color_state),
        };
        ctx.push_target_color_state(color_state);
        ctx.push_framebuffer(framebuffer);
        ctx
    }

    /// Paints into `framebuffer` from now on, until it is popped.
    pub fn push_framebuffer(&mut self, framebuffer: Framebuffer)
        ensures
            final(self)@ == (PaintContextView { framebuffers: seq![framebuffer] + old(self)@.framebuffers, ..old(self)@ }),
    {
        self.framebuffers.insert(0, framebuffer);
        assert(self@.framebuffers =~= seq![framebuffer] + old(self)@.framebuffers);
    }

    /// Goes back to the framebuffer pushed before the innermost one, which
    /// must exist.
    pub fn pop_framebuffer(&mut self)
        requires
            old(self)@.framebuffers.len() > 0,
        ensures
            final(self)@ == (PaintContextView { framebuffers: old(self)@.framebuffers.drop_first(), ..old(self)@ }),
    {
        self.framebuffers.remove(0);
        assert(self@.framebuffers =~= old(self)@.framebuffers.drop_first());
    }

    /// The region to redraw, if any.
    pub fn redraw_clip(&self) -> (r: Option<&R>)
        ensures
            r == match self@.redraw_clip {
                Some(x) => Some(&x),
                None => None,
            },
    {
        self.redraw_clip.as_ref()
    }

    /// The clip frusta.
    pub fn clip_frusta(&self) -> (r: &[K])
        ensures
            r@ == self@.clip_frusta,
    {
        self.clip_frusta.as_slice()
    }

    /// The innermost framebuffer, if any.
    pub fn framebuffer(&self) -> (r: Option<&Framebuffer>)
        ensures
            r == if self@.framebuffers.len() > 0 {
                Some(&self@.framebuffers[0])
            } else {
                None
            },
    {
        if self.framebuffers.len() > 0 {
            Some(&self.framebuffers[0])
        } else {
            None
        }
    }

    /// The outermost framebuffer, if any.
    pub fn base_framebuffer(&self) -> (r: Option<&Framebuffer>)
        ensures
            r == if self@.framebuffers.len() > 0 {
                Some(&self@.framebuffers.last())
            } else {
                None
            },
    {
        if self.framebuffers.len() > 0 {
            Some(&self.framebuffers[self.framebuffers.len() - 1])
        } else {
            None
        }
    }

    /// The view painted, if any.
    pub fn stage_view(&self) -> (r: Option<&V>)
        ensures
            r == match self@.view {
                Some(x) => Some(&x),
                None => None,
            },
    {
        self.view.as_ref()
    }

    /// Whether the painting does not go to the stage: a framebuffer is
    /// pushed over the first, or there is no view.
    pub fn is_drawing_off_stage(&self) -> (r: bool)
        ensures
            r == (self@.framebuffers.len() > 1 || self@.view is None),
    {
        if self.framebuffers.len() > 1 {
            return true;
        }
        self.view.is_none()
    }

    /// The paint flags.
    pub fn paint_flags(&self) -> (r: PaintFlag)
        ensures
            r == self@.paint_flags,
    {
        self.paint_flags
    }

    /// Gives the context its frame, which it must not have yet.
    pub fn assign_frame(&mut self, frame: F)
        requires
            old(self)@.frame is None,
        ensures
            final(self)@ == (PaintContextView { frame: Some(frame), ..old(self)@ }),
    {
        self.frame = Some(frame);
    }

    /// The frame, if assigned.
    pub fn frame(&self) -> (r: Option<&F>)
        ensures
            r == match self@.frame {
                Some(x) => Some(&x),
                None => None,
            },
    {
        self.frame.as_ref()
    }

    /// Paints for `color_state` from now on, until it is popped.
    pub fn push_target_color_state(&mut self, color_state: ColorState)
        ensures
            final(self)@ == (PaintContextView {
                target_color_states: seq![color_state] + old(self)@.target_color_states,
                ..old(self)@
            }),
    {
        self.target_color_states.insert(0, color_state);
        assert(self@.target_color_states =~= seq![color_state] + old(self)@.target_color_states);
    }

    /// Goes back to the target color state pushed before the innermost,
    /// which must exist.
    pub fn pop_target_color_state(&mut self)
        requires
            old(self)@.target_color_states.len() > 0,
        ensures
            final(self)@ == (PaintContextView {
                target_color_states: old(self)@.target_color_states.drop_first(),
                ..old(self)@
            }),
    {
        self.target_color_states.remove(0);
        assert(self@.target_color_states =~= old(self)@.target_color_states.drop_first());
    }

    /// Paints content of `color_state` from now on, until it is popped.
    pub fn push_color_state(&mut self, color_state: ColorState)
        ensures
            final(self)@ == (PaintContextView { color_states: seq![color_state] + old(self)@.color_states, ..old(self)@ }),
    {
        self.color_states.insert(0, color_state);
        assert(self@.color_states =~= seq![color_state] + old(self)@.color_states);
    }

    /// Goes back to the color state pushed before the innermost, which must
    /// exist.
    pub fn pop_color_state(&mut self)
        requires
            old(self)@.color_states.len() > 0,
        ensures
            final(self)@ == (PaintContextView { color_states: old(self)@.color_states.drop_first(), ..old(self)@ }),
    {
        self.color_states.remove(0);
        assert(self@.color_states =~= old(self)@.color_states.drop_first());
    }

    /// The innermost target color state, if any.
    pub fn target_color_state(&self) -> (r: Option<&ColorState>)
        ensures
            r == if self@.target_color_states.len() > 0 {
                Some(&self@.target_color_states[0])
            } else {
                None
            },
    {
        if self.target_color_states.len() > 0 {
            Some(&self.target_color_states[0])
        } else {
            None
        }
    }

    /// The innermost color state, if any.
    pub fn color_state(&self) -> (r: Option<&ColorState>)
        ensures
            r == if self@.color_states.len() > 0 {
                Some(&self@.color_states[0])
            } else {
                None
            },
    {
        if self.color_states.len() > 0 {
            Some(&self.color_states[0])
        } else {
            None
        }
    }
}

/// Pushing a framebuffer, a target color state or a color state and
/// popping it again gives back the stack.
pub proof fn law_push_then_pop(fbs: Seq<Framebuffer>, fb: Framebuffer, states: Seq<ColorState>, c: ColorState)
    ensures
        (seq![fb] + fbs).drop_first() == fbs,
        (seq![c] + states).drop_first() == states,
        (seq![fb] + fbs)[0] == fb,
        (seq![c] + states)[0] == c,
{
    assert((seq![fb] + fbs).drop_first() =~= fbs);
    assert((seq![c] + states).drop_first() =~= states);
}

} // verus!
