//! Pick passes: the mode, and the pass itself, which logs what is painted
//! into a pick stack. The point and the ray picked with (`P`, `R`) and the
//! boxes (`B`) are continuous and held as payloads.
use vstd::prelude::*;

use crate::pick_stack::{ActorHandle, PickStack};

verus! {

/// Which actors a pick pass considers: none, the reactive ones, or all. `NoPicking` disables picking.
#[derive(Debug, Clone, Copy, PartialEq, Eq, Structural)]
pub enum PickMode {
    NoPicking,
    Reactive,
    All,
}

/// A pick pass: its mode, the stack it logs into, and the point and ray it
/// picks with.
#[derive(Debug, Clone)]
pub struct PickContext<B, P, R> {
    mode: PickMode,
    pick_stack: PickStack<B>,
    ray: R,
    point: P,
}

impl<B: Copy, P: Copy, R: Copy> PickContext<B, P, R> {
    /// The mode.
    pub closed spec fn spec_mode(&self) -> PickMode {
        self.mode
    }

    /// The stack logged into.
    pub closed spec fn spec_stack(&self) -> PickStack<B> {
        self.pick_stack
    }

    /// The point picked at.
    pub closed spec fn spec_point(&self) -> P {
        self.point
    }

    /// The ray picked along.
    pub closed spec fn spec_ray(&self) -> R {
        self.ray
    }

    /// The stack is valid.
    pub open spec fn wf(&self) -> bool {
        self.spec_stack().wf()
    }

    /// A pass in `mode` at `point` along `ray`, with an empty stack.
    pub fn new_for_view(mode: PickMode, point: P, ray: R) -> (c: Self)
        ensures
            c.wf(),
            c.spec_mode() == mode,
            c.spec_point() == point,
            c.spec_ray() == ray,
            c.spec_stack().spec_records().len() == 0,
            c.spec_stack().spec_clips().len() == 0,
            c.spec_stack().spec_current_clip() == -1,
    {
        PickContext { mode, pick_stack: PickStack::new(), ray, point }
    }

    /// The mode.
    pub fn mode(&self) -> (r: PickMode)
        ensures
            r == self.spec_mode(),
    {
        self.mode
    }

    /// The stack, which ends the pass.
    pub fn steal_stack(self) -> (s: PickStack<B>)
        ensures
            s == self.spec_stack(),
    {
        self.pick_stack
    }

    /// Logs `actor`, painted in `box_`, under the clip in force.
    pub fn log_pick(&mut self, box_: B, actor: ActorHandle)
        requires
            old(self).wf(),
        ensures
            final(self).wf(),
            final(self).spec_stack().spec_records() == old(self).spec_stack().spec_records().push(
                crate::pick_stack::PickRecord {
                    box_: Some(box_),
                    actor,
                    clip_index: old(self).spec_stack().spec_current_clip() as i32,
                    is_overlap: false,
                },
            ),
            final(self).spec_stack().spec_clips() == old(self).spec_stack().spec_clips(),
            final(self).spec_stack().spec_current_clip() == old(self).spec_stack().spec_current_clip(),
            final(self).spec_mode() == old(self).spec_mode(),
            final(self).spec_point() == old(self).spec_point(),
            final(self).spec_ray() == old(self).spec_ray(),
    {
        self.pick_stack.log_pick(box_, actor);
    }

    /// Logs an overlap mark for `actor` under the clip in force.
    pub fn log_overlap(&mut self, actor: ActorHandle)
        requires
            old(self).wf(),
        ensures
            final(self).wf(),
            final(self).spec_stack().spec_records() == old(self).spec_stack().spec_records().push(
                crate::pick_stack::PickRecord {
                    box_: None,
                    actor,
                    clip_index: old(self).spec_stack().spec_current_clip() as i32,
                    is_overlap: true,
                },
            ),
            final(self).spec_stack().spec_clips() == old(self).spec_stack().spec_clips(),
            final(self).spec_stack().spec_current_clip() == old(self).spec_stack().spec_current_clip(),
            final(self).spec_mode() == old(self).spec_mode(),
            final(self).spec_point() == old(self).spec_point(),
            final(self).spec_ray() == old(self).spec_ray(),
    {
        self.pick_stack.log_overlap(actor);
    }

    /// Pushes a clip, which comes in force. The number of clips must stay
    /// within `i32`.
    pub fn push_clip(&mut self, box_: B)
        requires
            old(self).wf(),
            old(self).spec_stack().spec_clips().len() < i32::MAX,
        ensures
            final(self).wf(),
            final(self).spec_stack().spec_clips() == old(self).spec_stack().spec_clips().push(
                crate::pick_stack::PickClipRecord {
                    box_,
                    prev: old(self).spec_stack().spec_current_clip() as i32,
                },
            ),
            final(self).spec_stack().spec_current_clip() == old(self).spec_stack().spec_clips().len(),
            final(self).spec_stack().spec_records() == old(self).spec_stack().spec_records(),
            final(self).spec_mode() == old(self).spec_mode(),
            final(self).spec_point() == old(self).spec_point(),
            final(self).spec_ray() == old(self).spec_ray(),
    {
        self.pick_stack.push_clip(box_);
    }

    /// Puts the clip before the one in force back in force; with no clip in
    /// force, nothing happens.
    pub fn pop_clip(&mut self)
        requires
            old(self).wf(),
        ensures
            final(self).wf(),
            final(self).spec_stack().spec_current_clip() == if old(self).spec_stack().spec_current_clip() >= 0 {
                old(self).spec_stack().spec_clips()[old(self).spec_stack().spec_current_clip()].prev as int
            } else {
                -1
            },
            final(self).spec_stack().spec_clips() == old(self).spec_stack().spec_clips(),
            final(self).spec_stack().spec_records() == old(self).spec_stack().spec_records(),
            final(self).spec_mode() == old(self).spec_mode(),
            final(self).spec_point() == old(self).spec_point(),
            final(self).spec_ray() == old(self).spec_ray(),
    {
        self.pick_stack.pop_clip();
    }

    /// The stack logged into so far.
    pub fn stack(&self) -> (r: &PickStack<B>)
        ensures
            *r == self.spec_stack(),
    {
        &self.pick_stack
    }

    /// The point picked at.
    pub fn point(&self) -> (r: P)
        ensures
            r == self.spec_point(),
    {
        self.point
    }

    /// The ray picked along.
    pub fn ray(&self) -> (r: R)
        ensures
            r == self.spec_ray(),
    {
        self.ray
    }
}

} // verus!
