//! The pick stack of a pick pass: the actors painted, in paint order, each
//! with its box and the clip in force when it was painted, and the chain of
//! clips. A search goes from the top of the stack down and returns the
//! first actor whose box and whole clip chain hold the point.
//!
//! Boxes are of any type `B`; whether a box holds the point is decided
//! outside and handed to the search as one flag per record and per clip.
use vstd::prelude::*;

verus! {

/// The handle of an actor; 0 stands for no actor.
pub type ActorHandle = usize;

/// A painted actor: its box (none for an overlap record), the actor, the
/// clip in force (-1 for none), and whether it only marks an overlap.
#[derive(Debug, Clone)]
pub struct PickRecord<B> {
    pub box_: Option<B>,
    pub actor: ActorHandle,
    pub clip_index: i32,
    pub is_overlap: bool,
}

/// A clip region and the clip that was in force before it (-1 for none).
#[derive(Debug, Clone)]
pub struct PickClipRecord<B> {
    pub box_: B,
    pub prev: i32,
}

/// Every clip on the chain that starts at clip `k` holds the point. The
/// chain goes from a clip to the one before it and ends at -1.
pub open spec fn chain_clear<B>(clips: Seq<PickClipRecord<B>>, clip_hits: Seq<bool>, k: int) -> bool
    decreases k + 1,
{
    if k < 0 || k >= clips.len() {
        true
    } else if clips[k].prev < -1 || clips[k].prev >= k {
        false
    } else {
        clip_hits[k] && chain_clear(clips, clip_hits, clips[k].prev as int)
    }
}

/// Record `i` is a real actor record whose box and clip chain hold the
/// point.
pub open spec fn record_hit<B>(
    records: Seq<PickRecord<B>>,
    clips: Seq<PickClipRecord<B>>,
    record_hits: Seq<bool>,
    clip_hits: Seq<bool>,
    i: int,
) -> bool {
    &&& !records[i].is_overlap
    &&& records[i].actor != 0
    &&& record_hits[i]
    &&& chain_clear(clips, clip_hits, records[i].clip_index as int)
}

/// The pick stack: records in paint order, the clips, and the clip in
/// force (-1 for none).
#[derive(Debug, Clone)]
pub struct PickStack<B> {
    records: Vec<PickRecord<B>>,
    clip_stack: Vec<PickClipRecord<B>>,
    current_clip_index: i32,
}

impl<B: Copy> PickStack<B> {
    /// The records, bottom first.
    pub closed spec fn spec_records(&self) -> Seq<PickRecord<B>> {
        self.records@
    }

    /// The clips, in the order they were pushed.
    pub closed spec fn spec_clips(&self) -> Seq<PickClipRecord<B>> {
        self.clip_stack@
    }

    /// The clip in force, -1 for none.
    pub closed spec fn spec_current_clip(&self) -> int {
        self.current_clip_index as int
    }

    /// Validity: each clip refers to an earlier clip or to none, and the
    /// clip in force and the clip of each record are clips of the stack or
    /// none.
    pub open spec fn wf(&self) -> bool {
        &&& forall|k: int|
            0 <= k < self.spec_clips().len() ==> -1 <= #[trigger] self.spec_clips()[k].prev < k
        &&& -1 <= self.spec_current_clip() < self.spec_clips().len()
        &&& forall|i: int|
            0 <= i < self.spec_records().len() ==> -1 <= #[trigger] self.spec_records()[i].clip_index
                < self.spec_clips().len()
    }

    /// An empty stack with no clip in force.
    pub fn new() -> (s: Self)
        ensures
            s.wf(),
            s.spec_records() == Seq::<PickRecord<B>>::empty(),
            s.spec_clips() == Seq::<PickClipRecord<B>>::empty(),
            s.spec_current_clip() == -1,
    {
        PickStack { records: Vec::new(), clip_stack: Vec::new(), current_clip_index: -1 }
    }

    /// Records `actor`, painted in `box_` under the clip in force.
    pub fn log_pick(&mut self, box_: B, actor: ActorHandle)
        requires
            old(self).wf(),
        ensures
            final(self).wf(),
            final(self).spec_records() == old(self).spec_records().push(
                PickRecord {
                    box_: Some(box_),
                    actor,
                    clip_index: old(self).spec_current_clip() as i32,
                    is_overlap: false,
                },
            ),
            final(self).spec_clips() == old(self).spec_clips(),
            final(self).spec_current_clip() == old(self).spec_current_clip(),
    {
        self.records.push(
            PickRecord {
                box_: Some(box_),
                actor,
                clip_index: self.current_clip_index,
                is_overlap: false,
            },
        );
    }

    /// Records an overlap mark for `actor`, with no box, under the clip in
    /// force.
    pub fn log_overlap(&mut self, actor: ActorHandle)
        requires
            old(self).wf(),
        ensures
            final(self).wf(),
            final(self).spec_records() == old(self).spec_records().push(
                PickRecord {
                    box_: None,
                    actor,
                    clip_index: old(self).spec_current_clip() as i32,
                    is_overlap: true,
                },
            ),
            final(self).spec_clips() == old(self).spec_clips(),
            final(self).spec_current_clip() == old(self).spec_current_clip(),
    {
        self.records.push(
            PickRecord { box_: None, actor, clip_index: self.current_clip_index, is_overlap: true },
        );
    }

    /// Pushes a clip on top of the clip in force; it becomes the clip in
    /// force. The number of clips must stay within `i32`.
    pub fn push_clip(&mut self, box_: B)
        requires
            old(self).wf(),
            old(self).spec_clips().len() < i32::MAX,
        ensures
            final(self).wf(),
            final(self).spec_clips() == old(self).spec_clips().push(
                PickClipRecord { box_, prev: old(self).spec_current_clip() as i32 },
            ),
            final(self).spec_current_clip() == old(self).spec_clips().len(),
            final(self).spec_records() == old(self).spec_records(),
    {
        self.clip_stack.push(PickClipRecord { box_, prev: self.current_clip_index });
        self.current_clip_index = (self.clip_stack.len() - 1) as i32;
    }

    /// Puts the clip before the one in force back in force; with no clip in
    /// force, nothing happens. The clips themselves stay.
    pub fn pop_clip(&mut self)
        requires
            old(self).wf(),
        ensures
            final(self).wf(),
            final(self).spec_current_clip() == if old(self).spec_current_clip() >= 0 {
                old(self).spec_clips()[old(self).spec_current_clip()].prev as int
            } else {
                -1
            },
            final(self).spec_clips() == old(self).spec_clips(),
            final(self).spec_records() == old(self).spec_records(),
    {
        if self.current_clip_index >= 0 {
            let k = self.current_clip_index as usize;
            assert(-1 <= self.spec_clips()[k as int].prev < k);
            self.current_clip_index = self.clip_stack[k].prev;
        }
    }

    /// The clip in force, -1 for none.
    pub fn current_clip_index(&self) -> (r: i32)
        ensures
            r == self.spec_current_clip(),
    {
        self.current_clip_index
    }

    /// The records, bottom first.
    pub fn records(&self) -> (r: &[PickRecord<B>])
        ensures
            r@ == self.spec_records(),
    {
        self.records.as_slice()
    }

    /// The clips, in the order they were pushed.
    pub fn clips(&self) -> (r: &[PickClipRecord<B>])
        ensures
            r@ == self.spec_clips(),
    {
        self.clip_stack.as_slice()
    }

    /// Whether every clip on the chain from clip `clip_index` holds the
    /// point, by the flags `clip_hits`.
    fn point_in_clip_chain(&self, clip_index: i32, clip_hits: &[bool]) -> (r: bool)
        requires
            self.wf(),
            clip_hits@.len() == self.spec_clips().len(),
            -1 <= clip_index < self.spec_clips().len(),
        ensures
            r == chain_clear(self.spec_clips(), clip_hits@, clip_index as int),
    {
        let mut k: i32 = clip_index;
        while k >= 0
            invariant
                self.wf(),
                clip_hits@.len() == self.spec_clips().len(),
                -1 <= k < self.spec_clips().len(),
                chain_clear(self.spec_clips(), clip_hits@, clip_index as int) == chain_clear(
                    self.spec_clips(),
                    clip_hits@,
                    k as int,
                ),
            decreases k + 1,
        {
            let ku = k as usize;
            assert(-1 <= self.spec_clips()[ku as int].prev < ku);
            if !clip_hits[ku] {
                return false;
            }
            k = self.clip_stack[ku].prev;
        }
        true
    }

    /// The actor of the topmost record that is not an overlap mark, has an
    /// actor, and whose box and clip chain hold the point; `None` when no
    /// record does. `record_hits[i]` tells whether the box of record `i`
    /// holds the point, `clip_hits[k]` whether clip `k` does.
    pub fn search_actor_with(&self, record_hits: &[bool], clip_hits: &[bool]) -> (r: Option<ActorHandle>)
        requires
            self.wf(),
            record_hits@.len() == self.spec_records().len(),
            clip_hits@.len() == self.spec_clips().len(),
        ensures
            match r {
                Some(a) => exists|i: int|
                    0 <= i < self.spec_records().len() && record_hit(
                        self.spec_records(),
                        self.spec_clips(),
                        record_hits@,
                        clip_hits@,
                        i,
                    ) && self.spec_records()[i].actor == a && forall|j: int|
                        i < j < self.spec_records().len() ==> !record_hit(
                            self.spec_records(),
                            self.spec_clips(),
                            record_hits@,
                            clip_hits@,
                            j,
                        ),
                None => forall|j: int|
                    0 <= j < self.spec_records().len() ==> !record_hit(
                        self.spec_records(),
                        self.spec_clips(),
                        record_hits@,
                        clip_hits@,
                        j,
                    ),
            },
    {
        let mut i: usize = self.records.len();
        while i > 0
            invariant
                i <= self.spec_records().len(),
                self.wf(),
                record_hits@.len() == self.spec_records().len(),
                clip_hits@.len() == self.spec_clips().len(),
                forall|j: int|
                    i <= j < self.spec_records().len() ==> !record_hit(
                        self.spec_records(),
                        self.spec_clips(),
                        record_hits@,
                        clip_hits@,
                        j,
                    ),
            decreases i,
        {
            i -= 1;
            let rec = &self.records[i];
            assert(-1 <= self.spec_records()[i as int].clip_index < self.spec_clips().len());
            if !rec.is_overlap && rec.actor != 0 && record_hits[i] {
                if self.point_in_clip_chain(rec.clip_index, clip_hits) {
                    assert(record_hit(
                        self.spec_records(),
                        self.spec_clips(),
                        record_hits@,
                        clip_hits@,
                        i as int,
                    ));
                    return Some(rec.actor);
                }
            }
        }
        None
    }

    /// The number of records.
    pub fn len(&self) -> (r: usize)
        ensures
            r == self.spec_records().len(),
    {
        self.records.len()
    }

    /// Whether there is no record.
    pub fn is_empty(&self) -> (r: bool)
        ensures
            r == (self.spec_records().len() == 0),
    {
        self.records.len() == 0
    }

    /// Removes all records and clips; no clip is in force.
    pub fn clear(&mut self)
        ensures
            final(self).wf(),
            final(self).spec_records() == Seq::<PickRecord<B>>::empty(),
            final(self).spec_clips() == Seq::<PickClipRecord<B>>::empty(),
            final(self).spec_current_clip() == -1,
    {
        self.records.clear();
        self.clip_stack.clear();
        self.current_clip_index = -1;
    }
}

/// Pushing a clip and popping it puts the clip that was in force back in
/// force: after `push_clip` the clips are `clips` with the new clip on top
/// and the new clip is in force, and `pop_clip` then puts in force the clip
/// recorded before it.
pub proof fn law_push_then_pop_clip<B>(clips: Seq<PickClipRecord<B>>, current: int, box_: B)
    requires
        -1 <= current < clips.len(),
        clips.len() < i32::MAX,
    ensures
        ({
            let pushed = clips.push(PickClipRecord { box_, prev: current as i32 });
            let in_force = clips.len() as int;
            (if in_force >= 0 { pushed[in_force].prev as int } else { -1 }) == current
        }),
{
}

} // verus!
