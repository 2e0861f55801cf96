//! The set of actors that use a content object, in attachment order.
use vstd::prelude::*;

use crate::actor::ActorId;
use crate::seq_set::{insert_once, no_duplicates, remove_all};

verus! {

/// The actors a content object is attached to.
#[derive(Debug)]
pub struct ContentAttachment {
    actors: Vec<ActorId>,
}

impl View for ContentAttachment {
    type V = Seq<ActorId>;

    closed spec fn view(&self) -> Seq<ActorId> {
        self.actors@
    }
}

impl ContentAttachment {
    /// Validity: no actor is attached twice.
    pub open spec fn wf(&self) -> bool {
        no_duplicates(self@)
    }

    /// No actor attached.
    pub fn new() -> (c: Self)
        ensures
            c.wf(),
            c@ == Seq::<ActorId>::empty(),
    {
        ContentAttachment { actors: Vec::new() }
    }

    /// Records `actor` as a user of the content; `true` when it was not
    /// attached before.
    pub fn attach(&mut self, actor: ActorId) -> (added: bool)
        requires
            old(self).wf(),
        ensures
            final(self).wf(),
            added == !old(self)@.contains(actor),
            final(self)@ == insert_once(old(self)@, actor),
    {
        if self.is_attached(actor) {
            return false;
        }
        proof {
            crate::seq_set::lemma_push_absent_no_duplicates(self@, actor);
        }
        self.actors.push(actor);
        true
    }

    /// Removes `actor`; `true` when it was attached.
    pub fn detach(&mut self, actor: ActorId) -> (removed: bool)
        requires
            old(self).wf(),
        ensures
            final(self).wf(),
            removed == old(self)@.contains(actor),
            final(self)@ == remove_all(old(self)@, actor),
    {
        let len = self.actors.len();
        let mut kept: Vec<ActorId> = Vec::new();
        let mut i: usize = 0;
        while i < self.actors.len()
            invariant
                i <= self.actors@.len(),
                self@ == old(self)@,
                kept@ == remove_all(self@.take(i as int), actor),
            decreases self.actors@.len() - i,
        {
            proof {
                crate::seq_set::lemma_filter_take_step(self@, actor, i as int);
            }
            if self.actors[i] != actor {
                kept.push(self.actors[i]);
            }
            i += 1;
        }
        assert(self@.take(self@.len() as int) =~= self@);
        proof {
            crate::seq_set::lemma_filter_no_duplicates(old(self)@, actor);
            crate::seq_set::lemma_remove_all_len(old(self)@, actor);
        }
        self.actors = kept;
        self.actors.len() != len
    }

    /// Whether `actor` is attached.
    pub fn is_attached(&self, actor: ActorId) -> (r: bool)
        ensures
            r == self@.contains(actor),
    {
        let mut i: usize = 0;
        while i < self.actors.len()
            invariant
                i <= self.actors@.len(),
                forall|j: int| 0 <= j < i ==> self.actors@[j] != actor,
            decreases self.actors@.len() - i,
        {
            if self.actors[i] == actor {
                assert(self@[i as int] == actor);
                return true;
            }
            i += 1;
        }
        false
    }

    /// The attached actors in attachment order.
    pub fn attached_actors(&self) -> (r: &[ActorId])
        ensures
            r@ == self@,
    {
        self.actors.as_slice()
    }

    /// The number of attached actors.
    pub fn n_attached(&self) -> (r: usize)
        ensures
            r == self@.len(),
    {
        self.actors.len()
    }
}

impl Default for ContentAttachment {
    fn default() -> (c: Self)
        ensures
            c.wf(),
            c@ == Seq::<ActorId>::empty(),
    {
        ContentAttachment::new()
    }
}

} // verus!
