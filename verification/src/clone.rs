//! The clone actor's source: the actor whose painting it mirrors.
use vstd::prelude::*;

use crate::actor::ActorId;

verus! {

/// An actor that mirrors the painting of a source actor. The scale it paints
/// at follows from its box and the source's box, which the host computes.
#[derive(Debug)]
pub struct Clone {
    source: Option<ActorId>,
}

impl Clone {
    /// The mirrored actor, if any.
    pub closed spec fn spec_source(&self) -> Option<ActorId> {
        self.source
    }

    /// A clone of `source`.
    pub fn new(source: Option<ActorId>) -> (c: Self)
        ensures
            c.spec_source() == source,
    {
        Clone { source }
    }

    /// Mirrors `source` from now on.
    pub fn set_source(&mut self, source: Option<ActorId>)
        ensures
            final(self).spec_source() == source,
    {
        self.source = source;
    }

    /// The mirrored actor, if any.
    pub fn source(&self) -> (r: Option<ActorId>)
        ensures
            r == self.spec_source(),
    {
        self.source
    }
}

} // verus!
