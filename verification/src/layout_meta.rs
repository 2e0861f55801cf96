//! Accessors of the per-child layout meta.
use vstd::prelude::*;

use crate::actor::ActorId;
use crate::layout_manager::LayoutMeta;

verus! {

impl LayoutMeta {
    /// The container the meta belongs to.
    pub fn get_container(&self) -> (r: ActorId)
        ensures
            r == self.container,
    {
        self.container
    }

    /// The child the meta describes.
    pub fn get_actor(&self) -> (r: ActorId)
        ensures
            r == self.actor,
    {
        self.actor
    }

    /// Whether the meta is the one of `actor` in `container`.
    pub fn is_for(&self, container: ActorId, actor: ActorId) -> (r: bool)
        ensures
            r == (self.container == container && self.actor == actor),
    {
        self.container == container && self.actor == actor
    }
}

} // verus!
