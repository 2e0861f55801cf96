//! The freeze counter of a layout manager, and the per-child layout meta.
use vstd::prelude::*;

use crate::actor::ActorId;

verus! {

/// The level after one more freeze (it stops at `u32::MAX`).
pub open spec fn freeze_model(level: u32) -> u32 {
    if level == u32::MAX {
        u32::MAX
    } else {
        (level + 1) as u32
    }
}

/// The level after a thaw, and whether the thaw matched a freeze.
pub open spec fn thaw_model(level: u32) -> (u32, bool) {
    if level == 0 {
        (0, false)
    } else {
        ((level - 1) as u32, true)
    }
}

/// How many times layout-change notification is frozen. While the level is
/// positive, layout changes are not announced.
#[derive(Debug, Default)]
pub struct LayoutManagerState {
    freeze_level: u32,
}

impl LayoutManagerState {
    /// The current freeze level.
    pub closed spec fn spec_level(&self) -> u32 {
        self.freeze_level
    }

    /// Not frozen.
    pub fn new() -> (s: Self)
        ensures
            s.spec_level() == 0,
    {
        LayoutManagerState { freeze_level: 0 }
    }

    /// Freezes once more (the level stops at `u32::MAX`).
    pub fn freeze_layout_change(&mut self)
        ensures
            final(self).spec_level() == freeze_model(old(self).spec_level()),
    {
        self.freeze_level = self.freeze_level.saturating_add(1);
    }

    /// Undoes one freeze. `false`, and nothing changes, when not frozen: a
    /// thaw without a matching freeze.
    pub fn thaw_layout_change(&mut self) -> (matched: bool)
        ensures
            (final(self).spec_level(), matched) == thaw_model(old(self).spec_level()),
    {
        if self.freeze_level == 0 {
            return false;
        }
        self.freeze_level -= 1;
        true
    }

    /// The current freeze level (0: not frozen).
    pub fn freeze_level(&self) -> (r: u32)
        ensures
            r == self.spec_level(),
    {
        self.freeze_level
    }
}

/// A freeze followed by a thaw matches, and gives back the level it
/// started from, unless the level had reached its maximum.
pub proof fn law_freeze_then_thaw(level: u32)
    requires
        level < u32::MAX,
    ensures
        thaw_model(freeze_model(level)) == (level, true),
{
}

/// A thaw never leaves the level higher, and fails only when not frozen.
pub proof fn law_thaw_unfrozen_fails(level: u32)
    ensures
        thaw_model(level).0 <= level,
        !thaw_model(level).1 <==> level == 0,
{
}

/// The layout meta of one child of one container: the identity pair and
/// an optional opaque payload that the layout manager may keep per child.
#[derive(Debug)]
pub struct LayoutMeta {
    pub container: ActorId,
    pub actor: ActorId,
    pub payload: Option<Box<[u8]>>,
}

impl LayoutMeta {
    /// The meta of `actor` in `container`, without payload.
    pub fn new(container: ActorId, actor: ActorId) -> (m: Self)
        ensures
            m.container == container,
            m.actor == actor,
            m.payload is None,
    {
        LayoutMeta { container, actor, payload: None }
    }
}

/// The first `n` children, keeping those whose entry in `visible` is set,
/// in their order.
pub open spec fn visible_prefix(children: Seq<ActorId>, visible: Seq<bool>, n: nat) -> Seq<
    ActorId,
>
    decreases n,
{
    if n == 0 {
        Seq::empty()
    } else {
        let kept = visible_prefix(children, visible, (n - 1) as nat);
        if visible[n - 1] {
            kept.push(children[n - 1])
        } else {
            kept
        }
    }
}

/// The children of a container that are visible, in order: `visible[k]`
/// says whether `children[k]` is.
pub fn visible_children(children: &[ActorId], visible: &[bool]) -> (r: Vec<ActorId>)
    requires
        children@.len() == visible@.len(),
    ensures
        r@ == visible_prefix(children@, visible@, children@.len()),
{
    let mut r: Vec<ActorId> = Vec::new();
    let mut i: usize = 0;
    while i < children.len()
        invariant
            children@.len() == visible@.len(),
            i <= children@.len(),
            r@ == visible_prefix(children@, visible@, i as nat),
        decreases children@.len() - i,
    {
        if visible[i] {
            r.push(children[i]);
        }
        i += 1;
    }
    r
}

} // verus!
