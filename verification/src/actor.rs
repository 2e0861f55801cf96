//! Identifiers and small value types of the actor tree.
use vstd::prelude::*;

use crate::enums::Orientation;

verus! {

/// A generational handle of an actor: the slot index and the generation
/// of the slot, so that a handle to a removed actor never aliases a newer
/// one.
#[derive(Debug, Clone, Copy, PartialEq, Eq, Structural, Hash, PartialOrd, Ord)]
pub struct ActorId {
    pub index: u32,
    pub generation: u32,
}

impl ActorId {
    /// The handle of slot `index` in generation `generation`.
    pub fn new(index: u32, generation: u32) -> (id: Self)
        ensures
            id == (ActorId { index, generation }),
    {
        ActorId { index, generation }
    }

    /// The slot index.
    pub fn index(self) -> (r: u32)
        ensures
            r == self.index,
    {
        self.index
    }

    /// The slot generation.
    pub fn generation(self) -> (r: u32)
        ensures
            r == self.generation,
    {
        self.generation
    }
}

/// Two handles are equal exactly when index and generation are.
pub proof fn law_actor_id_identity(a: ActorId, b: ActorId)
    ensures
        (a == b) <==> (a.index == b.index && a.generation == b.generation),
{
}

/// Which dimension an actor computes first.
#[derive(Debug, Clone, Copy, PartialEq, Eq, Structural, Default)]
pub enum RequestMode {
    #[default]
    WidthForHeight,
    HeightForWidth,
}

/// The actor flags that layout and painting read.
#[derive(Debug, Clone, Copy, PartialEq, Eq, Structural)]
pub struct ActorFlags {
    pub visible: bool,
    pub mapped: bool,
    pub reactive: bool,
}

impl Default for ActorFlags {
    /// Visible, not mapped, not reactive.
    fn default() -> (f: Self)
        ensures
            f == (ActorFlags { visible: true, mapped: false, reactive: false }),
    {
        ActorFlags { visible: true, mapped: false, reactive: false }
    }
}

/// How an actor is aligned in the space its parent gives it.
#[derive(Debug, Clone, Copy, PartialEq, Eq, Structural, Default)]
pub enum ActorAlign {
    Fill,
    #[default]
    Start,
    Center,
    End,
}

/// Whether an actor asks for spare space along `orientation`: only a
/// visible one does, by its expand flag for that axis.
pub fn needs_expand(flags: ActorFlags, x_expand: bool, y_expand: bool, orientation: Orientation) -> (r: bool)
    ensures
        r == (flags.visible && match orientation {
            Orientation::Horizontal => x_expand,
            Orientation::Vertical => y_expand,
        }),
{
    if !flags.visible {
        return false;
    }
    match orientation {
        Orientation::Horizontal => x_expand,
        Orientation::Vertical => y_expand,
    }
}

} // verus!
