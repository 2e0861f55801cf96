//! Enumerations shared across the toolkit.
use vstd::prelude::*;

verus! {

/// Layout orientation.
#[derive(Debug, Clone, Copy, PartialEq, Eq, Structural, Hash, Default)]
pub enum Orientation {
    #[default]
    Horizontal,
    Vertical,
}

/// The axis an alignment constraint acts on.
#[derive(Debug, Clone, Copy, PartialEq, Eq, Structural, Hash, Default)]
pub enum AlignAxis {
    #[default]
    XAxis,
    YAxis,
    Both,
}

/// The coordinate a bind constraint ties.
#[derive(Debug, Clone, Copy, PartialEq, Eq, Structural, Hash, Default)]
pub enum BindCoordinate {
    #[default]
    X,
    Y,
    Width,
    Height,
    Position,
    Size,
    All,
}

/// Flags passed to an effect's paint, as a bit set.
#[derive(Debug, Clone, Copy, PartialEq, Eq, Structural, Hash, Default)]
pub struct EffectPaintFlags(pub u32);

impl EffectPaintFlags {
    /// No flag.
    pub fn none() -> (r: Self)
        ensures
            r.0 == 0,
    {
        EffectPaintFlags(0)
    }

    /// The actor changed since the last paint.
    pub fn actor_dirty() -> (r: Self)
        ensures
            r.0 == 1,
    {
        EffectPaintFlags(1)
    }

    /// The effect is to be bypassed.
    pub fn bypass_effect() -> (r: Self)
        ensures
            r.0 == 2,
    {
        EffectPaintFlags(2)
    }

    /// Whether every bit of `other` is set in `self`.
    pub fn contains(self, other: Self) -> (r: bool)
        ensures
            r == (self.0 & other.0 == other.0),
    {
        (self.0 & other.0) == other.0
    }
}

/// Text direction.
#[derive(Debug, Clone, Copy, PartialEq, Eq, Structural, Hash, Default)]
pub enum TextDirection {
    #[default]
    Ltr,
    Rtl,
}

/// The phase of event delivery in which an action sees events.
#[derive(Debug, Clone, Copy, PartialEq, Eq, Structural, Hash, Default)]
pub enum EventPhase {
    #[default]
    Capture,
    Target,
    Bubble,
}

/// An edge that an actor can snap to.
#[derive(Debug, Clone, Copy, PartialEq, Eq, Structural, Default)]
pub enum SnapEdge {
    #[default]
    Top,
    Right,
    Bottom,
    Left,
}

/// The laws of the bit sets: a union contains both operands, every set
/// contains itself and the empty set, and containment is transitive.
pub proof fn law_bit_set(a: u32, b: u32, c: u32)
    ensures
        (a | b) & a == a,
        (a | b) & b == b,
        a & a == a,
        a & 0 == 0,
        (a & b == b && b & c == c) ==> a & c == c,
        a | b == b | a,
{
    assert((a | b) & a == a) by (bit_vector);
    assert((a | b) & b == b) by (bit_vector);
    assert(a & a == a) by (bit_vector);
    assert(a & 0 == 0) by (bit_vector);
    assert((a & b == b && b & c == c) ==> a & c == c) by (bit_vector);
    assert(a | b == b | a) by (bit_vector);
}

} // verus!
