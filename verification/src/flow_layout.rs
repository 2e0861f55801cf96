//! The flow layout's children and switches: which actors it lays out, in
//! which direction lines run, whether children share one size and whether
//! they snap to a grid. The spacings and sizes, which are continuous, are
//! kept by the host beside it.
use vstd::prelude::*;

use crate::actor::ActorId;
use crate::seq_set::{insert_once, no_duplicates, remove_all};

verus! {

/// The direction in which a flow layout places children.
#[derive(Debug, Clone, Copy, PartialEq, Eq, Structural)]
pub enum Orientation {
    Horizontal,
    Vertical,
}

/// The children and switches of a flow layout.
#[derive(Debug)]
pub struct FlowLayout {
    children: Vec<ActorId>,
    orientation: Orientation,
    is_homogeneous: bool,
    snap_to_grid: bool,
}

impl FlowLayout {
    /// The children, in the order they were added.
    pub closed spec fn spec_children(&self) -> Seq<ActorId> {
        self.children@
    }

    /// The direction in which lines run.
    pub closed spec fn spec_orientation(&self) -> Orientation {
        self.orientation
    }

    /// Whether all children get the same size.
    pub closed spec fn spec_homogeneous(&self) -> bool {
        self.is_homogeneous
    }

    /// Whether children snap to a grid.
    pub closed spec fn spec_snap_to_grid(&self) -> bool {
        self.snap_to_grid
    }

    /// No child is held twice.
    pub open spec fn wf(&self) -> bool {
        no_duplicates(self.spec_children())
    }

    /// A layout with no child, in `orientation`, neither homogeneous nor
    /// snapping.
    pub fn new(orientation: Orientation) -> (l: Self)
        ensures
            l.wf(),
            l.spec_children() == Seq::<ActorId>::empty(),
            l.spec_orientation() == orientation,
            !l.spec_homogeneous(),
            !l.spec_snap_to_grid(),
    {
        FlowLayout { children: Vec::new(), orientation, is_homogeneous: false, snap_to_grid: false }
    }

    /// Sets the direction in which lines run.
    pub fn set_orientation(&mut self, orientation: Orientation)
        ensures
            final(self).spec_orientation() == orientation,
            final(self).spec_children() == old(self).spec_children(),
            final(self).spec_homogeneous() == old(self).spec_homogeneous(),
            final(self).spec_snap_to_grid() == old(self).spec_snap_to_grid(),
    {
        self.orientation = orientation;
    }

    /// The direction in which lines run.
    pub fn orientation(&self) -> (r: Orientation)
        ensures
            r == self.spec_orientation(),
    {
        self.orientation
    }

    /// Sets whether all children get the same size.
    pub fn set_homogeneous(&mut self, homogeneous: bool)
        ensures
            final(self).spec_homogeneous() == homogeneous,
            final(self).spec_children() == old(self).spec_children(),
            final(self).spec_orientation() == old(self).spec_orientation(),
            final(self).spec_snap_to_grid() == old(self).spec_snap_to_grid(),
    {
        self.is_homogeneous = homogeneous;
    }

    /// Whether all children get the same size.
    pub fn homogeneous(&self) -> (r: bool)
        ensures
            r == self.spec_homogeneous(),
    {
        self.is_homogeneous
    }

    /// Sets whether children snap to a grid.
    pub fn set_snap_to_grid(&mut self, snap_to_grid: bool)
        ensures
            final(self).spec_snap_to_grid() == snap_to_grid,
            final(self).spec_children() == old(self).spec_children(),
            final(self).spec_orientation() == old(self).spec_orientation(),
            final(self).spec_homogeneous() == old(self).spec_homogeneous(),
    {
        self.snap_to_grid = snap_to_grid;
    }

    /// Whether children snap to a grid.
    pub fn snap_to_grid(&self) -> (r: bool)
        ensures
            r == self.spec_snap_to_grid(),
    {
        self.snap_to_grid
    }

    /// Adds `actor` unless it is already a child.
    pub fn add_child(&mut self, actor: ActorId)
        requires
            old(self).wf(),
        ensures
            final(self).wf(),
            final(self).spec_children() == insert_once(old(self).spec_children(), actor),
            final(self).spec_orientation() == old(self).spec_orientation(),
            final(self).spec_homogeneous() == old(self).spec_homogeneous(),
            final(self).spec_snap_to_grid() == old(self).spec_snap_to_grid(),
    {
        if !contains_actor(&self.children, actor) {
            self.children.push(actor);
            proof {
                crate::seq_set::lemma_push_absent_no_duplicates(old(self).spec_children(), actor);
            }
        }
    }

    /// Removes `actor` if it is a child.
    pub fn remove_child(&mut self, actor: ActorId)
        requires
            old(self).wf(),
        ensures
            final(self).wf(),
            final(self).spec_children() == remove_all(old(self).spec_children(), actor),
            final(self).spec_orientation() == old(self).spec_orientation(),
            final(self).spec_homogeneous() == old(self).spec_homogeneous(),
            final(self).spec_snap_to_grid() == old(self).spec_snap_to_grid(),
    {
        let kept = without_actor(&self.children, actor);
        proof {
            crate::seq_set::lemma_filter_no_duplicates(old(self).spec_children(), actor);
        }
        self.children = kept;
    }

    /// The children, in the order they were added.
    pub fn children(&self) -> (r: &[ActorId])
        ensures
            r@ == self.spec_children(),
    {
        self.children.as_slice()
    }

    /// The number of children.
    pub fn n_children(&self) -> (r: usize)
        ensures
            r == self.spec_children().len(),
    {
        self.children.len()
    }

    /// Whether `actor` is a child.
    pub fn has_child(&self, actor: ActorId) -> (r: bool)
        ensures
            r == self.spec_children().contains(actor),
    {
        contains_actor(&self.children, actor)
    }
}

fn contains_actor(v: &Vec<ActorId>, x: ActorId) -> (r: bool)
    ensures
        r == v@.contains(x),
{
    let mut i: usize = 0;
    while i < v.len()
        invariant
            i <= v@.len(),
            forall|j: int| 0 <= j < i ==> v@[j] != x,
        decreases v@.len() - i,
    {
        if v[i] == x {
            assert(v@[i as int] == x);
            return true;
        }
        i += 1;
    }
    false
}

fn without_actor(v: &Vec<ActorId>, x: ActorId) -> (r: Vec<ActorId>)
    ensures
        r@ == remove_all(v@, x),
{
    let mut out: Vec<ActorId> = Vec::new();
    let mut i: usize = 0;
    while i < v.len()
        invariant
            i <= v@.len(),
            out@ == remove_all(v@.take(i as int), x),
        decreases v@.len() - i,
    {
        proof {
            crate::seq_set::lemma_filter_take_step(v@, x, i as int);
        }
        if v[i] != x {
            out.push(v[i]);
        }
        i += 1;
    }
    assert(v@.take(v@.len() as int) =~= v@);
    out
}

} // verus!
