//! The grid layout: where each child sits in the grid of cells, and
//! where a child attached next to another goes.
use vstd::prelude::*;

use crate::actor::ActorId;

verus! {

/// Where a child goes relative to a sibling.
#[derive(Debug, Clone, Copy, PartialEq, Eq, Structural)]
pub enum GridPosition {
    Left,
    Right,
    Top,
    Bottom,
}

/// The direction in which a grid layout places children.
#[derive(Debug, Clone, Copy, PartialEq, Eq, Structural)]
pub enum Orientation {
    Horizontal,
    Vertical,
}

/// The cells a child covers: its left column, top row, and how many
/// columns and rows it spans.
#[derive(Debug, Clone, Copy, PartialEq, Eq, Structural)]
pub struct GridCell {
    pub left: i32,
    pub top: i32,
    pub width: i32,
    pub height: i32,
}

/// The larger of two integers.
pub open spec fn spec_max(a: int, b: int) -> int {
    if a >= b {
        a
    } else {
        b
    }
}

/// Whether `actor` has cells among `entries`.
pub open spec fn has_cell(entries: Seq<(ActorId, GridCell)>, actor: ActorId) -> bool {
    exists|i: int| 0 <= i < entries.len() && entries[i].0 == actor
}

/// No actor has two entries.
pub open spec fn actors_unique(entries: Seq<(ActorId, GridCell)>) -> bool {
    forall|i: int, j: int|
        0 <= i < entries.len() && 0 <= j < entries.len() && i != j ==> entries[i].0 != entries[j].0
}

/// The children among `entries`, in order.
pub open spec fn actor_order(entries: Seq<(ActorId, GridCell)>) -> Seq<ActorId> {
    entries.map_values(|e: (ActorId, GridCell)| e.0)
}

/// The cells of each child, by actor.
pub open spec fn cell_map(entries: Seq<(ActorId, GridCell)>) -> Map<ActorId, GridCell> {
    Map::new(
        |a: ActorId| has_cell(entries, a),
        |a: ActorId| entries[choose|i: int| 0 <= i < entries.len() && entries[i].0 == a].1,
    )
}

/// The cells given to a child attached at `(left, top)` with the given
/// spans: spans under one count as one.
pub open spec fn attached_cell(left: i32, top: i32, width: i32, height: i32) -> GridCell {
    GridCell {
        left,
        top,
        width: if width >= 1 { width } else { 1 },
        height: if height >= 1 { height } else { 1 },
    }
}

/// Where a child attached next to `sibling` on `side` goes, with the
/// given spans: beside the sibling's cells when the sibling is in the
/// grid, at the origin when it is not; without a sibling, beside the
/// cells used so far (`next`), at row or column 0.
pub open spec fn next_to_origin(
    cells: Map<ActorId, GridCell>,
    next: (i32, i32),
    sibling: Option<ActorId>,
    side: GridPosition,
    width: i32,
    height: i32,
) -> (int, int) {
    match sibling {
        Some(sib) => if cells.dom().contains(sib) {
            let c = cells[sib];
            match side {
                GridPosition::Left => (c.left - width, c.top as int),
                GridPosition::Right => (c.left + c.width, c.top as int),
                GridPosition::Top => (c.left as int, c.top - height),
                GridPosition::Bottom => (c.left as int, c.top + c.height),
            }
        } else {
            (0, 0)
        },
        None => match side {
            GridPosition::Left => (next.0 - width, 0),
            GridPosition::Right => (next.0 as int, 0),
            GridPosition::Top => (0, next.1 - height),
            GridPosition::Bottom => (0, next.1 as int),
        },
    }
}

/// A grid layout: the cells of each child, the orientation, whether rows
/// and columns are homogeneous, and the column and row just past the cells
/// used so far.
#[derive(Debug)]
pub struct GridLayout {
    children: Vec<(ActorId, GridCell)>,
    orientation: Orientation,
    row_homogeneous: bool,
    column_homogeneous: bool,
    next_position: (i32, i32),
}

impl View for GridLayout {
    type V = Map<ActorId, GridCell>;

    closed spec fn view(&self) -> Map<ActorId, GridCell> {
        cell_map(self.children@)
    }
}

proof fn lemma_unique_index(entries: Seq<(ActorId, GridCell)>, actor: ActorId, i: int)
    requires
        actors_unique(entries),
        0 <= i < entries.len(),
        entries[i].0 == actor,
    ensures
        has_cell(entries, actor),
        (choose|j: int| 0 <= j < entries.len() && entries[j].0 == actor) == i,
        cell_map(entries)[actor] == entries[i].1,
{
    assert(has_cell(entries, actor));
}

impl GridLayout {
    /// Validity: no child has two entries.
    pub closed spec fn wf(&self) -> bool {
        actors_unique(self.children@)
    }

    /// The children in the order they were first attached.
    pub closed spec fn spec_order(&self) -> Seq<ActorId> {
        actor_order(self.children@)
    }

    /// The column and row just past the cells used so far.
    pub closed spec fn spec_next_position(&self) -> (i32, i32) {
        self.next_position
    }

    /// The orientation, as a spec value.
    pub closed spec fn spec_orientation(&self) -> Orientation {
        self.orientation
    }

    /// Whether rows are homogeneous, as a spec value.
    pub closed spec fn spec_row_homogeneous(&self) -> bool {
        self.row_homogeneous
    }

    /// Whether columns are homogeneous, as a spec value.
    pub closed spec fn spec_column_homogeneous(&self) -> bool {
        self.column_homogeneous
    }

    /// An empty horizontal grid, neither rows nor columns homogeneous.
    pub fn new() -> (g: Self)
        ensures
            g.wf(),
            g@ == Map::<ActorId, GridCell>::empty(),
            g.spec_order() == Seq::<ActorId>::empty(),
            g.spec_next_position() == (0i32, 0i32),
            g.spec_orientation() == Orientation::Horizontal,
            !g.spec_row_homogeneous(),
            !g.spec_column_homogeneous(),
    {
        let g = GridLayout {
            children: Vec::new(),
            orientation: Orientation::Horizontal,
            row_homogeneous: false,
            column_homogeneous: false,
            next_position: (0, 0),
        };
        assert(g@ =~= Map::<ActorId, GridCell>::empty());
        assert(g.spec_order() =~= Seq::<ActorId>::empty());
        g
    }

    /// Sets the orientation.
    pub fn set_orientation(&mut self, orientation: Orientation)
        ensures
            final(self).spec_orientation() == orientation,
            final(self)@ == old(self)@,
            final(self).wf() == old(self).wf(),
            final(self).spec_next_position() == old(self).spec_next_position(),
            final(self).spec_row_homogeneous() == old(self).spec_row_homogeneous(),
            final(self).spec_column_homogeneous() == old(self).spec_column_homogeneous(),
    {
        self.orientation = orientation;
    }

    /// The orientation.
    pub fn orientation(&self) -> (r: Orientation)
        ensures
            r == self.spec_orientation(),
    {
        self.orientation
    }

    /// Sets whether rows are homogeneous.
    pub fn set_row_homogeneous(&mut self, homogeneous: bool)
        ensures
            final(self).spec_row_homogeneous() == homogeneous,
            final(self)@ == old(self)@,
            final(self).wf() == old(self).wf(),
            final(self).spec_next_position() == old(self).spec_next_position(),
            final(self).spec_orientation() == old(self).spec_orientation(),
            final(self).spec_column_homogeneous() == old(self).spec_column_homogeneous(),
    {
        self.row_homogeneous = homogeneous;
    }

    /// Whether rows are homogeneous.
    pub fn row_homogeneous(&self) -> (r: bool)
        ensures
            r == self.spec_row_homogeneous(),
    {
        self.row_homogeneous
    }

    /// Sets whether columns are homogeneous.
    pub fn set_column_homogeneous(&mut self, homogeneous: bool)
        ensures
            final(self).spec_column_homogeneous() == homogeneous,
            final(self)@ == old(self)@,
            final(self).wf() == old(self).wf(),
            final(self).spec_next_position() == old(self).spec_next_position(),
            final(self).spec_orientation() == old(self).spec_orientation(),
            final(self).spec_row_homogeneous() == old(self).spec_row_homogeneous(),
    {
        self.column_homogeneous = homogeneous;
    }

    /// Whether columns are homogeneous.
    pub fn column_homogeneous(&self) -> (r: bool)
        ensures
            r == self.spec_column_homogeneous(),
    {
        self.column_homogeneous
    }

    /// The index of the entry of `actor`, if any.
    fn position(&self, actor: ActorId) -> (r: Option<usize>)
        requires
            self.wf(),
        ensures
            match r {
                Some(i) => i < self.children@.len() && self.children@[i as int].0 == actor,
                None => !has_cell(self.children@, actor),
            },
    {
        let mut i: usize = 0;
        while i < self.children.len()
            invariant
                i <= self.children@.len(),
                forall|j: int| 0 <= j < i ==> self.children@[j].0 != actor,
            decreases self.children@.len() - i,
        {
            if self.children[i].0 == actor {
                return Some(i);
            }
            i += 1;
        }
        None
    }

    /// Puts `actor` at `(left, top)` with the given spans (under one
    /// counting as one), replacing its earlier cells, and moves the column
    /// and row past the used cells out to `left + width` and `top +
    /// height`. Those sums must fit in `i32`.
    pub fn attach(&mut self, actor: ActorId, left: i32, top: i32, width: i32, height: i32)
        requires
            old(self).wf(),
            i32::MIN <= left + width <= i32::MAX,
            i32::MIN <= top + height <= i32::MAX,
        ensures
            final(self).wf(),
            final(self)@ == old(self)@.insert(actor, attached_cell(left, top, width, height)),
            final(self).spec_order() == if old(self)@.dom().contains(actor) {
                old(self).spec_order()
            } else {
                old(self).spec_order().push(actor)
            },
            final(self).spec_next_position() == (
                spec_max(old(self).spec_next_position().0 as int, left + width) as i32,
                spec_max(old(self).spec_next_position().1 as int, top + height) as i32,
            ),
            final(self).spec_orientation() == old(self).spec_orientation(),
            final(self).spec_row_homogeneous() == old(self).spec_row_homogeneous(),
            final(self).spec_column_homogeneous() == old(self).spec_column_homogeneous(),
    {
        let cell = GridCell {
            left,
            top,
            width: if width >= 1 {
                width
            } else {
                1
            },
            height: if height >= 1 {
                height
            } else {
                1
            },
        };
        let ghost before = self.children@;
        match self.position(actor) {
            Some(i) => {
                proof {
                    lemma_unique_index(before, actor, i as int);
                }
                self.children.set(i, (actor, cell));
                assert(actor_order(self.children@) =~= actor_order(before));
                assert(actors_unique(self.children@)) by {
                    assert forall|a: int, b: int|
                        0 <= a < self.children@.len() && 0 <= b < self.children@.len() && a != b
                        implies self.children@[a].0 != self.children@[b].0 by {
                        assert(self.children@[a].0 == before[a].0);
                        assert(self.children@[b].0 == before[b].0);
                    }
                }
                assert(self@ =~= cell_map(before).insert(actor, cell)) by {
                    assert forall|a: ActorId| #[trigger] self@.dom().contains(a) == cell_map(before).insert(actor, cell).dom().contains(a) by {
                        if has_cell(self.children@, a) {
                            let k = choose|k: int| 0 <= k < self.children@.len() && self.children@[k].0 == a;
                            assert(before[k].0 == a);
                        }
                        if has_cell(before, a) {
                            let k = choose|k: int| 0 <= k < before.len() && before[k].0 == a;
                            assert(self.children@[k].0 == a);
                        }
                    }
                    assert forall|a: ActorId| #[trigger] self@.dom().contains(a) implies self@[a] == cell_map(before).insert(actor, cell)[a] by {
                        let k = choose|k: int| 0 <= k < self.children@.len() && self.children@[k].0 == a;
                        lemma_unique_index(self.children@, a, k);
                        if a != actor {
                            assert(before[k].0 == a);
                            lemma_unique_index(before, a, k);
                        }
                    }
                }
            },
            None => {
                self.children.push((actor, cell));
                assert(actor_order(self.children@) =~= actor_order(before).push(actor));
                assert(actors_unique(self.children@)) by {
                    assert forall|a: int, b: int|
                        0 <= a < self.children@.len() && 0 <= b < self.children@.len() && a != b
                        implies self.children@[a].0 != self.children@[b].0 by {
                        if a < before.len() && b < before.len() {
                            assert(self.children@[a] == before[a]);
                            assert(self.children@[b] == before[b]);
                        } else if a == before.len() {
                            assert(self.children@[b] == before[b]);
                        } else {
                            assert(self.children@[a] == before[a]);
                        }
                    }
                }
                assert(self@ =~= cell_map(before).insert(actor, cell)) by {
                    assert forall|a: ActorId| #[trigger] self@.dom().contains(a) == cell_map(before).insert(actor, cell).dom().contains(a) by {
                        if has_cell(self.children@, a) {
                            let k = choose|k: int| 0 <= k < self.children@.len() && self.children@[k].0 == a;
                            if k < before.len() {
                                assert(before[k].0 == a);
                            }
                        }
                        if has_cell(before, a) {
                            let k = choose|k: int| 0 <= k < before.len() && before[k].0 == a;
                            assert(self.children@[k].0 == a);
                        }
                        if a == actor {
                            assert(self.children@[before.len() as int].0 == a);
                        }
                    }
                    assert forall|a: ActorId| #[trigger] self@.dom().contains(a) implies self@[a] == cell_map(before).insert(actor, cell)[a] by {
                        let k = choose|k: int| 0 <= k < self.children@.len() && self.children@[k].0 == a;
                        lemma_unique_index(self.children@, a, k);
                        if a != actor {
                            assert(k < before.len());
                            assert(before[k].0 == a);
                            lemma_unique_index(before, a, k);
                        }
                    }
                }
            },
        }
        let (nx, ny) = self.next_position;
        let right = left + width;
        let bottom = top + height;
        self.next_position = (if nx >= right {
            nx
        } else {
            right
        }, if ny >= bottom {
            ny
        } else {
            bottom
        });
    }

    /// Attaches `child` next to `sibling` on `side`; see `next_to_origin`
    /// for where it goes. The position and its sums with the spans must
    /// fit in `i32`.
    pub fn attach_next_to(
        &mut self,
        child: ActorId,
        sibling: Option<ActorId>,
        side: GridPosition,
        width: i32,
        height: i32,
    )
        requires
            old(self).wf(),
            ({
                let o = next_to_origin(old(self)@, old(self).spec_next_position(), sibling, side, width, height);
                &&& i32::MIN <= o.0 <= i32::MAX
                &&& i32::MIN <= o.1 <= i32::MAX
                &&& i32::MIN <= o.0 + width <= i32::MAX
                &&& i32::MIN <= o.1 + height <= i32::MAX
            }),
        ensures
            final(self).wf(),
            ({
                let o = next_to_origin(old(self)@, old(self).spec_next_position(), sibling, side, width, height);
                &&& final(self)@ == old(self)@.insert(child, attached_cell(o.0 as i32, o.1 as i32, width, height))
                &&& final(self).spec_order() == if old(self)@.dom().contains(child) {
                    old(self).spec_order()
                } else {
                    old(self).spec_order().push(child)
                }
                &&& final(self).spec_next_position() == (
                    spec_max(old(self).spec_next_position().0 as int, o.0 + width) as i32,
                    spec_max(old(self).spec_next_position().1 as int, o.1 + height) as i32,
                )
            }),
            final(self).spec_orientation() == old(self).spec_orientation(),
            final(self).spec_row_homogeneous() == old(self).spec_row_homogeneous(),
            final(self).spec_column_homogeneous() == old(self).spec_column_homogeneous(),
    {
        let (left, top) = match sibling {
            Some(sib) => match self.position(sib) {
                Some(i) => {
                    proof {
                        lemma_unique_index(self.children@, sib, i as int);
                    }
                    let c = self.children[i].1;
                    match side {
                        GridPosition::Left => (c.left - width, c.top),
                        GridPosition::Right => (c.left + c.width, c.top),
                        GridPosition::Top => (c.left, c.top - height),
                        GridPosition::Bottom => (c.left, c.top + c.height),
                    }
                },
                None => (0, 0),
            },
            None => match side {
                GridPosition::Left => (self.next_position.0 - width, 0),
                GridPosition::Right => (self.next_position.0, 0),
                GridPosition::Top => (0, self.next_position.1 - height),
                GridPosition::Bottom => (0, self.next_position.1),
            },
        };
        self.attach(child, left, top, width, height);
    }

    /// The cells of `actor`, as left, top, width and height, if it is in
    /// the grid.
    pub fn child_position(&self, actor: ActorId) -> (r: Option<(i32, i32, i32, i32)>)
        requires
            self.wf(),
        ensures
            r == if self@.dom().contains(actor) {
                let c = self@[actor];
                Some((c.left, c.top, c.width, c.height))
            } else {
                None
            },
    {
        match self.position(actor) {
            Some(i) => {
                proof {
                    lemma_unique_index(self.children@, actor, i as int);
                }
                let c = self.children[i].1;
                Some((c.left, c.top, c.width, c.height))
            },
            None => None,
        }
    }

    /// Takes `actor` out of the grid; the column and row past the used
    /// cells stay.
    pub fn remove_child(&mut self, actor: ActorId)
        requires
            old(self).wf(),
        ensures
            final(self).wf(),
            final(self)@ == old(self)@.remove(actor),
            old(self)@.dom().contains(actor) ==> exists|i: int|
                0 <= i < old(self).spec_order().len() && old(self).spec_order()[i] == actor
                    && final(self).spec_order() == old(self).spec_order().remove(i),
            !old(self)@.dom().contains(actor) ==> final(self).spec_order() == old(self).spec_order(),
            final(self).spec_next_position() == old(self).spec_next_position(),
            final(self).spec_orientation() == old(self).spec_orientation(),
            final(self).spec_row_homogeneous() == old(self).spec_row_homogeneous(),
            final(self).spec_column_homogeneous() == old(self).spec_column_homogeneous(),
    {
        match self.position(actor) {
            Some(i) => {
                let ghost before = self.children@;
                proof {
                    lemma_unique_index(before, actor, i as int);
                }
                self.children.remove(i);
                assert(self.children@ == before.remove(i as int));
                assert(actor_order(self.children@) =~= actor_order(before).remove(i as int));
                assert(actor_order(before)[i as int] == actor);
                assert(old(self).spec_order()[i as int] == actor);
                assert(self.spec_order() == old(self).spec_order().remove(i as int));
                assert(actors_unique(self.children@)) by {
                    assert forall|a: int, b: int|
                        0 <= a < self.children@.len() && 0 <= b < self.children@.len() && a != b
                        implies self.children@[a].0 != self.children@[b].0 by {
                        let a0 = if a < i { a } else { a + 1 };
                        let b0 = if b < i { b } else { b + 1 };
                        assert(self.children@[a] == before[a0]);
                        assert(self.children@[b] == before[b0]);
                    }
                }
                assert(self@ =~= cell_map(before).remove(actor)) by {
                    assert forall|x: ActorId| #[trigger] self@.dom().contains(x) == cell_map(before).remove(actor).dom().contains(x) by {
                        if has_cell(self.children@, x) {
                            let k = choose|k: int| 0 <= k < self.children@.len() && self.children@[k].0 == x;
                            let k0 = if k < i { k } else { k + 1 };
                            assert(before[k0].0 == x);
                            assert(k0 != i);
                        }
                        if has_cell(before, x) && x != actor {
                            let k = choose|k: int| 0 <= k < before.len() && before[k].0 == x;
                            assert(k != i);
                            let k1 = if k < i { k } else { k - 1 };
                            assert(self.children@[k1].0 == x);
                        }
                    }
                    assert forall|x: ActorId| #[trigger] self@.dom().contains(x) implies self@[x] == cell_map(before).remove(actor)[x] by {
                        let k = choose|k: int| 0 <= k < self.children@.len() && self.children@[k].0 == x;
                        lemma_unique_index(self.children@, x, k);
                        let k0 = if k < i { k } else { k + 1 };
                        assert(before[k0].0 == x);
                        lemma_unique_index(before, x, k0);
                    }
                }
            },
            None => {
                assert(self@ =~= self@.remove(actor));
            },
        }
    }

    /// The children and their cells, in the order they were first attached.
    pub fn cells(&self) -> (r: &[(ActorId, GridCell)])
        ensures
            cell_map(r@) == self@,
            self.wf() ==> actors_unique(r@),
            r@.len() == self.spec_order().len(),
            self.wf() ==> forall|k: int|
                0 <= k < r@.len() ==> #[trigger] r@[k] == (self.spec_order()[k], self@[self.spec_order()[k]]),
    {
        proof {
            if self.wf() {
                assert forall|k: int| 0 <= k < self.children@.len() implies #[trigger] self.children@[k] == (
                    self.spec_order()[k],
                    self@[self.spec_order()[k]],
                ) by {
                    lemma_unique_index(self.children@, self.children@[k].0, k);
                }
            }
        }
        self.children.as_slice()
    }
}

/// Attaching a child and reading its position gives back the cells it was
/// attached at, spans under one counted as one; other children keep
/// theirs.
pub proof fn law_attach_then_position(cells: Map<ActorId, GridCell>, actor: ActorId, other: ActorId, left: i32, top: i32, width: i32, height: i32)
    ensures
        cells.insert(actor, attached_cell(left, top, width, height))[actor] == attached_cell(left, top, width, height),
        attached_cell(left, top, width, height).width >= 1,
        attached_cell(left, top, width, height).height >= 1,
        other != actor ==> cells.insert(actor, attached_cell(left, top, width, height)).dom().contains(other) == cells.dom().contains(other),
        other != actor && cells.dom().contains(other) ==> cells.insert(actor, attached_cell(left, top, width, height))[other] == cells[other],
{
}

/// A child attached to the right of a sibling in the grid starts in the
/// column just past the sibling, in the sibling's row; one attached below
/// starts in the row just past it, in its column.
pub proof fn law_next_to_sibling(cells: Map<ActorId, GridCell>, next: (i32, i32), sib: ActorId, width: i32, height: i32)
    requires
        cells.dom().contains(sib),
    ensures
        next_to_origin(cells, next, Some(sib), GridPosition::Right, width, height) == (
            cells[sib].left + cells[sib].width,
            cells[sib].top as int,
        ),
        next_to_origin(cells, next, Some(sib), GridPosition::Bottom, width, height) == (
            cells[sib].left as int,
            cells[sib].top + cells[sib].height,
        ),
{
}

} // verus!
