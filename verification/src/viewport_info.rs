//! The monitor views of a viewport: their rectangles, which view borders
//! which, and how far they extend together.
use vstd::prelude::*;

verus! {

/// An integer rectangle.
#[derive(Debug, Clone, Copy, PartialEq, Eq, Structural)]
pub struct Rectangle {
    pub x: i32,
    pub y: i32,
    pub width: i32,
    pub height: i32,
}

/// The vertical extents of `a` and `b`, as half-open ranges, intersect.
pub open spec fn spec_vert_overlap(a: Rectangle, b: Rectangle) -> bool {
    a.y < b.y + b.height && b.y < a.y + a.height
}

/// The horizontal extents of `a` and `b`, as half-open ranges, intersect.
pub open spec fn spec_horiz_overlap(a: Rectangle, b: Rectangle) -> bool {
    a.x < b.x + b.width && b.x < a.x + a.width
}

impl Rectangle {
    /// The rectangle at `(x, y)` of the given size.
    pub fn new(x: i32, y: i32, width: i32, height: i32) -> (r: Self)
        ensures
            r == (Rectangle { x, y, width, height }),
    {
        Rectangle { x, y, width, height }
    }

    /// Whether the vertical extents of the rectangles intersect. The
    /// bottom edges must fit in `i32`.
    pub fn vert_overlap(&self, other: &Rectangle) -> (r: bool)
        requires
            i32::MIN <= self.y + self.height <= i32::MAX,
            i32::MIN <= other.y + other.height <= i32::MAX,
        ensures
            r == spec_vert_overlap(*self, *other),
    {
        self.y < other.y + other.height && other.y < self.y + self.height
    }

    /// Whether the horizontal extents of the rectangles intersect. The
    /// right edges must fit in `i32`.
    pub fn horiz_overlap(&self, other: &Rectangle) -> (r: bool)
        requires
            i32::MIN <= self.x + self.width <= i32::MAX,
            i32::MIN <= other.x + other.width <= i32::MAX,
        ensures
            r == spec_horiz_overlap(*self, *other),
    {
        self.x < other.x + other.width && other.x < self.x + self.width
    }
}

/// Overlap is symmetric, and a rectangle of positive height (width)
/// overlaps itself vertically (horizontally).
pub proof fn law_overlap_symmetric(a: Rectangle, b: Rectangle)
    ensures
        spec_vert_overlap(a, b) == spec_vert_overlap(b, a),
        spec_horiz_overlap(a, b) == spec_horiz_overlap(b, a),
        a.height > 0 ==> spec_vert_overlap(a, a),
        a.width > 0 ==> spec_horiz_overlap(a, a),
{
}

/// A direction from one view to a neighbouring one.
#[derive(Debug, Clone, Copy, PartialEq, Eq, Structural)]
pub enum DisplayDirection {
    Up,
    Down,
    Left,
    Right,
}

/// The right and bottom edges of `r` fit in `i32`.
pub open spec fn edges_fit(r: Rectangle) -> bool {
    &&& i32::MIN <= r.x + r.width <= i32::MAX
    &&& i32::MIN <= r.y + r.height <= i32::MAX
}

/// `neighbor` borders `view` on the side `direction`: their edges meet and
/// they overlap along that edge.
pub open spec fn spec_view_has_neighbor(view: Rectangle, neighbor: Rectangle, direction: DisplayDirection) -> bool {
    match direction {
        DisplayDirection::Right => neighbor.x == view.x + view.width && spec_vert_overlap(neighbor, view),
        DisplayDirection::Left => view.x == neighbor.x + neighbor.width && spec_vert_overlap(neighbor, view),
        DisplayDirection::Up => view.y == neighbor.y + neighbor.height && spec_horiz_overlap(neighbor, view),
        DisplayDirection::Down => neighbor.y == view.y + view.height && spec_horiz_overlap(neighbor, view),
    }
}

/// Whether `neighbor` borders `view` on the side `direction`.
fn view_has_neighbor(view: &Rectangle, neighbor: &Rectangle, direction: DisplayDirection) -> (r: bool)
    requires
        edges_fit(*view),
        edges_fit(*neighbor),
    ensures
        r == spec_view_has_neighbor(*view, *neighbor, direction),
{
    match direction {
        DisplayDirection::Right => neighbor.x == view.x + view.width && neighbor.vert_overlap(view),
        DisplayDirection::Left => view.x == neighbor.x + neighbor.width && neighbor.vert_overlap(view),
        DisplayDirection::Up => view.y == neighbor.y + neighbor.height && neighbor.horiz_overlap(view),
        DisplayDirection::Down => neighbor.y == view.y + view.height && neighbor.horiz_overlap(view),
    }
}

/// The smallest left edge among `views`; `i32::MAX` when there is none.
pub open spec fn min_left(views: Seq<Rectangle>) -> int
    decreases views.len(),
{
    if views.len() == 0 {
        i32::MAX as int
    } else {
        let m = min_left(views.drop_last());
        if views.last().x < m { views.last().x as int } else { m }
    }
}

/// The largest right edge among `views`; `i32::MIN` when there is none.
pub open spec fn max_right(views: Seq<Rectangle>) -> int
    decreases views.len(),
{
    if views.len() == 0 {
        i32::MIN as int
    } else {
        let m = max_right(views.drop_last());
        let e = views.last().x + views.last().width;
        if e > m { e } else { m }
    }
}

/// The smallest top edge among `views`; `i32::MAX` when there is none.
pub open spec fn min_top(views: Seq<Rectangle>) -> int
    decreases views.len(),
{
    if views.len() == 0 {
        i32::MAX as int
    } else {
        let m = min_top(views.drop_last());
        if views.last().y < m { views.last().y as int } else { m }
    }
}

/// The largest bottom edge among `views`; `i32::MIN` when there is none.
pub open spec fn max_bottom(views: Seq<Rectangle>) -> int
    decreases views.len(),
{
    if views.len() == 0 {
        i32::MIN as int
    } else {
        let m = max_bottom(views.drop_last());
        let e = views.last().y + views.last().height;
        if e > m { e } else { m }
    }
}

/// The first view other than `idx` that borders view `idx` on the side
/// `direction`, if there is one.
pub open spec fn is_first_neighbor(views: Seq<Rectangle>, idx: int, direction: DisplayDirection, i: int) -> bool {
    &&& 0 <= i < views.len()
    &&& i != idx
    &&& spec_view_has_neighbor(views[idx], views[i], direction)
    &&& forall|j: int| 0 <= j < i && j != idx ==> !spec_view_has_neighbor(views[idx], #[trigger] views[j], direction)
}

/// The monitor views of a viewport, as rectangles in their order, and
/// whether they are already in scaled coordinates.
#[derive(Debug, Clone)]
pub struct MetaViewportInfo {
    views: Vec<Rectangle>,
    is_views_scaled: bool,
}

impl View for MetaViewportInfo {
    type V = Seq<Rectangle>;

    closed spec fn view(&self) -> Seq<Rectangle> {
        self.views@
    }
}

impl MetaViewportInfo {
    /// Whether the views are in scaled coordinates, as a spec value.
    pub closed spec fn spec_is_views_scaled(&self) -> bool {
        self.is_views_scaled
    }

    /// The edges of every view fit in `i32`.
    pub open spec fn all_edges_fit(&self) -> bool {
        forall|i: int| 0 <= i < self@.len() ==> edges_fit(#[trigger] self@[i])
    }

    /// The viewport of `views`, in their order.
    pub fn new(views: &[Rectangle], is_views_scaled: bool) -> (v: Self)
        ensures
            v@ == views@,
            v.spec_is_views_scaled() == is_views_scaled,
    {
        let mut infos: Vec<Rectangle> = Vec::new();
        let mut i: usize = 0;
        while i < views.len()
            invariant
                i <= views@.len(),
                infos@ == views@.take(i as int),
            decreases views@.len() - i,
        {
            infos.push(views[i]);
            i += 1;
        }
        assert(views@.take(views@.len() as int) =~= views@);
        MetaViewportInfo { views: infos, is_views_scaled }
    }

    /// The rectangle of view `idx`, if there is such a view.
    pub fn get_view_info(&self, idx: usize) -> (r: Option<Rectangle>)
        ensures
            r == if idx < self@.len() { Some(self@[idx as int]) } else { None },
    {
        if idx < self.views.len() {
            Some(self.views[idx])
        } else {
            None
        }
    }

    /// The first view, in order, that borders view `idx` on the side
    /// `direction`; `None` when there is no view `idx` or no such view.
    pub fn get_neighbor(&self, idx: usize, direction: DisplayDirection) -> (r: Option<usize>)
        requires
            self.all_edges_fit(),
        ensures
            match r {
                Some(i) => idx < self@.len() && is_first_neighbor(self@, idx as int, direction, i as int),
                None => idx >= self@.len() || forall|j: int|
                    0 <= j < self@.len() && j != idx ==> !spec_view_has_neighbor(
                        self@[idx as int],
                        #[trigger] self@[j],
                        direction,
                    ),
            },
    {
        if idx >= self.views.len() {
            return None;
        }
        let rect = self.views[idx];
        let mut i: usize = 0;
        while i < self.views.len()
            invariant
                i <= self@.len(),
                idx < self@.len(),
                rect == self@[idx as int],
                self.all_edges_fit(),
                forall|j: int| 0 <= j < i && j != idx ==> !spec_view_has_neighbor(rect, #[trigger] self@[j], direction),
            decreases self@.len() - i,
        {
            if i != idx {
                assert(edges_fit(self@[i as int]));
                if view_has_neighbor(&rect, &self.views[i], direction) {
                    return Some(i);
                }
            }
            i += 1;
        }
        None
    }

    /// The number of views.
    pub fn get_num_views(&self) -> (r: usize)
        ensures
            r == self@.len(),
    {
        self.views.len()
    }

    /// The width and height of the smallest box around all views. The
    /// edges and both spans must fit in `i32` (which excludes an empty
    /// viewport).
    pub fn get_extents(&self) -> (r: (i32, i32))
        requires
            self.all_edges_fit(),
            i32::MIN <= max_right(self@) - min_left(self@) <= i32::MAX,
            i32::MIN <= max_bottom(self@) - min_top(self@) <= i32::MAX,
        ensures
            r.0 == max_right(self@) - min_left(self@),
            r.1 == max_bottom(self@) - min_top(self@),
    {
        let mut min_x: i32 = i32::MAX;
        let mut min_y: i32 = i32::MAX;
        let mut max_x: i32 = i32::MIN;
        let mut max_y: i32 = i32::MIN;
        let mut i: usize = 0;
        while i < self.views.len()
            invariant
                i <= self@.len(),
                self.all_edges_fit(),
                min_x == min_left(self@.take(i as int)),
                max_x == max_right(self@.take(i as int)),
                min_y == min_top(self@.take(i as int)),
                max_y == max_bottom(self@.take(i as int)),
            decreases self@.len() - i,
        {
            let r = self.views[i];
            assert(self@.take(i as int + 1).drop_last() =~= self@.take(i as int));
            assert(edges_fit(self@[i as int]));
            if r.x < min_x {
                min_x = r.x;
            }
            if r.x + r.width > max_x {
                max_x = r.x + r.width;
            }
            if r.y < min_y {
                min_y = r.y;
            }
            if r.y + r.height > max_y {
                max_y = r.y + r.height;
            }
            i += 1;
        }
        assert(self@.take(self@.len() as int) =~= self@);
        (max_x - min_x, max_y - min_y)
    }

    /// Whether the views are in scaled coordinates.
    pub fn is_views_scaled(&self) -> (r: bool)
        ensures
            r == self.spec_is_views_scaled(),
    {
        self.is_views_scaled
    }
}

/// Bordering is mutual: `b` borders `a` on the right exactly when `a`
/// borders `b` on the left, and `b` is below `a` exactly when `a` is above
/// `b`.
pub proof fn law_neighbor_mutual(a: Rectangle, b: Rectangle)
    ensures
        spec_view_has_neighbor(a, b, DisplayDirection::Right) == spec_view_has_neighbor(b, a, DisplayDirection::Left),
        spec_view_has_neighbor(a, b, DisplayDirection::Down) == spec_view_has_neighbor(b, a, DisplayDirection::Up),
{
}

/// A neighbour touches the view: on the right it starts exactly at the
/// view's right edge, on the left it ends exactly at the view's left edge,
/// above it ends exactly at the top edge and below it starts exactly at
/// the bottom edge, and the two overlap along that edge. A rectangle that
/// lies further out, with a gap, is no neighbour.
pub proof fn law_neighbor_edges_meet(view: Rectangle, neighbor: Rectangle, direction: DisplayDirection)
    ensures
        spec_view_has_neighbor(view, neighbor, direction) ==> match direction {
            DisplayDirection::Right => neighbor.x == view.x + view.width,
            DisplayDirection::Left => neighbor.x + neighbor.width == view.x,
            DisplayDirection::Up => neighbor.y + neighbor.height == view.y,
            DisplayDirection::Down => neighbor.y == view.y + view.height,
        },
        spec_view_has_neighbor(view, neighbor, direction) ==> match direction {
            DisplayDirection::Right | DisplayDirection::Left => view.y < neighbor.y + neighbor.height
                && neighbor.y < view.y + view.height,
            DisplayDirection::Up | DisplayDirection::Down => view.x < neighbor.x + neighbor.width
                && neighbor.x < view.x + view.width,
        },
        direction == DisplayDirection::Right && neighbor.x > view.x + view.width ==> !spec_view_has_neighbor(
            view,
            neighbor,
            direction,
        ),
        direction == DisplayDirection::Left && neighbor.x + neighbor.width < view.x ==> !spec_view_has_neighbor(
            view,
            neighbor,
            direction,
        ),
        direction == DisplayDirection::Up && neighbor.y + neighbor.height < view.y ==> !spec_view_has_neighbor(
            view,
            neighbor,
            direction,
        ),
        direction == DisplayDirection::Down && neighbor.y > view.y + view.height ==> !spec_view_has_neighbor(
            view,
            neighbor,
            direction,
        ),
{
}

/// The neighbour that `get_neighbor` reports on the right of a view starts
/// exactly at the view's right edge (and likewise on the other sides).
pub proof fn law_reported_neighbor_touches(views: Seq<Rectangle>, idx: int, direction: DisplayDirection, i: int)
    requires
        is_first_neighbor(views, idx, direction, i),
    ensures
        direction == DisplayDirection::Right ==> views[i].x == views[idx].x + views[idx].width,
        direction == DisplayDirection::Left ==> views[i].x + views[i].width == views[idx].x,
        direction == DisplayDirection::Up ==> views[i].y + views[i].height == views[idx].y,
        direction == DisplayDirection::Down ==> views[i].y == views[idx].y + views[idx].height,
{
    law_neighbor_edges_meet(views[idx], views[i], direction);
}

} // verus!
