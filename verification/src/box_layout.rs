//! The box layout manager, which lines its children up.
use vstd::prelude::*;

use crate::enums::Orientation;

verus! {

/// The box layout manager: its orientation, the spacing between children,
/// and whether every child gets the same size.
#[derive(Debug, Clone)]
pub struct BoxLayout {
    pub orientation: Orientation,
    pub spacing: u32,
    pub homogeneous: bool,
}

impl Default for BoxLayout {
    /// Horizontal, no spacing, not homogeneous.
    fn default() -> (l: Self)
        ensures
            l.orientation == Orientation::Horizontal,
            l.spacing == 0,
            !l.homogeneous,
    {
        BoxLayout { orientation: Orientation::Horizontal, spacing: 0, homogeneous: false }
    }
}

impl BoxLayout {
    /// Horizontal, no spacing, not homogeneous.
    pub fn new() -> (l: Self)
        ensures
            l.orientation == Orientation::Horizontal,
            l.spacing == 0,
            !l.homogeneous,
    {
        BoxLayout { orientation: Orientation::Horizontal, spacing: 0, homogeneous: false }
    }

    /// Sets the orientation.
    pub fn set_orientation(&mut self, orientation: Orientation)
        ensures
            final(self).orientation == orientation,
            final(self).spacing == old(self).spacing,
            final(self).homogeneous == old(self).homogeneous,
    {
        self.orientation = orientation;
    }

    /// Sets the spacing.
    pub fn set_spacing(&mut self, spacing: u32)
        ensures
            final(self).spacing == spacing,
            final(self).orientation == old(self).orientation,
            final(self).homogeneous == old(self).homogeneous,
    {
        self.spacing = spacing;
    }

    /// Sets whether every child gets the same size.
    pub fn set_homogeneous(&mut self, homogeneous: bool)
        ensures
            final(self).homogeneous == homogeneous,
            final(self).orientation == old(self).orientation,
            final(self).spacing == old(self).spacing,
    {
        self.homogeneous = homogeneous;
    }
}

/// Child `x` is spread before child `y`: its gap between natural and
/// minimum size is larger, or the gaps are equal and `x` comes later.
pub open spec fn gap_before(gaps: Seq<i32>, x: int, y: int) -> bool {
    gaps[x] > gaps[y] || (gaps[x] == gaps[y] && x > y)
}

/// The order in which extra space is spread over children with the given
/// gaps: every child index once, largest gap first, and among equal gaps
/// the later child first.
pub fn spreading_order(gaps: &[i32]) -> (order: Vec<usize>)
    ensures
        order@.len() == gaps@.len(),
        forall|a: int| 0 <= a < order@.len() ==> (order@[a] as int) < gaps@.len(),
        forall|k: usize| (k as int) < gaps@.len() ==> #[trigger] order@.contains(k),
        forall|a: int, b: int|
            0 <= a < b < order@.len() ==> gap_before(gaps@, order@[a] as int, order@[b] as int),
{
    let mut order: Vec<usize> = Vec::new();
    let mut i: usize = 0;
    while i < gaps.len()
        invariant
            i <= gaps@.len(),
            order@.len() == i,
            forall|a: int| 0 <= a < order@.len() ==> (order@[a] as int) < i,
            forall|k: usize| k < i ==> #[trigger] order@.contains(k),
            forall|a: int, b: int|
                0 <= a < b < order@.len() ==> gap_before(gaps@, order@[a] as int, order@[b] as int),
        decreases gaps@.len() - i,
    {
        let mut p: usize = 0;
        while p < order.len() && (gaps[order[p]] > gaps[i] || (gaps[order[p]] == gaps[i]
            && order[p] > i))
            invariant
                i < gaps@.len(),
                p <= order@.len(),
                forall|a: int| 0 <= a < order@.len() ==> (order@[a] as int) < i,
                forall|a: int| 0 <= a < p ==> gap_before(gaps@, order@[a] as int, i as int),
            decreases order@.len() - p,
        {
            p += 1;
        }
        let ghost before = order@;
        proof {
            assert forall|a: int| p <= a < before.len() implies gap_before(gaps@, i as int, before[a] as int) by {
                assert(!gap_before(gaps@, before[p as int] as int, i as int));
                assert((before[p as int] as int) < i);
                if a > p {
                    assert(gap_before(gaps@, before[p as int] as int, before[a] as int));
                }
            }
        }
        order.insert(p, i);
        assert(order@ == before.insert(p as int, i));
        assert forall|a: int, b: int|
            0 <= a < b < order@.len() implies gap_before(gaps@, order@[a] as int, order@[b] as int) by {
            if b < p {
            } else if b == p {
            } else if a < p {
                assert(order@[b] == before[b - 1]);
                if p < before.len() {
                    assert(gap_before(gaps@, before[a] as int, i as int));
                }
            } else if a == p {
                assert(order@[b] == before[b - 1]);
            } else {
                assert(order@[a] == before[a - 1]);
                assert(order@[b] == before[b - 1]);
            }
        }
        assert forall|k: usize| k < i + 1 implies #[trigger] order@.contains(k) by {
            if k == i {
                assert(order@[p as int] == i);
            } else {
                assert(before.contains(k));
                let w = choose|w: int| 0 <= w < before.len() && before[w] == k;
                if w < p {
                    assert(order@[w] == k);
                } else {
                    assert(order@[w + 1] == k);
                }
            }
        }
        i += 1;
    }
    order
}


/// `a / b` rounded towards zero, as integer division does.
pub open spec fn trunc_div(a: int, b: int) -> int {
    if a >= 0 {
        a / b
    } else {
        -((-a) / b)
    }
}

/// The remainder that goes with `trunc_div`: it has the sign of `a`.
pub open spec fn trunc_rem(a: int, b: int) -> int {
    a - b * trunc_div(a, b)
}

/// The number of `true` entries of `s`.
pub open spec fn count_true(s: Seq<bool>) -> nat
    decreases s.len(),
{
    if s.len() == 0 {
        0
    } else {
        count_true(s.drop_last()) + (if s.last() { 1nat } else { 0nat })
    }
}

/// The extra pixels of child `i` when `size` is shared among the children
/// marked in `takes`: each of the `n` takers gets `size / n`, and the first
/// `size % n` takers one more; the others get none.
pub open spec fn share_of(size: int, takes: Seq<bool>, i: int) -> int {
    if takes[i] {
        let n = count_true(takes) as int;
        trunc_div(size, n) + (if (count_true(takes.take(i)) as int) < trunc_rem(size, n) { 1int } else { 0int })
    } else {
        0
    }
}

/// The sum of the shares of the first `i` children.
pub open spec fn shares_total(size: int, takes: Seq<bool>, i: int) -> int
    decreases i,
{
    if i <= 0 {
        0
    } else {
        shares_total(size, takes, i - 1) + share_of(size, takes, i - 1)
    }
}

proof fn lemma_count_true_step(s: Seq<bool>, i: int)
    requires
        0 <= i < s.len(),
    ensures
        count_true(s.take(i + 1)) == count_true(s.take(i)) + (if s[i] { 1nat } else { 0nat }),
{
    assert(s.take(i + 1).drop_last() =~= s.take(i));
}

proof fn lemma_count_true_bounded(s: Seq<bool>)
    ensures
        count_true(s) <= s.len(),
    decreases s.len(),
{
    if s.len() > 0 {
        lemma_count_true_bounded(s.drop_last());
    }
}

/// Shares `size` pixels among the children marked in `takes`, as the box
/// layout does with the space left over: each taker gets `size / n` (rounded
/// towards zero) and the first `size % n` takers one pixel more; a child
/// that does not take gets 0, and so does every child when none takes.
pub fn share_extra(size: i32, takes: &[bool]) -> (shares: Vec<i32>)
    requires
        takes@.len() <= i32::MAX,
    ensures
        shares@.len() == takes@.len(),
        forall|i: int| 0 <= i < takes@.len() ==> #[trigger] shares@[i] == share_of(size as int, takes@, i),
{
    let len = takes.len();
    let mut n: i32 = 0;
    let mut i: usize = 0;
    while i < len
        invariant
            len == takes@.len(),
            len <= i32::MAX,
            i <= len,
            n == count_true(takes@.take(i as int)),
        decreases len - i,
    {
        proof {
            lemma_count_true_step(takes@, i as int);
            lemma_count_true_bounded(takes@.take(i as int));
        }
        if takes[i] {
            n = n + 1;
        }
        i += 1;
    }
    assert(takes@.take(len as int) =~= takes@);
    let ghost total = count_true(takes@) as int;
    let mut base: i32 = 0;
    let mut rem: i32 = 0;
    if n > 0 {
        if size >= 0 {
            base = size / n;
            rem = size % n;
            proof {
                vstd::arithmetic::div_mod::lemma_fundamental_div_mod(size as int, n as int);
                assert(rem > 0 ==> base < i32::MAX) by (nonlinear_arith)
                    requires
                        n * base + rem == size,
                        0 <= rem < n,
                        size <= i32::MAX,
                        n >= 1,
                        base >= 0,
                ;
            }
        } else {
            let a: i64 = -(size as i64);
            proof {
                vstd::arithmetic::div_mod::lemma_fundamental_div_mod(a as int, n as int);
                assert(0 <= a / (n as i64) <= a) by (nonlinear_arith)
                    requires
                        a >= 0,
                        n >= 1,
                        (a as int) == (n as int) * (a as int / n as int) + (a as int % n as int),
                        0 <= (a as int % n as int) < n,
                ;
                assert(trunc_rem(size as int, n as int) <= 0) by (nonlinear_arith)
                    requires
                        size < 0,
                        a == -size,
                        n >= 1,
                        trunc_div(size as int, n as int) == -(a as int / n as int),
                        (a as int) == (n as int) * (a as int / n as int) + (a as int % n as int),
                        0 <= (a as int % n as int) < n,
                ;
            }
            let q: i64 = a / (n as i64);
            base = (-q) as i32;
        }
    }
    let mut shares: Vec<i32> = Vec::new();
    let mut rank: i32 = 0;
    let mut j: usize = 0;
    while j < len
        invariant
            len == takes@.len(),
            len <= i32::MAX,
            j <= len,
            n == total,
            total == count_true(takes@),
            rank == count_true(takes@.take(j as int)),
            n > 0 ==> base == trunc_div(size as int, n as int),
            n > 0 && size >= 0 ==> rem == trunc_rem(size as int, n as int) && 0 <= rem < n && (rem > 0
                ==> base < i32::MAX),
            n > 0 && size < 0 ==> trunc_rem(size as int, n as int) <= 0 && rem == 0,
            shares@.len() == j,
            forall|k: int| 0 <= k < j ==> #[trigger] shares@[k] == share_of(size as int, takes@, k),
        decreases len - j,
    {
        proof {
            lemma_count_true_step(takes@, j as int);
            lemma_count_true_bounded(takes@.take(j as int));
            if takes@[j as int] {
                assert(count_true(takes@.take(j as int + 1)) <= count_true(takes@)) by {
                    lemma_count_true_prefix(takes@, j as int + 1);
                }
            }
        }
        if takes[j] {
            let share: i32 = if rank < rem { base + 1 } else { base };
            shares.push(share);
            rank = rank + 1;
        } else {
            shares.push(0);
        }
        j += 1;
    }
    shares
}

proof fn lemma_count_true_prefix(s: Seq<bool>, i: int)
    requires
        0 <= i <= s.len(),
    ensures
        count_true(s.take(i)) <= count_true(s),
    decreases s.len() - i,
{
    if i < s.len() {
        lemma_count_true_step(s, i);
        lemma_count_true_prefix(s, i + 1);
    } else {
        assert(s.take(i) =~= s);
    }
}


proof fn lemma_shares_prefix(size: int, takes: Seq<bool>, i: int)
    requires
        size >= 0,
        count_true(takes) > 0,
        0 <= i <= takes.len(),
        0 <= trunc_rem(size, count_true(takes) as int),
    ensures
        ({
            let n = count_true(takes) as int;
            let c = count_true(takes.take(i)) as int;
            let r = trunc_rem(size, n);
            shares_total(size, takes, i) == trunc_div(size, n) * c + (if c < r { c } else { r })
        }),
    decreases i,
{
    if i > 0 {
        lemma_shares_prefix(size, takes, i - 1);
        lemma_count_true_step(takes, i - 1);
        let n = count_true(takes) as int;
        let b = trunc_div(size, n);
        let c = count_true(takes.take(i - 1)) as int;
        assert(b * (c + 1) == b * c + b) by (nonlinear_arith);
        assert(shares_total(size, takes, i) == shares_total(size, takes, i - 1) + share_of(size, takes, i - 1));
    } else {
        assert(takes.take(0) =~= Seq::<bool>::empty());
        assert(count_true(takes.take(0)) == 0);
        assert(trunc_div(size, count_true(takes) as int) * 0 == 0);
    }
}

/// When some child takes a share of a size that is not negative, the shares
/// add up to exactly that size: the box is filled to the pixel.
pub proof fn law_shares_add_up(size: int, takes: Seq<bool>)
    requires
        size >= 0,
        count_true(takes) > 0,
    ensures
        shares_total(size, takes, takes.len() as int) == size,
{
    let n = count_true(takes) as int;
    vstd::arithmetic::div_mod::lemma_fundamental_div_mod(size, n);
    let r = trunc_rem(size, n);
    assert(r == size % n);
    lemma_shares_prefix(size, takes, takes.len() as int);
    assert(takes.take(takes.len() as int) =~= takes);
    assert(trunc_div(size, n) * n + r == size) by (nonlinear_arith)
        requires
            r == size - n * trunc_div(size, n),
    ;
}

} // verus!
