//! Sequences used as sets in insertion order: inserting without
//! duplicates, removing every occurrence, and the facts that relate them.
use vstd::prelude::*;

verus! {

/// No element occurs twice in `s`.
pub open spec fn no_duplicates<T>(s: Seq<T>) -> bool {
    forall|i: int, j: int| 0 <= i < s.len() && 0 <= j < s.len() && i != j ==> s[i] != s[j]
}

/// `s` with `x` appended unless it is already there.
pub open spec fn insert_once<T>(s: Seq<T>, x: T) -> Seq<T> {
    if s.contains(x) {
        s
    } else {
        s.push(x)
    }
}

/// `s` without any occurrence of `x`, the order of the rest kept.
pub open spec fn remove_all<T>(s: Seq<T>, x: T) -> Seq<T> {
    s.filter(|y: T| y != x)
}


/// One more element of the prefix extends the filtered prefix by that
/// element when it differs from `x`.
pub proof fn lemma_filter_take_step<T>(s: Seq<T>, x: T, i: int)
    requires
        0 <= i < s.len(),
    ensures
        remove_all(s.take(i + 1), x) == if s[i] != x {
            remove_all(s.take(i), x).push(s[i])
        } else {
            remove_all(s.take(i), x)
        },
{
    let f = |y: T| y != x;
    assert(s.take(i + 1).drop_last() =~= s.take(i));
    reveal_with_fuel(Seq::filter, 1);
}

/// Appending an element that does not occur keeps a sequence free of
/// duplicates.
pub proof fn lemma_push_absent_no_duplicates<T>(s: Seq<T>, x: T)
    requires
        no_duplicates(s),
        !s.contains(x),
    ensures
        no_duplicates(s.push(x)),
{
    let t = s.push(x);
    assert forall|i: int, j: int| 0 <= i < t.len() && 0 <= j < t.len() && i != j implies t[i]
        != t[j] by {
        if i == s.len() {
            assert(t[j] == s[j]);
        } else if j == s.len() {
            assert(t[i] == s[i]);
        }
    }
}

/// Removing every occurrence of `x` keeps a sequence free of duplicates,
/// leaves no `x`, and keeps every other element's membership.
pub proof fn lemma_filter_no_duplicates<T>(s: Seq<T>, x: T)
    requires
        no_duplicates(s),
    ensures
        no_duplicates(remove_all(s, x)),
        !remove_all(s, x).contains(x),
        forall|y: T| y != x ==> (remove_all(s, x).contains(y) == s.contains(y)),
    decreases s.len(),
{
    let f = |y: T| y != x;
    if s.len() == 0 {
        assert(remove_all(s, x) =~= Seq::<T>::empty());
    } else {
        let p = s.drop_last();
        assert forall|i: int, j: int| 0 <= i < p.len() && 0 <= j < p.len() && i != j implies p[i]
            != p[j] by {
            assert(p[i] == s[i]);
            assert(p[j] == s[j]);
        }
        lemma_filter_no_duplicates(p, x);
        reveal_with_fuel(Seq::filter, 1);
        assert(s.drop_last() == p);
        let fp = remove_all(p, x);
        let last = s.last();
        assert(!p.contains(last)) by {
            if p.contains(last) {
                let k = choose|k: int| 0 <= k < p.len() && p[k] == last;
                assert(s[k] == s[s.len() - 1]);
            }
        }
        assert forall|y: T| y != x implies (remove_all(s, x).contains(y) == s.contains(y)) by {
            if s.contains(y) {
                let k = choose|k: int| 0 <= k < s.len() && s[k] == y;
                if k < s.len() - 1 {
                    assert(p[k] == y);
                } else {
                    assert(remove_all(s, x).last() == y);
                }
            }
            if remove_all(s, x).contains(y) && !p.contains(y) {
                let k = choose|k: int| 0 <= k < remove_all(s, x).len() && remove_all(s, x)[k] == y;
                if s.last() != x {
                    if k < fp.len() {
                        assert(fp[k] == y);
                    } else {
                        assert(y == last);
                    }
                } else {
                    assert(fp[k] == y);
                }
            }
        }
        if last != x {
            let t = fp.push(last);
            assert(remove_all(s, x) == t);
            assert(!fp.contains(last));
            lemma_push_absent_no_duplicates(fp, last);
        }
    }
}


/// After removing every occurrence of `x`, `x` does not occur.
pub proof fn lemma_filter_absent_of<T>(s: Seq<T>, x: T)
    ensures
        !remove_all(s, x).contains(x),
{
    let f = |y: T| y != x;
    if remove_all(s, x).contains(x) {
        let k = choose|k: int| 0 <= k < remove_all(s, x).len() && remove_all(s, x)[k] == x;
        s.lemma_filter_pred(f, k);
    }
}

/// Each element left after removing `x` differs from `x` and was in `s`;
/// each element of `s` other than `x` is left.
pub proof fn lemma_remove_all_members<T>(s: Seq<T>, x: T)
    ensures
        forall|k: int|
            0 <= k < remove_all(s, x).len() ==> #[trigger] remove_all(s, x)[k] != x && s.contains(
                remove_all(s, x)[k],
            ),
        forall|j: int| 0 <= j < s.len() && s[j] != x ==> remove_all(s, x).contains(#[trigger] s[j]),
{
    let f = |y: T| y != x;
    assert forall|k: int| 0 <= k < remove_all(s, x).len() implies #[trigger] remove_all(s, x)[k] != x
        && s.contains(remove_all(s, x)[k]) by {
        s.lemma_filter_pred(f, k);
        s.lemma_filter_contains_rev(f, remove_all(s, x)[k]);
    }
    assert forall|j: int| 0 <= j < s.len() && s[j] != x implies remove_all(s, x).contains(#[trigger] s[j]) by {
        s.lemma_filter_contains(f, j);
    }
}

/// Adding an absent element and removing it again gives back the sequence.
pub proof fn law_add_then_remove_restores<T>(s: Seq<T>, x: T)
    requires
        no_duplicates(s),
        !s.contains(x),
    ensures
        remove_all(insert_once(s, x), x) == s,
{
    let f = |y: T| y != x;
    let t = s.push(x);
    reveal_with_fuel(Seq::filter, 1);
    assert(t.drop_last() =~= s);
    lemma_filter_absent(s, x);
}

/// Removing an element that does not occur changes nothing.
pub proof fn lemma_filter_absent<T>(s: Seq<T>, x: T)
    requires
        !s.contains(x),
    ensures
        remove_all(s, x) == s,
    decreases s.len(),
{
    reveal_with_fuel(Seq::filter, 1);
    if s.len() > 0 {
        let p = s.drop_last();
        assert(!p.contains(x)) by {
            if p.contains(x) {
                let k = choose|k: int| 0 <= k < p.len() && p[k] == x;
                assert(s[k] == x);
            }
        }
        lemma_filter_absent(p, x);
        assert(s.last() != x) by {
            assert(s[s.len() - 1] == s.last());
        }
        assert(p.push(s.last()) =~= s);
    } else {
        assert(remove_all(s, x) =~= s);
    }
}

/// A duplicate-free sequence behaves as a set: after inserting `x` it holds
/// `x`, after removing `x` it does not, inserting twice is inserting once,
/// both keep it duplicate-free, and neither changes whether another
/// element `y` is held.
pub proof fn law_membership_set<T>(s: Seq<T>, x: T, y: T)
    requires
        no_duplicates(s),
    ensures
        insert_once(s, x).contains(x),
        !remove_all(s, x).contains(x),
        insert_once(insert_once(s, x), x) == insert_once(s, x),
        no_duplicates(insert_once(s, x)),
        no_duplicates(remove_all(s, x)),
        y != x ==> insert_once(s, x).contains(y) == s.contains(y),
        y != x ==> remove_all(s, x).contains(y) == s.contains(y),
{
    lemma_filter_no_duplicates(s, x);
    if !s.contains(x) {
        lemma_push_absent_no_duplicates(s, x);
        assert(s.push(x)[s.len() as int] == x);
        if y != x && s.contains(y) {
            let k = choose|k: int| 0 <= k < s.len() && s[k] == y;
            assert(s.push(x)[k] == y);
        }
        if y != x && s.push(x).contains(y) {
            let k = choose|k: int| 0 <= k < s.len() + 1 && s.push(x)[k] == y;
            assert(s[k] == y);
        }
    }
}


/// Removing an element from a duplicate-free sequence shortens it by one
/// exactly when the element was there.
pub proof fn lemma_remove_all_len<T>(s: Seq<T>, x: T)
    requires
        no_duplicates(s),
    ensures
        s.contains(x) ==> remove_all(s, x).len() == s.len() - 1,
        !s.contains(x) ==> remove_all(s, x).len() == s.len(),
    decreases s.len(),
{
    reveal_with_fuel(Seq::filter, 1);
    if s.len() == 0 {
    } else {
        let p = s.drop_last();
        assert forall|i: int, j: int| 0 <= i < p.len() && 0 <= j < p.len() && i != j implies p[i]
            != p[j] by {
            assert(p[i] == s[i]);
            assert(p[j] == s[j]);
        }
        lemma_remove_all_len(p, x);
        if s.last() == x {
            assert(!p.contains(x)) by {
                if p.contains(x) {
                    let k = choose|k: int| 0 <= k < p.len() && p[k] == x;
                    assert(s[k] == s[s.len() - 1]);
                }
            }
        } else {
            if s.contains(x) {
                let k = choose|k: int| 0 <= k < s.len() && s[k] == x;
                assert(p[k] == x);
            }
            if p.contains(x) {
                let k = choose|k: int| 0 <= k < p.len() && p[k] == x;
                assert(s[k] == x);
            }
        }
    }
}

} // verus!
