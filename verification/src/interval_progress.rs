//! A registry of progress functions by value type, in a fixed-capacity
//! vector.
//!
//! Value types and progress functions are known here by integer keys and
//! handles: the caller maps its type identifiers to keys and its functions
//! to handles. The handle `LINEAR_PROGRESS` stands for the linear
//! progress function that serves types without a registered function.
use vstd::prelude::*;

verus! {

/// The most entries the registry holds.
pub const REGISTRY_CAPACITY: usize = 256;

/// The handle of the linear progress function.
pub const LINEAR_PROGRESS: u64 = 0;

/// The fixed-capacity vector `heapless::Vec` of the `heapless` crate, known
/// to the verifier as an opaque type: its contents are named by
/// `registry_entries` and described by the wrappers below.
#[verifier::external_type_specification]
#[verifier::external_body]
#[verifier::reject_recursive_types(T)]
pub struct ExHeaplessVec<T, const N: usize>(heapless::Vec<T, N>);

/// The entries of a registry vector, in order.
pub uninterp spec fn registry_entries(v: heapless::Vec<(u64, u64), 256>) -> Seq<(u64, u64)>;

/// `heapless::Vec::new`: an empty vector.
#[verifier::external_body]
fn entries_new() -> (v: heapless::Vec<(u64, u64), 256>)
    ensures
        registry_entries(v) == Seq::<(u64, u64)>::empty(),
{
    heapless::Vec::new()
}

/// `heapless::Vec::as_slice`: the entries, of which there are at most the
/// capacity.
#[verifier::external_body]
fn entries_slice(v: &heapless::Vec<(u64, u64), 256>) -> (s: &[(u64, u64)])
    ensures
        s@ == registry_entries(*v),
        s@.len() <= 256,
{
    v.as_slice()
}

/// `heapless::Vec::push`: appends `item` when there is room, else hands it
/// back and changes nothing.
#[verifier::external_body]
fn entries_push(v: &mut heapless::Vec<(u64, u64), 256>, item: (u64, u64)) -> (r: Result<(), (u64, u64)>)
    ensures
        registry_entries(*old(v)).len() < 256 ==> r is Ok && registry_entries(*final(v))
            == registry_entries(*old(v)).push(item),
        registry_entries(*old(v)).len() >= 256 ==> r is Err,
        registry_entries(*old(v)).len() >= 256 ==> registry_entries(*final(v)) == registry_entries(
            *old(v),
        ),
{
    v.push(item)
}

/// `heapless::Vec::as_mut_slice`, written at `index`: replaces the entry
/// there.
#[verifier::external_body]
fn entries_set(v: &mut heapless::Vec<(u64, u64), 256>, index: usize, item: (u64, u64))
    requires
        index < registry_entries(*old(v)).len(),
    ensures
        registry_entries(*final(v)) == registry_entries(*old(v)).update(index as int, item),
{
    v.as_mut_slice()[index] = item;
}

/// Some entry has key `key`.
pub open spec fn has_type_key(s: Seq<(u64, u64)>, key: u64) -> bool {
    exists|i: int| 0 <= i < s.len() && s[i].0 == key
}

/// The function registered for `key`, if any.
pub open spec fn registry_lookup(s: Seq<(u64, u64)>, key: u64) -> Option<u64> {
    if has_type_key(s, key) {
        Some(s[choose|i: int| 0 <= i < s.len() && s[i].0 == key].1)
    } else {
        None
    }
}

/// No key occurs twice.
pub open spec fn type_keys_unique(s: Seq<(u64, u64)>) -> bool {
    forall|i: int, j: int| 0 <= i < s.len() && 0 <= j < s.len() && i != j ==> s[i].0 != s[j].0
}

/// `register`: the entry of `key` gets `func`; a new key is appended when
/// there is room, and dropped when the registry is full.
pub open spec fn register_model(s: Seq<(u64, u64)>, key: u64, func: u64) -> Seq<(u64, u64)> {
    if has_type_key(s, key) {
        s.update(choose|i: int| 0 <= i < s.len() && s[i].0 == key, (key, func))
    } else if s.len() < REGISTRY_CAPACITY {
        s.push((key, func))
    } else {
        s
    }
}

/// The registry of progress functions.
pub struct ProgressRegistry {
    registry: heapless::Vec<(u64, u64), 256>,
}

impl View for ProgressRegistry {
    type V = Seq<(u64, u64)>;

    closed spec fn view(&self) -> Seq<(u64, u64)> {
        registry_entries(self.registry)
    }
}

impl ProgressRegistry {
    /// Validity: no type has two entries, and the capacity holds.
    pub open spec fn wf(&self) -> bool {
        type_keys_unique(self@) && self@.len() <= REGISTRY_CAPACITY
    }

    /// An empty registry.
    pub fn new() -> (r: Self)
        ensures
            r.wf(),
            r@ == Seq::<(u64, u64)>::empty(),
    {
        ProgressRegistry { registry: entries_new() }
    }

    fn position(&self, type_key: u64) -> (r: Option<usize>)
        ensures
            r is None ==> !has_type_key(self@, type_key),
            r matches Some(i) ==> i < self@.len() && self@[i as int].0 == type_key,
            self@.len() <= REGISTRY_CAPACITY,
    {
        let entries = entries_slice(&self.registry);
        let mut i: usize = 0;
        while i < entries.len()
            invariant
                i <= entries@.len(),
                entries@ == self@,
                entries@.len() <= 256,
                forall|j: int| 0 <= j < i ==> entries@[j].0 != type_key,
            decreases entries@.len() - i,
        {
            if entries[i].0 == type_key {
                return Some(i);
            }
            i += 1;
        }
        None
    }

    /// Registers `func` for `type_key`, replacing an earlier registration.
    /// A new type is dropped when the registry is full.
    pub fn register_progress_func(&mut self, type_key: u64, func: u64)
        requires
            old(self).wf(),
        ensures
            final(self).wf(),
            final(self)@ == register_model(old(self)@, type_key, func),
    {
        match self.position(type_key) {
            Some(pos) => {
                proof {
                    lemma_unique_index(self@, type_key, pos as int);
                }
                let ghost before = self@;
                entries_set(&mut self.registry, pos, (type_key, func));
                assert(type_keys_unique(self@)) by {
                    assert forall|i: int, j: int|
                        0 <= i < self@.len() && 0 <= j < self@.len() && i != j implies self@[i].0
                        != self@[j].0 by {
                        assert(self@[i].0 == before[i].0);
                        assert(self@[j].0 == before[j].0);
                    }
                }
            },
            None => {
                let ghost before = self@;
                let _ = entries_push(&mut self.registry, (type_key, func));
                assert(type_keys_unique(self@)) by {
                    assert forall|i: int, j: int|
                        0 <= i < self@.len() && 0 <= j < self@.len() && i != j implies self@[i].0
                        != self@[j].0 by {
                        if i < before.len() && j < before.len() {
                        } else if i == before.len() {
                            assert(self@[j] == before[j]);
                        } else {
                            assert(self@[i] == before[i]);
                        }
                    }
                }
            },
        }
    }

    /// The function registered for `type_key`, if any.
    pub fn lookup_progress_func(&self, type_key: u64) -> (r: Option<u64>)
        requires
            self.wf(),
        ensures
            r == registry_lookup(self@, type_key),
    {
        match self.position(type_key) {
            Some(pos) => {
                proof {
                    lemma_unique_index(self@, type_key, pos as int);
                }
                let entries = entries_slice(&self.registry);
                Some(entries[pos].1)
            },
            None => None,
        }
    }

    /// The function for `type_key`: the registered one, else the linear
    /// progress function.
    pub fn run_progress_func(&self, type_key: u64) -> (r: u64)
        requires
            self.wf(),
        ensures
            r == match registry_lookup(self@, type_key) {
                Some(f) => f,
                None => LINEAR_PROGRESS,
            },
    {
        match self.lookup_progress_func(type_key) {
            Some(f) => f,
            None => LINEAR_PROGRESS,
        }
    }
}

proof fn lemma_unique_index(s: Seq<(u64, u64)>, key: u64, i: int)
    requires
        type_keys_unique(s),
        0 <= i < s.len(),
        s[i].0 == key,
    ensures
        has_type_key(s, key),
        (choose|j: int| 0 <= j < s.len() && s[j].0 == key) == i,
{
    assert(has_type_key(s, key));
}

/// After registering `func` for a type that is known or fits, a lookup of
/// that type finds `func`; lookups of other types are unchanged.
pub proof fn law_register_then_lookup(s: Seq<(u64, u64)>, key: u64, func: u64, other: u64)
    requires
        type_keys_unique(s),
        has_type_key(s, key) || s.len() < REGISTRY_CAPACITY,
    ensures
        registry_lookup(register_model(s, key, func), key) == Some(func),
        other != key ==> registry_lookup(register_model(s, key, func), other) == registry_lookup(
            s,
            other,
        ),
        type_keys_unique(register_model(s, key, func)),
{
    let t = register_model(s, key, func);
    if has_type_key(s, key) {
        let i = choose|i: int| 0 <= i < s.len() && s[i].0 == key;
        assert(t[i].0 == key);
        assert(type_keys_unique(t)) by {
            assert forall|a: int, b: int| 0 <= a < t.len() && 0 <= b < t.len() && a != b implies t[a].0
                != t[b].0 by {
                assert(t[a].0 == s[a].0);
                assert(t[b].0 == s[b].0);
            }
        }
        lemma_unique_index(t, key, i);
        if other != key {
            if has_type_key(s, other) {
                let k = choose|k: int| 0 <= k < s.len() && s[k].0 == other;
                assert(t[k] == s[k]);
                lemma_unique_index(t, other, k);
            }
            if has_type_key(t, other) {
                let k = choose|k: int| 0 <= k < t.len() && t[k].0 == other;
                assert(s[k] == t[k]);
            }
        }
    } else {
        let n = s.len() as int;
        assert(t[n].0 == key);
        assert(type_keys_unique(t)) by {
            assert forall|a: int, b: int| 0 <= a < t.len() && 0 <= b < t.len() && a != b implies t[a].0
                != t[b].0 by {
                if a < n && b < n {
                    assert(t[a] == s[a]);
                    assert(t[b] == s[b]);
                } else if a == n {
                    assert(t[b] == s[b]);
                } else {
                    assert(t[a] == s[a]);
                }
            }
        }
        lemma_unique_index(t, key, n);
        if other != key {
            if has_type_key(s, other) {
                let k = choose|k: int| 0 <= k < s.len() && s[k].0 == other;
                assert(t[k] == s[k]);
                lemma_unique_index(t, other, k);
            }
            if has_type_key(t, other) {
                let k = choose|k: int| 0 <= k < t.len() && t[k].0 == other;
                assert(k < n);
                assert(s[k] == t[k]);
            }
        }
    }
}

} // verus!
