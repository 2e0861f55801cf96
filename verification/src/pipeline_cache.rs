//! A least-recently-used cache of pipeline objects, keyed by the
//! configuration state that the pipeline was built for.
use vstd::prelude::*;

use crate::paint_node::Rgba;
use crate::paint_nodes::{PipelineHandle, TextureHandle};

verus! {

/// The capacity that `PipelineCache::default` uses.
pub const DEFAULT_CAPACITY: usize = 64;

/// Blend state of a pipeline.
#[derive(Debug, Clone, Copy, PartialEq, Eq, Structural, Hash, Default)]
pub enum BlendMode {
    #[default]
    NoBlend,
    AlphaBlend,
    Premultiplied,
    Additive,
    SourceOver,
}

/// The configuration state that identifies a cached pipeline.
#[derive(Debug, Clone, Copy, PartialEq, Eq, Structural, Hash)]
pub struct PipelineKey {
    pub blend_mode: BlendMode,
    pub color: Rgba,
    pub texture: Option<TextureHandle>,
    pub snippet_hash: u32,
}

impl PipelineKey {
    /// A key with the given fields.
    pub fn new(
        blend_mode: BlendMode,
        color: Rgba,
        texture: Option<TextureHandle>,
        snippet_hash: u32,
    ) -> (k: Self)
        ensures
            k == (PipelineKey { blend_mode, color, texture, snippet_hash }),
    {
        PipelineKey { blend_mode, color, texture, snippet_hash }
    }

    /// The key of an untextured, unblended pipeline of one color.
    pub fn solid(color: Rgba) -> (k: Self)
        ensures
            k == (PipelineKey {
                blend_mode: BlendMode::NoBlend,
                color,
                texture: None,
                snippet_hash: 0,
            }),
    {
        PipelineKey::new(BlendMode::NoBlend, color, None, 0)
    }

    /// The key of a premultiplied, opaque-white pipeline sampling `texture`.
    pub fn textured(texture: TextureHandle) -> (k: Self)
        ensures
            k == (PipelineKey {
                blend_mode: BlendMode::Premultiplied,
                color: Rgba { r: 255, g: 255, b: 255, a: 255 },
                texture: Some(texture),
                snippet_hash: 0,
            }),
    {
        PipelineKey::new(BlendMode::Premultiplied, Rgba::new(255, 255, 255, 255), Some(texture), 0)
    }
}

/// The abstract state of a cache: its entries from most to least recently
/// used, its capacity, and the handle that the next miss hands out.
pub struct CacheModel {
    pub entries: Seq<(PipelineKey, PipelineHandle)>,
    pub capacity: nat,
    pub next_handle: u32,
}

/// No key occurs twice among the entries.
pub open spec fn keys_unique(entries: Seq<(PipelineKey, PipelineHandle)>) -> bool {
    forall|i: int, j: int|
        0 <= i < entries.len() && 0 <= j < entries.len() && i != j ==> entries[i].0 != entries[j].0
}

/// `key` occurs among the entries.
pub open spec fn has_key(entries: Seq<(PipelineKey, PipelineHandle)>, key: PipelineKey) -> bool {
    exists|i: int| 0 <= i < entries.len() && entries[i].0 == key
}

/// The position of `key` among the entries (meaningful when `has_key`).
pub open spec fn key_index(entries: Seq<(PipelineKey, PipelineHandle)>, key: PipelineKey) -> int {
    choose|i: int| 0 <= i < entries.len() && entries[i].0 == key
}

/// `next + 1`, saturating at `u32::MAX`.
pub open spec fn saturating_next(next: u32) -> u32 {
    if next == u32::MAX {
        u32::MAX
    } else {
        (next + 1) as u32
    }
}

impl CacheModel {
    /// A well-formed cache: a positive capacity that the entries fit in,
    /// and no key twice.
    pub open spec fn wf(self) -> bool {
        &&& self.capacity >= 1
        &&& self.entries.len() <= self.capacity
        &&& keys_unique(self.entries)
    }

    /// The entries with the one at `i` moved to the front.
    pub open spec fn promote(self, i: int) -> CacheModel {
        CacheModel {
            entries: seq![self.entries[i]] + self.entries.remove(i),
            ..self
        }
    }

    /// `get_or_create`: on a hit, the entry moves to the front and its
    /// handle is returned; on a miss, the least recently used entry leaves
    /// when the cache is full, and a new entry with a fresh handle enters
    /// at the front.
    pub open spec fn get_or_create(self, key: PipelineKey) -> (CacheModel, PipelineHandle) {
        if has_key(self.entries, key) {
            let i = key_index(self.entries, key);
            (self.promote(i), self.entries[i].1)
        } else {
            let handle = PipelineHandle(self.next_handle);
            let kept = if self.entries.len() >= self.capacity {
                self.entries.drop_last()
            } else {
                self.entries
            };
            (
                CacheModel {
                    entries: seq![(key, handle)] + kept,
                    capacity: self.capacity,
                    next_handle: saturating_next(self.next_handle),
                },
                handle,
            )
        }
    }

    /// `get`: on a hit, as `get_or_create`; on a miss, nothing changes.
    pub open spec fn get(self, key: PipelineKey) -> (CacheModel, Option<PipelineHandle>) {
        if has_key(self.entries, key) {
            let i = key_index(self.entries, key);
            (self.promote(i), Some(self.entries[i].1))
        } else {
            (self, None)
        }
    }

    /// The keys from most to least recently used.
    pub open spec fn keys(self) -> Seq<PipelineKey> {
        self.entries.map_values(|e: (PipelineKey, PipelineHandle)| e.0)
    }
}

/// A least-recently-used cache of pipeline handles.
pub struct PipelineCache {
    entries: Vec<(PipelineKey, PipelineHandle)>,
    capacity: usize,
    next_handle: u32,
}

impl View for PipelineCache {
    type V = CacheModel;

    closed spec fn view(&self) -> CacheModel {
        CacheModel {
            entries: self.entries@,
            capacity: self.capacity as nat,
            next_handle: self.next_handle,
        }
    }
}

impl PipelineCache {
    /// Validity of a cache value.
    pub open spec fn wf(&self) -> bool {
        self@.wf()
    }

    /// An empty cache holding at most `capacity` entries (at least one).
    pub fn new(capacity: usize) -> (c: Self)
        ensures
            c.wf(),
            c@.entries == Seq::<(PipelineKey, PipelineHandle)>::empty(),
            c@.capacity == (if capacity == 0 { 1 } else { capacity }),
            c@.next_handle == 1,
    {
        PipelineCache {
            entries: Vec::new(),
            capacity: if capacity == 0 { 1 } else { capacity },
            next_handle: 1,
        }
    }

    /// An empty cache of `DEFAULT_CAPACITY`.
    pub fn default() -> (c: Self)
        ensures
            c.wf(),
            c@.entries == Seq::<(PipelineKey, PipelineHandle)>::empty(),
            c@.capacity == DEFAULT_CAPACITY,
            c@.next_handle == 1,
    {
        Self::new(DEFAULT_CAPACITY)
    }

    /// The most entries the cache holds.
    pub fn capacity(&self) -> (r: usize)
        ensures
            r == self@.capacity,
    {
        self.capacity
    }

    /// The number of entries.
    pub fn len(&self) -> (r: usize)
        ensures
            r == self@.entries.len(),
    {
        self.entries.len()
    }

    /// Whether the cache holds no entry.
    pub fn is_empty(&self) -> (r: bool)
        ensures
            r == (self@.entries.len() == 0),
    {
        self.entries.len() == 0
    }

    fn allocate_handle(&mut self) -> (h: PipelineHandle)
        ensures
            h == PipelineHandle(old(self)@.next_handle),
            final(self)@.next_handle == saturating_next(old(self)@.next_handle),
            final(self)@.entries == old(self)@.entries,
            final(self)@.capacity == old(self)@.capacity,
    {
        let handle = PipelineHandle(self.next_handle);
        self.next_handle = self.next_handle.saturating_add(1);
        handle
    }

    /// Finds `key`; on success moves its entry to the front.
    fn find_and_promote(&mut self, key: &PipelineKey) -> (r: Option<PipelineHandle>)
        requires
            old(self).wf(),
        ensures
            final(self).wf(),
            (final(self)@, r) == old(self)@.get(*key),
    {
        let mut i: usize = 0;
        while i < self.entries.len()
            invariant
                self.wf(),
                self@ == old(self)@,
                i <= self.entries@.len(),
                forall|j: int| 0 <= j < i ==> self.entries@[j].0 != *key,
            decreases self.entries@.len() - i,
        {
            if self.entries[i].0 == *key {
                let ghost before = self@;
                proof {
                    lemma_key_index_unique(before.entries, *key, i as int);
                    lemma_promote_wf(before, i as int);
                }
                let entry = self.entries.remove(i);
                self.entries.insert(0, entry);
                assert(self@.entries == before.promote(i as int).entries);
                assert(self@ == before.promote(i as int));
                return Some(entry.1);
            }
            i += 1;
        }
        assert(!has_key(self@.entries, *key));
        None
    }

    /// Returns the pipeline cached for `key`, creating one on a miss.
    pub fn get_or_create(&mut self, key: PipelineKey) -> (h: PipelineHandle)
        requires
            old(self).wf(),
        ensures
            final(self).wf(),
            (final(self)@, h) == old(self)@.get_or_create(key),
    {
        let found = self.find_and_promote(&key);
        match found {
            Some(h) => h,
            None => {
                let ghost before = self@;
                let pipeline = self.allocate_handle();
                if self.entries.len() >= self.capacity {
                    self.entries.pop();
                }
                self.entries.insert(0, (key, pipeline));
                proof {
                    lemma_insert_fresh_wf(before, key, pipeline);
                }
                assert(self@.entries == before.get_or_create(key).0.entries);
                pipeline
            }
        }
    }

    /// Returns the pipeline cached for `key`, if any, marking it most
    /// recently used.
    pub fn get(&mut self, key: &PipelineKey) -> (r: Option<PipelineHandle>)
        requires
            old(self).wf(),
        ensures
            final(self).wf(),
            (final(self)@, r) == old(self)@.get(*key),
    {
        self.find_and_promote(key)
    }

    /// Removes and returns the least recently used entry.
    pub fn evict_least_recently_used(&mut self) -> (r: Option<(PipelineKey, PipelineHandle)>)
        requires
            old(self).wf(),
        ensures
            final(self).wf(),
            final(self)@.capacity == old(self)@.capacity,
            final(self)@.next_handle == old(self)@.next_handle,
            old(self)@.entries.len() == 0 ==> r is None && final(self)@.entries == old(self)@.entries,
            old(self)@.entries.len() > 0 ==> r == Some(old(self)@.entries.last())
                && final(self)@.entries == old(self)@.entries.drop_last(),
    {
        self.entries.pop()
    }

    /// Removes every entry.
    pub fn clear(&mut self)
        requires
            old(self).wf(),
        ensures
            final(self).wf(),
            final(self)@.entries == Seq::<(PipelineKey, PipelineHandle)>::empty(),
            final(self)@.capacity == old(self)@.capacity,
            final(self)@.next_handle == old(self)@.next_handle,
    {
        self.entries.clear();
    }

    /// Whether an entry for `key` is cached.
    pub fn contains(&self, key: &PipelineKey) -> (r: bool)
        ensures
            r == has_key(self@.entries, *key),
    {
        let mut i: usize = 0;
        while i < self.entries.len()
            invariant
                i <= self.entries@.len(),
                forall|j: int| 0 <= j < i ==> self.entries@[j].0 != *key,
            decreases self.entries@.len() - i,
        {
            if self.entries[i].0 == *key {
                return true;
            }
            i += 1;
        }
        false
    }

    /// The cached keys from most to least recently used.
    pub fn keys(&self) -> (r: Vec<PipelineKey>)
        ensures
            r@ == self@.keys(),
    {
        let mut out: Vec<PipelineKey> = Vec::new();
        let mut i: usize = 0;
        while i < self.entries.len()
            invariant
                i <= self.entries@.len(),
                out@ == self@.keys().take(i as int),
            decreases self.entries@.len() - i,
        {
            out.push(self.entries[i].0);
            i += 1;
            assert(out@ == self@.keys().take(i as int));
        }
        assert(self@.keys().take(i as int) == self@.keys());
        out
    }
}

/// With unique keys, the entry holding `key` is the one `key_index` names.
proof fn lemma_key_index_unique(entries: Seq<(PipelineKey, PipelineHandle)>, key: PipelineKey, i: int)
    requires
        keys_unique(entries),
        0 <= i < entries.len(),
        entries[i].0 == key,
    ensures
        has_key(entries, key),
        key_index(entries, key) == i,
{
    assert(has_key(entries, key));
    let k = key_index(entries, key);
    assert(entries[k].0 == key);
}

/// Moving an entry to the front keeps a cache well formed.
proof fn lemma_promote_wf(m: CacheModel, i: int)
    requires
        m.wf(),
        0 <= i < m.entries.len(),
    ensures
        m.promote(i).wf(),
        m.promote(i).entries.len() == m.entries.len(),
{
    let p = m.promote(i).entries;
    let r = m.entries.remove(i);
    assert(p.len() == m.entries.len());
    assert forall|a: int, b: int| 0 <= a < p.len() && 0 <= b < p.len() && a != b implies p[a].0
        != p[b].0 by {
        let sa = if a == 0 { i } else if a - 1 < i { a - 1 } else { a };
        let sb = if b == 0 { i } else if b - 1 < i { b - 1 } else { b };
        assert(p[a] == m.entries[sa]);
        assert(p[b] == m.entries[sb]);
    }
}

/// Entering a key that the cache lacks, after evicting the last entry when
/// full, keeps it well formed.
proof fn lemma_insert_fresh_wf(m: CacheModel, key: PipelineKey, h: PipelineHandle)
    requires
        m.wf(),
        !has_key(m.entries, key),
    ensures
        ({
            let kept = if m.entries.len() >= m.capacity {
                m.entries.drop_last()
            } else {
                m.entries
            };
            CacheModel { entries: seq![(key, h)] + kept, ..m }.wf()
        }),
{
    let kept = if m.entries.len() >= m.capacity {
        m.entries.drop_last()
    } else {
        m.entries
    };
    let p = seq![(key, h)] + kept;
    assert forall|a: int, b: int| 0 <= a < p.len() && 0 <= b < p.len() && a != b implies p[a].0
        != p[b].0 by {
        if a == 0 {
            assert(p[b] == m.entries[b - 1]);
        } else if b == 0 {
            assert(p[a] == m.entries[a - 1]);
        } else {
            assert(p[a] == m.entries[a - 1]);
            assert(p[b] == m.entries[b - 1]);
        }
    }
}


/// Every cached handle was handed out before the current `next_handle`
/// (or the counter has saturated).
pub open spec fn handles_fresh(m: CacheModel) -> bool {
    m.next_handle == u32::MAX || forall|i: int| 0 <= i < m.entries.len() ==> m.entries[i].1.0 < m.next_handle
}

/// Asking twice for the same key returns the same handle, and the second
/// request changes nothing.
pub proof fn law_get_or_create_idempotent(m: CacheModel, key: PipelineKey)
    requires
        m.wf(),
    ensures
        m.get_or_create(key).0.get_or_create(key) == (m.get_or_create(key).0, m.get_or_create(key).1),
{
    let (m1, h1) = m.get_or_create(key);
    lemma_get_or_create_front(m, key);
    lemma_key_index_unique(m1.entries, key, 0);
    assert(m1.promote(0).entries =~= m1.entries);
}

/// After `get_or_create(key)`, the key is cached at the front with the
/// returned handle, the cache stays well formed, and `get(key)` returns
/// that handle.
pub proof fn law_get_after_get_or_create(m: CacheModel, key: PipelineKey)
    requires
        m.wf(),
    ensures
        m.get_or_create(key).0.wf(),
        m.get_or_create(key).0.entries[0] == (key, m.get_or_create(key).1),
        has_key(m.get_or_create(key).0.entries, key),
        m.get_or_create(key).0.get(key) == (m.get_or_create(key).0, Some(m.get_or_create(key).1)),
{
    let (m1, h1) = m.get_or_create(key);
    lemma_get_or_create_front(m, key);
    lemma_key_index_unique(m1.entries, key, 0);
    assert(m1.promote(0).entries =~= m1.entries);
}

/// A hit keeps the set of cached keys; a miss adds the key and, when the
/// cache was full, drops exactly the least recently used key.
pub proof fn law_get_or_create_keys(m: CacheModel, key: PipelineKey, other: PipelineKey)
    requires
        m.wf(),
    ensures
        has_key(m.entries, key) ==> (has_key(m.get_or_create(key).0.entries, other) == has_key(
            m.entries,
            other,
        )),
        !has_key(m.entries, key) && m.entries.len() < m.capacity ==> (has_key(
            m.get_or_create(key).0.entries,
            other,
        ) == (other == key || has_key(m.entries, other))),
        !has_key(m.entries, key) && m.entries.len() >= m.capacity ==> (has_key(
            m.get_or_create(key).0.entries,
            other,
        ) == (other == key || (has_key(m.entries, other) && other != m.entries.last().0))),
{
    let (m1, h1) = m.get_or_create(key);
    if has_key(m.entries, key) {
        let i = key_index(m.entries, key);
        if has_key(m.entries, other) {
            let j = key_index(m.entries, other);
            let k = if j == i { 0 } else if j < i { j + 1 } else { j };
            assert(m1.entries[k].0 == other);
        }
        if has_key(m1.entries, other) {
            let j = key_index(m1.entries, other);
            let k = if j == 0 { i } else if j - 1 < i { j - 1 } else { j };
            assert(m.entries[k].0 == other);
        }
    } else if m.entries.len() < m.capacity {
        if has_key(m.entries, other) {
            let j = key_index(m.entries, other);
            assert(m1.entries[j + 1].0 == other);
        }
        if other == key {
            assert(m1.entries[0].0 == other);
        }
        if has_key(m1.entries, other) && other != key {
            let j = key_index(m1.entries, other);
            assert(m.entries[j - 1].0 == other);
        }
    } else {
        let n = m.entries.len();
        if has_key(m.entries, other) && other != m.entries.last().0 {
            let j = key_index(m.entries, other);
            assert(j != n - 1);
            assert(m1.entries[j + 1].0 == other);
        }
        if other == key {
            assert(m1.entries[0].0 == other);
        }
        if has_key(m1.entries, other) && other != key {
            let j = key_index(m1.entries, other);
            assert(m.entries[j - 1].0 == other);
            assert(m.entries.last().0 != other) by {
                assert(j - 1 != n - 1);
            }
        }
    }
}

/// Handles stay below the counter, so while it has not saturated a miss
/// hands out a handle that no cached entry holds.
pub proof fn law_fresh_handle_distinct(m: CacheModel, key: PipelineKey)
    requires
        m.wf(),
        handles_fresh(m),
    ensures
        handles_fresh(m.get_or_create(key).0),
        !has_key(m.entries, key) && m.next_handle < u32::MAX ==> forall|i: int|
            0 <= i < m.entries.len() ==> m.entries[i].1 != m.get_or_create(key).1,
{
    let (m1, h1) = m.get_or_create(key);
    if has_key(m.entries, key) {
        let i = key_index(m.entries, key);
        if m.next_handle != u32::MAX {
            assert forall|a: int| 0 <= a < m1.entries.len() implies m1.entries[a].1.0
                < m1.next_handle by {
                let sa = if a == 0 { i } else if a - 1 < i { a - 1 } else { a };
                assert(m1.entries[a] == m.entries[sa]);
            }
        }
    } else {
        if m.next_handle != u32::MAX && m1.next_handle != u32::MAX {
            assert forall|a: int| 0 <= a < m1.entries.len() implies m1.entries[a].1.0
                < m1.next_handle by {
                if a > 0 {
                    assert(m1.entries[a] == m.entries[a - 1]);
                }
            }
        }
    }
}

/// `get_or_create` leaves the key at the front, keeps the cache well
/// formed, and never lets it grow past its capacity.
proof fn lemma_get_or_create_front(m: CacheModel, key: PipelineKey)
    requires
        m.wf(),
    ensures
        m.get_or_create(key).0.wf(),
        m.get_or_create(key).0.capacity == m.capacity,
        m.get_or_create(key).0.entries.len() > 0,
        m.get_or_create(key).0.entries[0] == (key, m.get_or_create(key).1),
{
    if has_key(m.entries, key) {
        let i = key_index(m.entries, key);
        lemma_promote_wf(m, i);
    } else {
        lemma_insert_fresh_wf(m, key, PipelineHandle(m.next_handle));
    }
}

} // verus!
