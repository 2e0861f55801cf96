//! A fixed-size ring of recent damage regions, used to look up the damage
//! of the frame `age` frames back.
//!
//! The ring is generic over the region type it stores.
use vstd::prelude::*;

verus! {

/// The number of slots in the ring (a power of two).
pub const DAMAGE_HISTORY_LENGTH: usize = 16;

/// `(current + diff)` reduced into `[0, DAMAGE_HISTORY_LENGTH)`, wrapping
/// in both directions.
pub open spec fn spec_step_index(current: int, diff: int) -> int {
    (current + diff) % (DAMAGE_HISTORY_LENGTH as int)
}

/// Steps a ring index by `diff` slots, forwards or backwards.
pub fn step_damage_index(current: usize, diff: i32) -> (r: usize)
    ensures
        r == spec_step_index(current as int, diff as int),
        r < DAMAGE_HISTORY_LENGTH,
{
    let c: i64 = (current % 16) as i64;
    let raw: i64 = c + diff as i64;
    if raw >= 0 {
        let r = (raw as u64 % 16) as usize;
        assert(r == spec_step_index(current as int, diff as int)) by {
            lemma_mod_shift(current as int, diff as int);
        }
        r
    } else {
        let neg: u64 = (-raw) as u64;
        let m: u64 = neg % 16;
        let r: usize = if m == 0 {
            0
        } else {
            (16 - m) as usize
        };
        assert(r == spec_step_index(current as int, diff as int)) by {
            lemma_mod_shift(current as int, diff as int);
            lemma_mod_negative(raw as int);
        }
        r
    }
}

proof fn lemma_mod_shift(current: int, diff: int)
    requires
        current >= 0,
    ensures
        (current % 16 + diff) % 16 == (current + diff) % 16,
{
    let q = current / 16;
    assert(current == 16 * q + current % 16);
    vstd::arithmetic::div_mod::lemma_mod_multiples_vanish(q, current % 16 + diff, 16);
}

proof fn lemma_mod_negative(raw: int)
    requires
        raw < 0,
    ensures
        (-raw) % 16 == 0 ==> raw % 16 == 0,
        (-raw) % 16 != 0 ==> raw % 16 == 16 - (-raw) % 16,
{
    let n = -raw;
    let q = n / 16;
    let m = n % 16;
    assert(n == 16 * q + m);
    assert(raw == 16 * (-q) - m);
    if m == 0 {
        vstd::arithmetic::div_mod::lemma_mod_multiples_basic(-q, 16);
    } else {
        assert(raw == 16 * (-q - 1) + (16 - m));
        vstd::arithmetic::div_mod::lemma_mod_multiples_vanish(-q - 1, 16 - m, 16);
        vstd::arithmetic::div_mod::lemma_small_mod((16 - m) as nat, 16);
    }
}

/// The ring: `DAMAGE_HISTORY_LENGTH` optional regions and the index of the
/// slot that the next `record` writes.
#[derive(Debug)]
pub struct DamageHistory<R> {
    damages: Vec<Option<R>>,
    index: usize,
}

impl<R: Clone> DamageHistory<R> {
    /// The slots, by ring index.
    pub closed spec fn spec_slots(&self) -> Seq<Option<R>> {
        self.damages@
    }

    /// The slot that `record` writes.
    pub closed spec fn spec_index(&self) -> int {
        self.index as int
    }

    /// Validity: the ring has its full length and the index lies in it.
    pub open spec fn wf(&self) -> bool {
        self.spec_slots().len() == DAMAGE_HISTORY_LENGTH && 0 <= self.spec_index()
            < DAMAGE_HISTORY_LENGTH
    }

    /// An empty ring at index 0.
    pub fn new() -> (h: Self)
        ensures
            h.wf(),
            h.spec_index() == 0,
            forall|i: int| 0 <= i < DAMAGE_HISTORY_LENGTH ==> #[trigger] h.spec_slots()[i] is None,
    {
        let mut damages: Vec<Option<R>> = Vec::new();
        let mut i: usize = 0;
        while i < DAMAGE_HISTORY_LENGTH
            invariant
                i <= DAMAGE_HISTORY_LENGTH,
                damages@.len() == i,
                forall|j: int| 0 <= j < i ==> #[trigger] damages@[j] is None,
            decreases DAMAGE_HISTORY_LENGTH - i,
        {
            damages.push(None);
            i += 1;
        }
        DamageHistory { damages, index: 0 }
    }

    /// Whether `age` is in `[1, DAMAGE_HISTORY_LENGTH)` and the slot `age`
    /// frames back holds a region.
    pub fn is_age_valid(&self, age: i32) -> (r: bool)
        requires
            self.wf(),
        ensures
            r == (1 <= age < DAMAGE_HISTORY_LENGTH && self.spec_slots()[spec_step_index(
                self.spec_index(),
                -age,
            )] is Some),
    {
        if age >= 16 || age < 1 {
            return false;
        }
        self.lookup(age).is_some()
    }

    /// Stores a copy of `damage` in the current slot, replacing what it
    /// held.
    pub fn record(&mut self, damage: &R)
        requires
            old(self).wf(),
        ensures
            final(self).wf(),
            final(self).spec_index() == old(self).spec_index(),
            final(self).spec_slots().len() == old(self).spec_slots().len(),
            (final(self).spec_slots()[old(self).spec_index()] matches Some(c) && cloned::<R>(
                *damage,
                c,
            )),
            forall|i: int|
                0 <= i < DAMAGE_HISTORY_LENGTH && i != old(self).spec_index()
                    ==> #[trigger] final(self).spec_slots()[i] == old(self).spec_slots()[i],
    {
        let copy = damage.clone();
        let idx = self.index;
        self.damages.set(idx, Some(copy));
    }

    /// Advances the write slot by one, wrapping around.
    pub fn step(&mut self)
        requires
            old(self).wf(),
        ensures
            final(self).wf(),
            final(self).spec_slots() == old(self).spec_slots(),
            final(self).spec_index() == spec_step_index(old(self).spec_index(), 1),
    {
        self.index = step_damage_index(self.index, 1);
    }

    /// The region recorded `age` frames back, if that slot holds one.
    pub fn lookup(&self, age: i32) -> (r: Option<&R>)
        requires
            self.wf(),
            age != i32::MIN,
        ensures
            r == match self.spec_slots()[spec_step_index(self.spec_index(), -age)] {
                Some(d) => Some(&d),
                None => None,
            },
    {
        let slot = step_damage_index(self.index, -age);
        self.damages[slot].as_ref()
    }
}

/// Recording and then stepping once makes the record the one of age 1.
pub proof fn law_record_step_lookup(index: int)
    requires
        0 <= index < DAMAGE_HISTORY_LENGTH,
    ensures
        spec_step_index(spec_step_index(index, 1), -1) == index,
{
    assert(spec_step_index(spec_step_index(index, 1), -1) == index) by {
        if index == 15 {
            assert(spec_step_index(index, 1) == 0);
        } else {
            assert(spec_step_index(index, 1) == index + 1);
        }
    }
}

/// Stepping `DAMAGE_HISTORY_LENGTH` times brings the index back.
pub proof fn law_step_full_cycle(index: int, diff: int)
    ensures
        spec_step_index(index, diff + DAMAGE_HISTORY_LENGTH as int) == spec_step_index(index, diff),
{
    vstd::arithmetic::div_mod::lemma_mod_add_multiples_vanish(index + diff, 16);
}

} // verus!
