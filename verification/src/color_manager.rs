//! A cache of color states that hands out one state per set of parameters.
//!
//! Whether two states have equal parameters is an approximate comparison of
//! continuous quantities, made by the caller: the cache takes its outcome for
//! each cached state and decides the rest.
use vstd::prelude::*;

verus! {

/// What a default lookup returns: the cached default if there is one, else
/// `fallback`.
pub open spec fn default_pick<S>(current: Option<S>, fallback: S) -> S {
    match current {
        Some(d) => d,
        None => fallback,
    }
}

/// The cached color states, and the default state once it was asked for.
pub struct ColorManager<S> {
    default_color_state: Option<S>,
    cache: Vec<S>,
}

impl<S: Copy> ColorManager<S> {
    /// The default state, once it was asked for.
    pub closed spec fn spec_default(&self) -> Option<S> {
        self.default_color_state
    }

    /// The cached states, oldest first.
    pub closed spec fn spec_cache(&self) -> Seq<S> {
        self.cache@
    }

    /// An empty cache with no default yet.
    pub fn new() -> (m: Self)
        ensures
            m.spec_default() is None,
            m.spec_cache() == Seq::<S>::empty(),
    {
        ColorManager { default_color_state: None, cache: Vec::new() }
    }

    /// The default state: the one cached by an earlier call, else `fallback`,
    /// which is cached from now on.
    pub fn get_default(&mut self, fallback: S) -> (r: S)
        ensures
            r == default_pick(old(self).spec_default(), fallback),
            final(self).spec_default() == Some(r),
            final(self).spec_cache() == old(self).spec_cache(),
    {
        match self.default_color_state {
            Some(d) => d,
            None => {
                self.default_color_state = Some(fallback);
                fallback
            },
        }
    }

    /// The cached states, oldest first.
    pub fn cached(&self) -> (r: &[S])
        ensures
            r@ == self.spec_cache(),
    {
        self.cache.as_slice()
    }

    /// The cached state with the parameters of `params`, if any, else
    /// `params`, which is cached from now on. `same[i]` tells whether cached
    /// state `i` has the parameters of `params`; the oldest such state wins.
    pub fn find_or_create_with(&mut self, params: S, same: &[bool]) -> (r: S)
        requires
            same@.len() == old(self).spec_cache().len(),
        ensures
            final(self).spec_default() == old(self).spec_default(),
            forall|i: int|
                #![trigger same@[i]]
                0 <= i < same@.len() && same@[i] && (forall|j: int| 0 <= j < i ==> !same@[j])
                    ==> r == old(self).spec_cache()[i]
                    && final(self).spec_cache() == old(self).spec_cache(),
            (forall|j: int| 0 <= j < same@.len() ==> !same@[j])
                ==> r == params && final(self).spec_cache() == old(self).spec_cache().push(params),
    {
        let n = self.cache.len();
        let mut i: usize = 0;
        while i < n
            invariant
                n == self.cache.len(),
                same@.len() == n,
                0 <= i <= n,
                forall|j: int| 0 <= j < i ==> !same@[j],
            decreases n - i,
        {
            if same[i] {
                return self.cache[i];
            }
            i = i + 1;
        }
        self.cache.push(params);
        params
    }
}

/// Asking for the default twice gives the same state both times, whatever
/// fallback the second call offers.
pub proof fn law_default_is_stable<S>(current: Option<S>, first: S, second: S)
    ensures
        default_pick(Some(default_pick(current, first)), second) == default_pick(current, first),
{
}

} // verus!
