//! Input grabs: handles that redirect events to one actor, kept on a stack
//! whose topmost entry receives the events.
use vstd::prelude::*;
use vstd::std_specs::iter::IteratorSpec;

verus! {

/// What a grab is for: a plain actor grab, or a window-manager move or
/// resize whose pointer motion moves or resizes the actor.
#[derive(Debug, Clone, Copy, PartialEq, Eq, Structural, Default)]
pub enum GrabKind {
    #[default]
    Actor,
    Move,
    Resize,
}

/// A grab on `actor`. `owns_actor` says that dismissing the grab destroys
/// the actor; `linked` says that the grab stands on a stack.
#[derive(Debug, Clone, PartialEq)]
pub struct Grab<Id> {
    pub actor: Id,
    pub owns_actor: bool,
    pub kind: GrabKind,
    pub linked: bool,
}

impl<Id: Copy> Grab<Id> {
    /// An actor grab on `actor`, not yet on a stack.
    pub fn new(actor: Id, owns_actor: bool) -> (g: Self)
        ensures
            g == (Grab { actor, owns_actor, kind: GrabKind::Actor, linked: false }),
    {
        Grab { actor, owns_actor, kind: GrabKind::Actor, linked: false }
    }

    /// A grab of the given kind on `actor`, not yet on a stack.
    pub fn with_kind(actor: Id, owns_actor: bool, kind: GrabKind) -> (g: Self)
        ensures
            g == (Grab { actor, owns_actor, kind, linked: false }),
    {
        Grab { actor, owns_actor, kind, linked: false }
    }

    /// A grab is revoked while it is not on a stack.
    pub fn is_revoked(&self) -> (r: bool)
        ensures
            r == !self.linked,
    {
        !self.linked
    }
}

/// What the caller of `dismiss` has to do next: destroy the grab's actor
/// if the grab owned it, and notify the new topmost grab if it changed.
#[derive(Debug, Clone, Copy, PartialEq, Eq)]
pub struct DismissOutcome<Id> {
    pub actor_to_destroy: Option<Id>,
    pub topmost_changed: bool,
}

/// Actor identifiers that a grab stack can compare.
pub trait GrabId: Copy {
    /// Whether the two identifiers name the same actor.
    fn same(&self, other: &Self) -> (r: bool)
        ensures
            r == (*self == *other),
    ;
}

impl GrabId for u32 {
    fn same(&self, other: &Self) -> (r: bool) {
        *self == *other
    }
}

impl GrabId for crate::actor::ActorId {
    fn same(&self, other: &Self) -> (r: bool) {
        *self == *other
    }
}

/// Two grabs are the same grab: same actor, same ownership, same kind.
pub open spec fn same_grab<Id>(a: Grab<Id>, b: Grab<Id>) -> bool {
    a.actor == b.actor && a.owns_actor == b.owns_actor && a.kind == b.kind
}

/// The grab `g` already stands on the stack.
pub open spec fn on_stack<Id>(s: Seq<Grab<Id>>, g: Grab<Id>) -> bool {
    exists|i: int| 0 <= i < s.len() && same_grab(s[i], g)
}

/// Every grab in the sequence is linked.
pub open spec fn all_linked<Id>(s: Seq<Grab<Id>>) -> bool {
    forall|i: int| 0 <= i < s.len() ==> #[trigger] s[i].linked
}

/// `activate`: a grab that is not active enters the top of the stack,
/// linked; a grab that is already active (linked, or the same grab stands
/// on the stack) is refused and nothing changes.
pub open spec fn activate_model<Id>(s: Seq<Grab<Id>>, g: Grab<Id>) -> (Seq<Grab<Id>>, bool) {
    if g.linked || on_stack(s, g) {
        (s, false)
    } else {
        (s.push(Grab { linked: true, ..g }), true)
    }
}

/// `dismiss`: the grab at `index` leaves the stack; the outcome names its
/// actor when it owned it, and says whether the topmost grab changed (the
/// top one left and another is now on top). Out of range, nothing changes.
pub open spec fn dismiss_model<Id>(s: Seq<Grab<Id>>, index: int) -> (
    Seq<Grab<Id>>,
    Option<DismissOutcome<Id>>,
) {
    if 0 <= index < s.len() && s[index].linked {
        (
            s.remove(index),
            Some(
                DismissOutcome {
                    actor_to_destroy: if s[index].owns_actor {
                        Some(s[index].actor)
                    } else {
                        None
                    },
                    topmost_changed: index == s.len() - 1 && s.len() > 1,
                },
            ),
        )
    } else {
        (s, None)
    }
}

/// The actor receiving grabbed events: that of the topmost grab.
pub open spec fn grab_actor_model<Id>(s: Seq<Grab<Id>>) -> Option<Id> {
    if s.len() == 0 {
        None
    } else {
        Some(s.last().actor)
    }
}

/// The stack of active grabs, bottom first; the last one is the topmost.
#[derive(Debug)]
pub struct GrabStack<Id> {
    grabs: Vec<Grab<Id>>,
}

impl<Id> View for GrabStack<Id> {
    type V = Seq<Grab<Id>>;

    closed spec fn view(&self) -> Seq<Grab<Id>> {
        self.grabs@
    }
}

impl<Id: GrabId> GrabStack<Id> {
    /// Validity: every grab on the stack is linked.
    pub open spec fn wf(&self) -> bool {
        all_linked(self@)
    }

    /// An empty stack.
    pub fn new() -> (s: Self)
        ensures
            s.wf(),
            s@ == Seq::<Grab<Id>>::empty(),
    {
        GrabStack { grabs: Vec::new() }
    }

    /// The number of active grabs.
    pub fn len(&self) -> (r: usize)
        ensures
            r == self@.len(),
    {
        self.grabs.len()
    }

    /// Whether no grab is active.
    pub fn is_empty(&self) -> (r: bool)
        ensures
            r == (self@.len() == 0),
    {
        self.grabs.len() == 0
    }

    /// The topmost grab, if any.
    pub fn topmost(&self) -> (r: Option<&Grab<Id>>)
        ensures
            self@.len() == 0 ==> r is None,
            self@.len() > 0 ==> r == Some(&self@.last()),
    {
        let n = self.grabs.len();
        if n == 0 {
            None
        } else {
            Some(&self.grabs[n - 1])
        }
    }

    /// The actor that receives grabbed events, if a grab is active.
    pub fn grab_actor(&self) -> (r: Option<Id>)
        ensures
            r == grab_actor_model(self@),
    {
        let n = self.grabs.len();
        if n == 0 {
            None
        } else {
            Some(self.grabs[n - 1].actor)
        }
    }

    /// Pushes `grab` as the new topmost grab and links it. A grab that is
    /// already active (linked, or the same grab is on the stack) is refused
    /// (`false`) and nothing changes.
    pub fn activate(&mut self, grab: Grab<Id>) -> (r: bool)
        requires
            old(self).wf(),
        ensures
            final(self).wf(),
            (final(self)@, r) == activate_model(old(self)@, grab),
    {
        if grab.linked {
            return false;
        }
        let mut i: usize = 0;
        while i < self.grabs.len()
            invariant
                self.wf(),
                self@ == old(self)@,
                i <= self.grabs@.len(),
                forall|j: int| 0 <= j < i ==> !same_grab(#[trigger] self.grabs@[j], grab),
            decreases self.grabs@.len() - i,
        {
            let g = &self.grabs[i];
            if g.actor.same(&grab.actor) && g.owns_actor == grab.owns_actor && g.kind == grab.kind {
                assert(same_grab(self.grabs@[i as int], grab));
                return false;
            }
            i += 1;
        }
        let mut grab = grab;
        grab.linked = true;
        self.grabs.push(grab);
        true
    }

    /// Removes the grab at `index`. `None` when `index` is out of range.
    pub fn dismiss(&mut self, index: usize) -> (r: Option<DismissOutcome<Id>>)
        requires
            old(self).wf(),
        ensures
            final(self).wf(),
            (final(self)@, r) == dismiss_model(old(self)@, index as int),
            r is Some <==> index < old(self)@.len(),
    {
        let len = self.grabs.len();
        if index >= len {
            return None;
        }
        let owns_actor = self.grabs[index].owns_actor;
        let actor = self.grabs[index].actor;
        let linked = self.grabs[index].linked;
        if !linked {
            return None;
        }
        let was_topmost = index == len - 1;
        let actor_to_destroy = if owns_actor {
            Some(actor)
        } else {
            None
        };
        let ghost before = self@;
        self.grabs.remove(index);
        assert forall|i: int| 0 <= i < self@.len() implies #[trigger] self@[i].linked by {
            if i < index {
                assert(self@[i] == before[i]);
            } else {
                assert(self@[i] == before[i + 1]);
            }
        }
        let topmost_changed = was_topmost && self.grabs.len() != 0;
        Some(DismissOutcome { actor_to_destroy, topmost_changed })
    }

    /// Removes the topmost grab. `None` when the stack is empty.
    pub fn dismiss_topmost(&mut self) -> (r: Option<DismissOutcome<Id>>)
        requires
            old(self).wf(),
        ensures
            final(self).wf(),
            old(self)@.len() == 0 ==> r is None && final(self)@ == old(self)@,
            old(self)@.len() > 0 ==> (final(self)@, r) == dismiss_model(
                old(self)@,
                old(self)@.len() - 1,
            ),
    {
        let n = self.grabs.len();
        if n == 0 {
            return None;
        }
        self.dismiss(n - 1)
    }

    /// The grabs from bottom to top.
    pub fn iter(&self) -> (it: std::slice::Iter<'_, Grab<Id>>)
        ensures
            it.remaining().unref() == self@,
    {
        self.grabs.as_slice().iter()
    }
}

impl<Id: GrabId> Default for GrabStack<Id> {
    fn default() -> (s: Self)
        ensures
            s.wf(),
            s@ == Seq::<Grab<Id>>::empty(),
    {
        GrabStack::new()
    }
}

/// Activating a grab that is not active and then dismissing the topmost grab gives
/// back the stack as it was, and reports whether the grab owned its actor.
pub proof fn law_activate_then_dismiss_restores<Id>(s: Seq<Grab<Id>>, g: Grab<Id>)
    requires
        all_linked(s),
        !g.linked,
        !on_stack(s, g),
    ensures
        dismiss_model(activate_model(s, g).0, s.len() as int).0 == s,
        dismiss_model(activate_model(s, g).0, s.len() as int).1 == Some(
            DismissOutcome {
                actor_to_destroy: if g.owns_actor {
                    Some(g.actor)
                } else {
                    None
                },
                topmost_changed: s.len() > 0,
            },
        ),
{
    let t = activate_model(s, g).0;
    assert(t.remove(s.len() as int) =~= s);
}

/// After a grab that is not active is activated, its actor receives grabbed events,
/// and the stack stays all linked.
pub proof fn law_activate_sets_grab_actor<Id>(s: Seq<Grab<Id>>, g: Grab<Id>)
    requires
        all_linked(s),
        !g.linked,
        !on_stack(s, g),
    ensures
        activate_model(s, g).1,
        grab_actor_model(activate_model(s, g).0) == Some(g.actor),
        all_linked(activate_model(s, g).0),
        activate_model(s, g).0.last().linked,
{
    let t = activate_model(s, g).0;
    assert forall|i: int| 0 <= i < t.len() implies #[trigger] t[i].linked by {
        if i < s.len() {
            assert(t[i] == s[i]);
        }
    }
}

/// Activating a grab a second time is refused and changes nothing.
pub proof fn law_activate_twice_refused<Id>(s: Seq<Grab<Id>>, g: Grab<Id>)
    requires
        all_linked(s),
    ensures
        activate_model(activate_model(s, g).0, g) == (activate_model(s, g).0, false),
{
    let (t, ok) = activate_model(s, g);
    if ok {
        assert(same_grab(t[s.len() as int], g));
    }
}

/// Dismissing a grab below the top leaves the topmost grab, and so the
/// grab actor, unchanged, and reports no topmost change.
pub proof fn law_dismiss_below_top_keeps_topmost<Id>(s: Seq<Grab<Id>>, index: int)
    requires
        all_linked(s),
        0 <= index < s.len() - 1,
    ensures
        dismiss_model(s, index).0.last() == s.last(),
        grab_actor_model(dismiss_model(s, index).0) == grab_actor_model(s),
        dismiss_model(s, index).1.unwrap().topmost_changed == false,
        dismiss_model(s, index).0.len() == s.len() - 1,
{
    assert(s[index].linked);
    let t = dismiss_model(s, index).0;
    assert(t[t.len() - 1] == s[s.len() - 1]);
}

} // verus!
