//! The accessibility root object and the switch that enables
//! accessibility support.
use vstd::prelude::*;

use crate::seq_set::{insert_once, no_duplicates, remove_all};

verus! {

/// The role an accessible object plays.
#[derive(Debug, Clone, Copy, PartialEq, Eq, Structural, Hash, Default)]
pub enum AccessibleRole {
    #[default]
    Invalid,
    Window,
    Panel,
    PushButton,
    Text,
    Image,
    List,
    ListItem,
    ScrollBar,
    Canvas,
    Application,
}

/// A state that an accessible object can be in. `NoState` is the empty
/// state of the toolkit's state enumeration.
#[derive(Debug, Clone, Copy, PartialEq, Eq, Structural, Hash, Default)]
pub enum AccessibleState {
    #[default]
    NoState,
    Focused,
    Visible,
    Enabled,
    Sensitive,
    Showing,
    Editable,
    Busy,
}

/// The root accessible object of the application.
#[derive(Debug, Clone)]
pub struct AccessibilityRoot {
    id: u32,
    name: String,
    description: String,
    role: AccessibleRole,
    states: Vec<AccessibleState>,
    children: Vec<u32>,
}

impl AccessibilityRoot {
    /// The object's id.
    pub closed spec fn spec_id(&self) -> u32 {
        self.id
    }

    /// The object's name.
    pub closed spec fn spec_name(&self) -> Seq<char> {
        self.name@
    }

    /// The object's description.
    pub closed spec fn spec_description(&self) -> Seq<char> {
        self.description@
    }

    /// The object's role.
    pub closed spec fn spec_role(&self) -> AccessibleRole {
        self.role
    }

    /// The object's states, in the order they were added.
    pub closed spec fn spec_states(&self) -> Seq<AccessibleState> {
        self.states@
    }

    /// The ids of the object's children, in the order they were added.
    pub closed spec fn spec_children(&self) -> Seq<u32> {
        self.children@
    }

    /// Validity: no state and no child occurs twice.
    pub open spec fn wf(&self) -> bool {
        no_duplicates(self.spec_states()) && no_duplicates(self.spec_children())
    }

    /// The root object with id `id`: named "Clutter Application", in the
    /// application role, visible and enabled, without children.
    pub fn new(id: u32) -> (r: Self)
        ensures
            r.wf(),
            r.spec_id() == id,
            r.spec_name() == "Clutter Application"@,
            r.spec_description() == "Clutter accessibility root"@,
            r.spec_role() == AccessibleRole::Application,
            r.spec_states() == seq![AccessibleState::Visible, AccessibleState::Enabled],
            r.spec_children() == Seq::<u32>::empty(),
    {
        let mut states: Vec<AccessibleState> = Vec::new();
        states.push(AccessibleState::Visible);
        states.push(AccessibleState::Enabled);
        let r = AccessibilityRoot {
            id,
            name: String::from_str("Clutter Application"),
            description: String::from_str("Clutter accessibility root"),
            role: AccessibleRole::Application,
            states,
            children: Vec::new(),
        };
        assert(r.spec_states() =~= seq![AccessibleState::Visible, AccessibleState::Enabled]);
        r
    }

    /// The id.
    pub fn id(&self) -> (r: u32)
        ensures
            r == self.spec_id(),
    {
        self.id
    }

    /// The name.
    pub fn name(&self) -> (r: &str)
        ensures
            r@ == self.spec_name(),
    {
        self.name.as_str()
    }

    /// Replaces the name; everything else is kept.
    pub fn set_name(&mut self, name: &str)
        ensures
            final(self).spec_name() == name@,
            final(self).spec_id() == old(self).spec_id(),
            final(self).spec_description() == old(self).spec_description(),
            final(self).spec_role() == old(self).spec_role(),
            final(self).spec_states() == old(self).spec_states(),
            final(self).spec_children() == old(self).spec_children(),
    {
        self.name = String::from_str(name);
    }

    /// The description.
    pub fn description(&self) -> (r: &str)
        ensures
            r@ == self.spec_description(),
    {
        self.description.as_str()
    }

    /// Replaces the description; everything else is kept.
    pub fn set_description(&mut self, desc: &str)
        ensures
            final(self).spec_description() == desc@,
            final(self).spec_id() == old(self).spec_id(),
            final(self).spec_name() == old(self).spec_name(),
            final(self).spec_role() == old(self).spec_role(),
            final(self).spec_states() == old(self).spec_states(),
            final(self).spec_children() == old(self).spec_children(),
    {
        self.description = String::from_str(desc);
    }

    /// The role.
    pub fn role(&self) -> (r: AccessibleRole)
        ensures
            r == self.spec_role(),
    {
        self.role
    }

    /// The states.
    pub fn states(&self) -> (r: &[AccessibleState])
        ensures
            r@ == self.spec_states(),
    {
        self.states.as_slice()
    }

    /// Adds `state` unless the object already has it.
    pub fn add_state(&mut self, state: AccessibleState)
        requires
            old(self).wf(),
        ensures
            final(self).wf(),
            final(self).spec_states() == insert_once(old(self).spec_states(), state),
            final(self).spec_id() == old(self).spec_id(),
            final(self).spec_name() == old(self).spec_name(),
            final(self).spec_description() == old(self).spec_description(),
            final(self).spec_role() == old(self).spec_role(),
            final(self).spec_children() == old(self).spec_children(),
    {
        if !contains_state(&self.states, state) {
            self.states.push(state);
            proof {
                crate::seq_set::lemma_push_absent_no_duplicates(old(self).spec_states(), state);
            }
        }
    }

    /// Removes `state` if the object has it.
    pub fn remove_state(&mut self, state: AccessibleState)
        requires
            old(self).wf(),
        ensures
            final(self).wf(),
            final(self).spec_states() == remove_all(old(self).spec_states(), state),
            final(self).spec_id() == old(self).spec_id(),
            final(self).spec_name() == old(self).spec_name(),
            final(self).spec_description() == old(self).spec_description(),
            final(self).spec_role() == old(self).spec_role(),
            final(self).spec_children() == old(self).spec_children(),
    {
        let kept = without_state(&self.states, state);
        proof {
            crate::seq_set::lemma_filter_no_duplicates(old(self).spec_states(), state);
        }
        self.states = kept;
    }

    /// Whether the object has `state`.
    pub fn has_state(&self, state: AccessibleState) -> (r: bool)
        ensures
            r == self.spec_states().contains(state),
    {
        contains_state(&self.states, state)
    }

    /// Adds the child `child_id` unless it is already a child.
    pub fn add_child(&mut self, child_id: u32)
        requires
            old(self).wf(),
        ensures
            final(self).wf(),
            final(self).spec_children() == insert_once(old(self).spec_children(), child_id),
            final(self).spec_id() == old(self).spec_id(),
            final(self).spec_name() == old(self).spec_name(),
            final(self).spec_description() == old(self).spec_description(),
            final(self).spec_role() == old(self).spec_role(),
            final(self).spec_states() == old(self).spec_states(),
    {
        if !contains_u32(&self.children, child_id) {
            self.children.push(child_id);
            proof {
                crate::seq_set::lemma_push_absent_no_duplicates(old(self).spec_children(), child_id);
            }
        }
    }

    /// Removes the child `child_id` if it is a child.
    pub fn remove_child(&mut self, child_id: u32)
        requires
            old(self).wf(),
        ensures
            final(self).wf(),
            final(self).spec_children() == remove_all(old(self).spec_children(), child_id),
            final(self).spec_id() == old(self).spec_id(),
            final(self).spec_name() == old(self).spec_name(),
            final(self).spec_description() == old(self).spec_description(),
            final(self).spec_role() == old(self).spec_role(),
            final(self).spec_states() == old(self).spec_states(),
    {
        let kept = without_u32(&self.children, child_id);
        proof {
            crate::seq_set::lemma_filter_no_duplicates(old(self).spec_children(), child_id);
        }
        self.children = kept;
    }

    /// The children.
    pub fn children(&self) -> (r: &[u32])
        ensures
            r@ == self.spec_children(),
    {
        self.children.as_slice()
    }

    /// The number of children.
    pub fn n_children(&self) -> (r: usize)
        ensures
            r == self.spec_children().len(),
    {
        self.children.len()
    }
}

fn contains_state(v: &Vec<AccessibleState>, x: AccessibleState) -> (r: bool)
    ensures
        r == v@.contains(x),
{
    let mut i: usize = 0;
    while i < v.len()
        invariant
            i <= v@.len(),
            forall|j: int| 0 <= j < i ==> v@[j] != x,
        decreases v@.len() - i,
    {
        if v[i] == x {
            assert(v@[i as int] == x);
            return true;
        }
        i += 1;
    }
    false
}

fn contains_u32(v: &Vec<u32>, x: u32) -> (r: bool)
    ensures
        r == v@.contains(x),
{
    let mut i: usize = 0;
    while i < v.len()
        invariant
            i <= v@.len(),
            forall|j: int| 0 <= j < i ==> v@[j] != x,
        decreases v@.len() - i,
    {
        if v[i] == x {
            assert(v@[i as int] == x);
            return true;
        }
        i += 1;
    }
    false
}

fn without_state(v: &Vec<AccessibleState>, x: AccessibleState) -> (r: Vec<AccessibleState>)
    ensures
        r@ == remove_all(v@, x),
{
    let mut out: Vec<AccessibleState> = Vec::new();
    let mut i: usize = 0;
    while i < v.len()
        invariant
            i <= v@.len(),
            out@ == remove_all(v@.take(i as int), x),
        decreases v@.len() - i,
    {
        proof {
            crate::seq_set::lemma_filter_take_step(v@, x, i as int);
        }
        if v[i] != x {
            out.push(v[i]);
        }
        i += 1;
    }
    assert(v@.take(v@.len() as int) =~= v@);
    out
}

fn without_u32(v: &Vec<u32>, x: u32) -> (r: Vec<u32>)
    ensures
        r@ == remove_all(v@, x),
{
    let mut out: Vec<u32> = Vec::new();
    let mut i: usize = 0;
    while i < v.len()
        invariant
            i <= v@.len(),
            out@ == remove_all(v@.take(i as int), x),
        decreases v@.len() - i,
    {
        proof {
            crate::seq_set::lemma_filter_take_step(v@, x, i as int);
        }
        if v[i] != x {
            out.push(v[i]);
        }
        i += 1;
    }
    assert(v@.take(v@.len() as int) =~= v@);
    out
}

/// The accessibility switch and the lazily created root object.
#[derive(Debug)]
pub struct AccessibilityState {
    enabled: bool,
    initialized: bool,
    root: Option<AccessibilityRoot>,
    next_id: u32,
}

impl AccessibilityState {
    /// Whether accessibility is enabled, as a spec value.
    pub closed spec fn spec_enabled(&self) -> bool {
        self.enabled
    }

    /// Whether accessibility is initialized, as a spec value.
    pub closed spec fn spec_initialized(&self) -> bool {
        self.initialized
    }

    /// The root object, once created.
    pub closed spec fn spec_root(&self) -> Option<AccessibilityRoot> {
        self.root
    }

    /// The id that the next allocation hands out.
    pub closed spec fn spec_next_id(&self) -> u32 {
        self.next_id
    }

    /// Validity: the root exists exactly when initialized, and is valid.
    pub open spec fn wf(&self) -> bool {
        &&& (self.spec_root() is Some <==> self.spec_initialized())
        &&& (self.spec_root() is Some ==> self.spec_root().unwrap().wf())
    }

    /// Enabled, not initialized, ids starting at 1.
    pub fn new() -> (s: Self)
        ensures
            s.wf(),
            s.spec_enabled(),
            !s.spec_initialized(),
            s.spec_next_id() == 1,
    {
        AccessibilityState { enabled: true, initialized: false, root: None, next_id: 1 }
    }

    /// Creates the root object with the next id. `false`, and nothing
    /// changes, when already initialized.
    pub fn init(&mut self) -> (r: bool)
        requires
            old(self).wf(),
        ensures
            final(self).wf(),
            r == !old(self).spec_initialized(),
            final(self).spec_initialized(),
            final(self).spec_enabled() == old(self).spec_enabled(),
            !r ==> final(self).spec_root() == old(self).spec_root() && final(self).spec_next_id()
                == old(self).spec_next_id(),
            r ==> (final(self).spec_root() matches Some(root) && root.spec_id()
                == old(self).spec_next_id() && root.spec_role() == AccessibleRole::Application
                && root.spec_states() == seq![AccessibleState::Visible, AccessibleState::Enabled]
                && root.spec_children() == Seq::<u32>::empty() && root.spec_name()
                == "Clutter Application"@),
            r ==> final(self).spec_next_id() == saturating_succ(old(self).spec_next_id()),
    {
        if self.initialized {
            return false;
        }
        let id = self.next_id;
        self.next_id = self.next_id.saturating_add(1);
        self.root = Some(AccessibilityRoot::new(id));
        self.initialized = true;
        true
    }

    /// The root object, created on first access.
    pub fn get_root(&mut self) -> (r: &AccessibilityRoot)
        requires
            old(self).wf(),
        ensures
            final(self).wf(),
            final(self).spec_initialized(),
            final(self).spec_enabled() == old(self).spec_enabled(),
            final(self).spec_root() == Some(*r),
            old(self).spec_initialized() ==> final(self).spec_root() == old(self).spec_root()
                && final(self).spec_next_id() == old(self).spec_next_id(),
            !old(self).spec_initialized() ==> r.spec_id() == old(self).spec_next_id()
                && r.spec_states() == seq![AccessibleState::Visible, AccessibleState::Enabled]
                && r.spec_role() == AccessibleRole::Application && r.spec_children()
                == Seq::<u32>::empty() && r.spec_name() == "Clutter Application"@
                && final(self).spec_next_id() == saturating_succ(
                old(self).spec_next_id(),
            ),
    {
        if !self.initialized {
            self.init();
        }
        self.root.as_ref().unwrap()
    }

    /// The root object for modification, created on first access.
    pub fn get_root_mut(&mut self) -> (r: &mut AccessibilityRoot)
        requires
            old(self).wf(),
        ensures
            (*r).wf(),
            old(self).spec_initialized() ==> Some(*r) == old(self).spec_root(),
            !old(self).spec_initialized() ==> r.spec_id() == old(self).spec_next_id()
                && r.spec_states() == seq![AccessibleState::Visible, AccessibleState::Enabled]
                && r.spec_role() == AccessibleRole::Application && r.spec_children()
                == Seq::<u32>::empty() && r.spec_name() == "Clutter Application"@,
            final(self).spec_root() == Some(*final(r)),
            final(self).spec_initialized(),
            final(self).spec_enabled() == old(self).spec_enabled(),
            old(self).spec_initialized() ==> final(self).spec_next_id() == old(self).spec_next_id(),
            !old(self).spec_initialized() ==> final(self).spec_next_id() == saturating_succ(
                old(self).spec_next_id(),
            ),
    {
        if !self.initialized {
            self.init();
        }
        self.root.as_mut().unwrap()
    }

    /// Whether accessibility is enabled.
    pub fn is_enabled(&self) -> (r: bool)
        ensures
            r == self.spec_enabled(),
    {
        self.enabled
    }

    /// Turns accessibility support off.
    pub fn disable(&mut self)
        ensures
            !final(self).spec_enabled(),
            final(self).spec_initialized() == old(self).spec_initialized(),
            final(self).spec_root() == old(self).spec_root(),
            final(self).spec_next_id() == old(self).spec_next_id(),
    {
        self.enabled = false;
    }

    /// Turns accessibility support on.
    pub fn enable(&mut self)
        ensures
            final(self).spec_enabled(),
            final(self).spec_initialized() == old(self).spec_initialized(),
            final(self).spec_root() == old(self).spec_root(),
            final(self).spec_next_id() == old(self).spec_next_id(),
    {
        self.enabled = true;
    }

    /// Switches accessibility on or off.
    pub fn set_enabled(&mut self, enabled: bool)
        ensures
            final(self).spec_enabled() == enabled,
            final(self).spec_initialized() == old(self).spec_initialized(),
            final(self).spec_root() == old(self).spec_root(),
            final(self).spec_next_id() == old(self).spec_next_id(),
    {
        self.enabled = enabled;
    }

    /// Whether accessibility is initialized.
    pub fn is_initialized(&self) -> (r: bool)
        ensures
            r == self.spec_initialized(),
    {
        self.initialized
    }

    /// Hands out the next accessible-object id; ids count up and stop at
    /// `u32::MAX`.
    pub fn allocate_id(&mut self) -> (r: u32)
        ensures
            r == old(self).spec_next_id(),
            final(self).spec_next_id() == saturating_succ(old(self).spec_next_id()),
            final(self).spec_enabled() == old(self).spec_enabled(),
            final(self).spec_initialized() == old(self).spec_initialized(),
            final(self).spec_root() == old(self).spec_root(),
    {
        let id = self.next_id;
        self.next_id = self.next_id.saturating_add(1);
        id
    }
}

impl Default for AccessibilityState {
    fn default() -> (s: Self)
        ensures
            s.wf(),
            s.spec_enabled(),
            !s.spec_initialized(),
            s.spec_next_id() == 1,
    {
        AccessibilityState::new()
    }
}

/// `n + 1`, stopping at `u32::MAX`.
pub open spec fn saturating_succ(n: u32) -> u32 {
    if n == u32::MAX {
        n
    } else {
        (n + 1) as u32
    }
}

/// Adding a state makes it present; removing it makes it absent; both
/// keep every other state as it was, and adding twice is adding once.
pub proof fn law_state_set(s: Seq<AccessibleState>, x: AccessibleState, y: AccessibleState)
    requires
        no_duplicates(s),
    ensures
        insert_once(s, x).contains(x),
        !remove_all(s, x).contains(x),
        insert_once(insert_once(s, x), x) == insert_once(s, x),
        no_duplicates(insert_once(s, x)),
        no_duplicates(remove_all(s, x)),
        y != x ==> insert_once(s, x).contains(y) == s.contains(y),
        y != x ==> remove_all(s, x).contains(y) == s.contains(y),
{
    crate::seq_set::law_membership_set(s, x, y);
}

/// The same laws for the ids of children.
pub proof fn law_child_set(s: Seq<u32>, x: u32, y: u32)
    requires
        no_duplicates(s),
    ensures
        insert_once(s, x).contains(x),
        !remove_all(s, x).contains(x),
        insert_once(insert_once(s, x), x) == insert_once(s, x),
        no_duplicates(insert_once(s, x)),
        no_duplicates(remove_all(s, x)),
        y != x ==> insert_once(s, x).contains(y) == s.contains(y),
        y != x ==> remove_all(s, x).contains(y) == s.contains(y),
{
    crate::seq_set::law_membership_set(s, x, y);
}

} // verus!
