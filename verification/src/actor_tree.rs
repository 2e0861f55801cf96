//! The actor tree: an arena of actors addressed by generational handles.
//! Each live actor carries a payload, a parent and an ordered list of
//! children. A destroyed actor's slot goes on a free list and is reused
//! with the next generation, so a stale handle never reaches the new actor.
use vstd::prelude::*;

use crate::actor::ActorId;
use crate::seq_set::{no_duplicates, remove_all};

verus! {

/// A live actor: its payload, its parent and its children in order.
#[verifier::ext_equal]
pub struct NodeModel<T> {
    pub payload: T,
    pub parent: Option<ActorId>,
    pub children: Seq<ActorId>,
}

/// A slot of the arena: its generation and the actor in it, if any.
#[verifier::ext_equal]
pub struct SlotModel<T> {
    pub generation: u32,
    pub node: Option<NodeModel<T>>,
}

/// The arena: the slots by index and the free slot indices, the last to be
/// reused first.
#[verifier::ext_equal]
pub struct TreeModel<T> {
    pub slots: Seq<SlotModel<T>>,
    pub free_list: Seq<u32>,
}

/// The generation after `g`, wrapping around.
pub open spec fn next_generation(g: u32) -> u32 {
    if g == u32::MAX {
        0
    } else {
        (g + 1) as u32
    }
}

/// A new actor with `payload`, no parent and no children.
pub open spec fn fresh_node<T>(payload: T) -> NodeModel<T> {
    NodeModel { payload, parent: None, children: Seq::empty() }
}

/// The number of slots that hold an actor.
pub open spec fn count_live<T>(slots: Seq<SlotModel<T>>) -> nat
    decreases slots.len(),
{
    if slots.len() == 0 {
        0
    } else {
        count_live(slots.drop_last()) + if slots.last().node is Some {
            1nat
        } else {
            0nat
        }
    }
}

impl<T> TreeModel<T> {
    /// `id` names an actor: its slot exists, has its generation and holds
    /// an actor.
    pub open spec fn live(self, id: ActorId) -> bool {
        &&& (id.index as int) < self.slots.len()
        &&& self.slots[id.index as int].generation == id.generation
        &&& self.slots[id.index as int].node is Some
    }

    /// The actor in the slot of `id`.
    pub open spec fn node(self, id: ActorId) -> NodeModel<T> {
        self.slots[id.index as int].node.unwrap()
    }

    /// The children of `id`; none when `id` names no actor.
    pub open spec fn children_of(self, id: ActorId) -> Seq<ActorId> {
        if self.live(id) {
            self.node(id).children
        } else {
            Seq::empty()
        }
    }

    /// The parent of `id`; none when `id` names no actor.
    pub open spec fn parent_of(self, id: ActorId) -> Option<ActorId> {
        if self.live(id) {
            self.node(id).parent
        } else {
            None
        }
    }

    /// The arena with the actor in the slot of `id` replaced by `n`.
    pub open spec fn with_node(self, id: ActorId, n: NodeModel<T>) -> TreeModel<T> {
        TreeModel {
            slots: self.slots.update(
                id.index as int,
                SlotModel { generation: self.slots[id.index as int].generation, node: Some(n) },
            ),
            free_list: self.free_list,
        }
    }

    /// `child` leaves its parent: every occurrence of it leaves the
    /// children of its parent (when the parent names an actor), and it has
    /// no parent any more (when it names an actor).
    pub open spec fn detach(self, child: ActorId) -> TreeModel<T> {
        let m1 = match self.parent_of(child) {
            Some(p) => if self.live(p) {
                self.with_node(p, NodeModel { children: remove_all(self.node(p).children, child), ..self.node(p) })
            } else {
                self
            },
            None => self,
        };
        if m1.live(child) {
            m1.with_node(child, NodeModel { parent: None, ..m1.node(child) })
        } else {
            m1
        }
    }

    /// `child` leaves its parent, then is appended to the children of
    /// `parent` (when `parent` names an actor) and gets `parent` as its
    /// parent (when it names an actor).
    pub open spec fn attach(self, parent: ActorId, child: ActorId) -> TreeModel<T> {
        let m1 = self.detach(child);
        let m2 = if m1.live(parent) {
            m1.with_node(parent, NodeModel { children: m1.node(parent).children.push(child), ..m1.node(parent) })
        } else {
            m1
        };
        if m2.live(child) {
            m2.with_node(child, NodeModel { parent: Some(parent), ..m2.node(child) })
        } else {
            m2
        }
    }

    /// A new actor with `payload`: it takes the last free slot with the
    /// slot's next generation, or else a new slot at the end in generation
    /// 0. The new arena and the new actor's handle.
    pub open spec fn create(self, payload: T) -> (TreeModel<T>, ActorId) {
        if self.free_list.len() > 0 {
            let index = self.free_list.last();
            let g = next_generation(self.slots[index as int].generation);
            (
                TreeModel {
                    slots: self.slots.update(index as int, SlotModel { generation: g, node: Some(fresh_node(payload)) }),
                    free_list: self.free_list.drop_last(),
                },
                ActorId { index, generation: g },
            )
        } else {
            (
                TreeModel {
                    slots: self.slots.push(SlotModel { generation: 0, node: Some(fresh_node(payload)) }),
                    free_list: self.free_list,
                },
                ActorId { index: self.slots.len() as u32, generation: 0 },
            )
        }
    }

    /// The last step of destroying `id`: it leaves its parent, and when its
    /// slot exists and has its generation, the slot is emptied and goes on
    /// the free list.
    pub open spec fn release(self, id: ActorId) -> TreeModel<T> {
        let m1 = self.detach(id);
        if (id.index as int) < m1.slots.len() && m1.slots[id.index as int].generation == id.generation {
            TreeModel {
                slots: m1.slots.update(id.index as int, SlotModel { generation: id.generation, node: None }),
                free_list: m1.free_list.push(id.index),
            }
        } else {
            m1
        }
    }

    /// Destroying `id`: each of its children, as they were before, is
    /// destroyed in order, then `id` is released. `None` when the descent
    /// is deeper than `fuel`.
    pub open spec fn destroy_from(self, id: ActorId, fuel: nat) -> Option<TreeModel<T>>
        decreases fuel, 0nat,
    {
        if fuel == 0 {
            None
        } else {
            match self.destroy_each(self.children_of(id), (fuel - 1) as nat) {
                Some(m1) => Some(m1.release(id)),
                None => None,
            }
        }
    }

    /// Destroying each of `ids` in order.
    pub open spec fn destroy_each(self, ids: Seq<ActorId>, fuel: nat) -> Option<TreeModel<T>>
        decreases fuel, ids.len() + 1,
    {
        if ids.len() == 0 {
            Some(self)
        } else {
            match self.destroy_from(ids[0], fuel) {
                Some(m1) => m1.destroy_each(ids.drop_first(), fuel),
                None => None,
            }
        }
    }

    /// Destroying `id` ends: the descent through the children is finite.
    pub open spec fn destroy_terminates(self, id: ActorId) -> bool {
        exists|f: nat| self.destroy_from(id, f) is Some
    }

    /// The result of destroying `id`, for a descent that ends.
    pub open spec fn destroyed(self, id: ActorId) -> TreeModel<T> {
        self.destroy_from(id, choose|f: nat| self.destroy_from(id, f) is Some).unwrap()
    }
}

struct ActorNode<T> {
    payload: T,
    parent: Option<ActorId>,
    children: Vec<ActorId>,
}

struct ActorSlot<T> {
    generation: u32,
    node: Option<ActorNode<T>>,
}

spec fn slot_model<T>(s: ActorSlot<T>) -> SlotModel<T> {
    SlotModel {
        generation: s.generation,
        node: match s.node {
            Some(n) => Some(NodeModel { payload: n.payload, parent: n.parent, children: n.children@ }),
            None => None,
        },
    }
}

/// The arena of actors with payloads of type `T`.
pub struct ActorTree<T> {
    slots: Vec<ActorSlot<T>>,
    free_list: Vec<u32>,
}

impl<T> View for ActorTree<T> {
    type V = TreeModel<T>;

    closed spec fn view(&self) -> TreeModel<T> {
        TreeModel { slots: self.slots@.map_values(|s: ActorSlot<T>| slot_model(s)), free_list: self.free_list@ }
    }
}

/// `v` without any occurrence of `x`, the order of the rest kept.
fn without(v: &[ActorId], x: ActorId) -> (r: Vec<ActorId>)
    ensures
        r@ == remove_all(v@, x),
{
    let mut kept: Vec<ActorId> = Vec::new();
    let mut i: usize = 0;
    while i < v.len()
        invariant
            i <= v@.len(),
            kept@ == remove_all(v@.take(i as int), x),
        decreases v@.len() - i,
    {
        proof {
            crate::seq_set::lemma_filter_take_step(v@, x, i as int);
        }
        if v[i] != x {
            kept.push(v[i]);
        }
        i += 1;
    }
    assert(v@.take(v@.len() as int) =~= v@);
    kept
}

/// A copy of `v`.
fn copy_ids(v: &[ActorId]) -> (r: Vec<ActorId>)
    ensures
        r@ == v@,
{
    let mut out: Vec<ActorId> = Vec::new();
    let mut i: usize = 0;
    while i < v.len()
        invariant
            i <= v@.len(),
            out@ == v@.take(i as int),
        decreases v@.len() - i,
    {
        out.push(v[i]);
        i += 1;
    }
    assert(v@.take(v@.len() as int) =~= v@);
    out
}

impl<T> ActorTree<T> {
    /// Validity: every free index names a slot.
    pub open spec fn wf(&self) -> bool {
        forall|k: int| 0 <= k < self@.free_list.len() ==> (#[trigger] self@.free_list[k] as int) < self@.slots.len()
    }

    /// An empty arena.
    pub fn new() -> (t: Self)
        ensures
            t.wf(),
            t@ == (TreeModel::<T> { slots: Seq::empty(), free_list: Seq::empty() }),
    {
        let t = ActorTree { slots: Vec::new(), free_list: Vec::new() };
        assert(t@.slots =~= Seq::<SlotModel<T>>::empty());
        t
    }

    /// A new actor with `payload`, without parent or children; see
    /// `TreeModel::create` for the slot it takes and its handle. A new
    /// slot's index must fit in `u32`.
    pub fn create(&mut self, payload: T) -> (id: ActorId)
        requires
            old(self).wf(),
            old(self)@.free_list.len() == 0 ==> old(self)@.slots.len() <= u32::MAX,
        ensures
            final(self).wf(),
            (final(self)@, id) == old(self)@.create(payload),
    {
        let node = ActorNode { payload, parent: None, children: Vec::new() };
        match self.free_list.pop() {
            Some(index) => {
                assert(old(self)@.free_list.last() == index);
                let g = self.slots[index as usize].generation.wrapping_add(1);
                self.slots.set(index as usize, ActorSlot { generation: g, node: Some(node) });
                assert(self@.slots =~= old(self)@.slots.update(
                    index as int,
                    SlotModel { generation: g, node: Some(fresh_node(payload)) },
                ));
                assert forall|k: int| 0 <= k < self@.free_list.len() implies (
                #[trigger] self@.free_list[k] as int) < self@.slots.len() by {
                    assert(self@.free_list[k] == old(self)@.free_list[k]);
                }
                ActorId { index, generation: g }
            },
            None => {
                let index = self.slots.len() as u32;
                self.slots.push(ActorSlot { generation: 0, node: Some(node) });
                assert(self@.slots =~= old(self)@.slots.push(
                    SlotModel { generation: 0, node: Some(fresh_node(payload)) },
                ));
                ActorId { index, generation: 0 }
            },
        }
    }

    /// Whether a new actor's slot index fits in `u32`: a freed slot is
    /// waiting, or the slot count is within `u32`.
    pub fn can_create(&self) -> (r: bool)
        ensures
            r == (self@.free_list.len() > 0 || self@.slots.len() <= u32::MAX),
    {
        self.free_list.len() > 0 || self.slots.len() as u64 <= u32::MAX as u64
    }

    /// Whether `id` names an actor.
    pub fn contains(&self, id: ActorId) -> (r: bool)
        ensures
            r == self@.live(id),
    {
        let i = id.index as usize;
        if i < self.slots.len() {
            self.slots[i].generation == id.generation && self.slots[i].node.is_some()
        } else {
            false
        }
    }

    /// The payload of `id`, when it names an actor.
    pub fn payload(&self, id: ActorId) -> (r: Option<&T>)
        ensures
            r == if self@.live(id) {
                Some(&self@.node(id).payload)
            } else {
                None
            },
    {
        let i = id.index as usize;
        if i < self.slots.len() && self.slots[i].generation == id.generation {
            match &self.slots[i].node {
                Some(n) => Some(&n.payload),
                None => None,
            }
        } else {
            None
        }
    }

    /// The payload of `id` for writing, when it names an actor; what is
    /// written there becomes the actor's payload.
    pub fn payload_mut(&mut self, id: ActorId) -> (r: Option<&mut T>)
        requires
            old(self).wf(),
        ensures
            match r {
                Some(p) => old(self)@.live(id) && *p == old(self)@.node(id).payload && final(self)@
                    =~= old(self)@.with_node(id, NodeModel { payload: *final(p), ..old(self)@.node(id) }),
                None => !old(self)@.live(id) && final(self)@ == old(self)@,
            },
            final(self)@.free_list == old(self)@.free_list,
            final(self)@.slots.len() == old(self)@.slots.len(),
            final(self).wf(),
    {
        let i = id.index as usize;
        if i < self.slots.len() && self.slots[i].generation == id.generation {
            match self.slots[i].node.as_mut() {
                Some(n) => Some(&mut n.payload),
                None => None,
            }
        } else {
            None
        }
    }

    /// The children of `id` in order; none when it names no actor.
    pub fn children(&self, id: ActorId) -> (r: &[ActorId])
        ensures
            r@ == self@.children_of(id),
    {
        let i = id.index as usize;
        if i < self.slots.len() && self.slots[i].generation == id.generation {
            match &self.slots[i].node {
                Some(n) => n.children.as_slice(),
                None => &[],
            }
        } else {
            &[]
        }
    }

    /// The parent of `id`; none when it names no actor.
    pub fn parent(&self, id: ActorId) -> (r: Option<ActorId>)
        ensures
            r == self@.parent_of(id),
    {
        let i = id.index as usize;
        if i < self.slots.len() && self.slots[i].generation == id.generation {
            match &self.slots[i].node {
                Some(n) => n.parent,
                None => None,
            }
        } else {
            None
        }
    }

    /// Puts `n` in the slot of `id`, which must exist and have the
    /// generation of `id`.
    fn put_node(&mut self, id: ActorId, n: ActorNode<T>)
        requires
            old(self).wf(),
            (id.index as int) < old(self)@.slots.len(),
            old(self)@.slots[id.index as int].generation == id.generation,
        ensures
            final(self).wf(),
            final(self)@ == old(self)@.with_node(
                id,
                NodeModel { payload: n.payload, parent: n.parent, children: n.children@ },
            ),
    {
        let i = id.index as usize;
        let g = self.slots[i].generation;
        self.slots.set(i, ActorSlot { generation: g, node: Some(n) });
        assert(self@.slots =~= old(self)@.with_node(
            id,
            NodeModel { payload: n.payload, parent: n.parent, children: n.children@ },
        ).slots);
        assert forall|k: int| 0 <= k < self@.free_list.len() implies (
        #[trigger] self@.free_list[k] as int) < self@.slots.len() by {
            assert(self@.free_list[k] == old(self)@.free_list[k]);
        }
    }

    /// Takes the actor named by `id`, which must name one, out of its slot.
    fn take_node(&mut self, id: ActorId) -> (n: ActorNode<T>)
        requires
            old(self).wf(),
            old(self)@.live(id),
        ensures
            final(self).wf(),
            final(self)@.slots == old(self)@.slots.update(
                id.index as int,
                SlotModel { generation: id.generation, node: None },
            ),
            final(self)@.free_list == old(self)@.free_list,
            (NodeModel { payload: n.payload, parent: n.parent, children: n.children@ }) == old(self)@.node(id),
    {
        let i = id.index as usize;
        let g = self.slots[i].generation;
        let mut slot = ActorSlot { generation: g, node: None };
        self.slots.set_and_swap(i, &mut slot);
        assert(self@.slots =~= old(self)@.slots.update(
            id.index as int,
            SlotModel { generation: id.generation, node: None },
        ));
        assert forall|k: int| 0 <= k < self@.free_list.len() implies (
        #[trigger] self@.free_list[k] as int) < self@.slots.len() by {
            assert(self@.free_list[k] == old(self)@.free_list[k]);
        }
        slot.node.unwrap()
    }

    /// Applies `f` to the actor named by `id`, which must name one.
    fn update_children(&mut self, id: ActorId, children: Vec<ActorId>)
        requires
            old(self).wf(),
            old(self)@.live(id),
        ensures
            final(self).wf(),
            final(self)@ == old(self)@.with_node(id, NodeModel { children: children@, ..old(self)@.node(id) }),
    {
        let ghost m0 = self@;
        let mut n = self.take_node(id);
        n.children = children;
        self.put_node(id, n);
        assert(self@.slots =~= m0.with_node(id, NodeModel { children: children@, ..m0.node(id) }).slots);
    }

    /// Appends `child` to the children of the actor named by `id`, which
    /// must name one.
    fn push_child(&mut self, id: ActorId, child: ActorId)
        requires
            old(self).wf(),
            old(self)@.live(id),
        ensures
            final(self).wf(),
            final(self)@ == old(self)@.with_node(
                id,
                NodeModel { children: old(self)@.node(id).children.push(child), ..old(self)@.node(id) },
            ),
    {
        let ghost m0 = self@;
        let mut n = self.take_node(id);
        n.children.push(child);
        self.put_node(id, n);
        assert(self@.slots =~= m0.with_node(
            id,
            NodeModel { children: m0.node(id).children.push(child), ..m0.node(id) },
        ).slots);
    }

    /// Sets the parent of the actor named by `id`, which must name one.
    fn update_parent(&mut self, id: ActorId, parent: Option<ActorId>)
        requires
            old(self).wf(),
            old(self)@.live(id),
        ensures
            final(self).wf(),
            final(self)@ == old(self)@.with_node(id, NodeModel { parent, ..old(self)@.node(id) }),
    {
        let ghost m0 = self@;
        let mut n = self.take_node(id);
        n.parent = parent;
        self.put_node(id, n);
        assert(self@.slots =~= m0.with_node(id, NodeModel { parent, ..m0.node(id) }).slots);
    }

    /// `child` leaves its parent; see `TreeModel::detach`.
    pub fn remove_from_parent(&mut self, child: ActorId)
        requires
            old(self).wf(),
        ensures
            final(self).wf(),
            final(self)@ == old(self)@.detach(child),
    {
        if let Some(parent) = self.parent(child) {
            if self.contains(parent) {
                let kept = without(self.children(parent), child);
                self.update_children(parent, kept);
            }
        }
        if self.contains(child) {
            self.update_parent(child, None);
        }
    }

    /// `child` leaves its parent and becomes the last child of `parent`;
    /// see `TreeModel::attach`.
    pub fn add_child(&mut self, parent: ActorId, child: ActorId)
        requires
            old(self).wf(),
        ensures
            final(self).wf(),
            final(self)@ == old(self)@.attach(parent, child),
    {
        self.remove_from_parent(child);
        if self.contains(parent) {
            self.push_child(parent, child);
        }
        if self.contains(child) {
            self.update_parent(child, Some(parent));
        }
    }

    fn destroy_rec(&mut self, id: ActorId, Ghost(fuel): Ghost<nat>)
        requires
            old(self).wf(),
            old(self)@.destroy_from(id, fuel) is Some,
        ensures
            final(self).wf(),
            final(self)@ == old(self)@.destroy_from(id, fuel).unwrap(),
        decreases fuel,
    {
        let children = copy_ids(self.children(id));
        let ghost f1: nat = (fuel - 1) as nat;
        let ghost target = old(self)@.destroy_each(children@, f1);
        assert(target is Some);
        assert(children@.skip(0) =~= children@);
        let mut i: usize = 0;
        while i < children.len()
            invariant
                self.wf(),
                i <= children@.len(),
                fuel > 0,
                f1 == fuel - 1,
                target is Some,
                self@.destroy_each(children@.skip(i as int), f1) == target,
            decreases children@.len() - i,
        {
            let ghost rest = children@.skip(i as int);
            assert(rest[0] == children@[i as int]);
            assert(rest.drop_first() =~= children@.skip(i as int + 1));
            self.destroy_rec(children[i], Ghost(f1));
            i += 1;
        }
        assert(children@.skip(children@.len() as int) =~= Seq::<ActorId>::empty());
        assert(self@ == target.unwrap());
        self.remove_from_parent(id);
        let ghost m1 = self@;
        let k = id.index as usize;
        if k < self.slots.len() && self.slots[k].generation == id.generation {
            self.slots.set(k, ActorSlot { generation: id.generation, node: None });
            self.free_list.push(id.index);
            assert(self@.slots =~= m1.slots.update(id.index as int, SlotModel { generation: id.generation, node: None }));
            assert(self@.free_list =~= m1.free_list.push(id.index));
            assert forall|j: int| 0 <= j < self@.free_list.len() implies (
            #[trigger] self@.free_list[j] as int) < self@.slots.len() by {
                if j < m1.free_list.len() {
                    assert(self@.free_list[j] == m1.free_list[j]);
                }
            }
        }
    }

    /// Destroys `id`: its children, as they are now, are destroyed in
    /// order, each with its own descendants, then `id` leaves its parent
    /// and its slot is freed; see `TreeModel::destroy_from`. The descent
    /// must end, which it does unless an actor is its own descendant.
    pub fn destroy(&mut self, id: ActorId)
        requires
            old(self).wf(),
            old(self)@.destroy_terminates(id),
        ensures
            final(self).wf(),
            final(self)@ == old(self)@.destroyed(id),
    {
        let ghost f = choose|f: nat| self@.destroy_from(id, f) is Some;
        self.destroy_rec(id, Ghost(f));
    }

    /// The number of actors.
    pub fn len(&self) -> (r: usize)
        ensures
            r == count_live(self@.slots),
    {
        let mut count: usize = 0;
        let mut i: usize = 0;
        while i < self.slots.len()
            invariant
                i <= self@.slots.len(),
                count <= i,
                count == count_live(self@.slots.take(i as int)),
            decreases self@.slots.len() - i,
        {
            assert(self@.slots.take(i as int + 1).drop_last() =~= self@.slots.take(i as int));
            if self.slots[i].node.is_some() {
                count += 1;
            }
            i += 1;
        }
        assert(self@.slots.take(self@.slots.len() as int) =~= self@.slots);
        count
    }

    /// Whether there is no actor.
    pub fn is_empty(&self) -> (r: bool)
        ensures
            r == (count_live(self@.slots) == 0),
    {
        self.len() == 0
    }
}


/// Replacing the actor of a live handle keeps every handle's liveness, the
/// slot count and the generations, and changes only that actor.
proof fn lemma_with_node<T>(m: TreeModel<T>, id: ActorId, n: NodeModel<T>)
    requires
        m.live(id),
    ensures
        m.with_node(id, n).slots.len() == m.slots.len(),
        m.with_node(id, n).free_list == m.free_list,
        forall|k: int| 0 <= k < m.slots.len() ==> #[trigger] m.with_node(id, n).slots[k].generation == m.slots[k].generation,
        forall|x: ActorId| #[trigger] m.with_node(id, n).live(x) == m.live(x),
        forall|x: ActorId| m.live(x) && x.index != id.index ==> #[trigger] m.with_node(id, n).node(x) == m.node(x),
        m.with_node(id, n).node(id) == n,
{
    let m2 = m.with_node(id, n);
    assert forall|x: ActorId| #[trigger] m2.live(x) == m.live(x) by {
        if x.index == id.index && (x.index as int) < m.slots.len() {
            assert(m2.slots[x.index as int].generation == m.slots[x.index as int].generation);
        }
    }
}

/// Detaching keeps every handle's liveness, the slot count, the
/// generations and the free list.
proof fn lemma_detach<T>(m: TreeModel<T>, child: ActorId)
    ensures
        m.detach(child).slots.len() == m.slots.len(),
        m.detach(child).free_list == m.free_list,
        forall|k: int| 0 <= k < m.slots.len() ==> #[trigger] m.detach(child).slots[k].generation == m.slots[k].generation,
        forall|x: ActorId| #[trigger] m.detach(child).live(x) == m.live(x),
{
    let m1 = match m.parent_of(child) {
        Some(p) => if m.live(p) {
            m.with_node(p, NodeModel { children: remove_all(m.node(p).children, child), ..m.node(p) })
        } else {
            m
        },
        None => m,
    };
    if let Some(p) = m.parent_of(child) {
        if m.live(p) {
            lemma_with_node(m, p, NodeModel { children: remove_all(m.node(p).children, child), ..m.node(p) });
        }
    }
    if m1.live(child) {
        lemma_with_node(m1, child, NodeModel { parent: None, ..m1.node(child) });
    }
}

/// A new actor is live under its handle, with its payload and without
/// parent or children; its handle differs from every handle that was
/// live, and every live actor in another slot is kept.
pub proof fn law_create_fresh<T>(m: TreeModel<T>, payload: T)
    requires
        forall|k: int| 0 <= k < m.free_list.len() ==> (#[trigger] m.free_list[k] as int) < m.slots.len(),
        m.free_list.len() == 0 ==> m.slots.len() <= u32::MAX,
    ensures
        ({
            let (m2, id) = m.create(payload);
            &&& m2.live(id)
            &&& m2.node(id) == fresh_node(payload)
            &&& forall|x: ActorId| m.live(x) ==> x != id
            &&& forall|x: ActorId|
                m.live(x) && x.index != id.index ==> m2.live(x) && #[trigger] m2.node(x) == m.node(x)
        }),
{
    let (m2, id) = m.create(payload);
    if m.free_list.len() > 0 {
        assert(m.free_list[m.free_list.len() - 1] == m.free_list.last());
    }
}

/// Adding a child to a live parent links both ways: the child has the
/// parent and is its last child, and no longer is a child of a former,
/// different parent.
pub proof fn law_add_child_links<T>(m: TreeModel<T>, parent: ActorId, child: ActorId)
    requires
        m.live(parent),
        m.live(child),
    ensures
        m.attach(parent, child).parent_of(child) == Some(parent),
        m.attach(parent, child).children_of(parent).last() == child,
        forall|q: ActorId|
            m.parent_of(child) == Some(q) && q != parent ==> !(#[trigger] m.attach(parent, child).children_of(q)).contains(child),
{
    let m1 = m.detach(child);
    lemma_detach(m, child);
    let m2 = m1.with_node(parent, NodeModel { children: m1.node(parent).children.push(child), ..m1.node(parent) });
    lemma_with_node(m1, parent, NodeModel { children: m1.node(parent).children.push(child), ..m1.node(parent) });
    let m3 = m2.with_node(child, NodeModel { parent: Some(parent), ..m2.node(child) });
    lemma_with_node(m2, child, NodeModel { parent: Some(parent), ..m2.node(child) });
    assert(m.attach(parent, child) == m3);
    assert forall|q: ActorId|
        m.parent_of(child) == Some(q) && q != parent implies !(#[trigger] m3.children_of(q)).contains(child) by {
        if m.live(q) {
            let mq = m.with_node(q, NodeModel { children: remove_all(m.node(q).children, child), ..m.node(q) });
            lemma_with_node(m, q, NodeModel { children: remove_all(m.node(q).children, child), ..m.node(q) });
            crate::seq_set::lemma_filter_absent_of(m.node(q).children, child);
            if mq.live(child) {
                lemma_with_node(mq, child, NodeModel { parent: None, ..mq.node(child) });
            }
            assert(m1.node(q).children == remove_all(m.node(q).children, child));
            assert(m3.children_of(q) == m1.node(q).children);
        }
    }
}

/// Removing a child from its parent leaves it without parent and out of
/// the children of that parent.
pub proof fn law_remove_from_parent_unlinks<T>(m: TreeModel<T>, child: ActorId)
    ensures
        m.detach(child).parent_of(child) is None,
        forall|q: ActorId| m.parent_of(child) == Some(q) ==> !(#[trigger] m.detach(child).children_of(q)).contains(child),
{
    lemma_detach(m, child);
    assert forall|q: ActorId| m.parent_of(child) == Some(q) implies !(#[trigger] m.detach(child).children_of(q)).contains(child) by {
        if m.live(q) {
            let mq = m.with_node(q, NodeModel { children: remove_all(m.node(q).children, child), ..m.node(q) });
            lemma_with_node(m, q, NodeModel { children: remove_all(m.node(q).children, child), ..m.node(q) });
            crate::seq_set::lemma_filter_absent_of(m.node(q).children, child);
            if mq.live(child) {
                lemma_with_node(mq, child, NodeModel { parent: None, ..mq.node(child) });
            }
        }
    }
}

/// Releasing keeps the slot count and makes no handle live.
proof fn lemma_release<T>(m: TreeModel<T>, id: ActorId)
    ensures
        m.release(id).slots.len() == m.slots.len(),
        !m.release(id).live(id),
        forall|y: ActorId| #[trigger] m.release(id).live(y) ==> m.live(y),
{
    let m1 = m.detach(id);
    lemma_detach(m, id);
    if (id.index as int) < m1.slots.len() && m1.slots[id.index as int].generation == id.generation {
        let m2 = m.release(id);
        assert forall|y: ActorId| #[trigger] m2.live(y) implies m.live(y) by {
            assert(m1.live(y));
        }
    }
}

/// Destroying keeps the slot count and makes no handle live.
proof fn lemma_destroy_from_no_revival<T>(m: TreeModel<T>, id: ActorId, fuel: nat)
    requires
        m.destroy_from(id, fuel) is Some,
    ensures
        m.destroy_from(id, fuel).unwrap().slots.len() == m.slots.len(),
        forall|y: ActorId| #[trigger] m.destroy_from(id, fuel).unwrap().live(y) ==> m.live(y),
        !m.destroy_from(id, fuel).unwrap().live(id),
    decreases fuel, 0nat,
{
    let m1 = m.destroy_each(m.children_of(id), (fuel - 1) as nat).unwrap();
    lemma_destroy_each_no_revival(m, m.children_of(id), (fuel - 1) as nat);
    lemma_release(m1, id);
}

/// Destroying each of `ids` keeps the slot count, makes no handle live,
/// and leaves none of `ids` live.
proof fn lemma_destroy_each_no_revival<T>(m: TreeModel<T>, ids: Seq<ActorId>, fuel: nat)
    requires
        m.destroy_each(ids, fuel) is Some,
    ensures
        m.destroy_each(ids, fuel).unwrap().slots.len() == m.slots.len(),
        forall|y: ActorId| #[trigger] m.destroy_each(ids, fuel).unwrap().live(y) ==> m.live(y),
        forall|k: int| 0 <= k < ids.len() ==> !m.destroy_each(ids, fuel).unwrap().live(#[trigger] ids[k]),
    decreases fuel, ids.len() + 1,
{
    if ids.len() > 0 {
        let m1 = m.destroy_from(ids[0], fuel).unwrap();
        lemma_destroy_from_no_revival(m, ids[0], fuel);
        lemma_destroy_each_no_revival(m1, ids.drop_first(), fuel);
        let m2 = m1.destroy_each(ids.drop_first(), fuel).unwrap();
        assert forall|k: int| 0 <= k < ids.len() implies !m2.live(#[trigger] ids[k]) by {
            if k > 0 {
                assert(ids.drop_first()[k - 1] == ids[k]);
            }
        }
    }
}

/// Destroying an actor whose descent ends destroys its children too, and
/// brings no actor to life.
pub proof fn law_destroy_takes_children<T>(m: TreeModel<T>, id: ActorId)
    requires
        m.destroy_terminates(id),
    ensures
        !m.destroyed(id).live(id),
        forall|k: int| 0 <= k < m.children_of(id).len() ==> !m.destroyed(id).live(#[trigger] m.children_of(id)[k]),
        forall|y: ActorId| #[trigger] m.destroyed(id).live(y) ==> m.live(y),
{
    let f = choose|f: nat| m.destroy_from(id, f) is Some;
    assert(m.destroy_from(id, f) is Some);
    let kids = m.children_of(id);
    let m1 = m.destroy_each(kids, (f - 1) as nat).unwrap();
    lemma_destroy_each_no_revival(m, kids, (f - 1) as nat);
    lemma_release(m1, id);
}

/// Parents and children agree: every child of a live actor is live, once,
/// and has that actor as its parent; and every live actor with a parent
/// has a live parent that lists it among its children.
pub open spec fn links_agree<T>(m: TreeModel<T>) -> bool {
    &&& forall|x: ActorId, k: int|
        #![trigger m.children_of(x)[k]]
        m.live(x) && 0 <= k < m.children_of(x).len() ==> m.live(m.children_of(x)[k]) && m.parent_of(
            m.children_of(x)[k],
        ) == Some(x)
    &&& forall|c: ActorId|
        #![trigger m.parent_of(c)]
        m.live(c) && m.parent_of(c) is Some ==> m.live(m.parent_of(c)->0) && m.children_of(
            m.parent_of(c)->0,
        ).contains(c)
    &&& forall|x: ActorId| #![trigger m.children_of(x)] m.live(x) ==> no_duplicates(m.children_of(x))
}

/// Two live handles in the same slot are the same handle.
proof fn lemma_live_same_slot<T>(m: TreeModel<T>, a: ActorId, b: ActorId)
    requires
        m.live(a),
        m.live(b),
        a.index == b.index,
    ensures
        a == b,
{
}

/// Removing a child from its parent keeps parents and children in
/// agreement.
pub proof fn law_remove_from_parent_keeps_links<T>(m: TreeModel<T>, child: ActorId)
    requires
        links_agree(m),
    ensures
        links_agree(m.detach(child)),
{
    lemma_detach(m, child);
    let m2 = m.detach(child);
    match m.parent_of(child) {
        Some(q) => {
            assert(m.live(child));
            assert(m.live(q));
            let nq = NodeModel { children: remove_all(m.node(q).children, child), ..m.node(q) };
            let m1 = m.with_node(q, nq);
            lemma_with_node(m, q, nq);
            crate::seq_set::lemma_filter_no_duplicates(m.node(q).children, child);
            let nc = NodeModel { parent: None, ..m1.node(child) };
            lemma_with_node(m1, child, nc);
            assert(m2 == m1.with_node(child, nc));
            assert forall|x: ActorId, k: int|
                #![trigger m2.children_of(x)[k]]
                m2.live(x) && 0 <= k < m2.children_of(x).len() implies m2.live(m2.children_of(x)[k])
                && m2.parent_of(m2.children_of(x)[k]) == Some(x) by {
                let d = m2.children_of(x)[k];
                if x == q {
                    if q.index == child.index {
                        lemma_live_same_slot(m, q, child);
                    }
                    assert(m2.children_of(x) == remove_all(m.node(q).children, child));
                    crate::seq_set::lemma_remove_all_members(m.node(q).children, child);
                    assert(remove_all(m.node(q).children, child)[k] == d);
                    let j = choose|j: int| 0 <= j < m.children_of(q).len() && m.children_of(q)[j] == d;
                    assert(m.parent_of(m.children_of(q)[j]) == Some(q));
                    if d.index == child.index {
                        lemma_live_same_slot(m, d, child);
                    }
                } else {
                    if x.index == child.index {
                        lemma_live_same_slot(m, x, child);
                    }
                    assert(m2.children_of(x) == m.children_of(x));
                    assert(m.parent_of(m.children_of(x)[k]) == Some(x));
                    if d.index == child.index {
                        lemma_live_same_slot(m, d, child);
                    }
                    if d.index == q.index {
                        lemma_live_same_slot(m, d, q);
                    }
                }
            }
            assert forall|c: ActorId|
                #![trigger m2.parent_of(c)]
                m2.live(c) && m2.parent_of(c) is Some implies m2.live(m2.parent_of(c)->0)
                && m2.children_of(m2.parent_of(c)->0).contains(c) by {
                if c.index == child.index {
                    lemma_live_same_slot(m, c, child);
                }
                let pc = m.parent_of(c)->0;
                if c.index == q.index {
                    lemma_live_same_slot(m, c, q);
                }
                assert(m2.parent_of(c) == m.parent_of(c));
                assert(m.children_of(pc).contains(c));
                if pc == q {
                    let j = choose|j: int| 0 <= j < m.children_of(q).len() && m.children_of(q)[j] == c;
                    crate::seq_set::lemma_remove_all_members(m.node(q).children, child);
                    assert(m.node(q).children[j] == c);
                    if q.index == child.index {
                        lemma_live_same_slot(m, q, child);
                    }
                } else {
                    if pc.index == child.index {
                        lemma_live_same_slot(m, pc, child);
                    }
                    if pc.index == q.index {
                        lemma_live_same_slot(m, pc, q);
                    }
                    assert(m2.children_of(pc) == m.children_of(pc));
                }
            }
            assert forall|x: ActorId| #![trigger m2.children_of(x)] m2.live(x) implies no_duplicates(
                m2.children_of(x),
            ) by {
                if x == q {
                    if q.index == child.index {
                        lemma_live_same_slot(m, q, child);
                    }
                } else {
                    if x.index == child.index {
                        lemma_live_same_slot(m, x, child);
                    }
                    if x.index == q.index {
                        lemma_live_same_slot(m, x, q);
                    }
                    assert(m2.children_of(x) == m.children_of(x));
                }
            }
        },
        None => {
            if m.live(child) {
                let nc = NodeModel { parent: None, ..m.node(child) };
                lemma_with_node(m, child, nc);
                assert forall|x: ActorId, k: int|
                    #![trigger m2.children_of(x)[k]]
                    m2.live(x) && 0 <= k < m2.children_of(x).len() implies m2.live(m2.children_of(x)[k])
                    && m2.parent_of(m2.children_of(x)[k]) == Some(x) by {
                    let d = m2.children_of(x)[k];
                    if x.index == child.index {
                        lemma_live_same_slot(m, x, child);
                    }
                    assert(m2.children_of(x) == m.children_of(x));
                    assert(m.parent_of(m.children_of(x)[k]) == Some(x));
                    if d.index == child.index {
                        lemma_live_same_slot(m, d, child);
                    }
                }
                assert forall|c: ActorId|
                    #![trigger m2.parent_of(c)]
                    m2.live(c) && m2.parent_of(c) is Some implies m2.live(m2.parent_of(c)->0)
                    && m2.children_of(m2.parent_of(c)->0).contains(c) by {
                    if c.index == child.index {
                        lemma_live_same_slot(m, c, child);
                    }
                    let pc = m.parent_of(c)->0;
                    if pc.index == child.index {
                        lemma_live_same_slot(m, pc, child);
                    }
                    assert(m2.children_of(pc) == m.children_of(pc));
                }
                assert forall|x: ActorId| #![trigger m2.children_of(x)] m2.live(x) implies no_duplicates(
                    m2.children_of(x),
                ) by {
                    if x.index == child.index {
                        lemma_live_same_slot(m, x, child);
                    }
                    assert(m2.children_of(x) == m.children_of(x));
                }
            } else {
                assert(m2 == m);
            }
        },
    }
}

/// Adding a live child to a live parent keeps parents and children in
/// agreement.
pub proof fn law_add_child_keeps_links<T>(m: TreeModel<T>, parent: ActorId, child: ActorId)
    requires
        links_agree(m),
        m.live(parent),
        m.live(child),
    ensures
        links_agree(m.attach(parent, child)),
{
    let m1 = m.detach(child);
    lemma_detach(m, child);
    law_remove_from_parent_keeps_links(m, child);
    law_remove_from_parent_unlinks(m, child);
    assert(m1.parent_of(child) is None);
    assert forall|x: ActorId| m1.live(x) implies !(#[trigger] m1.children_of(x)).contains(child) by {
        if m1.children_of(x).contains(child) {
            let k = choose|k: int| 0 <= k < m1.children_of(x).len() && m1.children_of(x)[k] == child;
            assert(m1.parent_of(m1.children_of(x)[k]) == Some(x));
        }
    }
    let np = NodeModel { children: m1.node(parent).children.push(child), ..m1.node(parent) };
    let m2 = m1.with_node(parent, np);
    lemma_with_node(m1, parent, np);
    let nc = NodeModel { parent: Some(parent), ..m2.node(child) };
    let m3 = m2.with_node(child, nc);
    lemma_with_node(m2, child, nc);
    assert(m.attach(parent, child) == m3);
    assert(!m1.children_of(parent).contains(child));
    crate::seq_set::lemma_push_absent_no_duplicates(m1.node(parent).children, child);
    assert(m3.children_of(parent) == m1.children_of(parent).push(child)) by {
        if parent.index == child.index {
            lemma_live_same_slot(m, parent, child);
        }
    }
    assert(m3.parent_of(child) == Some(parent));
    assert forall|x: ActorId, k: int|
        #![trigger m3.children_of(x)[k]]
        m3.live(x) && 0 <= k < m3.children_of(x).len() implies m3.live(m3.children_of(x)[k])
        && m3.parent_of(m3.children_of(x)[k]) == Some(x) by {
        let d = m3.children_of(x)[k];
        if x == parent {
            if k < m1.children_of(parent).len() {
                assert(d == m1.children_of(parent)[k]);
                assert(m1.parent_of(m1.children_of(parent)[k]) == Some(parent));
                assert(d != child);
                if d.index == child.index {
                    lemma_live_same_slot(m, d, child);
                }
                if d.index == parent.index {
                    lemma_live_same_slot(m, d, parent);
                }
            }
        } else {
            if x.index == parent.index {
                lemma_live_same_slot(m, x, parent);
            }
            assert(m3.children_of(x) == m1.children_of(x)) by {
                if x.index == child.index {
                    lemma_live_same_slot(m, x, child);
                }
            }
            assert(m1.parent_of(m1.children_of(x)[k]) == Some(x));
            assert(d != child);
            if d.index == child.index {
                lemma_live_same_slot(m, d, child);
            }
            if d.index == parent.index {
                lemma_live_same_slot(m, d, parent);
            }
        }
    }
    assert forall|y: ActorId|
        #![trigger m3.parent_of(y)]
        m3.live(y) && m3.parent_of(y) is Some implies m3.live(m3.parent_of(y)->0) && m3.children_of(
            m3.parent_of(y)->0,
        ).contains(y) by {
        if y == child {
            assert(m3.children_of(parent)[m1.children_of(parent).len() as int] == child);
        } else {
            if y.index == child.index {
                lemma_live_same_slot(m, y, child);
            }
            if y.index == parent.index {
                lemma_live_same_slot(m, y, parent);
            }
            assert(m3.parent_of(y) == m1.parent_of(y));
            let z = m1.parent_of(y)->0;
            assert(m1.children_of(z).contains(y));
            let j = choose|j: int| 0 <= j < m1.children_of(z).len() && m1.children_of(z)[j] == y;
            if z == parent {
                assert(m3.children_of(parent)[j] == y);
            } else {
                if z.index == parent.index {
                    lemma_live_same_slot(m, z, parent);
                }
                assert(m3.children_of(z) == m1.children_of(z)) by {
                    if z.index == child.index {
                        lemma_live_same_slot(m, z, child);
                    }
                }
            }
        }
    }
    assert forall|x: ActorId| #![trigger m3.children_of(x)] m3.live(x) implies no_duplicates(
        m3.children_of(x),
    ) by {
        if x != parent {
            if x.index == parent.index {
                lemma_live_same_slot(m, x, parent);
            }
            assert(m3.children_of(x) == m1.children_of(x)) by {
                if x.index == child.index {
                    lemma_live_same_slot(m, x, child);
                }
            }
        }
    }
}

/// A new actor in a slot that holds no actor keeps parents and children in
/// agreement.
pub proof fn law_create_keeps_links<T>(m: TreeModel<T>, payload: T)
    requires
        links_agree(m),
        forall|k: int| 0 <= k < m.free_list.len() ==> (#[trigger] m.free_list[k] as int) < m.slots.len(),
        m.free_list.len() > 0 ==> m.slots[m.free_list.last() as int].node is None,
        m.free_list.len() == 0 ==> m.slots.len() <= u32::MAX,
    ensures
        links_agree(m.create(payload).0),
{
    let (m2, id) = m.create(payload);
    if m.free_list.len() > 0 {
        assert(m.free_list[m.free_list.len() - 1] == m.free_list.last());
    }
    assert(!m.live(id));
    assert forall|x: ActorId| #[trigger] m2.live(x) && x != id implies m.live(x) && m2.node(x) == m.node(x) by {
    }
    assert forall|x: ActorId, k: int|
        #![trigger m2.children_of(x)[k]]
        m2.live(x) && 0 <= k < m2.children_of(x).len() implies m2.live(m2.children_of(x)[k])
        && m2.parent_of(m2.children_of(x)[k]) == Some(x) by {
        if x != id {
            assert(m.live(x));
            assert(m2.children_of(x) == m.children_of(x));
            let d = m.children_of(x)[k];
            assert(m.live(d) && m.parent_of(d) == Some(x));
            if d.index == id.index {
                assert(d != id);
            }
            assert(m2.live(d));
        }
    }
    assert forall|y: ActorId|
        #![trigger m2.parent_of(y)]
        m2.live(y) && m2.parent_of(y) is Some implies m2.live(m2.parent_of(y)->0) && m2.children_of(
            m2.parent_of(y)->0,
        ).contains(y) by {
        if y != id {
            assert(m.live(y));
            let z = m.parent_of(y)->0;
            assert(m.live(z) && m.children_of(z).contains(y));
            if z.index == id.index {
                assert(z != id);
            }
            assert(m2.live(z));
            assert(m2.children_of(z) == m.children_of(z));
        }
    }
    assert forall|x: ActorId| #![trigger m2.children_of(x)] m2.live(x) implies no_duplicates(
        m2.children_of(x),
    ) by {
        if x != id {
            assert(m2.children_of(x) == m.children_of(x));
        }
    }
}

/// From `m` to `r`, no actor got a parent: each actor live in `r` was live
/// in `m`, with the same parent or none.
pub open spec fn parents_only_cleared<T>(m: TreeModel<T>, r: TreeModel<T>) -> bool {
    forall|y: ActorId|
        #![trigger r.parent_of(y)]
        r.live(y) ==> m.live(y) && (r.parent_of(y) == m.parent_of(y) || r.parent_of(y) is None)
}

/// From `m` to `r`, every actor live in `r` was live in `m`, with the same
/// parent.
pub open spec fn parents_kept<T>(m: TreeModel<T>, r: TreeModel<T>) -> bool {
    forall|y: ActorId| #![trigger r.parent_of(y)] r.live(y) ==> m.live(y) && r.parent_of(y) == m.parent_of(y)
}

proof fn lemma_detach_clears_parents<T>(m: TreeModel<T>, child: ActorId)
    ensures
        parents_only_cleared(m, m.detach(child)),
{
    lemma_detach(m, child);
    let m2 = m.detach(child);
    assert forall|y: ActorId| #![trigger m2.parent_of(y)] m2.live(y) implies m.live(y) && (m2.parent_of(y)
        == m.parent_of(y) || m2.parent_of(y) is None) by {
        if let Some(q) = m.parent_of(child) {
            if m.live(q) {
                let nq = NodeModel { children: remove_all(m.node(q).children, child), ..m.node(q) };
                lemma_with_node(m, q, nq);
                let m1 = m.with_node(q, nq);
                if m1.live(child) {
                    lemma_with_node(m1, child, NodeModel { parent: None, ..m1.node(child) });
                }
                if y.index == child.index && m.live(child) {
                    lemma_live_same_slot(m, y, child);
                }
            }
        } else if m.live(child) {
            lemma_with_node(m, child, NodeModel { parent: None, ..m.node(child) });
            if y.index == child.index {
                lemma_live_same_slot(m, y, child);
            }
        }
    }
}

/// Releasing an actor without children keeps parents and children in
/// agreement, and gives no actor a parent.
proof fn lemma_release_keeps_links<T>(m: TreeModel<T>, id: ActorId)
    requires
        links_agree(m),
        m.live(id) ==> m.children_of(id).len() == 0,
    ensures
        links_agree(m.release(id)),
        parents_kept(m, m.release(id)),
{
    let m1 = m.detach(id);
    lemma_detach(m, id);
    law_remove_from_parent_keeps_links(m, id);
    law_remove_from_parent_unlinks(m, id);
    lemma_detach_clears_parents(m, id);
    let r = m.release(id);
    if (id.index as int) < m1.slots.len() && m1.slots[id.index as int].generation == id.generation {
        if m1.live(id) {
            assert(m1.children_of(id).len() == 0) by {
                if m1.children_of(id).len() > 0 {
                    assert(m1.parent_of(m1.children_of(id)[0]) == Some(id));
                    let d = m1.children_of(id)[0];
                    lemma_detach_clears_parents(m, id);
                    assert(m1.parent_of(d) == m.parent_of(d) || m1.parent_of(d) is None);
                    assert(m.children_of(id).contains(d));
                }
            }
        }
        assert forall|y: ActorId| #[trigger] r.live(y) implies m1.live(y) && y != id && r.node(y) == m1.node(y) by {
            if y.index == id.index {
            }
        }
        assert forall|y: ActorId| #![trigger r.parent_of(y)] r.live(y) implies m.live(y) && r.parent_of(y) == m.parent_of(y) by {
            assert(m1.live(y) && y != id);
            assert(m1.parent_of(y) == m.parent_of(y) || m1.parent_of(y) is None);
            if m1.parent_of(y) != m.parent_of(y) {
                if let Some(q) = m.parent_of(id) {
                    if m.live(q) {
                        let nq = NodeModel { children: remove_all(m.node(q).children, id), ..m.node(q) };
                        lemma_with_node(m, q, nq);
                        let mq = m.with_node(q, nq);
                        if mq.live(id) {
                            lemma_with_node(mq, id, NodeModel { parent: None, ..mq.node(id) });
                        }
                        if y.index == id.index {
                            lemma_live_same_slot(m, y, id);
                        }
                    }
                } else if m.live(id) {
                    lemma_with_node(m, id, NodeModel { parent: None, ..m.node(id) });
                    if y.index == id.index {
                        lemma_live_same_slot(m, y, id);
                    }
                }
            }
        }
        assert forall|x: ActorId, k: int|
            #![trigger r.children_of(x)[k]]
            r.live(x) && 0 <= k < r.children_of(x).len() implies r.live(r.children_of(x)[k])
            && r.parent_of(r.children_of(x)[k]) == Some(x) by {
            assert(r.children_of(x) == m1.children_of(x));
            let d = m1.children_of(x)[k];
            assert(m1.live(d) && m1.parent_of(d) == Some(x));
            assert(d != id);
            if d.index == id.index && m1.live(id) {
                lemma_live_same_slot(m1, d, id);
            }
        }
        assert forall|c: ActorId|
            #![trigger r.parent_of(c)]
            r.live(c) && r.parent_of(c) is Some implies r.live(r.parent_of(c)->0) && r.children_of(
                r.parent_of(c)->0,
            ).contains(c) by {
            let z = m1.parent_of(c)->0;
            assert(m1.live(z) && m1.children_of(z).contains(c));
            if z == id {
                assert(m1.children_of(id).len() == 0);
            }
            if z.index == id.index && m1.live(id) {
                lemma_live_same_slot(m1, z, id);
            }
            assert(r.live(z));
        }
        assert forall|x: ActorId| #![trigger r.children_of(x)] r.live(x) implies no_duplicates(r.children_of(x)) by {
            assert(r.children_of(x) == m1.children_of(x));
        }
    } else {
        assert(r == m1);
        assert forall|y: ActorId| #![trigger r.parent_of(y)] r.live(y) implies m.live(y) && r.parent_of(y) == m.parent_of(y) by {
            if m.live(id) {
                assert(m1.slots[id.index as int].generation == id.generation);
            }
            if y.index == id.index && m.live(id) {
                lemma_live_same_slot(m, y, id);
            }
            if let Some(q) = m.parent_of(id) {
                if m.live(q) {
                    let nq = NodeModel { children: remove_all(m.node(q).children, id), ..m.node(q) };
                    lemma_with_node(m, q, nq);
                }
            }
        }
    }
}

/// Destroying keeps parents and children in agreement and gives no actor
/// a parent.
proof fn lemma_destroy_from_keeps_links<T>(m: TreeModel<T>, id: ActorId, fuel: nat)
    requires
        links_agree(m),
        m.destroy_from(id, fuel) is Some,
    ensures
        links_agree(m.destroy_from(id, fuel).unwrap()),
        parents_kept(m, m.destroy_from(id, fuel).unwrap()),
    decreases fuel, 0nat,
{
    let kids = m.children_of(id);
    let f1 = (fuel - 1) as nat;
    let m1 = m.destroy_each(kids, f1).unwrap();
    lemma_destroy_each_keeps_links(m, kids, f1);
    lemma_destroy_each_no_revival(m, kids, f1);
    if m1.live(id) && m1.children_of(id).len() > 0 {
        let d = m1.children_of(id)[0];
        assert(m1.parent_of(d) == Some(id));
        assert(m.live(d) && m.parent_of(d) == Some(id));
        assert(m.children_of(id).contains(d));
        let j = choose|j: int| 0 <= j < kids.len() && kids[j] == d;
        assert(!m1.live(kids[j]));
    }
    lemma_release_keeps_links(m1, id);
    let r = m1.release(id);
    assert forall|y: ActorId| #![trigger r.parent_of(y)] r.live(y) implies m.live(y) && r.parent_of(y)
        == m.parent_of(y) by {
        assert(m1.live(y));
        assert(m1.parent_of(y) == m.parent_of(y));
    }
}

/// Destroying each of `ids` keeps parents and children in agreement and
/// gives no actor a parent.
proof fn lemma_destroy_each_keeps_links<T>(m: TreeModel<T>, ids: Seq<ActorId>, fuel: nat)
    requires
        links_agree(m),
        m.destroy_each(ids, fuel) is Some,
    ensures
        links_agree(m.destroy_each(ids, fuel).unwrap()),
        parents_kept(m, m.destroy_each(ids, fuel).unwrap()),
    decreases fuel, ids.len() + 1,
{
    if ids.len() > 0 {
        let m1 = m.destroy_from(ids[0], fuel).unwrap();
        lemma_destroy_from_keeps_links(m, ids[0], fuel);
        lemma_destroy_each_keeps_links(m1, ids.drop_first(), fuel);
        let r = m1.destroy_each(ids.drop_first(), fuel).unwrap();
        assert forall|y: ActorId| #![trigger r.parent_of(y)] r.live(y) implies m.live(y) && r.parent_of(y)
            == m.parent_of(y) by {
            assert(m1.live(y));
            assert(m1.parent_of(y) == m.parent_of(y));
        }
    }
}

/// Destroying an actor whose descent ends keeps parents and children in
/// agreement.
pub proof fn law_destroy_keeps_links<T>(m: TreeModel<T>, id: ActorId)
    requires
        links_agree(m),
        m.destroy_terminates(id),
    ensures
        links_agree(m.destroyed(id)),
{
    let f = choose|f: nat| m.destroy_from(id, f) is Some;
    assert(m.destroy_from(id, f) is Some);
    lemma_destroy_from_keeps_links(m, id, f);
}

/// `y` is `x` or is reached from `x` in at most `depth` steps from an
/// actor to one of its children.
pub open spec fn descends<T>(m: TreeModel<T>, x: ActorId, y: ActorId, depth: nat) -> bool
    decreases depth,
{
    y == x || (depth > 0 && exists|k: int|
        0 <= k < m.children_of(x).len() && descends(m, #[trigger] m.children_of(x)[k], y, (depth - 1) as nat))
}

/// When parents are kept and an actor died, its descendants died with it.
proof fn lemma_dead_ancestor_kills<T>(m: TreeModel<T>, r: TreeModel<T>, x: ActorId, y: ActorId, depth: nat)
    requires
        links_agree(m),
        links_agree(r),
        parents_kept(m, r),
        !r.live(x),
        descends(m, x, y, depth),
    ensures
        !r.live(y),
    decreases depth,
{
    if y != x {
        let k = choose|k: int|
            0 <= k < m.children_of(x).len() && descends(m, #[trigger] m.children_of(x)[k], y, (depth - 1) as nat);
        let c = m.children_of(x)[k];
        assert(m.live(x));
        assert(m.parent_of(c) == Some(x));
        if r.live(c) {
            assert(r.parent_of(c) == m.parent_of(c));
            assert(r.live(x));
        }
        lemma_dead_ancestor_kills(m, r, c, y, (depth - 1) as nat);
    }
}

/// In a tree whose parents and children agree, destroying an actor whose
/// descent ends destroys every descendant, however deep.
pub proof fn law_destroy_takes_descendants<T>(m: TreeModel<T>, id: ActorId, y: ActorId, depth: nat)
    requires
        links_agree(m),
        m.destroy_terminates(id),
        descends(m, id, y, depth),
    ensures
        !m.destroyed(id).live(y),
{
    let f = choose|f: nat| m.destroy_from(id, f) is Some;
    assert(m.destroy_from(id, f) is Some);
    lemma_destroy_from_keeps_links(m, id, f);
    lemma_destroy_from_no_revival(m, id, f);
    lemma_dead_ancestor_kills(m, m.destroyed(id), id, y, depth);
}


/// Every chain of children from `x` has fewer than `d` steps: `x` and each
/// actor below it lie at most `d - 1` steps down.
pub open spec fn descent_within<T>(m: TreeModel<T>, x: ActorId, d: nat) -> bool
    decreases d,
{
    d > 0 && forall|k: int|
        0 <= k < m.children_of(x).len() ==> descent_within(m, #[trigger] m.children_of(x)[k], (d - 1) as nat)
}

/// `m2` has no child link that `m` lacks.
pub open spec fn links_shrink<T>(m: TreeModel<T>, m2: TreeModel<T>) -> bool {
    forall|x: ActorId, y: ActorId| #[trigger] m2.children_of(x).contains(y) ==> m.children_of(x).contains(y)
}

proof fn lemma_with_node_shrinks<T>(m: TreeModel<T>, p: ActorId, n: NodeModel<T>)
    requires
        m.live(p),
        forall|y: ActorId| n.children.contains(y) ==> m.node(p).children.contains(y),
    ensures
        links_shrink(m, m.with_node(p, n)),
{
    let m2 = m.with_node(p, n);
    assert forall|x: ActorId, y: ActorId| #[trigger] m2.children_of(x).contains(y) implies m.children_of(x).contains(y) by {
        if x == p {
        } else if x.index == p.index {
            assert(!m2.live(x));
        } else {
            assert(m2.slots[x.index as int] == m.slots[x.index as int]);
        }
    }
}

proof fn lemma_shrink_trans<T>(a: TreeModel<T>, b: TreeModel<T>, c: TreeModel<T>)
    requires
        links_shrink(a, b),
        links_shrink(b, c),
    ensures
        links_shrink(a, c),
{
    assert forall|x: ActorId, y: ActorId| #[trigger] c.children_of(x).contains(y) implies a.children_of(x).contains(y) by {
        assert(b.children_of(x).contains(y));
    }
}

proof fn lemma_detach_shrinks<T>(m: TreeModel<T>, child: ActorId)
    ensures
        links_shrink(m, m.detach(child)),
{
    let m1 = match m.parent_of(child) {
        Some(p) => if m.live(p) {
            m.with_node(p, NodeModel { children: remove_all(m.node(p).children, child), ..m.node(p) })
        } else {
            m
        },
        None => m,
    };
    match m.parent_of(child) {
        Some(p) => {
            if m.live(p) {
                crate::seq_set::lemma_remove_all_members(m.node(p).children, child);
                let n = NodeModel { children: remove_all(m.node(p).children, child), ..m.node(p) };
                assert forall|y: ActorId| n.children.contains(y) implies m.node(p).children.contains(y) by {
                    let k = choose|k: int| 0 <= k < n.children.len() && n.children[k] == y;
                    assert(m.node(p).children.contains(n.children[k]));
                }
                lemma_with_node_shrinks(m, p, n);
            } else {
                assert(links_shrink(m, m1));
            }
        },
        None => {
            assert(links_shrink(m, m1));
        },
    }
    if m1.live(child) {
        lemma_with_node_shrinks(m1, child, NodeModel { parent: None, ..m1.node(child) });
        lemma_shrink_trans(m, m1, m.detach(child));
    }
}

proof fn lemma_release_shrinks<T>(m: TreeModel<T>, id: ActorId)
    ensures
        links_shrink(m, m.release(id)),
{
    let m1 = m.detach(id);
    lemma_detach_shrinks(m, id);
    if (id.index as int) < m1.slots.len() && m1.slots[id.index as int].generation == id.generation {
        let m2 = m.release(id);
        assert forall|x: ActorId, y: ActorId| #[trigger] m2.children_of(x).contains(y) implies m1.children_of(x).contains(y) by {
            if x.index == id.index {
                assert(!m2.live(x));
            } else {
                assert(m2.slots[x.index as int] == m1.slots[x.index as int]);
            }
        }
        lemma_shrink_trans(m, m1, m2);
    }
}

proof fn lemma_descent_within_shrinks<T>(m: TreeModel<T>, m2: TreeModel<T>, x: ActorId, d: nat)
    requires
        links_shrink(m, m2),
        descent_within(m, x, d),
    ensures
        descent_within(m2, x, d),
    decreases d,
{
    assert forall|k: int| 0 <= k < m2.children_of(x).len() implies descent_within(
        m2,
        #[trigger] m2.children_of(x)[k],
        (d - 1) as nat,
    ) by {
        let y = m2.children_of(x)[k];
        assert(m2.children_of(x).contains(y));
        let j = choose|j: int| 0 <= j < m.children_of(x).len() && m.children_of(x)[j] == y;
        lemma_descent_within_shrinks(m, m2, y, (d - 1) as nat);
    }
}

proof fn lemma_destroy_from_ends<T>(m: TreeModel<T>, x: ActorId, d: nat)
    requires
        descent_within(m, x, d),
    ensures
        m.destroy_from(x, d) is Some,
        links_shrink(m, m.destroy_from(x, d).unwrap()),
    decreases d, 0nat,
{
    let kids = m.children_of(x);
    lemma_destroy_each_ends(m, kids, (d - 1) as nat);
    let m1 = m.destroy_each(kids, (d - 1) as nat).unwrap();
    lemma_release_shrinks(m1, x);
    lemma_shrink_trans(m, m1, m1.release(x));
}

proof fn lemma_destroy_each_ends<T>(m: TreeModel<T>, ids: Seq<ActorId>, d: nat)
    requires
        forall|k: int| 0 <= k < ids.len() ==> descent_within(m, #[trigger] ids[k], d),
    ensures
        m.destroy_each(ids, d) is Some,
        links_shrink(m, m.destroy_each(ids, d).unwrap()),
    decreases d, ids.len() + 1,
{
    if ids.len() == 0 {
        assert(links_shrink(m, m));
    } else {
        assert(descent_within(m, ids[0], d));
        lemma_destroy_from_ends(m, ids[0], d);
        let m1 = m.destroy_from(ids[0], d).unwrap();
        let rest = ids.drop_first();
        assert forall|k: int| 0 <= k < rest.len() implies descent_within(m1, #[trigger] rest[k], d) by {
            assert(rest[k] == ids[k + 1]);
            assert(descent_within(m, ids[k + 1], d));
            lemma_descent_within_shrinks(m, m1, rest[k], d);
        }
        lemma_destroy_each_ends(m1, rest, d);
        lemma_shrink_trans(m, m1, m1.destroy_each(rest, d).unwrap());
    }
}

/// A descent bounded in depth ends: destroying an actor whose chains of
/// children are all shorter than some bound terminates.
pub proof fn law_bounded_descent_terminates<T>(m: TreeModel<T>, id: ActorId, d: nat)
    requires
        descent_within(m, id, d),
    ensures
        m.destroy_terminates(id),
{
    lemma_destroy_from_ends(m, id, d);
}

impl<T> ActorTree<T> {
    /// Whether every chain of children from `id` has fewer than `d` steps.
    pub fn descent_within(&self, id: ActorId, d: usize) -> (r: bool)
        ensures
            r == descent_within(self@, id, d as nat),
        decreases d,
    {
        if d == 0 {
            return false;
        }
        let kids = self.children(id);
        let mut i: usize = 0;
        while i < kids.len()
            invariant
                kids@ == self@.children_of(id),
                0 < d,
                i <= kids@.len(),
                forall|k: int| 0 <= k < i ==> descent_within(self@, #[trigger] kids@[k], (d - 1) as nat),
            decreases kids@.len() - i,
        {
            if !self.descent_within(kids[i], d - 1) {
                return false;
            }
            i += 1;
        }
        true
    }

    /// Whether destroying `id` is known to end: every chain of children from
    /// it is shorter than one more than the number of actors, which holds of
    /// every actor when no actor descends from itself.
    pub fn destroy_ends(&self, id: ActorId) -> (r: bool)
        ensures
            count_live(self@.slots) < usize::MAX ==> r == descent_within(
                self@,
                id,
                (count_live(self@.slots) + 1) as nat,
            ),
            count_live(self@.slots) == usize::MAX ==> !r,
            r ==> self@.destroy_terminates(id),
    {
        let n = self.len();
        if n == usize::MAX {
            return false;
        }
        let r = self.descent_within(id, n + 1);
        proof {
            if r {
                law_bounded_descent_terminates(self@, id, (n + 1) as nat);
            }
        }
        r
    }
}

} // verus!
