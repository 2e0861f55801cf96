//! Paint nodes: the retained render tree. A node has a kind, a list of
//! drawing operations and ordered children, and remembers the name of its
//! parent.
use vstd::prelude::*;

verus! {

/// An 8-bit-per-channel RGBA color.
#[derive(Debug, Clone, Copy, PartialEq, Eq, Structural, Hash)]
pub struct Rgba {
    pub r: u8,
    pub g: u8,
    pub b: u8,
    pub a: u8,
}

impl Rgba {
    /// Builds a color from its four channels.
    pub fn new(r: u8, g: u8, b: u8, a: u8) -> (c: Self)
        ensures
            c == (Rgba { r, g, b, a }),
    {
        Rgba { r, g, b, a }
    }
}

/// What a paint node draws. The boxes of clip nodes (`B`) and the matrices
/// of transform nodes (`M`) are continuous and held as payloads.
#[derive(Debug, Clone, Copy, PartialEq)]
pub enum PaintNodeKind<B, M> {
    Root,
    Color(Rgba),
    Texture,
    Clip(B),
    Transform(M),
    Layer,
    Effect,
}

/// The name of a node as a sequence of characters, if it has one.
pub open spec fn name_view(name: Option<String>) -> Option<Seq<char>> {
    match name {
        Some(s) => Some(s@),
        None => None,
    }
}

/// A paint node of kind type `K` with operations of type `O`.
#[derive(Debug)]
pub struct PaintNode<K, O> {
    name: Option<String>,
    kind: K,
    operations: Vec<O>,
    parent: Option<String>,
    children: Vec<Box<PaintNode<K, O>>>,
}

impl<K, O> PaintNode<K, O> {
    /// The name, if any.
    pub closed spec fn spec_name(&self) -> Option<Seq<char>> {
        name_view(self.name)
    }

    /// The kind.
    pub closed spec fn spec_kind(&self) -> K {
        self.kind
    }

    /// The drawing operations, in order.
    pub closed spec fn spec_operations(&self) -> Seq<O> {
        self.operations@
    }

    /// The name of the parent, if recorded.
    pub closed spec fn spec_parent(&self) -> Option<Seq<char>> {
        name_view(self.parent)
    }

    /// The children, in order.
    pub closed spec fn spec_children(&self) -> Seq<PaintNode<K, O>> {
        self.children@.map_values(|b: Box<PaintNode<K, O>>| *b)
    }

    /// `self` is `other` with its recorded parent replaced by `parent`.
    pub open spec fn same_but_parent(self, other: PaintNode<K, O>, parent: Option<Seq<char>>) -> bool {
        &&& self.spec_name() == other.spec_name()
        &&& self.spec_kind() == other.spec_kind()
        &&& self.spec_operations() == other.spec_operations()
        &&& self.spec_children() == other.spec_children()
        &&& self.spec_parent() == parent
    }

    /// A node of `kind` without name, operations, parent or children.
    pub fn new(kind: K) -> (n: Self)
        ensures
            n.spec_name() is None,
            n.spec_kind() == kind,
            n.spec_operations() == Seq::<O>::empty(),
            n.spec_parent() is None,
            n.spec_children() == Seq::<PaintNode<K, O>>::empty(),
            n.spec_node_count() == 1,
    {
        let n = PaintNode { name: None, kind, operations: Vec::new(), parent: None, children: Vec::new() };
        assert(n.spec_children() =~= Seq::<PaintNode<K, O>>::empty());
        n
    }

    /// Names the node.
    pub fn set_name(&mut self, name: &str)
        ensures
            final(self).spec_name() == Some(name@),
            final(self).spec_kind() == old(self).spec_kind(),
            final(self).spec_operations() == old(self).spec_operations(),
            final(self).spec_parent() == old(self).spec_parent(),
            final(self).spec_children() == old(self).spec_children(),
    {
        self.name = Some(String::from_str(name));
    }

    /// The name, if any.
    pub fn name(&self) -> (r: Option<&str>)
        ensures
            match r {
                Some(s) => self.spec_name() == Some(s@),
                None => self.spec_name() is None,
            },
    {
        match &self.name {
            Some(s) => Some(s.as_str()),
            None => None,
        }
    }

    /// The kind.
    pub fn kind(&self) -> (r: &K)
        ensures
            *r == self.spec_kind(),
    {
        &self.kind
    }

    /// Sets the kind.
    pub fn set_kind(&mut self, kind: K)
        ensures
            final(self).spec_kind() == kind,
            final(self).spec_name() == old(self).spec_name(),
            final(self).spec_operations() == old(self).spec_operations(),
            final(self).spec_parent() == old(self).spec_parent(),
            final(self).spec_children() == old(self).spec_children(),
            final(self).spec_node_count() == old(self).spec_node_count(),
    {
        self.kind = kind;
        proof {
            self.lemma_prefix_count_agree(old(self), self.children@.len() as int);
        }
    }

    /// The number of children.
    pub fn n_children(&self) -> (r: usize)
        ensures
            r == self.spec_children().len(),
    {
        self.children.len()
    }

    fn copy_name(name: &Option<String>) -> (r: Option<String>)
        ensures
            name_view(r) == name_view(*name),
    {
        match name {
            Some(s) => Some(s.clone()),
            None => None,
        }
    }

    /// Appends `child`, which records this node's name as its parent.
    pub fn add_child(&mut self, child: PaintNode<K, O>)
        ensures
            final(self).spec_children().len() == old(self).spec_children().len() + 1,
            forall|i: int|
                0 <= i < old(self).spec_children().len() ==> #[trigger] final(self).spec_children()[i]
                    == old(self).spec_children()[i],
            final(self).spec_children().last().same_but_parent(child, old(self).spec_name()),
            final(self).spec_node_count() == old(self).spec_node_count() + child.spec_node_count(),
            final(self).spec_name() == old(self).spec_name(),
            final(self).spec_kind() == old(self).spec_kind(),
            final(self).spec_operations() == old(self).spec_operations(),
            final(self).spec_parent() == old(self).spec_parent(),
    {
        let mut child = child;
        let ghost before = child;
        child.parent = Self::copy_name(&self.name);
        assert(child.spec_children() == before.spec_children());
        self.children.push(Box::new(child));
        assert(self.spec_children().last() == child);
        proof {
            let len = old(self).children@.len() as int;
            self.lemma_prefix_count_agree(old(self), len);
            child.lemma_prefix_count_agree(&before, child.children@.len() as int);
            assert(self.spec_prefix_count(len + 1) == self.spec_prefix_count(len)
                + self.children@[len].spec_node_count());
        }
    }

    /// Records the name of `parent` as this node's parent.
    pub fn set_parent(&mut self, parent: &PaintNode<K, O>)
        ensures
            final(self).same_but_parent(*old(self), parent.spec_name()),
    {
        self.parent = Self::copy_name(&parent.name);
    }

    /// Forgets the parent.
    pub fn clear_parent(&mut self)
        ensures
            final(self).same_but_parent(*old(self), None),
    {
        self.parent = None;
    }

    /// The name of the parent, if recorded.
    pub fn get_parent(&self) -> (r: Option<&str>)
        ensures
            match r {
                Some(s) => self.spec_parent() == Some(s@),
                None => self.spec_parent() is None,
            },
    {
        match &self.parent {
            Some(s) => Some(s.as_str()),
            None => None,
        }
    }

    /// Takes out the child at `index`, which forgets its parent; `None`
    /// when there is no such child.
    pub fn remove_child(&mut self, index: usize) -> (r: Option<PaintNode<K, O>>)
        ensures
            index >= old(self).spec_children().len() ==> r is None && final(self).spec_children()
                == old(self).spec_children(),
            index < old(self).spec_children().len() ==> (r matches Some(c) && c.same_but_parent(
                old(self).spec_children()[index as int],
                None,
            ) && final(self).spec_children() == old(self).spec_children().remove(index as int)
                && final(self).spec_node_count() + c.spec_node_count() == old(self).spec_node_count()),
            final(self).spec_name() == old(self).spec_name(),
            final(self).spec_kind() == old(self).spec_kind(),
            final(self).spec_operations() == old(self).spec_operations(),
            final(self).spec_parent() == old(self).spec_parent(),
    {
        if index >= self.children.len() {
            return None;
        }
        let ghost before = self.children@;
        let boxed = self.children.remove(index);
        assert(self.spec_children() =~= old(self).spec_children().remove(index as int));
        let mut removed = *boxed;
        let ghost taken = removed;
        removed.parent = None;
        proof {
            let len = old(self).children@.len() as int;
            old(self).lemma_prefix_count_remove(self, index as int, len - 1);
            removed.lemma_prefix_count_agree(&taken, removed.children@.len() as int);
        }
        Some(removed)
    }

    /// Removes every child.
    pub fn remove_all_children(&mut self)
        ensures
            final(self).spec_children() == Seq::<PaintNode<K, O>>::empty(),
            final(self).spec_node_count() == 1,
            final(self).spec_name() == old(self).spec_name(),
            final(self).spec_kind() == old(self).spec_kind(),
            final(self).spec_operations() == old(self).spec_operations(),
            final(self).spec_parent() == old(self).spec_parent(),
    {
        self.children.clear();
        assert(self.spec_children() =~= Seq::<PaintNode<K, O>>::empty());
    }

    /// The child at `index`, if there is one.
    pub fn child(&self, index: usize) -> (r: Option<&PaintNode<K, O>>)
        ensures
            r == if index < self.spec_children().len() {
                Some(&self.spec_children()[index as int])
            } else {
                None
            },
    {
        if index < self.children.len() {
            Some(&*self.children[index])
        } else {
            None
        }
    }

    /// The child at `index` for writing, if there is one; what is written
    /// there becomes that child.
    pub fn child_mut(&mut self, index: usize) -> (r: Option<&mut PaintNode<K, O>>)
        ensures
            match r {
                Some(c) => index < old(self).spec_children().len() && *c == old(self).spec_children()[index as int]
                    && final(self).spec_children() == old(self).spec_children().update(index as int, *final(c)),
                None => index >= old(self).spec_children().len() && final(self).spec_children()
                    == old(self).spec_children(),
            },
            final(self).spec_name() == old(self).spec_name(),
            final(self).spec_kind() == old(self).spec_kind(),
            final(self).spec_operations() == old(self).spec_operations(),
            final(self).spec_parent() == old(self).spec_parent(),
    {
        if index < self.children.len() {
            Some(&mut *self.children[index])
        } else {
            None
        }
    }

    /// Appends a drawing operation.
    pub fn add_operation(&mut self, op: O)
        ensures
            final(self).spec_operations() == old(self).spec_operations().push(op),
            final(self).spec_name() == old(self).spec_name(),
            final(self).spec_kind() == old(self).spec_kind(),
            final(self).spec_parent() == old(self).spec_parent(),
            final(self).spec_children() == old(self).spec_children(),
    {
        self.operations.push(op);
    }

    /// The drawing operations, in order.
    pub fn get_operations(&self) -> (r: &[O])
        ensures
            r@ == self.spec_operations(),
    {
        self.operations.as_slice()
    }

    /// Removes every drawing operation.
    pub fn clear_operations(&mut self)
        ensures
            final(self).spec_operations() == Seq::<O>::empty(),
            final(self).spec_name() == old(self).spec_name(),
            final(self).spec_kind() == old(self).spec_kind(),
            final(self).spec_parent() == old(self).spec_parent(),
            final(self).spec_children() == old(self).spec_children(),
    {
        self.operations.clear();
    }

    /// The framebuffer the node draws to: none.
    pub fn get_framebuffer(&self) -> (r: Option<()>)
        ensures
            r is None,
    {
        None
    }
}

/// The context a paint pass draws in.
#[derive(Debug, Default, Clone, Copy, PartialEq, Eq)]
pub struct PaintContext;

impl<K, O> PaintNode<K, O> {
    fn pre_draw(&self, _ctx: &PaintContext) -> (r: bool)
        ensures
            r,
    {
        true
    }

    fn draw(&self, _ctx: &PaintContext) {
    }

    fn post_draw(&self, _ctx: &PaintContext) {
    }

    /// Paints the node, then its children in order, each with its own
    /// descendants, then finishes the node.
    pub fn paint(&self, ctx: &PaintContext)
        decreases self,
    {
        let should_draw = self.pre_draw(ctx);
        if should_draw {
            self.draw(ctx);
        }
        let mut i: usize = 0;
        while i < self.children.len()
            invariant
                i <= self.children@.len(),
            decreases self.children@.len() - i,
        {
            assert(decreases_to!(self => self.children));
            assert(decreases_to!(self.children => self.children@));
            assert(decreases_to!(self.children@ => self.children@[i as int]));
            self.children[i].paint(ctx);
            i += 1;
        }
        if should_draw {
            self.post_draw(ctx);
        }
    }
}

impl<K, O> PaintNode<K, O> {
    /// The number of nodes in the tree rooted at this node.
    pub closed spec fn spec_node_count(&self) -> nat
        decreases self, self.spec_children().len() + 1,
    {
        1 + self.spec_prefix_count(self.children@.len() as int)
    }

    /// The number of nodes in the trees of the first `i` children.
    pub closed spec fn spec_prefix_count(&self, i: int) -> nat
        decreases self, i,
    {
        if i <= 0 || i > self.children@.len() {
            0
        } else {
            proof {
                assert(decreases_to!(self => self.children));
                assert(decreases_to!(self.children => self.children@));
                assert(decreases_to!(self.children@ => self.children@[i - 1]));
            }
            self.spec_prefix_count(i - 1) + self.children@[i - 1].spec_node_count()
        }
    }

    proof fn lemma_prefix_count_agree(&self, other: &Self, i: int)
        requires
            0 <= i <= self.children@.len(),
            i <= other.children@.len(),
            forall|k: int| 0 <= k < i ==> self.children@[k] == other.children@[k],
        ensures
            self.spec_prefix_count(i) == other.spec_prefix_count(i),
        decreases i,
    {
        if i > 0 {
            self.lemma_prefix_count_agree(other, i - 1);
        }
    }

    proof fn lemma_prefix_count_remove(&self, removed: &Self, index: int, i: int)
        requires
            0 <= index < self.children@.len(),
            removed.children@ == self.children@.remove(index),
            index <= i <= removed.children@.len(),
        ensures
            self.spec_prefix_count(i + 1) == removed.spec_prefix_count(i) + self.children@[index].spec_node_count(),
        decreases i,
    {
        if i == index {
            self.lemma_prefix_count_agree(removed, index);
        } else {
            self.lemma_prefix_count_remove(removed, index, i - 1);
        }
    }

    proof fn lemma_prefix_count_grows(&self, i: int, j: int)
        requires
            0 <= i <= j <= self.children@.len(),
        ensures
            self.spec_prefix_count(i) <= self.spec_prefix_count(j),
            i < j ==> self.spec_prefix_count(i) + self.children@[i].spec_node_count() <= self.spec_prefix_count(j),
        decreases j - i,
    {
        if i < j {
            self.lemma_prefix_count_grows(i, j - 1);
        }
    }

    /// The number of nodes in the tree rooted at this node.
    pub fn count_nodes(&self) -> (r: usize)
        requires
            self.spec_node_count() <= usize::MAX,
        ensures
            r == self.spec_node_count(),
        decreases self,
    {
        let n = self.children.len();
        let mut count: usize = 1;
        let mut i: usize = 0;
        while i < n
            invariant
                n == self.children@.len(),
                i <= n,
                count == 1 + self.spec_prefix_count(i as int),
                1 + self.spec_prefix_count(n as int) <= usize::MAX,
            decreases n - i,
        {
            proof {
                self.lemma_prefix_count_grows(i as int, n as int);
            }
            assert(decreases_to!(self => self.children));
            assert(decreases_to!(self.children => self.children@));
            assert(decreases_to!(self.children@ => self.children@[i as int]));
            let c = self.children[i].count_nodes();
            count = count + c;
            i += 1;
        }
        count
    }
}

impl<K, O> PaintNode<K, O> {
    /// `f` has been called on every node of the tree rooted at this node.
    pub closed spec fn spec_all_visited<F: FnMut(&PaintNode<K, O>)>(&self, f: F) -> bool
        decreases self, self.spec_children().len() + 1,
    {
        call_ensures(f, (self,), ()) && self.spec_children_visited(f, self.children@.len() as int)
    }

    /// `f` has been called on every node of the trees of the first `i`
    /// children.
    pub closed spec fn spec_children_visited<F: FnMut(&PaintNode<K, O>)>(&self, f: F, i: int) -> bool
        decreases self, i,
    {
        if i <= 0 || i > self.children@.len() {
            true
        } else {
            proof {
                assert(decreases_to!(self => self.children));
                assert(decreases_to!(self.children => self.children@));
                assert(decreases_to!(self.children@ => self.children@[i - 1]));
            }
            self.spec_children_visited(f, i - 1) && self.children@[i - 1].spec_all_visited(f)
        }
    }

    /// Calls `f` on this node, then on each child's tree in order: every
    /// node of the tree once, each before its descendants.
    pub fn traverse_pre_order<F: FnMut(&PaintNode<K, O>)>(&self, f: &mut F)
        requires
            forall|n: &PaintNode<K, O>| call_requires(*old(f), (n,)),
        ensures
            *final(f) == *old(f),
            self.spec_all_visited(*old(f)),
        decreases self,
    {
        broadcast use vstd::function::group_function_axioms;

        f(self);
        let mut i: usize = 0;
        while i < self.children.len()
            invariant
                i <= self.children@.len(),
                forall|n: &PaintNode<K, O>| call_requires(*f, (n,)),
                *f == *old(f),
                call_ensures(*f, (self,), ()),
                self.spec_children_visited(*f, i as int),
            decreases self.children@.len() - i,
        {
            assert(decreases_to!(self => self.children));
            assert(decreases_to!(self.children => self.children@));
            assert(decreases_to!(self.children@ => self.children@[i as int]));
            self.children[i].traverse_pre_order(f);
            i += 1;
        }
    }
}

/// Two nodes with the same children hold the same number of nodes: the
/// count depends on the shape of the tree alone, not on names, kinds,
/// operations or recorded parents.
pub proof fn law_same_children_same_count<K, O>(a: PaintNode<K, O>, b: PaintNode<K, O>)
    requires
        a.spec_children() == b.spec_children(),
    ensures
        a.spec_node_count() == b.spec_node_count(),
{
    assert(a.spec_children().len() == a.children@.len());
    assert(b.spec_children().len() == b.children@.len());
    assert forall|k: int| 0 <= k < a.children@.len() implies a.children@[k] == b.children@[k] by {
        assert(a.spec_children()[k] == *a.children@[k]);
        assert(b.spec_children()[k] == *b.children@[k]);
    }
    a.lemma_prefix_count_agree(&b, a.children@.len() as int);
}

/// Adding a child and removing it again at its index gives back the
/// children, and the removed node is the one added, without parent.
pub proof fn law_add_then_remove_child<K, O>(children: Seq<PaintNode<K, O>>, added: PaintNode<K, O>)
    ensures
        children.push(added).remove(children.len() as int) == children,
        children.push(added)[children.len() as int] == added,
{
    assert(children.push(added).remove(children.len() as int) =~= children);
}

} // verus!
