//! Handles of the GPU objects paint nodes refer to, paint flags, and the
//! operations on whole paint trees.
use vstd::prelude::*;

use crate::actor::ActorId;
use crate::backend::ScalingFilter;
use crate::paint_node::{PaintNode, PaintNodeKind, Rgba};

verus! {

/// Handle of a GPU pipeline object.
#[derive(Debug, Clone, Copy, PartialEq, Eq, Structural, Hash)]
pub struct PipelineHandle(pub u32);

/// Handle of a texture.
#[derive(Debug, Clone, Copy, PartialEq, Eq, Structural, Hash)]
pub struct TextureHandle(pub u32);

/// Handle of a framebuffer.
#[derive(Debug, Clone, Copy, PartialEq, Eq, Structural, Hash)]
pub struct FramebufferHandle(pub u32);

/// Handle of an offscreen render target.
#[derive(Debug, Clone, Copy, PartialEq, Eq, Structural, Hash)]
pub struct OffscreenHandle(pub u32);

/// Paint flags: a bit set over `NO_CURSORS`, `FORCE_CURSORS` and `CLEAR`.
#[derive(Debug, Clone, Copy, PartialEq, Eq, Structural, Hash, Default)]
pub struct PaintFlags(pub u32);

impl PaintFlags {
    /// The empty set.
    pub fn none() -> (r: Self)
        ensures
            r.0 == 0,
    {
        PaintFlags(0)
    }

    /// Cursors are not painted.
    pub fn no_cursors() -> (r: Self)
        ensures
            r.0 == 1,
    {
        PaintFlags(1)
    }

    /// Cursors are painted even where they would be skipped.
    pub fn force_cursors() -> (r: Self)
        ensures
            r.0 == 2,
    {
        PaintFlags(2)
    }

    /// The target is cleared before painting.
    pub fn clear() -> (r: Self)
        ensures
            r.0 == 4,
    {
        PaintFlags(4)
    }

    /// The set holding the bits of both operands.
    pub fn union(self, other: Self) -> (r: Self)
        ensures
            r.0 == self.0 | other.0,
    {
        PaintFlags(self.0 | other.0)
    }

    /// Whether every bit of `flag` is set in `self`.
    pub fn contains(self, flag: Self) -> (r: bool)
        ensures
            r == (self.0 & flag.0 == flag.0),
    {
        (self.0 & flag.0) == flag.0
    }
}

/// The sum of the node counts of `trees`.
pub open spec fn forest_count<K, O>(trees: Seq<PaintNode<K, O>>) -> nat
    decreases trees.len(),
{
    if trees.len() == 0 {
        0
    } else {
        forest_count(trees.drop_last()) + trees.last().spec_node_count()
    }
}

/// `root` with `children` appended to its children in order, each of which
/// records the root's name as its parent.
pub fn build_tree<K, O>(root: PaintNode<K, O>, children: Vec<PaintNode<K, O>>) -> (tree: PaintNode<K, O>)
    ensures
        tree.spec_children().len() == root.spec_children().len() + children@.len(),
        forall|i: int|
            0 <= i < root.spec_children().len() ==> #[trigger] tree.spec_children()[i] == root.spec_children()[i],
        forall|j: int|
            0 <= j < children@.len() ==> #[trigger] tree.spec_children()[root.spec_children().len() + j].same_but_parent(
                children@[j],
                root.spec_name(),
            ),
        tree.spec_node_count() == root.spec_node_count() + forest_count(children@),
        tree.spec_name() == root.spec_name(),
        tree.spec_kind() == root.spec_kind(),
        tree.spec_operations() == root.spec_operations(),
        tree.spec_parent() == root.spec_parent(),
{
    let mut tree = root;
    let mut children = children;
    let ghost all = children@;
    let ghost base = tree.spec_children().len();
    let mut j: usize = 0;
    let n = children.len();
    while j < n
        invariant
            n == all.len(),
            j <= n,
            children@ == all.subrange(j as int, n as int),
            tree.spec_children().len() == base + j,
            base == root.spec_children().len(),
            forall|i: int| 0 <= i < base ==> #[trigger] tree.spec_children()[i] == root.spec_children()[i],
            forall|k: int|
                0 <= k < j ==> #[trigger] tree.spec_children()[base + k].same_but_parent(all[k], root.spec_name()),
            tree.spec_node_count() == root.spec_node_count() + forest_count(all.take(j as int)),
            tree.spec_name() == root.spec_name(),
            tree.spec_kind() == root.spec_kind(),
            tree.spec_operations() == root.spec_operations(),
            tree.spec_parent() == root.spec_parent(),
        decreases n - j,
    {
        let child = children.remove(0);
        assert(child == all[j as int]);
        tree.add_child(child);
        assert(all.take(j as int + 1).drop_last() =~= all.take(j as int));
        j += 1;
    }
    assert(all.take(n as int) =~= all);
    tree
}

/// The number of nodes in the tree rooted at `node`.
pub fn count_nodes<K, O>(node: &PaintNode<K, O>) -> (r: usize)
    requires
        node.spec_node_count() <= usize::MAX,
    ensures
        r == node.spec_node_count(),
{
    node.count_nodes()
}

/// Calls `f` on `node`, then on each child's tree in order.
pub fn traverse_pre_order<K, O, F: FnMut(&PaintNode<K, O>)>(node: &PaintNode<K, O>, f: &mut F)
    requires
        forall|n: &PaintNode<K, O>| call_requires(*old(f), (n,)),
    ensures
        *final(f) == *old(f),
        node.spec_all_visited(*old(f)),
{
    node.traverse_pre_order(f)
}

/// A node that draws solid-colored geometry.
#[derive(Debug)]
pub struct ColorNode<B, M, O> {
    pub node: PaintNode<PaintNodeKind<B, M>, O>,
    color: Rgba,
}

impl<B: Copy, M: Copy, O> ColorNode<B, M, O> {
    /// The underlying paint node.
    pub closed spec fn spec_node(&self) -> PaintNode<PaintNodeKind<B, M>, O> {
        self.node
    }

    /// The color.
    pub closed spec fn spec_color(&self) -> Rgba {
        self.color
    }

    /// A fresh node.
    pub fn new(color: Rgba) -> (n: Self)
        ensures
            n.spec_node().spec_kind() == PaintNodeKind::<B, M>::Color(color),
            n.spec_node().spec_name() is None,
            n.spec_node().spec_operations() == Seq::<O>::empty(),
            n.spec_node().spec_parent() is None,
            n.spec_node().spec_children() == Seq::<PaintNode<PaintNodeKind<B, M>, O>>::empty(),
            n.spec_color() == color,
    {
        ColorNode { node: PaintNode::new(PaintNodeKind::Color(color)), color }
    }

    /// The color.
    pub fn color(&self) -> (r: Rgba)
        ensures
            r == self.spec_color(),
    {
        self.color
    }

    /// Sets the color, and the node's kind with it.
    pub fn set_color(&mut self, color: Rgba)
        ensures
            final(self).spec_color() == color,
            final(self).spec_node().spec_kind() == PaintNodeKind::<B, M>::Color(color),
            final(self).spec_node().spec_name() == old(self).spec_node().spec_name(),
            final(self).spec_node().spec_operations() == old(self).spec_node().spec_operations(),
            final(self).spec_node().spec_parent() == old(self).spec_node().spec_parent(),
            final(self).spec_node().spec_children() == old(self).spec_node().spec_children(),
    {
        self.color = color;
        self.node.set_kind(PaintNodeKind::Color(color));
    }

    /// The underlying paint node.
    pub fn into_node(self) -> (r: PaintNode<PaintNodeKind<B, M>, O>)
        ensures
            r == self.spec_node(),
    {
        self.node
    }
}

/// A node that draws textured geometry.
#[derive(Debug)]
pub struct TextureNode<B, M, O> {
    pub node: PaintNode<PaintNodeKind<B, M>, O>,
    texture: TextureHandle,
    tint_color: Rgba,
    min_filter: ScalingFilter,
    mag_filter: ScalingFilter,
}

impl<B: Copy, M: Copy, O> TextureNode<B, M, O> {
    /// The underlying paint node.
    pub closed spec fn spec_node(&self) -> PaintNode<PaintNodeKind<B, M>, O> {
        self.node
    }

    /// The texture.
    pub closed spec fn spec_texture(&self) -> TextureHandle {
        self.texture
    }

    /// The tint.
    pub closed spec fn spec_tint_color(&self) -> Rgba {
        self.tint_color
    }

    /// The minification filter.
    pub closed spec fn spec_min_filter(&self) -> ScalingFilter {
        self.min_filter
    }

    /// The magnification filter.
    pub closed spec fn spec_mag_filter(&self) -> ScalingFilter {
        self.mag_filter
    }

    /// A fresh node.
    pub fn new(texture: TextureHandle, tint_color: Rgba, min_filter: ScalingFilter, mag_filter: ScalingFilter) -> (n: Self)
        ensures
            n.spec_node().spec_kind() == PaintNodeKind::<B, M>::Texture,
            n.spec_node().spec_name() is None,
            n.spec_node().spec_operations() == Seq::<O>::empty(),
            n.spec_node().spec_parent() is None,
            n.spec_node().spec_children() == Seq::<PaintNode<PaintNodeKind<B, M>, O>>::empty(),
            n.spec_texture() == texture,
            n.spec_tint_color() == tint_color,
            n.spec_min_filter() == min_filter,
            n.spec_mag_filter() == mag_filter,
    {
        TextureNode { node: PaintNode::new(PaintNodeKind::Texture), texture, tint_color, min_filter, mag_filter }
    }

    /// The texture.
    pub fn texture(&self) -> (r: TextureHandle)
        ensures
            r == self.spec_texture(),
    {
        self.texture
    }

    /// The tint.
    pub fn tint_color(&self) -> (r: Rgba)
        ensures
            r == self.spec_tint_color(),
    {
        self.tint_color
    }

    /// The minification filter.
    pub fn min_filter(&self) -> (r: ScalingFilter)
        ensures
            r == self.spec_min_filter(),
    {
        self.min_filter
    }

    /// The magnification filter.
    pub fn mag_filter(&self) -> (r: ScalingFilter)
        ensures
            r == self.spec_mag_filter(),
    {
        self.mag_filter
    }

    /// The underlying paint node.
    pub fn into_node(self) -> (r: PaintNode<PaintNodeKind<B, M>, O>)
        ensures
            r == self.spec_node(),
    {
        self.node
    }
}

/// A node that draws geometry with a pipeline.
#[derive(Debug)]
pub struct PipelineNode<B, M, O> {
    pub node: PaintNode<PaintNodeKind<B, M>, O>,
    pipeline: PipelineHandle,
}

impl<B: Copy, M: Copy, O> PipelineNode<B, M, O> {
    /// The underlying paint node.
    pub closed spec fn spec_node(&self) -> PaintNode<PaintNodeKind<B, M>, O> {
        self.node
    }

    /// The pipeline.
    pub closed spec fn spec_pipeline(&self) -> PipelineHandle {
        self.pipeline
    }

    /// A fresh node.
    pub fn new(pipeline: PipelineHandle) -> (n: Self)
        ensures
            n.spec_node().spec_kind() == PaintNodeKind::<B, M>::Texture,
            n.spec_node().spec_name() is None,
            n.spec_node().spec_operations() == Seq::<O>::empty(),
            n.spec_node().spec_parent() is None,
            n.spec_node().spec_children() == Seq::<PaintNode<PaintNodeKind<B, M>, O>>::empty(),
            n.spec_pipeline() == pipeline,
    {
        PipelineNode { node: PaintNode::new(PaintNodeKind::Texture), pipeline }
    }

    /// The pipeline.
    pub fn pipeline(&self) -> (r: PipelineHandle)
        ensures
            r == self.spec_pipeline(),
    {
        self.pipeline
    }

    /// Sets the pipeline.
    pub fn set_pipeline(&mut self, pipeline: PipelineHandle)
        ensures
            final(self).spec_pipeline() == pipeline,
            final(self).spec_node() == old(self).spec_node(),
    {
        self.pipeline = pipeline;
    }

    /// The underlying paint node.
    pub fn into_node(self) -> (r: PaintNode<PaintNodeKind<B, M>, O>)
        ensures
            r == self.spec_node(),
    {
        self.node
    }
}

/// A node that clips its children to a box.
#[derive(Debug)]
pub struct ClipNode<B, M, O> {
    pub node: PaintNode<PaintNodeKind<B, M>, O>,
    clip: B,
}

impl<B: Copy, M: Copy, O> ClipNode<B, M, O> {
    /// The underlying paint node.
    pub closed spec fn spec_node(&self) -> PaintNode<PaintNodeKind<B, M>, O> {
        self.node
    }

    /// The clip box.
    pub closed spec fn spec_clip(&self) -> B {
        self.clip
    }

    /// A fresh node.
    pub fn new(clip: B) -> (n: Self)
        ensures
            n.spec_node().spec_kind() == PaintNodeKind::<B, M>::Clip(clip),
            n.spec_node().spec_name() is None,
            n.spec_node().spec_operations() == Seq::<O>::empty(),
            n.spec_node().spec_parent() is None,
            n.spec_node().spec_children() == Seq::<PaintNode<PaintNodeKind<B, M>, O>>::empty(),
            n.spec_clip() == clip,
    {
        ClipNode { node: PaintNode::new(PaintNodeKind::Clip(clip)), clip }
    }

    /// The clip box.
    pub fn clip(&self) -> (r: B)
        ensures
            r == self.spec_clip(),
    {
        self.clip
    }

    /// Sets the clip box, and the node's kind with it.
    pub fn set_clip(&mut self, clip: B)
        ensures
            final(self).spec_clip() == clip,
            final(self).spec_node().spec_kind() == PaintNodeKind::<B, M>::Clip(clip),
            final(self).spec_node().spec_name() == old(self).spec_node().spec_name(),
            final(self).spec_node().spec_operations() == old(self).spec_node().spec_operations(),
            final(self).spec_node().spec_parent() == old(self).spec_node().spec_parent(),
            final(self).spec_node().spec_children() == old(self).spec_node().spec_children(),
    {
        self.clip = clip;
        self.node.set_kind(PaintNodeKind::Clip(clip));
    }

    /// The underlying paint node.
    pub fn into_node(self) -> (r: PaintNode<PaintNodeKind<B, M>, O>)
        ensures
            r == self.spec_node(),
    {
        self.node
    }
}

/// A node that transforms its children.
#[derive(Debug)]
pub struct TransformNode<B, M, O> {
    pub node: PaintNode<PaintNodeKind<B, M>, O>,
    matrix: M,
}

impl<B: Copy, M: Copy, O> TransformNode<B, M, O> {
    /// The underlying paint node.
    pub closed spec fn spec_node(&self) -> PaintNode<PaintNodeKind<B, M>, O> {
        self.node
    }

    /// The matrix.
    pub closed spec fn spec_matrix(&self) -> M {
        self.matrix
    }

    /// A fresh node.
    pub fn new(matrix: M) -> (n: Self)
        ensures
            n.spec_node().spec_kind() == PaintNodeKind::<B, M>::Transform(matrix),
            n.spec_node().spec_name() is None,
            n.spec_node().spec_operations() == Seq::<O>::empty(),
            n.spec_node().spec_parent() is None,
            n.spec_node().spec_children() == Seq::<PaintNode<PaintNodeKind<B, M>, O>>::empty(),
            n.spec_matrix() == matrix,
    {
        TransformNode { node: PaintNode::new(PaintNodeKind::Transform(matrix)), matrix }
    }

    /// The matrix.
    pub fn matrix(&self) -> (r: M)
        ensures
            r == self.spec_matrix(),
    {
        self.matrix
    }

    /// Sets the matrix, and the node's kind with it.
    pub fn set_matrix(&mut self, matrix: M)
        ensures
            final(self).spec_matrix() == matrix,
            final(self).spec_node().spec_kind() == PaintNodeKind::<B, M>::Transform(matrix),
            final(self).spec_node().spec_name() == old(self).spec_node().spec_name(),
            final(self).spec_node().spec_operations() == old(self).spec_node().spec_operations(),
            final(self).spec_node().spec_parent() == old(self).spec_node().spec_parent(),
            final(self).spec_node().spec_children() == old(self).spec_node().spec_children(),
    {
        self.matrix = matrix;
        self.node.set_kind(PaintNodeKind::Transform(matrix));
    }

    /// The underlying paint node.
    pub fn into_node(self) -> (r: PaintNode<PaintNodeKind<B, M>, O>)
        ensures
            r == self.spec_node(),
    {
        self.node
    }
}

/// The root of a paint pass: the framebuffer, its clip region and paint flags.
#[derive(Debug)]
pub struct RootNode<B, M, O> {
    pub node: PaintNode<PaintNodeKind<B, M>, O>,
    framebuffer: FramebufferHandle,
    clip_region: Option<u32>,
    paint_flags: PaintFlags,
}

impl<B: Copy, M: Copy, O> RootNode<B, M, O> {
    /// The underlying paint node.
    pub closed spec fn spec_node(&self) -> PaintNode<PaintNodeKind<B, M>, O> {
        self.node
    }

    /// The framebuffer.
    pub closed spec fn spec_framebuffer(&self) -> FramebufferHandle {
        self.framebuffer
    }

    /// The clip region, if any.
    pub closed spec fn spec_clip_region(&self) -> Option<u32> {
        self.clip_region
    }

    /// The paint flags.
    pub closed spec fn spec_paint_flags(&self) -> PaintFlags {
        self.paint_flags
    }

    /// A fresh node.
    pub fn new(framebuffer: FramebufferHandle, clip_region: Option<u32>, paint_flags: PaintFlags) -> (n: Self)
        ensures
            n.spec_node().spec_kind() == PaintNodeKind::<B, M>::Root,
            n.spec_node().spec_name() is None,
            n.spec_node().spec_operations() == Seq::<O>::empty(),
            n.spec_node().spec_parent() is None,
            n.spec_node().spec_children() == Seq::<PaintNode<PaintNodeKind<B, M>, O>>::empty(),
            n.spec_framebuffer() == framebuffer,
            n.spec_clip_region() == clip_region,
            n.spec_paint_flags() == paint_flags,
    {
        RootNode { node: PaintNode::new(PaintNodeKind::Root), framebuffer, clip_region, paint_flags }
    }

    /// The framebuffer.
    pub fn framebuffer(&self) -> (r: FramebufferHandle)
        ensures
            r == self.spec_framebuffer(),
    {
        self.framebuffer
    }

    /// The clip region, if any.
    pub fn clip_region(&self) -> (r: Option<u32>)
        ensures
            r == self.spec_clip_region(),
    {
        self.clip_region
    }

    /// The paint flags.
    pub fn paint_flags(&self) -> (r: PaintFlags)
        ensures
            r == self.spec_paint_flags(),
    {
        self.paint_flags
    }

    /// The underlying paint node.
    pub fn into_node(self) -> (r: PaintNode<PaintNodeKind<B, M>, O>)
        ensures
            r == self.spec_node(),
    {
        self.node
    }
}

/// A node that paints its children into an offscreen buffer.
#[derive(Debug)]
pub struct LayerNode<B, M, O> {
    pub node: PaintNode<PaintNodeKind<B, M>, O>,
    offscreen: OffscreenHandle,
    pipeline: PipelineHandle,
}

impl<B: Copy, M: Copy, O> LayerNode<B, M, O> {
    /// The underlying paint node.
    pub closed spec fn spec_node(&self) -> PaintNode<PaintNodeKind<B, M>, O> {
        self.node
    }

    /// The offscreen buffer.
    pub closed spec fn spec_offscreen(&self) -> OffscreenHandle {
        self.offscreen
    }

    /// The pipeline it is painted with.
    pub closed spec fn spec_pipeline(&self) -> PipelineHandle {
        self.pipeline
    }

    /// A fresh node.
    pub fn new(offscreen: OffscreenHandle, pipeline: PipelineHandle) -> (n: Self)
        ensures
            n.spec_node().spec_kind() == PaintNodeKind::<B, M>::Layer,
            n.spec_node().spec_name() is None,
            n.spec_node().spec_operations() == Seq::<O>::empty(),
            n.spec_node().spec_parent() is None,
            n.spec_node().spec_children() == Seq::<PaintNode<PaintNodeKind<B, M>, O>>::empty(),
            n.spec_offscreen() == offscreen,
            n.spec_pipeline() == pipeline,
    {
        LayerNode { node: PaintNode::new(PaintNodeKind::Layer), offscreen, pipeline }
    }

    /// The offscreen buffer.
    pub fn offscreen(&self) -> (r: OffscreenHandle)
        ensures
            r == self.spec_offscreen(),
    {
        self.offscreen
    }

    /// The pipeline it is painted with.
    pub fn pipeline(&self) -> (r: PipelineHandle)
        ensures
            r == self.spec_pipeline(),
    {
        self.pipeline
    }

    /// The underlying paint node.
    pub fn into_node(self) -> (r: PaintNode<PaintNodeKind<B, M>, O>)
        ensures
            r == self.spec_node(),
    {
        self.node
    }
}

/// A node that paints one actor at an opacity.
#[derive(Debug)]
pub struct ActorNode<B, M, O> {
    pub node: PaintNode<PaintNodeKind<B, M>, O>,
    actor: ActorId,
    opacity: u8,
}

impl<B: Copy, M: Copy, O> ActorNode<B, M, O> {
    /// The underlying paint node.
    pub closed spec fn spec_node(&self) -> PaintNode<PaintNodeKind<B, M>, O> {
        self.node
    }

    /// The actor.
    pub closed spec fn spec_actor(&self) -> ActorId {
        self.actor
    }

    /// The opacity.
    pub closed spec fn spec_opacity(&self) -> u8 {
        self.opacity
    }

    /// A fresh node.
    pub fn new(actor: ActorId, opacity: u8) -> (n: Self)
        ensures
            n.spec_node().spec_kind() == PaintNodeKind::<B, M>::Root,
            n.spec_node().spec_name() is None,
            n.spec_node().spec_operations() == Seq::<O>::empty(),
            n.spec_node().spec_parent() is None,
            n.spec_node().spec_children() == Seq::<PaintNode<PaintNodeKind<B, M>, O>>::empty(),
            n.spec_actor() == actor,
            n.spec_opacity() == opacity,
    {
        ActorNode { node: PaintNode::new(PaintNodeKind::Root), actor, opacity }
    }

    /// The actor.
    pub fn actor(&self) -> (r: ActorId)
        ensures
            r == self.spec_actor(),
    {
        self.actor
    }

    /// The opacity.
    pub fn opacity(&self) -> (r: u8)
        ensures
            r == self.spec_opacity(),
    {
        self.opacity
    }

    /// Sets the opacity.
    pub fn set_opacity(&mut self, opacity: u8)
        ensures
            final(self).spec_opacity() == opacity,
            final(self).spec_actor() == old(self).spec_actor(),
            final(self).spec_node() == old(self).spec_node(),
    {
        self.opacity = opacity;
    }

    /// The underlying paint node.
    pub fn into_node(self) -> (r: PaintNode<PaintNodeKind<B, M>, O>)
        ensures
            r == self.spec_node(),
    {
        self.node
    }
}

} // verus!
