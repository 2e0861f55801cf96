use mutter::actor::ActorId;
use mutter::backend::ScalingFilter;
use mutter::paint_node::{PaintNode, PaintNodeKind, Rgba};
use mutter::paint_nodes::{
    build_tree, count_nodes, traverse_pre_order, ActorNode, ClipNode, ColorNode, FramebufferHandle,
    LayerNode, OffscreenHandle, PaintFlags, PipelineHandle, PipelineNode, RootNode, TextureHandle,
    TextureNode, TransformNode,
};

type Box2 = [f32; 4];
type Matrix = [[f32; 4]; 4];
type Kind = PaintNodeKind<Box2, Matrix>;
type Node = PaintNode<Kind, u32>;

fn red() -> Rgba {
    Rgba::new(255, 0, 0, 255)
}

fn blue() -> Rgba {
    Rgba::new(0, 0, 255, 255)
}

const IDENTITY: Matrix = [[1.0, 0.0, 0.0, 0.0], [0.0, 1.0, 0.0, 0.0], [0.0, 0.0, 1.0, 0.0], [0.0, 0.0, 0.0, 1.0]];

#[test]
fn color_node_creation() {
    let node: ColorNode<Box2, Matrix, u32> = ColorNode::new(red());
    assert_eq!(node.color(), red());
    assert!(matches!(node.node.kind(), PaintNodeKind::Color(_)));
}

#[test]
fn color_node_set_color() {
    let mut node: ColorNode<Box2, Matrix, u32> = ColorNode::new(red());
    node.set_color(blue());
    assert_eq!(node.color(), blue());
    assert_eq!(*node.node.kind(), PaintNodeKind::Color(blue()));
}

#[test]
fn texture_node_creation() {
    let node: TextureNode<Box2, Matrix, u32> =
        TextureNode::new(TextureHandle(1), red(), ScalingFilter::Linear, ScalingFilter::Nearest);
    assert_eq!(node.texture(), TextureHandle(1));
    assert_eq!(node.min_filter(), ScalingFilter::Linear);
    assert_eq!(node.mag_filter(), ScalingFilter::Nearest);
    assert_eq!(node.tint_color(), red());
}

#[test]
fn pipeline_node_creation() {
    let mut node: PipelineNode<Box2, Matrix, u32> = PipelineNode::new(PipelineHandle(5));
    assert_eq!(node.pipeline(), PipelineHandle(5));
    node.set_pipeline(PipelineHandle(6));
    assert_eq!(node.pipeline(), PipelineHandle(6));
}

#[test]
fn clip_node_creation() {
    let clip: Box2 = [0.0, 0.0, 10.0, 10.0];
    let mut node: ClipNode<Box2, Matrix, u32> = ClipNode::new(clip);
    assert_eq!(node.clip(), clip);
    let other: Box2 = [1.0, 1.0, 2.0, 2.0];
    node.set_clip(other);
    assert_eq!(*node.node.kind(), PaintNodeKind::Clip(other));
}

#[test]
fn transform_node_creation() {
    let node: TransformNode<Box2, Matrix, u32> = TransformNode::new(IDENTITY);
    assert_eq!(node.matrix(), IDENTITY);
}

#[test]
fn root_node_creation() {
    let node: RootNode<Box2, Matrix, u32> = RootNode::new(FramebufferHandle(1), Some(42), PaintFlags::no_cursors());
    assert_eq!(node.framebuffer(), FramebufferHandle(1));
    assert_eq!(node.clip_region(), Some(42));
    assert!(node.paint_flags().contains(PaintFlags::no_cursors()));
}

#[test]
fn layer_node_creation() {
    let node: LayerNode<Box2, Matrix, u32> = LayerNode::new(OffscreenHandle(1), PipelineHandle(2));
    assert_eq!(node.offscreen(), OffscreenHandle(1));
    assert_eq!(node.pipeline(), PipelineHandle(2));
}

#[test]
fn actor_node_creation() {
    let actor = ActorId::new(0, 1);
    let mut node: ActorNode<Box2, Matrix, u32> = ActorNode::new(actor, 128);
    assert_eq!(node.actor(), actor);
    assert_eq!(node.opacity(), 128);
    node.set_opacity(255);
    assert_eq!(node.opacity(), 255);
}

#[test]
fn build_tree_adds_children() {
    let root: Node = PaintNode::new(PaintNodeKind::Root);
    let children = vec![
        ColorNode::<Box2, Matrix, u32>::new(red()).into_node(),
        ColorNode::<Box2, Matrix, u32>::new(blue()).into_node(),
    ];
    let tree = build_tree(root, children);
    assert_eq!(tree.n_children(), 2);
    assert_eq!(*tree.child(1).unwrap().kind(), PaintNodeKind::Color(blue()));
}

#[test]
fn traverse_pre_order_visits_all() {
    let mut root: Node = PaintNode::new(PaintNodeKind::Root);
    let mut a = ColorNode::<Box2, Matrix, u32>::new(red()).into_node();
    a.add_child(ColorNode::<Box2, Matrix, u32>::new(blue()).into_node());
    root.add_child(a);
    root.add_child(ColorNode::<Box2, Matrix, u32>::new(blue()).into_node());
    let mut kinds: Vec<Kind> = Vec::new();
    traverse_pre_order(&root, &mut |n: &Node| kinds.push(*n.kind()));
    assert_eq!(kinds.len(), 4);
    assert_eq!(
        kinds,
        vec![
            PaintNodeKind::Root,
            PaintNodeKind::Color(red()),
            PaintNodeKind::Color(blue()),
            PaintNodeKind::Color(blue())
        ]
    );
}

#[test]
fn count_nodes_counts_all_descendants() {
    let mut root: Node = PaintNode::new(PaintNodeKind::Root);
    root.add_child(PaintNode::new(PaintNodeKind::Root));
    root.add_child(PaintNode::new(PaintNodeKind::Root));
    assert_eq!(count_nodes(&root), 3);
}

#[test]
fn count_nodes_after_removal() {
    let mut root: Node = PaintNode::new(PaintNodeKind::Root);
    let mut a: Node = PaintNode::new(PaintNodeKind::Layer);
    a.add_child(PaintNode::new(PaintNodeKind::Effect));
    root.add_child(a);
    root.add_child(PaintNode::new(PaintNodeKind::Texture));
    assert_eq!(count_nodes(&root), 4);
    let removed = root.remove_child(0).unwrap();
    assert_eq!(count_nodes(&removed), 2);
    assert_eq!(count_nodes(&root), 2);
}
