use glam::{DAffine2, DVec2, IVec2, UVec2};
use graphene_scene::graphic_element::{
    AddArtboardNode, AlphaBlending, Artboard, ArtboardGroup, ConstructArtboardNode, ConstructLayerNode, GraphicElement, GraphicGroup,
    ToGraphicElementNode, ToGraphicGroupNode,
};
use graphene_scene::node::{DynFuture, Node};
use graphene_scene::opaque::Any;
use graphene_scene::properties_panel_message::TransformOp;
use graphene_scene::raster::{BlendMode, Color, Image, ImageFrame, ONE};
use graphene_scene::transform::Footprint;
use graphene_scene::vector::{Subpath, VectorData};
use std::cell::RefCell;
use std::rc::Rc;
use std::sync::Arc;

/// Gives a copy of the value it holds, whatever it is asked.
struct ValueNode<T: Clone>(T);

impl<T: Clone> Node<(), T> for ValueNode<T> {
    fn accepts(&self, _: ()) -> bool {
        true
    }

    fn evaluates_to(&self, _: (), _: T) -> bool {
        true
    }

    fn serializes_to(&self, snapshot: Option<Any<'static>>) -> bool {
        snapshot.is_none()
    }

    fn eval(&self, _: ()) -> T {
        self.0.clone()
    }

    fn name_spec(&self) -> &'static str {
        "ValueNode"
    }

    fn node_name(&self) -> &'static str {
        "ValueNode"
    }

    fn reset(&self) {}

    fn serialize(&self) -> Option<Arc<Any<'static>>> {
        None
    }
}

/// Gives a copy of the value it holds for every footprint, and keeps the
/// footprints that it was evaluated on.
struct SceneNode<T: Clone> {
    value: T,
    seen: Rc<RefCell<Vec<Footprint>>>,
}

impl<T: Clone> SceneNode<T> {
    fn new(value: T) -> (SceneNode<T>, Rc<RefCell<Vec<Footprint>>>) {
        let seen = Rc::new(RefCell::new(Vec::new()));
        (SceneNode { value, seen: seen.clone() }, seen)
    }
}

impl<T: Clone> Node<Footprint, DynFuture<T>> for SceneNode<T> {
    fn accepts(&self, _: Footprint) -> bool {
        true
    }

    fn evaluates_to(&self, _: Footprint, _: DynFuture<T>) -> bool {
        true
    }

    fn serializes_to(&self, snapshot: Option<Any<'static>>) -> bool {
        snapshot.is_none()
    }

    fn eval(&self, input: Footprint) -> DynFuture<T> {
        self.seen.borrow_mut().push(input);
        DynFuture::ready(self.value.clone())
    }

    fn name_spec(&self) -> &'static str {
        "SceneNode"
    }

    fn node_name(&self) -> &'static str {
        "SceneNode"
    }

    fn reset(&self) {}

    fn serialize(&self) -> Option<Arc<Any<'static>>> {
        None
    }
}

fn footprint() -> Footprint {
    Footprint { transform: DAffine2::from_scale(DVec2::new(2., 3.)), resolution: UVec2::new(1920, 1080) }
}

fn line(from: DVec2, to: DVec2) -> Subpath {
    Subpath { anchor: from, segments: vec![bezier_rs::Bezier::from_linear_dvec2(from, to)], closed: false }
}

fn shape(offset: f64) -> VectorData {
    let mut shape = VectorData::from_subpaths(vec![line(DVec2::new(offset, 0.), DVec2::new(offset, 10.))]);
    shape.transform = DAffine2::from_translation(DVec2::new(offset, offset));
    shape
}

#[test]
fn artboard_with_negative_dimensions_is_normalized() {
    let artboard = Artboard::new(IVec2::new(10, 10), IVec2::new(-5, -5));
    assert_eq!(artboard.location, IVec2::new(5, 5));
    assert_eq!(artboard.dimensions, IVec2::new(5, 5));
}

#[test]
fn artboard_is_normalized_in_each_direction_alone() {
    let artboard = Artboard::new(IVec2::new(-3, 7), IVec2::new(8, -20));
    assert_eq!(artboard.location, IVec2::new(-3, -13));
    assert_eq!(artboard.dimensions, IVec2::new(8, 20));
    let flat = Artboard::new(IVec2::new(1, 2), IVec2::new(0, 0));
    assert_eq!(flat.location, IVec2::new(1, 2));
    assert_eq!(flat.dimensions, IVec2::new(0, 0));
}

#[test]
fn artboard_normalization_reaches_the_limits() {
    let artboard = Artboard::new(IVec2::new(i32::MAX, i32::MIN), IVec2::new(-i32::MAX, i32::MAX));
    assert_eq!(artboard.location, IVec2::new(0, i32::MIN));
    assert_eq!(artboard.dimensions, IVec2::new(i32::MAX, i32::MAX));
}

#[test]
fn new_artboard_is_empty_white_and_unclipped() {
    let artboard = Artboard::new(IVec2::new(0, 0), IVec2::new(640, 480));
    assert_eq!(artboard.label, "Artboard");
    assert_eq!(artboard.background, Color::white());
    assert_eq!(artboard.background, Color { red: ONE, green: ONE, blue: ONE, alpha: ONE });
    assert!(!artboard.clip);
    assert_eq!(artboard.graphic_group, GraphicGroup::empty());
    assert_eq!(artboard.graphic_group.len(), 0);
}

#[test]
fn constructed_artboard_keeps_what_it_is_given() {
    let mut contents = GraphicGroup::empty();
    contents.push(GraphicElement::default());
    let artboard = Artboard::construct(
        contents.clone(),
        String::from("Cover"),
        IVec2::new(0, 100),
        IVec2::new(-40, -60),
        Color { red: 0, green: 0, blue: 0, alpha: ONE },
        true,
    );
    assert_eq!(artboard.graphic_group, contents);
    assert_eq!(artboard.label, "Cover");
    assert_eq!(artboard.location, IVec2::new(-40, 40));
    assert_eq!(artboard.dimensions, IVec2::new(40, 60));
    assert_eq!(artboard.background, Color { red: 0, green: 0, blue: 0, alpha: ONE });
    assert!(artboard.clip);
}

#[test]
fn alpha_blending_defaults_to_opaque_and_normal() {
    let blending = AlphaBlending::default();
    assert_eq!(blending, AlphaBlending::new());
    assert_eq!(f32::from_bits(blending.opacity), 1.0);
    assert_eq!(blending.opacity, 1.0f32.to_bits());
    assert_eq!(blending.blend_mode, BlendMode::Normal);
}

#[test]
fn empty_group_is_where_it_is() {
    let group = GraphicGroup::default();
    assert_eq!(group.transform, DAffine2::IDENTITY);
    assert_eq!(group.alpha_blending, AlphaBlending::new());
    assert!(group.elements.is_empty());
    assert_eq!(group, GraphicGroup::empty());
}

#[test]
fn pushed_elements_keep_their_order() {
    let mut group = GraphicGroup::empty();
    group.push(GraphicElement::from(shape(1.)));
    group.push(GraphicElement::from(shape(2.)));
    group.push(GraphicElement::from(shape(3.)));
    assert_eq!(group.len(), 3);
    assert_eq!(group.elements[0], GraphicElement::from(shape(1.)));
    assert_eq!(group.elements[1], GraphicElement::from(shape(2.)));
    assert_eq!(group.elements[2], GraphicElement::from(shape(3.)));
}

#[test]
fn vector_shape_survives_the_round_trip() {
    let given = shape(4.);
    let element = GraphicElement::from(given.clone());
    let back = element.as_vector_data().unwrap();
    assert_eq!(back.subpaths, given.subpaths);
    assert_eq!(back.transform, given.transform);
    assert_eq!(*back, given);
    assert_eq!(GraphicElement::from(GraphicGroup::empty()).as_vector_data(), None);
}

#[test]
fn default_element_is_an_empty_shape() {
    let element = GraphicElement::default();
    assert_eq!(element.as_vector_data(), Some(&VectorData::empty()));
    assert!(VectorData::empty().subpaths.is_empty());
    assert_eq!(VectorData::empty().transform, DAffine2::IDENTITY);
}

#[test]
fn clone_is_a_deep_copy() {
    let mut given = GraphicGroup::empty();
    let mut nested = GraphicGroup::empty();
    nested.push(GraphicElement::from(shape(1.)));
    given.push(GraphicElement::from(nested));
    given.push(GraphicElement::from(Artboard::new(IVec2::new(1, 2), IVec2::new(3, 4))));
    let mut copy = given.clone();
    assert_eq!(copy, given);
    copy.push(GraphicElement::default());
    if let GraphicElement::GraphicGroup(inner) = &mut copy.elements[0] {
        inner.push(GraphicElement::default());
    }
    assert_eq!(given.len(), 2);
    match &given.elements[0] {
        GraphicElement::GraphicGroup(inner) => assert_eq!(inner.len(), 1),
        other => panic!("expected a group, found {:?}", other),
    }
    assert_eq!(copy.len(), 3);
}

#[test]
fn conversions_pick_their_variant() {
    let artboard = Artboard::new(IVec2::new(0, 0), IVec2::new(1, 1));
    assert_eq!(GraphicElement::from(artboard.clone()), GraphicElement::Artboard(artboard.clone()));
    assert_eq!(GraphicElement::from(GraphicGroup::empty()), GraphicElement::GraphicGroup(GraphicGroup::empty()));
    assert_eq!(GraphicElement::from(shape(1.)), GraphicElement::VectorData(Box::new(shape(1.))));
    let group = GraphicGroup::from(artboard.clone());
    assert_eq!(group.elements, vec![GraphicElement::Artboard(artboard)]);
    assert_eq!(group.transform, DAffine2::IDENTITY);
    assert_eq!(group.alpha_blending, AlphaBlending::default());
    assert_eq!(GraphicGroup::from(shape(2.)).elements, vec![GraphicElement::from(shape(2.))]);
    let frame = ImageFrame::new(Image::new(0, 0, Vec::new()));
    assert_eq!(GraphicGroup::from(frame.clone()).elements, vec![GraphicElement::ImageFrame(frame)]);
}

#[test]
fn artboards_flatten_in_order() {
    let mut artboards = ArtboardGroup::new();
    assert_eq!(artboards, ArtboardGroup::default());
    assert_eq!(artboards.get_graphic_group(), GraphicGroup::empty());
    let first = Artboard::new(IVec2::new(0, 0), IVec2::new(10, 10));
    let second = Artboard::new(IVec2::new(20, 0), IVec2::new(-10, 10));
    artboards.add_artboard(first.clone());
    artboards.add_artboard(second.clone());
    let group = artboards.get_graphic_group();
    assert_eq!(group.elements, vec![GraphicElement::Artboard(first), GraphicElement::Artboard(second)]);
    assert_eq!(group.transform, DAffine2::IDENTITY);
    assert_eq!(artboards.artboards.len(), 2);
    assert_eq!(artboards.clone(), artboards);
}

#[test]
fn layer_goes_after_the_stack() {
    let mut stack = GraphicGroup::empty();
    stack.push(GraphicElement::from(shape(1.)));
    stack.push(GraphicElement::from(shape(2.)));
    let (stack_node, stack_seen) = SceneNode::new(stack.clone());
    let (element_node, element_seen) = SceneNode::new(GraphicElement::from(shape(3.)));
    let layer = ConstructLayerNode::new(stack_node, element_node);
    let group = layer.eval(footprint()).wait();
    assert_eq!(group.len(), 3);
    assert_eq!(group.elements[0], stack.elements[0]);
    assert_eq!(group.elements[1], stack.elements[1]);
    assert_eq!(group.elements[2], GraphicElement::from(shape(3.)));
    assert_eq!(*stack_seen.borrow(), vec![footprint()]);
    assert_eq!(*element_seen.borrow(), vec![footprint()]);
    assert_eq!(stack.len(), 2);
}

#[test]
fn layers_stack_in_the_order_they_are_built() {
    let (bottom, _) = SceneNode::new(GraphicGroup::empty());
    let (a, _) = SceneNode::new(GraphicElement::from(shape(1.)));
    let (b, _) = SceneNode::new(GraphicElement::from(shape(2.)));
    let (c, _) = SceneNode::new(GraphicElement::from(shape(3.)));
    let layers = ConstructLayerNode::new(ConstructLayerNode::new(ConstructLayerNode::new(bottom, a), b), c);
    let group = layers.eval(footprint()).wait();
    assert_eq!(
        group.elements,
        vec![GraphicElement::from(shape(1.)), GraphicElement::from(shape(2.)), GraphicElement::from(shape(3.))]
    );
}

#[test]
fn artboard_contents_see_the_moved_footprint() {
    let mut contents = GraphicGroup::empty();
    contents.push(GraphicElement::from(shape(1.)));
    let (contents_node, seen) = SceneNode::new(contents.clone());
    let node = ConstructArtboardNode::new(
        contents_node,
        ValueNode(String::from("Page")),
        ValueNode(IVec2::new(30, 40)),
        ValueNode(IVec2::new(-10, 20)),
        ValueNode(Color { red: 0, green: ONE, blue: 0, alpha: ONE }),
        ValueNode(true),
    );
    let given = footprint();
    let artboard = node.eval(given).wait();
    let moved = given.transform * DAffine2::from_translation(DVec2::new(30., 40.));
    assert_eq!(seen.borrow().len(), 1);
    assert_eq!(seen.borrow()[0].transform, moved);
    assert_eq!(seen.borrow()[0].transform.transform_point2(DVec2::ZERO), DVec2::new(60., 120.));
    assert_eq!(seen.borrow()[0].resolution, given.resolution);
    assert_eq!(given, footprint());
    assert_eq!(artboard.graphic_group, contents);
    assert_eq!(artboard.label, "Page");
    assert_eq!(artboard.location, IVec2::new(20, 40));
    assert_eq!(artboard.dimensions, IVec2::new(10, 20));
    assert_eq!(artboard.background, Color { red: 0, green: ONE, blue: 0, alpha: ONE });
    assert!(artboard.clip);
}

#[test]
fn nested_artboards_move_the_footprint_twice() {
    let (innermost, seen) = SceneNode::new(GraphicGroup::empty());
    let inner = ConstructArtboardNode::new(
        innermost,
        ValueNode(String::from("Inner")),
        ValueNode(IVec2::new(5, 6)),
        ValueNode(IVec2::new(1, 1)),
        ValueNode(Color::white()),
        ValueNode(false),
    );
    let outer = ConstructArtboardNode::new(
        FutureGroupNode(inner),
        ValueNode(String::from("Outer")),
        ValueNode(IVec2::new(100, 200)),
        ValueNode(IVec2::new(50, 50)),
        ValueNode(Color::white()),
        ValueNode(false),
    );
    let given = footprint();
    let artboard = outer.eval(given).wait();
    let expected = given.transform * DAffine2::from_translation(DVec2::new(100., 200.)) * DAffine2::from_translation(DVec2::new(5., 6.));
    assert_eq!(seen.borrow()[0].transform, expected);
    assert_eq!(given, footprint());
    assert_eq!(artboard.graphic_group.len(), 1);
    match &artboard.graphic_group.elements[0] {
        GraphicElement::Artboard(inner) => assert_eq!(inner.label, "Inner"),
        other => panic!("expected an artboard, found {:?}", other),
    }
}

/// Wraps the artboard that a node gives into a group of its own.
struct FutureGroupNode<N>(N);

impl<N: Node<Footprint, DynFuture<Artboard>>> Node<Footprint, DynFuture<GraphicGroup>> for FutureGroupNode<N> {
    fn accepts(&self, input: Footprint) -> bool {
        self.0.accepts(input)
    }

    fn evaluates_to(&self, _: Footprint, _: DynFuture<GraphicGroup>) -> bool {
        true
    }

    fn serializes_to(&self, snapshot: Option<Any<'static>>) -> bool {
        snapshot.is_none()
    }

    fn eval(&self, input: Footprint) -> DynFuture<GraphicGroup> {
        DynFuture::ready(ToGraphicGroupNode {}.eval(self.0.eval(input).wait()))
    }

    fn name_spec(&self) -> &'static str {
        "FutureGroupNode"
    }

    fn node_name(&self) -> &'static str {
        "FutureGroupNode"
    }

    fn reset(&self) {}

    fn serialize(&self) -> Option<Arc<Any<'static>>> {
        None
    }
}

#[test]
fn footprint_is_moved_by_a_copy() {
    let given = footprint();
    let moved = given.translated(IVec2::new(-7, 9));
    assert_eq!(moved.transform, given.transform * DAffine2::from_translation(DVec2::new(-7., 9.)));
    assert_eq!(moved.resolution, UVec2::new(1920, 1080));
    assert_eq!(given, footprint());
    assert_eq!(given.translated(IVec2::new(0, 0)).transform, given.transform * DAffine2::IDENTITY);
}

#[test]
fn artboard_is_added_after_the_others() {
    let mut artboards = ArtboardGroup::new();
    artboards.add_artboard(Artboard::new(IVec2::new(0, 0), IVec2::new(1, 1)));
    let (group_node, _) = SceneNode::new(artboards.clone());
    let (artboard_node, _) = SceneNode::new(Artboard::new(IVec2::new(2, 2), IVec2::new(3, 3)));
    let added = AddArtboardNode::new(group_node, artboard_node).eval(footprint()).wait();
    assert_eq!(added.artboards.len(), 2);
    assert_eq!(added.artboards[0], artboards.artboards[0]);
    assert_eq!(added.artboards[1], Artboard::new(IVec2::new(2, 2), IVec2::new(3, 3)));
}

#[test]
fn coercion_nodes_convert() {
    let element: GraphicElement = ToGraphicElementNode {}.eval(shape(1.));
    assert_eq!(element, GraphicElement::from(shape(1.)));
    let element: GraphicElement = ToGraphicElementNode {}.eval(Artboard::new(IVec2::new(0, 0), IVec2::new(1, 1)));
    assert_eq!(element, GraphicElement::Artboard(Artboard::new(IVec2::new(0, 0), IVec2::new(1, 1))));
    let group: GraphicGroup = ToGraphicGroupNode {}.eval(shape(2.));
    assert_eq!(group.elements, vec![GraphicElement::from(shape(2.))]);
    assert_eq!(Node::<VectorData, GraphicElement>::node_name(&ToGraphicElementNode {}), "ToGraphicElementNode");
}

#[test]
fn transform_ops_are_told_apart() {
    let ops = [
        TransformOp::X,
        TransformOp::Y,
        TransformOp::ScaleX,
        TransformOp::ScaleY,
        TransformOp::Width,
        TransformOp::Height,
        TransformOp::Rotation,
    ];
    for (i, a) in ops.iter().enumerate() {
        for (j, b) in ops.iter().enumerate() {
            assert_eq!(a == b, i == j);
        }
    }
    assert_eq!(format!("{:?}", TransformOp::ScaleX.clone()), "ScaleX");
}
