//! The scene graph: graphic elements, the groups that order them, and
//! artboards.

use crate::node::{DynFuture, Node};
use crate::opaque::Any;
use crate::raster::{data_url, data_url_of, is_unit_interval, png_of, BlendMode, Color, ImageFrame, ImageFrameModel, ImageModel, ONE};
use crate::transform::{abs_of, identity, identity_transform, min_of, sum, sum_fits, sum_of, Footprint};
use crate::vector::{VectorData, VectorDataModel};
use glam::{DAffine2, IVec2};
use std::sync::Arc;
use vstd::prelude::*;

verus! {

/// How much of a layer shows, and how it is combined with what lies below.
/// The opacity is the bit pattern of a single-precision number.
#[derive(Clone, Copy, Debug, PartialEq, Eq, Structural, Hash)]
pub struct AlphaBlending {
    pub opacity: u32,
    pub blend_mode: BlendMode,
}

impl AlphaBlending {
    /// Fully opaque, combined in the normal way.
    pub open spec fn new_spec() -> AlphaBlending {
        AlphaBlending { opacity: ONE, blend_mode: BlendMode::Normal }
    }

    /// The opacity lies between 0 and 1.
    pub open spec fn well_formed(self) -> bool {
        is_unit_interval(self.opacity)
    }

    /// Fully opaque, combined in the normal way.
    pub fn new() -> (blending: AlphaBlending)
        ensures
            blending == AlphaBlending::new_spec(),
            blending.well_formed(),
    {
        AlphaBlending { opacity: ONE, blend_mode: BlendMode::Normal }
    }
}

impl Default for AlphaBlending {
    fn default() -> (blending: AlphaBlending)
        ensures
            blending == AlphaBlending::new_spec(),
    {
        AlphaBlending::new()
    }
}

/// What a `GraphicGroup` holds. The order of `elements` is the order in
/// which they are painted.
pub struct GraphicGroupModel {
    pub elements: Seq<GraphicElementModel>,
    pub transform: DAffine2,
    pub alpha_blending: AlphaBlending,
}

/// What a `GraphicElement` holds.
pub enum GraphicElementModel {
    GraphicGroup(GraphicGroupModel),
    VectorData(VectorDataModel),
    ImageFrame(ImageFrameModel),
    Artboard(ArtboardModel),
}

/// What an `Artboard` holds.
pub struct ArtboardModel {
    pub graphic_group: GraphicGroupModel,
    pub label: Seq<char>,
    pub location: IVec2,
    pub dimensions: IVec2,
    pub background: Color,
    pub clip: bool,
}

/// A list of graphic elements, painted in the order of the list.
#[derive(Debug, PartialEq)]
pub struct GraphicGroup {
    pub elements: Vec<GraphicElement>,
    pub transform: DAffine2,
    pub alpha_blending: AlphaBlending,
}

/// One piece of graphical content: a nested group, a vector shape, a raster
/// image, or an artboard.
#[derive(Debug, PartialEq)]
pub enum GraphicElement {
    GraphicGroup(GraphicGroup),
    VectorData(Box<VectorData>),
    ImageFrame(ImageFrame),
    Artboard(Artboard),
}

/// A page: a group of content within bounds. The location is the corner with
/// the smallest coordinates, and no dimension is negative.
#[derive(Debug, PartialEq)]
pub struct Artboard {
    pub graphic_group: GraphicGroup,
    pub label: String,
    pub location: IVec2,
    pub dimensions: IVec2,
    pub background: Color,
    pub clip: bool,
}

/// The model of a group: the models of its elements, in order.
pub open spec fn group_model(group: GraphicGroup) -> GraphicGroupModel
    decreases group,
{
    GraphicGroupModel {
        elements: Seq::new(
            group.elements@.len(),
            |i: int|
                if 0 <= i < group.elements@.len() {
                    element_model(group.elements@[i])
                } else {
                    arbitrary()
                },
        ),
        transform: group.transform,
        alpha_blending: group.alpha_blending,
    }
}

/// The model of an element.
pub open spec fn element_model(element: GraphicElement) -> GraphicElementModel
    decreases element,
{
    match element {
        GraphicElement::GraphicGroup(group) => GraphicElementModel::GraphicGroup(group_model(group)),
        GraphicElement::VectorData(shape) => GraphicElementModel::VectorData(shape@),
        GraphicElement::ImageFrame(frame) => GraphicElementModel::ImageFrame(frame@),
        GraphicElement::Artboard(artboard) => GraphicElementModel::Artboard(artboard_model(artboard)),
    }
}

/// The model of an artboard.
pub open spec fn artboard_model(artboard: Artboard) -> ArtboardModel
    decreases artboard,
{
    ArtboardModel {
        graphic_group: group_model(artboard.graphic_group),
        label: artboard.label@,
        location: artboard.location,
        dimensions: artboard.dimensions,
        background: artboard.background,
        clip: artboard.clip,
    }
}

impl View for GraphicGroup {
    type V = GraphicGroupModel;

    open spec fn view(&self) -> GraphicGroupModel {
        group_model(*self)
    }
}

impl View for GraphicElement {
    type V = GraphicElementModel;

    open spec fn view(&self) -> GraphicElementModel {
        element_model(*self)
    }
}

impl View for Artboard {
    type V = ArtboardModel;

    open spec fn view(&self) -> ArtboardModel {
        artboard_model(*self)
    }
}

impl GraphicGroupModel {
    /// The group without elements, left where it is and fully opaque.
    pub open spec fn empty() -> GraphicGroupModel {
        GraphicGroupModel { elements: Seq::empty(), transform: identity(), alpha_blending: AlphaBlending::new_spec() }
    }

    /// The group with `element` painted after all that it held.
    pub open spec fn pushed(self, element: GraphicElementModel) -> GraphicGroupModel {
        GraphicGroupModel { elements: self.elements.push(element), transform: self.transform, alpha_blending: self.alpha_blending }
    }

    /// The group that holds `element` alone.
    pub open spec fn single(element: GraphicElementModel) -> GraphicGroupModel {
        GraphicGroupModel::empty().pushed(element)
    }
}

impl ArtboardModel {
    /// The location is the corner with the smallest coordinates, and no
    /// dimension is negative.
    pub open spec fn well_formed(self) -> bool {
        self.dimensions.x >= 0 && self.dimensions.y >= 0
    }
}

/// The location of an artboard given by a corner and a signed extent: the
/// corner with the smallest coordinates.
pub open spec fn normalized_location(location: IVec2, dimensions: IVec2) -> IVec2 {
    min_of(location, sum_of(location, dimensions))
}

/// Whether an artboard can be built from a corner and a signed extent: the
/// opposite corner and the size of the extent fit in `i32`.
pub open spec fn can_normalize(location: IVec2, dimensions: IVec2) -> bool {
    &&& sum_fits(location, dimensions)
    &&& dimensions.x > i32::MIN
    &&& dimensions.y > i32::MIN
}

impl GraphicGroup {
    /// The group without elements, left where it is and fully opaque.
    pub fn empty() -> (group: GraphicGroup)
        ensures
            group@ == GraphicGroupModel::empty(),
    {
        let group = GraphicGroup { elements: Vec::new(), transform: identity_transform(), alpha_blending: AlphaBlending::new() };
        assert(group@.elements =~= Seq::empty());
        group
    }

    /// Adds `element` after all that the group holds. What was there stays,
    /// in its order.
    pub fn push(&mut self, element: GraphicElement)
        ensures
            final(self)@ == old(self)@.pushed(element@),
    {
        self.elements.push(element);
        assert(self@.elements =~= old(self)@.elements.push(element@));
    }

    /// The number of elements.
    pub fn len(&self) -> (count: usize)
        ensures
            count == self@.elements.len(),
    {
        self.elements.len()
    }
}

impl core::ops::Deref for GraphicGroup {
    type Target = Vec<GraphicElement>;

    /// The elements of the group, in paint order.
    fn deref(&self) -> (elements: &Vec<GraphicElement>)
        ensures
            *elements == self.elements,
    {
        &self.elements
    }
}

impl Default for GraphicGroup {
    fn default() -> (group: GraphicGroup)
        ensures
            group@ == GraphicGroupModel::empty(),
    {
        GraphicGroup::empty()
    }
}

impl Clone for GraphicGroup {
    /// A copy of the group and of all that it holds; the copy shares nothing
    /// with the group.
    fn clone(&self) -> (copy: GraphicGroup)
        ensures
            copy@ == self@,
        decreases *self,
    {
        let mut elements: Vec<GraphicElement> = Vec::new();
        let mut index: usize = 0;
        while index < self.elements.len()
            invariant
                index <= self.elements.len(),
                elements@.len() == index,
                forall|i: int| 0 <= i < index ==> elements@[i]@ == self.elements@[i]@,
            decreases self.elements.len() - index,
        {
            elements.push(self.elements[index].clone());
            index += 1;
        }
        let copy = GraphicGroup { elements, transform: self.transform, alpha_blending: self.alpha_blending };
        assert(copy@.elements =~= self@.elements);
        copy
    }
}

impl Clone for GraphicElement {
    /// A copy of the element and of all that it holds.
    fn clone(&self) -> (copy: GraphicElement)
        ensures
            copy@ == self@,
        decreases *self,
    {
        match self {
            GraphicElement::GraphicGroup(group) => GraphicElement::GraphicGroup(group.clone()),
            GraphicElement::VectorData(shape) => GraphicElement::VectorData(Box::new((&**shape).clone())),
            GraphicElement::ImageFrame(frame) => GraphicElement::ImageFrame(frame.clone()),
            GraphicElement::Artboard(artboard) => GraphicElement::Artboard(artboard.clone()),
        }
    }
}

impl Clone for Artboard {
    /// A copy of the artboard and of all that it holds.
    fn clone(&self) -> (copy: Artboard)
        ensures
            copy@ == self@,
        decreases *self,
    {
        Artboard {
            graphic_group: self.graphic_group.clone(),
            label: self.label.clone(),
            location: self.location,
            dimensions: self.dimensions,
            background: self.background,
            clip: self.clip,
        }
    }
}

impl Default for GraphicElement {
    /// A vector shape without subpaths.
    fn default() -> (element: GraphicElement)
        ensures
            element@ == GraphicElementModel::VectorData(
                VectorDataModel { subpaths: Seq::empty(), transform: identity() },
            ),
    {
        GraphicElement::VectorData(Box::new(VectorData::empty()))
    }
}

impl Artboard {
    /// The artboard over `graphic_group` that covers the rectangle given by
    /// a corner and a signed extent.
    pub fn construct(
        graphic_group: GraphicGroup,
        label: String,
        location: IVec2,
        dimensions: IVec2,
        background: Color,
        clip: bool,
    ) -> (artboard: Artboard)
        requires
            can_normalize(location, dimensions),
        ensures
            artboard@ == (ArtboardModel {
                graphic_group: graphic_group@,
                label: label@,
                location: normalized_location(location, dimensions),
                dimensions: abs_of(dimensions),
                background,
                clip,
            }),
            artboard@.well_formed(),
    {
        Artboard {
            graphic_group,
            label,
            location: location.min(sum(location, dimensions)),
            dimensions: dimensions.abs(),
            background,
            clip,
        }
    }

    /// An empty white artboard, labelled "Artboard", that does not clip. The
    /// extent may be negative in either direction: the artboard covers the
    /// same rectangle, with its location at the corner with the smallest
    /// coordinates.
    pub fn new(location: IVec2, dimensions: IVec2) -> (artboard: Artboard)
        requires
            can_normalize(location, dimensions),
        ensures
            artboard@ == (ArtboardModel {
                graphic_group: GraphicGroupModel::empty(),
                label: "Artboard"@,
                location: normalized_location(location, dimensions),
                dimensions: abs_of(dimensions),
                background: Color::white_spec(),
                clip: false,
            }),
            artboard@.well_formed(),
    {
        Artboard {
            graphic_group: GraphicGroup::empty(),
            label: "Artboard".to_owned(),
            location: location.min(sum(location, dimensions)),
            dimensions: dimensions.abs(),
            background: Color::white(),
            clip: false,
        }
    }
}

impl ImageFrameModel {
    /// The frame with its image encoded: where the image has pixels and the
    /// encoder accepts it, the image carries the `data:` URL of its PNG file;
    /// otherwise the frame is unchanged.
    pub open spec fn embedded(self) -> ImageFrameModel {
        if self.image.well_formed() && self.image.data.len() > 0 {
            match png_of(self.image.width, self.image.height, self.image.data) {
                Some(png) => ImageFrameModel {
                    image: ImageModel {
                        width: self.image.width,
                        height: self.image.height,
                        data: self.image.data,
                        base64_string: Some(data_url_of(png)),
                    },
                    transform: self.transform,
                },
                None => self,
            }
        } else {
            self
        }
    }
}

impl vstd::std_specs::convert::FromSpecImpl<ImageFrame> for GraphicElement {
    open spec fn obeys_from_spec() -> bool {
        false
    }

    open spec fn from_spec(image_frame: ImageFrame) -> GraphicElement {
        choose|element: GraphicElement| element@ == GraphicElementModel::ImageFrame(image_frame@.embedded())
    }
}

impl From<ImageFrame> for GraphicElement {
    /// The frame as an element, with its image encoded for embedding.
    fn from(image_frame: ImageFrame) -> (element: GraphicElement)
        ensures
            element@ == GraphicElementModel::ImageFrame(image_frame@.embedded()),
    {
        let mut image_frame = image_frame;
        if image_frame.image.is_well_formed() && image_frame.image.data.len() > 0 {
            match image_frame.image.to_png() {
                Some(png) => {
                    image_frame.image.base64_string = Some(data_url(&png));
                },
                None => {},
            }
        }
        GraphicElement::ImageFrame(image_frame)
    }
}

impl vstd::std_specs::convert::FromSpecImpl<VectorData> for GraphicElement {
    open spec fn obeys_from_spec() -> bool {
        true
    }

    open spec fn from_spec(vector_data: VectorData) -> GraphicElement {
        GraphicElement::VectorData(Box::new(vector_data))
    }
}

impl From<VectorData> for GraphicElement {
    fn from(vector_data: VectorData) -> (element: GraphicElement)
        ensures
            element@ == GraphicElementModel::VectorData(vector_data@),
    {
        GraphicElement::VectorData(Box::new(vector_data))
    }
}

impl vstd::std_specs::convert::FromSpecImpl<GraphicGroup> for GraphicElement {
    open spec fn obeys_from_spec() -> bool {
        true
    }

    open spec fn from_spec(graphic_group: GraphicGroup) -> GraphicElement {
        GraphicElement::GraphicGroup(graphic_group)
    }
}

impl From<GraphicGroup> for GraphicElement {
    fn from(graphic_group: GraphicGroup) -> (element: GraphicElement)
        ensures
            element@ == GraphicElementModel::GraphicGroup(graphic_group@),
    {
        GraphicElement::GraphicGroup(graphic_group)
    }
}

impl vstd::std_specs::convert::FromSpecImpl<Artboard> for GraphicElement {
    open spec fn obeys_from_spec() -> bool {
        true
    }

    open spec fn from_spec(artboard: Artboard) -> GraphicElement {
        GraphicElement::Artboard(artboard)
    }
}

impl From<Artboard> for GraphicElement {
    fn from(artboard: Artboard) -> (element: GraphicElement)
        ensures
            element@ == GraphicElementModel::Artboard(artboard@),
    {
        GraphicElement::Artboard(artboard)
    }
}

impl GraphicGroup {
    /// The group that holds `element` alone, left where it is and fully
    /// opaque.
    pub fn single(element: GraphicElement) -> (group: GraphicGroup)
        ensures
            group@ == GraphicGroupModel::single(element@),
    {
        let mut group = GraphicGroup::empty();
        group.push(element);
        group
    }
}

impl vstd::std_specs::convert::FromSpecImpl<VectorData> for GraphicGroup {
    open spec fn obeys_from_spec() -> bool {
        false
    }

    open spec fn from_spec(value: VectorData) -> GraphicGroup {
        choose|group: GraphicGroup| group@ == GraphicGroupModel::single(GraphicElementModel::VectorData(value@))
    }
}

impl From<VectorData> for GraphicGroup {
    /// The group that holds the shape alone.
    fn from(value: VectorData) -> (group: GraphicGroup)
        ensures
            group@ == GraphicGroupModel::single(GraphicElementModel::VectorData(value@)),
    {
        GraphicGroup::single(GraphicElement::from(value))
    }
}

impl vstd::std_specs::convert::FromSpecImpl<ImageFrame> for GraphicGroup {
    open spec fn obeys_from_spec() -> bool {
        false
    }

    open spec fn from_spec(value: ImageFrame) -> GraphicGroup {
        choose|group: GraphicGroup| group@ == GraphicGroupModel::single(GraphicElementModel::ImageFrame(value@.embedded()))
    }
}

impl From<ImageFrame> for GraphicGroup {
    /// The group that holds the frame alone, its image encoded for embedding.
    fn from(value: ImageFrame) -> (group: GraphicGroup)
        ensures
            group@ == GraphicGroupModel::single(GraphicElementModel::ImageFrame(value@.embedded())),
    {
        GraphicGroup::single(GraphicElement::from(value))
    }
}

impl vstd::std_specs::convert::FromSpecImpl<Artboard> for GraphicGroup {
    open spec fn obeys_from_spec() -> bool {
        false
    }

    open spec fn from_spec(value: Artboard) -> GraphicGroup {
        choose|group: GraphicGroup| group@ == GraphicGroupModel::single(GraphicElementModel::Artboard(value@))
    }
}

impl From<Artboard> for GraphicGroup {
    /// The group that holds the artboard alone.
    fn from(value: Artboard) -> (group: GraphicGroup)
        ensures
            group@ == GraphicGroupModel::single(GraphicElementModel::Artboard(value@)),
    {
        GraphicGroup::single(GraphicElement::from(value))
    }
}

/// What an `ArtboardGroup` holds: its artboards, in order.
pub struct ArtboardGroupModel {
    pub artboards: Seq<ArtboardModel>,
}

impl ArtboardGroupModel {
    /// The artboards as one group: each artboard as an element, in order.
    pub open spec fn flattened(self) -> GraphicGroupModel {
        GraphicGroupModel {
            elements: Seq::new(self.artboards.len(), |i: int| GraphicElementModel::Artboard(self.artboards[i])),
            transform: identity(),
            alpha_blending: AlphaBlending::new_spec(),
        }
    }
}

/// Several artboards, in order.
#[derive(Debug, PartialEq)]
pub struct ArtboardGroup {
    pub artboards: Vec<Artboard>,
}

impl View for ArtboardGroup {
    type V = ArtboardGroupModel;

    open spec fn view(&self) -> ArtboardGroupModel {
        ArtboardGroupModel { artboards: Seq::new(self.artboards@.len(), |i: int| self.artboards@[i]@) }
    }
}

impl ArtboardGroup {
    /// A group without artboards.
    pub fn new() -> (group: ArtboardGroup)
        ensures
            group@.artboards == Seq::<ArtboardModel>::empty(),
    {
        let group = ArtboardGroup { artboards: Vec::new() };
        assert(group@.artboards =~= Seq::empty());
        group
    }

    /// Adds `artboard` after all that the group holds.
    pub fn add_artboard(&mut self, artboard: Artboard)
        ensures
            final(self)@.artboards == old(self)@.artboards.push(artboard@),
    {
        self.artboards.push(artboard);
        assert(self@.artboards =~= old(self)@.artboards.push(artboard@));
    }

    /// The artboards as one group of elements, in the same order. The group
    /// holds copies: it shares nothing with the artboards.
    pub fn get_graphic_group(&self) -> (graphic_group: GraphicGroup)
        ensures
            graphic_group@ == self@.flattened(),
    {
        let mut graphic_group = GraphicGroup::empty();
        let mut index: usize = 0;
        while index < self.artboards.len()
            invariant
                index <= self.artboards.len(),
                graphic_group@.transform == identity(),
                graphic_group@.alpha_blending == AlphaBlending::new_spec(),
                graphic_group@.elements.len() == index,
                forall|i: int| 0 <= i < index ==> graphic_group@.elements[i] == GraphicElementModel::Artboard(self.artboards@[i]@),
            decreases self.artboards.len() - index,
        {
            let graphic_element = GraphicElement::from(self.artboards[index].clone());
            graphic_group.push(graphic_element);
            index += 1;
        }
        assert(graphic_group@.elements =~= self@.flattened().elements);
        graphic_group
    }
}

impl Default for ArtboardGroup {
    fn default() -> (group: ArtboardGroup)
        ensures
            group@.artboards == Seq::<ArtboardModel>::empty(),
    {
        ArtboardGroup::new()
    }
}

impl Clone for ArtboardGroup {
    /// A copy of the group and of its artboards.
    fn clone(&self) -> (copy: ArtboardGroup)
        ensures
            copy@ == self@,
    {
        let mut artboards: Vec<Artboard> = Vec::new();
        let mut index: usize = 0;
        while index < self.artboards.len()
            invariant
                index <= self.artboards.len(),
                artboards@.len() == index,
                forall|i: int| 0 <= i < index ==> artboards@[i]@ == self.artboards@[i]@,
            decreases self.artboards.len() - index,
        {
            artboards.push(self.artboards[index].clone());
            index += 1;
        }
        let copy = ArtboardGroup { artboards };
        assert(copy@.artboards =~= self@.artboards);
        copy
    }
}

impl GraphicElementModel {
    /// The vector shape that the element is, if it is one.
    pub open spec fn vector_data(self) -> Option<VectorDataModel> {
        match self {
            GraphicElementModel::VectorData(shape) => Some(shape),
            _ => None,
        }
    }
}

impl GraphicElement {
    /// The vector shape that the element is, if it is one.
    pub fn as_vector_data(&self) -> (shape: Option<&VectorData>)
        ensures
            match shape {
                Some(shape) => self@.vector_data() == Some(shape@),
                None => self@.vector_data().is_none(),
            },
    {
        match self {
            GraphicElement::VectorData(shape) => Some(&**shape),
            _ => None,
        }
    }
}

/// A vector shape that was made an element is still that shape: the element
/// gives back the same subpaths under the same transform.
pub proof fn vector_shape_round_trip(shape: VectorData, element: GraphicElement)
    requires
        call_ensures(<GraphicElement as From<VectorData>>::from, (shape,), element),
    ensures
        element@.vector_data() == Some(shape@),
        element@.vector_data().unwrap().subpaths == shape@.subpaths,
        element@.vector_data().unwrap().transform == shape@.transform,
{
}

/// Puts an element on top of a stack: evaluates the element and the stack on
/// the footprint and gives the stack with the element after all that it
/// held, so that it is painted last.
pub struct ConstructLayerNode<Stack, Element> {
    pub stack: Stack,
    pub graphic_element: Element,
}

impl<Stack, Element> ConstructLayerNode<Stack, Element> {
    /// The node that puts what `graphic_element` gives onto what `stack`
    /// gives.
    pub fn new(stack: Stack, graphic_element: Element) -> (node: ConstructLayerNode<Stack, Element>)
        ensures
            node.stack == stack,
            node.graphic_element == graphic_element,
    {
        ConstructLayerNode { stack, graphic_element }
    }
}

impl<Stack: Node<Footprint, DynFuture<GraphicGroup>>, Element: Node<Footprint, DynFuture<GraphicElement>>> Node<
    Footprint,
    DynFuture<GraphicGroup>,
> for ConstructLayerNode<Stack, Element> {
    open spec fn accepts(&self, input: Footprint) -> bool {
        self.graphic_element.accepts(input) && self.stack.accepts(input)
    }

    open spec fn evaluates_to(&self, input: Footprint, output: DynFuture<GraphicGroup>) -> bool {
        exists|element: DynFuture<GraphicElement>, stack: DynFuture<GraphicGroup>|
            {
                &&& #[trigger] self.graphic_element.evaluates_to(input, element)
                &&& #[trigger] self.stack.evaluates_to(input, stack)
                &&& output@@ == stack@@.pushed(element@@)
            }
    }

    open spec fn serializes_to(&self, snapshot: Option<Any<'static>>) -> bool {
        snapshot.is_none()
    }

    open spec fn name_spec(&self) -> &'static str {
        "ConstructLayerNode"
    }

    fn eval(&self, input: Footprint) -> (output: DynFuture<GraphicGroup>) {
        let element = self.graphic_element.eval(input);
        let stack = self.stack.eval(input);
        let ghost given_element = element;
        let ghost given_stack = stack;
        let mut group = stack.wait();
        group.push(element.wait());
        let output = DynFuture::ready(group);
        assert(self.graphic_element.evaluates_to(input, given_element) && self.stack.evaluates_to(input, given_stack)
            && output@@ == given_stack@@.pushed(given_element@@));
        output
    }

    fn node_name(&self) -> (name: &'static str) {
        "ConstructLayerNode"
    }

    fn reset(&self) {
        self.stack.reset();
        self.graphic_element.reset();
    }

    fn serialize(&self) -> (snapshot: Option<Arc<Any<'static>>>) {
        None
    }
}

/// Makes an element of a shape, an image frame, a group or an artboard.
pub struct ToGraphicElementNode {}

impl<Data> Node<Data, GraphicElement> for ToGraphicElementNode where GraphicElement: From<Data> {
    open spec fn accepts(&self, input: Data) -> bool {
        call_requires(<GraphicElement as From<Data>>::from, (input,))
    }

    open spec fn evaluates_to(&self, input: Data, output: GraphicElement) -> bool {
        call_ensures(<GraphicElement as From<Data>>::from, (input,), output)
    }

    open spec fn serializes_to(&self, snapshot: Option<Any<'static>>) -> bool {
        snapshot.is_none()
    }

    open spec fn name_spec(&self) -> &'static str {
        "ToGraphicElementNode"
    }

    fn eval(&self, input: Data) -> (output: GraphicElement) {
        GraphicElement::from(input)
    }

    fn node_name(&self) -> (name: &'static str) {
        "ToGraphicElementNode"
    }

    fn reset(&self) {
    }

    fn serialize(&self) -> (snapshot: Option<Arc<Any<'static>>>) {
        None
    }
}

/// Makes a group that holds one shape, image frame or artboard.
pub struct ToGraphicGroupNode {}

impl<Data> Node<Data, GraphicGroup> for ToGraphicGroupNode where GraphicGroup: From<Data> {
    open spec fn accepts(&self, input: Data) -> bool {
        call_requires(<GraphicGroup as From<Data>>::from, (input,))
    }

    open spec fn evaluates_to(&self, input: Data, output: GraphicGroup) -> bool {
        call_ensures(<GraphicGroup as From<Data>>::from, (input,), output)
    }

    open spec fn serializes_to(&self, snapshot: Option<Any<'static>>) -> bool {
        snapshot.is_none()
    }

    open spec fn name_spec(&self) -> &'static str {
        "ToGraphicGroupNode"
    }

    fn eval(&self, input: Data) -> (output: GraphicGroup) {
        GraphicGroup::from(input)
    }

    fn node_name(&self) -> (name: &'static str) {
        "ToGraphicGroupNode"
    }

    fn reset(&self) {
    }

    fn serialize(&self) -> (snapshot: Option<Arc<Any<'static>>>) {
        None
    }
}

/// Builds an artboard. The contents are evaluated in the artboard's own
/// space: on the footprint moved to the artboard's location. The footprint
/// that the node was given is not changed.
pub struct ConstructArtboardNode<Contents, Label, Location, Dimensions, Background, Clip> {
    pub contents: Contents,
    pub label: Label,
    pub location: Location,
    pub dimensions: Dimensions,
    pub background: Background,
    pub clip: Clip,
}

impl<Contents, Label, Location, Dimensions, Background, Clip> ConstructArtboardNode<
    Contents,
    Label,
    Location,
    Dimensions,
    Background,
    Clip,
> {
    /// The node that builds an artboard from what the six nodes give.
    pub fn new(
        contents: Contents,
        label: Label,
        location: Location,
        dimensions: Dimensions,
        background: Background,
        clip: Clip,
    ) -> (node: ConstructArtboardNode<Contents, Label, Location, Dimensions, Background, Clip>)
        ensures
            node.contents == contents,
            node.label == label,
            node.location == location,
            node.dimensions == dimensions,
            node.background == background,
            node.clip == clip,
    {
        ConstructArtboardNode { contents, label, location, dimensions, background, clip }
    }
}

impl<
    Contents: Node<Footprint, DynFuture<GraphicGroup>>,
    Label: Node<(), String>,
    Location: Node<(), IVec2>,
    Dimensions: Node<(), IVec2>,
    Background: Node<(), Color>,
    Clip: Node<(), bool>,
> Node<Footprint, DynFuture<Artboard>> for ConstructArtboardNode<Contents, Label, Location, Dimensions, Background, Clip> {
    open spec fn accepts(&self, input: Footprint) -> bool {
        &&& self.label.accepts(())
        &&& self.location.accepts(())
        &&& self.dimensions.accepts(())
        &&& self.background.accepts(())
        &&& self.clip.accepts(())
        &&& forall|location: IVec2, dimensions: IVec2|
            #[trigger] self.location.evaluates_to((), location) && #[trigger] self.dimensions.evaluates_to((), dimensions)
                ==> can_normalize(location, dimensions) && self.contents.accepts(input.translated_by(location))
    }

    open spec fn evaluates_to(&self, input: Footprint, output: DynFuture<Artboard>) -> bool {
        exists|contents: DynFuture<GraphicGroup>, label: String, location: IVec2, dimensions: IVec2, background: Color, clip: bool|
            {
                &&& #[trigger] self.label.evaluates_to((), label)
                &&& #[trigger] self.location.evaluates_to((), location)
                &&& #[trigger] self.dimensions.evaluates_to((), dimensions)
                &&& #[trigger] self.background.evaluates_to((), background)
                &&& #[trigger] self.clip.evaluates_to((), clip)
                &&& #[trigger] self.contents.evaluates_to(input.translated_by(location), contents)
                &&& output@@ == (ArtboardModel {
                    graphic_group: contents@@,
                    label: label@,
                    location: normalized_location(location, dimensions),
                    dimensions: abs_of(dimensions),
                    background,
                    clip,
                })
            }
    }

    open spec fn serializes_to(&self, snapshot: Option<Any<'static>>) -> bool {
        snapshot.is_none()
    }

    open spec fn name_spec(&self) -> &'static str {
        "ConstructArtboardNode"
    }

    fn eval(&self, input: Footprint) -> (output: DynFuture<Artboard>) {
        let label = self.label.eval(());
        let location = self.location.eval(());
        let dimensions = self.dimensions.eval(());
        let background = self.background.eval(());
        let clip = self.clip.eval(());
        let contents = self.contents.eval(input.translated(location));
        let ghost given = contents;
        let ghost label_given = label;
        let output = DynFuture::ready(Artboard::construct(contents.wait(), label, location, dimensions, background, clip));
        assert(self.label.evaluates_to((), label_given) && self.location.evaluates_to((), location)
            && self.dimensions.evaluates_to((), dimensions) && self.background.evaluates_to((), background)
            && self.clip.evaluates_to((), clip) && self.contents.evaluates_to(input.translated_by(location), given)
            && output@@ == (ArtboardModel {
            graphic_group: given@@,
            label: label_given@,
            location: normalized_location(location, dimensions),
            dimensions: abs_of(dimensions),
            background,
            clip,
        }));
        output
    }

    fn node_name(&self) -> (name: &'static str) {
        "ConstructArtboardNode"
    }

    fn reset(&self) {
        self.contents.reset();
        self.label.reset();
        self.location.reset();
        self.dimensions.reset();
        self.background.reset();
        self.clip.reset();
    }

    fn serialize(&self) -> (snapshot: Option<Arc<Any<'static>>>) {
        None
    }
}

/// Whatever artboard the node gives, its contents are what the contents
/// node gave for the footprint moved to the artboard's location; and an
/// artboard built within them sees the footprint moved by both locations,
/// the outer one first.
pub proof fn contents_see_the_moved_footprint<
    Contents: Node<Footprint, DynFuture<GraphicGroup>>,
    Label: Node<(), String>,
    Location: Node<(), IVec2>,
    Dimensions: Node<(), IVec2>,
    Background: Node<(), Color>,
    Clip: Node<(), bool>,
>(
    node: ConstructArtboardNode<Contents, Label, Location, Dimensions, Background, Clip>,
    footprint: Footprint,
    output: DynFuture<Artboard>,
    inner: IVec2,
)
    requires
        node.evaluates_to(footprint, output),
    ensures
        exists|location: IVec2, contents: DynFuture<GraphicGroup>|
            {
                &&& #[trigger] node.location.evaluates_to((), location)
                &&& #[trigger] node.contents.evaluates_to(footprint.translated_by(location), contents)
                &&& output@@.graphic_group == contents@@
                &&& footprint.translated_by(location).resolution == footprint.resolution
                &&& footprint.translated_by(location).transform == crate::transform::product_of(
                    footprint.transform,
                    crate::transform::translation_of(location),
                )
                &&& footprint.translated_by(location).translated_by(inner).transform == crate::transform::product_of(
                    crate::transform::product_of(footprint.transform, crate::transform::translation_of(location)),
                    crate::transform::translation_of(inner),
                )
            },
{
    let (contents, label, location, dimensions, background, clip) = choose|
        contents: DynFuture<GraphicGroup>,
        label: String,
        location: IVec2,
        dimensions: IVec2,
        background: Color,
        clip: bool,
    |
        {
            &&& #[trigger] node.label.evaluates_to((), label)
            &&& #[trigger] node.location.evaluates_to((), location)
            &&& #[trigger] node.dimensions.evaluates_to((), dimensions)
            &&& #[trigger] node.background.evaluates_to((), background)
            &&& #[trigger] node.clip.evaluates_to((), clip)
            &&& #[trigger] node.contents.evaluates_to(footprint.translated_by(location), contents)
            &&& output@@ == (ArtboardModel {
                graphic_group: contents@@,
                label: label@,
                location: normalized_location(location, dimensions),
                dimensions: abs_of(dimensions),
                background,
                clip,
            })
        };
    assert(node.location.evaluates_to((), location) && node.contents.evaluates_to(footprint.translated_by(location), contents));
}

/// Adds an artboard to a group of artboards: evaluates both on the
/// footprint and gives the group with the artboard after all that it held.
pub struct AddArtboardNode<Artboards, Board> {
    pub artboards: Artboards,
    pub artboard: Board,
}

impl<Artboards, Board> AddArtboardNode<Artboards, Board> {
    /// The node that adds what `artboard` gives to what `artboards` gives.
    pub fn new(artboards: Artboards, artboard: Board) -> (node: AddArtboardNode<Artboards, Board>)
        ensures
            node.artboards == artboards,
            node.artboard == artboard,
    {
        AddArtboardNode { artboards, artboard }
    }
}

impl<Artboards: Node<Footprint, DynFuture<ArtboardGroup>>, Board: Node<Footprint, DynFuture<Artboard>>> Node<
    Footprint,
    DynFuture<ArtboardGroup>,
> for AddArtboardNode<Artboards, Board> {
    open spec fn accepts(&self, input: Footprint) -> bool {
        self.artboard.accepts(input) && self.artboards.accepts(input)
    }

    open spec fn evaluates_to(&self, input: Footprint, output: DynFuture<ArtboardGroup>) -> bool {
        exists|artboard: DynFuture<Artboard>, artboards: DynFuture<ArtboardGroup>|
            {
                &&& #[trigger] self.artboard.evaluates_to(input, artboard)
                &&& #[trigger] self.artboards.evaluates_to(input, artboards)
                &&& output@@.artboards == artboards@@.artboards.push(artboard@@)
            }
    }

    open spec fn serializes_to(&self, snapshot: Option<Any<'static>>) -> bool {
        snapshot.is_none()
    }

    open spec fn name_spec(&self) -> &'static str {
        "AddArtboardNode"
    }

    fn eval(&self, input: Footprint) -> (output: DynFuture<ArtboardGroup>) {
        let artboard = self.artboard.eval(input);
        let artboards = self.artboards.eval(input);
        let ghost given_artboard = artboard;
        let ghost given_artboards = artboards;
        let mut group = artboards.wait();
        group.add_artboard(artboard.wait());
        let output = DynFuture::ready(group);
        assert(self.artboard.evaluates_to(input, given_artboard) && self.artboards.evaluates_to(input, given_artboards)
            && output@@.artboards == given_artboards@@.artboards.push(given_artboard@@));
        output
    }

    fn node_name(&self) -> (name: &'static str) {
        "AddArtboardNode"
    }

    fn reset(&self) {
        self.artboards.reset();
        self.artboard.reset();
    }

    fn serialize(&self) -> (snapshot: Option<Arc<Any<'static>>>) {
        None
    }
}

} // verus!
