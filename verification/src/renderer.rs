//! Lowering of a scene into a `usvg` tree: one output node for each graphic
//! element, in paint order.

use crate::graphic_element::{GraphicElement, GraphicElementModel, GraphicGroup, GraphicGroupModel};
use crate::raster::{png_of, ImageFrame, ImageFrameModel};
use crate::transform::{point_image, transform_point};
use crate::vector::{Subpath, SubpathModel, VectorData, VectorDataModel};
use bezier_rs::{Bezier, BezierHandles};
use glam::{DAffine2, DVec2, UVec2};
use std::rc::Rc;
use std::sync::Arc;
use usvg::{Image as SvgImage, Node as SvgNode};
use vstd::prelude::*;

verus! {

/// `usvg::Node`: a group, a path, an image or a text.
#[verifier::external_type_specification]
pub struct ExSvgNode(SvgNode);

/// `usvg::Group`, of which the contracts speak through `children_of`.
#[verifier::external_type_specification]
#[verifier::external_body]
pub struct ExGroup(usvg::Group);

/// `usvg::Path`: path data with its paint and its transform.
#[verifier::external_type_specification]
pub struct ExPath(usvg::Path);

/// `usvg::Image`: an embedded image with its view box and its transform.
#[verifier::external_type_specification]
pub struct ExSvgImage(SvgImage);

/// `usvg::Text`, a variant of `usvg::Node` that lowering never builds.
#[verifier::external_type_specification]
#[verifier::external_body]
pub struct ExText(usvg::Text);

/// `usvg::Tree`: a size, a view box and the root group.
#[verifier::external_type_specification]
pub struct ExTree(usvg::Tree);

/// `usvg::ViewBox`: a rectangle and how content is fitted to it.
#[verifier::external_type_specification]
pub struct ExViewBox(usvg::ViewBox);

/// `usvg::ImageKind`: the file that an image node holds, by format.
#[verifier::external_type_specification]
pub struct ExImageKind(usvg::ImageKind);

/// `usvg::Visibility`.
#[verifier::external_type_specification]
pub struct ExVisibility(usvg::Visibility);

/// `usvg::ImageRendering`.
#[verifier::external_type_specification]
pub struct ExImageRendering(usvg::ImageRendering);

/// `usvg::Fill`, carried as it is.
#[verifier::external_type_specification]
#[verifier::external_body]
pub struct ExFill(usvg::Fill);

/// `usvg::Stroke`, carried as it is.
#[verifier::external_type_specification]
#[verifier::external_body]
pub struct ExStroke(usvg::Stroke);

/// `usvg::PaintOrder`.
#[verifier::external_type_specification]
pub struct ExPaintOrder(usvg::PaintOrder);

/// `usvg::ShapeRendering`.
#[verifier::external_type_specification]
pub struct ExShapeRendering(usvg::ShapeRendering);

/// `usvg::Transform`: six coefficients in single precision, carried as they are.
#[verifier::external_type_specification]
#[verifier::external_body]
pub struct ExTransform(usvg::Transform);

/// `usvg::Rect`, carried as it is.
#[verifier::external_type_specification]
#[verifier::external_body]
pub struct ExRect(usvg::Rect);

/// `usvg::NonZeroRect`: a rectangle with a finite, positive area, carried as it is.
#[verifier::external_type_specification]
#[verifier::external_body]
pub struct ExNonZeroRect(usvg::NonZeroRect);

/// `usvg::Size`: a positive width and height, carried as they are.
#[verifier::external_type_specification]
#[verifier::external_body]
pub struct ExSize(usvg::Size);

/// `usvg::AspectRatio`: how content is aligned in a view box, and whether it is cut to fill it.
#[verifier::external_type_specification]
pub struct ExAspectRatio(usvg::AspectRatio);

/// `usvg::Align`.
#[verifier::external_type_specification]
pub struct ExAlign(usvg::Align);

/// `tiny_skia_path::Path`: the segments of a finished path, carried as they are.
#[verifier::external_type_specification]
#[verifier::external_body]
pub struct ExPathData(usvg::tiny_skia_path::Path);

/// `tiny_skia_path::PathBuilder`, of which the contracts speak through the builder it is after each call.
#[verifier::external_type_specification]
#[verifier::external_body]
pub struct ExPathBuilder(usvg::tiny_skia_path::PathBuilder);

/// The children of an output group, in paint order.
pub uninterp spec fn children_of(group: usvg::Group) -> Seq<SvgNode>;

/// Whether an output group is, but for its children, as `usvg::Group::default`
/// gives it: without an id, a transform, a clip path, a mask, a filter or
/// bounding boxes, fully opaque, blended in the normal way and not isolated.
pub uninterp spec fn is_plain(group: usvg::Group) -> bool;

/// `usvg::Group::default`: a plain group without children.
#[verifier::external_body]
fn new_group() -> (group: usvg::Group)
    ensures
        children_of(group) == Seq::<SvgNode>::empty(),
        is_plain(group),
{
    usvg::Group::default()
}

/// `Vec::push` on the group's `children`: the node comes after the children
/// that are there, and nothing else of the group changes.
#[verifier::external_body]
fn push_child(group: &mut usvg::Group, node: SvgNode)
    ensures
        children_of(*final(group)) == children_of(*old(group)).push(node),
        is_plain(*final(group)) == is_plain(*old(group)),
{
    group.children.push(node)
}

/// Whether `node` is a plain group without children.
pub open spec fn is_empty_group(node: SvgNode) -> bool {
    node matches SvgNode::Group(group) && children_of(*group).len() == 0 && is_plain(*group)
}

/// An output group without children.
pub fn empty_group_node() -> (node: SvgNode)
    ensures
        is_empty_group(node),
{
    SvgNode::Group(Box::new(new_group()))
}

/// The output transform with the six coefficients of `transform`, each
/// narrowed to single precision.
pub uninterp spec fn transform_of(transform: DAffine2) -> usvg::Transform;

/// `usvg::Transform::from_row` on the columns of the affine transform, which
/// `DMat2::as_mat2` and `DVec2::as_vec2` narrow to single precision.
#[verifier::external_body]
fn to_transform(transform: DAffine2) -> (output: usvg::Transform)
    ensures
        output == transform_of(transform),
{
    let cols = transform.matrix2.as_mat2().to_cols_array();
    let shift = transform.translation.as_vec2();
    usvg::Transform::from_row(cols[0], cols[1], cols[2], cols[3], shift.x, shift.y)
}

/// The builder after `PathBuilder::new` and a `move_to` to `start`.
pub uninterp spec fn begun_at(start: DVec2) -> usvg::tiny_skia_path::PathBuilder;

/// The builder after `move_to`.
pub uninterp spec fn after_move_to(builder: usvg::tiny_skia_path::PathBuilder, to: DVec2) -> usvg::tiny_skia_path::PathBuilder;

/// The builder after `line_to`.
pub uninterp spec fn after_line_to(builder: usvg::tiny_skia_path::PathBuilder, to: DVec2) -> usvg::tiny_skia_path::PathBuilder;

/// The builder after `quad_to`.
pub uninterp spec fn after_quad_to(builder: usvg::tiny_skia_path::PathBuilder, handle: DVec2, to: DVec2) -> usvg::tiny_skia_path::PathBuilder;

/// The builder after `cubic_to`.
pub uninterp spec fn after_cubic_to(
    builder: usvg::tiny_skia_path::PathBuilder,
    handle_start: DVec2,
    handle_end: DVec2,
    to: DVec2,
) -> usvg::tiny_skia_path::PathBuilder;

/// The builder after `close`.
pub uninterp spec fn after_close(builder: usvg::tiny_skia_path::PathBuilder) -> usvg::tiny_skia_path::PathBuilder;

/// What `finish` makes of the builder: a path, or `None` where the builder
/// holds no segment or its points have no finite bounds.
pub uninterp spec fn finished(builder: usvg::tiny_skia_path::PathBuilder) -> Option<usvg::tiny_skia_path::Path>;

/// `PathBuilder::new`, then `PathBuilder::move_to` at `start` narrowed to
/// single precision.
#[verifier::external_body]
fn begin_path(start: DVec2) -> (builder: usvg::tiny_skia_path::PathBuilder)
    ensures
        builder == begun_at(start),
{
    let mut builder = usvg::tiny_skia_path::PathBuilder::new();
    let start = start.as_vec2();
    builder.move_to(start.x, start.y);
    builder
}

/// `PathBuilder::move_to` at `to` narrowed to single precision.
#[verifier::external_body]
fn move_to(builder: &mut usvg::tiny_skia_path::PathBuilder, to: DVec2)
    ensures
        *final(builder) == after_move_to(*old(builder), to),
{
    let to = to.as_vec2();
    builder.move_to(to.x, to.y)
}

/// `PathBuilder::line_to` at `to` narrowed to single precision.
#[verifier::external_body]
fn line_to(builder: &mut usvg::tiny_skia_path::PathBuilder, to: DVec2)
    ensures
        *final(builder) == after_line_to(*old(builder), to),
{
    let to = to.as_vec2();
    builder.line_to(to.x, to.y)
}

/// `PathBuilder::quad_to` with the points narrowed to single precision.
#[verifier::external_body]
fn quad_to(builder: &mut usvg::tiny_skia_path::PathBuilder, handle: DVec2, to: DVec2)
    ensures
        *final(builder) == after_quad_to(*old(builder), handle, to),
{
    let handle = handle.as_vec2();
    let to = to.as_vec2();
    builder.quad_to(handle.x, handle.y, to.x, to.y)
}

/// `PathBuilder::cubic_to` with the points narrowed to single precision.
#[verifier::external_body]
fn cubic_to(builder: &mut usvg::tiny_skia_path::PathBuilder, handle_start: DVec2, handle_end: DVec2, to: DVec2)
    ensures
        *final(builder) == after_cubic_to(*old(builder), handle_start, handle_end, to),
{
    let handle_start = handle_start.as_vec2();
    let handle_end = handle_end.as_vec2();
    let to = to.as_vec2();
    builder.cubic_to(handle_start.x, handle_start.y, handle_end.x, handle_end.y, to.x, to.y)
}

/// `PathBuilder::close`.
#[verifier::external_body]
fn close(builder: &mut usvg::tiny_skia_path::PathBuilder)
    ensures
        *final(builder) == after_close(*old(builder)),
{
    builder.close()
}

/// `PathBuilder::finish`.
#[verifier::external_body]
fn finish(builder: usvg::tiny_skia_path::PathBuilder) -> (path: Option<usvg::tiny_skia_path::Path>)
    ensures
        path == finished(builder),
{
    builder.finish()
}

/// The builder after the segment placed by `transform`: a line, a quadratic
/// or a cubic curve to the segment's end, by the kind of its handles.
pub open spec fn with_segment(
    builder: usvg::tiny_skia_path::PathBuilder,
    transform: DAffine2,
    segment: Bezier,
) -> usvg::tiny_skia_path::PathBuilder {
    match segment.handles {
        BezierHandles::Linear => after_line_to(builder, point_image(transform, segment.end)),
        BezierHandles::Quadratic { handle } => after_quad_to(
            builder,
            point_image(transform, handle),
            point_image(transform, segment.end),
        ),
        BezierHandles::Cubic { handle_start, handle_end } => after_cubic_to(
            builder,
            point_image(transform, handle_start),
            point_image(transform, handle_end),
            point_image(transform, segment.end),
        ),
    }
}

/// The builder after the segments, first to last.
pub open spec fn with_segments(
    builder: usvg::tiny_skia_path::PathBuilder,
    transform: DAffine2,
    segments: Seq<Bezier>,
) -> usvg::tiny_skia_path::PathBuilder
    decreases segments.len(),
{
    if segments.len() == 0 {
        builder
    } else {
        with_segment(with_segments(builder, transform, segments.drop_last()), transform, segments.last())
    }
}

/// The builder after the segments of a subpath, closed if the subpath is.
/// The builder already stands at the subpath's anchor.
pub open spec fn with_outline(
    builder: usvg::tiny_skia_path::PathBuilder,
    transform: DAffine2,
    subpath: SubpathModel,
) -> usvg::tiny_skia_path::PathBuilder {
    let drawn = with_segments(builder, transform, subpath.segments);
    if subpath.closed {
        after_close(drawn)
    } else {
        drawn
    }
}

/// The builder after the subpaths, first to last, of which there is at least
/// one. Each starts with a move to its anchor as `transform` places it.
pub open spec fn with_subpaths(transform: DAffine2, subpaths: Seq<SubpathModel>) -> usvg::tiny_skia_path::PathBuilder
    recommends
        subpaths.len() > 0,
    decreases subpaths.len(),
{
    if subpaths.len() <= 1 {
        with_outline(begun_at(point_image(transform, subpaths[0].anchor)), transform, subpaths[0])
    } else {
        with_outline(
            after_move_to(with_subpaths(transform, subpaths.drop_last()), point_image(transform, subpaths.last().anchor)),
            transform,
            subpaths.last(),
        )
    }
}

/// The path data of a shape: every point placed by the shape's transform.
/// `None` for a shape without subpaths, and where the builder gives none.
pub open spec fn path_data_of(shape: VectorDataModel) -> Option<usvg::tiny_skia_path::Path> {
    if shape.subpaths.len() == 0 {
        None
    } else {
        finished(with_subpaths(shape.transform, shape.subpaths))
    }
}

/// Adds one segment to the builder.
fn add_segment(builder: &mut usvg::tiny_skia_path::PathBuilder, transform: DAffine2, segment: &Bezier)
    ensures
        *final(builder) == with_segment(*old(builder), transform, *segment),
{
    let end = transform_point(transform, segment.end);
    match segment.handles {
        BezierHandles::Linear => line_to(builder, end),
        BezierHandles::Quadratic { handle } => quad_to(builder, transform_point(transform, handle), end),
        BezierHandles::Cubic { handle_start, handle_end } => cubic_to(
            builder,
            transform_point(transform, handle_start),
            transform_point(transform, handle_end),
            end,
        ),
    }
}

/// Adds the segments of a subpath to a builder that stands at its anchor,
/// and closes the outline if the subpath is closed.
fn add_outline(builder: &mut usvg::tiny_skia_path::PathBuilder, transform: DAffine2, subpath: &Subpath)
    ensures
        *final(builder) == with_outline(*old(builder), transform, subpath@),
{
    let mut index: usize = 0;
    while index < subpath.segments.len()
        invariant
            index <= subpath.segments.len(),
            *builder == with_segments(*old(builder), transform, subpath.segments@.take(index as int)),
        decreases subpath.segments.len() - index,
    {
        add_segment(builder, transform, &subpath.segments[index]);
        proof {
            let next = subpath.segments@.take(index + 1);
            assert(next.drop_last() =~= subpath.segments@.take(index as int));
        }
        index += 1;
    }
    assert(subpath.segments@.take(index as int) =~= subpath.segments@);
    if subpath.closed {
        close(builder);
    }
}

/// Builds the path data of a shape.
pub fn path_data(vector_data: &VectorData) -> (data: Option<usvg::tiny_skia_path::Path>)
    ensures
        data == path_data_of(vector_data@),
{
    if vector_data.subpaths.len() == 0 {
        return None;
    }
    let transform = vector_data.transform;
    let first = &vector_data.subpaths[0];
    let mut builder = begin_path(transform_point(transform, first.anchor));
    add_outline(&mut builder, transform, first);
    assert(vector_data@.subpaths.take(1).len() == 1);
    let mut index: usize = 1;
    while index < vector_data.subpaths.len()
        invariant
            1 <= index <= vector_data.subpaths.len(),
            transform == vector_data.transform,
            builder == with_subpaths(transform, vector_data@.subpaths.take(index as int)),
        decreases vector_data.subpaths.len() - index,
    {
        let subpath = &vector_data.subpaths[index];
        move_to(&mut builder, transform_point(transform, subpath.anchor));
        add_outline(&mut builder, transform, subpath);
        proof {
            let next = vector_data@.subpaths.take(index + 1);
            assert(next.drop_last() =~= vector_data@.subpaths.take(index as int));
        }
        index += 1;
    }
    assert(vector_data@.subpaths.take(index as int) =~= vector_data@.subpaths);
    finish(builder)
}

/// `usvg::Path::new`: a visible path over the given data, without an id, a
/// fill, a stroke or bounding boxes, filled before it is stroked and drawn
/// with geometric precision.
pub assume_specification[ usvg::Path::new ](data: Rc<usvg::tiny_skia_path::Path>) -> (path: usvg::Path)
    ensures
        path.data == data,
        path.id@.len() == 0,
        path.fill.is_none(),
        path.stroke.is_none(),
        path.visibility == usvg::Visibility::Visible,
        path.paint_order == usvg::PaintOrder::FillAndStroke,
        path.rendering_mode == usvg::ShapeRendering::GeometricPrecision,
        path.bounding_box.is_none(),
        path.stroke_bounding_box.is_none(),
;

/// Whether a stroke is the one that `usvg::Stroke::default` gives: solid
/// black, fully opaque, one unit wide.
pub uninterp spec fn is_default_stroke(stroke: usvg::Stroke) -> bool;

/// `usvg::Stroke::default`.
#[verifier::external_body]
fn default_stroke() -> (stroke: usvg::Stroke)
    ensures
        is_default_stroke(stroke),
{
    usvg::Stroke::default()
}

/// How content is fitted to a view box where nothing else is asked for:
/// centred in both directions, and in full.
pub open spec fn centred() -> usvg::AspectRatio {
    usvg::AspectRatio { defer: false, align: usvg::Align::XMidYMid, slice: false }
}

/// `usvg::AspectRatio::default`.
#[verifier::external_body]
fn default_aspect() -> (aspect: usvg::AspectRatio)
    ensures
        aspect == centred(),
{
    usvg::AspectRatio::default()
}

/// Whether `path` is a stroked, unfilled path over `data` under `transform`,
/// and otherwise as `usvg::Path::new` gives it.
pub open spec fn is_stroked_path(path: usvg::Path, data: usvg::tiny_skia_path::Path, transform: DAffine2) -> bool {
    &&& *path.data == data
    &&& path.abs_transform == transform_of(transform)
    &&& path.id@.len() == 0
    &&& path.fill.is_none()
    &&& path.stroke matches Some(stroke) && is_default_stroke(stroke)
    &&& path.visibility == usvg::Visibility::Visible
    &&& path.paint_order == usvg::PaintOrder::FillAndStroke
    &&& path.rendering_mode == usvg::ShapeRendering::GeometricPrecision
    &&& path.bounding_box.is_none()
    &&& path.stroke_bounding_box.is_none()
}

/// Whether `image` is a visible image that shows the PNG file `png` on the
/// unit square under `transform`, drawn for speed.
pub open spec fn is_png_image(image: SvgImage, png: Seq<u8>, transform: DAffine2) -> bool {
    &&& image.kind matches usvg::ImageKind::PNG(bytes) && bytes@ == png
    &&& image.id@.len() == 0
    &&& image.abs_transform == transform_of(transform)
    &&& image.visibility == usvg::Visibility::Visible
    &&& Some(image.view_box.rect) == rect_xywh_of(0, 0, 1, 1)
    &&& image.view_box.aspect == centred()
    &&& image.rendering_mode == usvg::ImageRendering::OptimizeSpeed
    &&& image.bounding_box.is_none()
}

/// The rectangle that `NonZeroRect::from_xywh` makes of a corner and an
/// extent given as whole numbers.
pub uninterp spec fn rect_xywh_of(x: u16, y: u16, width: u16, height: u16) -> Option<usvg::NonZeroRect>;

/// The rectangle that `NonZeroRect::from_ltrb` makes of two corners narrowed
/// to single precision, or `None` where they span no finite area.
pub uninterp spec fn rect_ltrb_of(top_left: DVec2, bottom_right: DVec2) -> Option<usvg::NonZeroRect>;

/// The size that `Size::from_wh` makes of a resolution.
pub uninterp spec fn output_size_of(resolution: UVec2) -> Option<usvg::Size>;

/// `NonZeroRect::from_xywh` on whole numbers, which single precision holds
/// exactly, as are their sums. A rectangle comes back exactly where the
/// width and the height are positive.
#[verifier::external_body]
fn rect_from_xywh(x: u16, y: u16, width: u16, height: u16) -> (rect: Option<usvg::NonZeroRect>)
    ensures
        rect == rect_xywh_of(x, y, width, height),
        rect.is_some() <==> (width > 0 && height > 0),
{
    usvg::NonZeroRect::from_xywh(x.into(), y.into(), width.into(), height.into())
}

/// `NonZeroRect::from_ltrb` on two corners narrowed to single precision.
#[verifier::external_body]
fn rect_from_corners(top_left: DVec2, bottom_right: DVec2) -> (rect: Option<usvg::NonZeroRect>)
    ensures
        rect == rect_ltrb_of(top_left, bottom_right),
{
    let top_left = top_left.as_vec2();
    let bottom_right = bottom_right.as_vec2();
    usvg::NonZeroRect::from_ltrb(top_left.x, top_left.y, bottom_right.x, bottom_right.y)
}

/// `Size::from_wh` on a resolution cast to single precision. A size comes
/// back exactly where the width and the height are positive.
#[verifier::external_body]
fn size_from_resolution(resolution: UVec2) -> (size: Option<usvg::Size>)
    ensures
        size == output_size_of(resolution),
        size.is_some() <==> (resolution.x > 0 && resolution.y > 0),
{
    let extent = resolution.as_vec2();
    usvg::Size::from_wh(extent.x, extent.y)
}

/// Whether `node` draws `shape`: a stroked, unfilled path over the shape's
/// path data, under the shape's transform; or, where the shape has no path
/// data, an empty group.
pub open spec fn renders_shape(shape: VectorDataModel, node: SvgNode) -> bool {
    match path_data_of(shape) {
        Some(data) => node matches SvgNode::Path(path) && is_stroked_path(*path, data, shape.transform),
        None => is_empty_group(node),
    }
}

/// The PNG file that stands for a frame in the output: none for an image
/// without area, for one whose pixel data does not match its size, and where
/// the encoder reports an error.
pub open spec fn embedded_png_of(frame: ImageFrameModel) -> Option<Seq<u8>> {
    if frame.image.has_no_area() || !frame.image.well_formed() {
        None
    } else {
        png_of(frame.image.width, frame.image.height, frame.image.data)
    }
}

/// Whether `node` draws `frame`: a visible image node that holds the frame's
/// PNG file on the unit square, under the frame's transform; or, where there
/// is no PNG file to hold, an empty group.
pub open spec fn renders_image(frame: ImageFrameModel, node: SvgNode) -> bool {
    match embedded_png_of(frame) {
        Some(png) => node matches SvgNode::Image(image) && is_png_image(*image, png, frame.transform),
        None => is_empty_group(node),
    }
}

/// Whether `node` draws `element`. A group is drawn by an output group with
/// one child for each of its elements, in the same order, each drawing its
/// element. An artboard is drawn by an empty group.
pub open spec fn renders(element: GraphicElementModel, node: SvgNode) -> bool
    decreases element,
{
    match element {
        GraphicElementModel::VectorData(shape) => renders_shape(shape, node),
        GraphicElementModel::ImageFrame(frame) => renders_image(frame, node),
        GraphicElementModel::GraphicGroup(group) => {
            &&& node matches SvgNode::Group(output)
            &&& is_plain(*output)
            &&& children_of(*output).len() == group.elements.len()
            &&& forall|i: int| 0 <= i < group.elements.len() ==> renders(group.elements[i], #[trigger] children_of(*output)[i])
        },
        GraphicElementModel::Artboard(_) => is_empty_group(node),
    }
}

/// Whether `nodes` draw `elements`, one for one and in the same order.
pub open spec fn renders_all(elements: Seq<GraphicElementModel>, nodes: Seq<SvgNode>) -> bool {
    &&& nodes.len() == elements.len()
    &&& forall|i: int| 0 <= i < elements.len() ==> renders(elements[i], #[trigger] nodes[i])
}

/// The output node for path data under a transform, or an empty group where
/// there is no path data.
pub fn path_node(data: Option<usvg::tiny_skia_path::Path>, transform: DAffine2) -> (node: SvgNode)
    ensures
        match data {
            Some(data) => node matches SvgNode::Path(path) && is_stroked_path(*path, data, transform),
            None => is_empty_group(node),
        },
{
    match data {
        Some(data) => {
            let mut path = usvg::Path::new(Rc::new(data));
            path.abs_transform = to_transform(transform);
            path.fill = None;
            path.stroke = Some(default_stroke());
            SvgNode::Path(Box::new(path))
        },
        None => empty_group_node(),
    }
}

/// The output node for a PNG file under a transform, or an empty group where
/// there is no file.
pub fn image_node(png: Option<Vec<u8>>, transform: DAffine2) -> (node: SvgNode)
    ensures
        match png {
            Some(png) => node matches SvgNode::Image(image) && is_png_image(*image, png@, transform),
            None => is_empty_group(node),
        },
{
    match (png, rect_from_xywh(0, 0, 1, 1)) {
        (Some(png), Some(rect)) => SvgNode::Image(
            Box::new(
                SvgImage {
                    id: String::new(),
                    abs_transform: to_transform(transform),
                    visibility: usvg::Visibility::Visible,
                    view_box: usvg::ViewBox { rect, aspect: default_aspect() },
                    rendering_mode: usvg::ImageRendering::OptimizeSpeed,
                    kind: usvg::ImageKind::PNG(Arc::new(png)),
                    bounding_box: None,
                },
            ),
        ),
        _ => empty_group_node(),
    }
}

impl ImageFrame {
    /// The PNG file that stands for the frame in the output, if there is one.
    pub fn embedded_png(&self) -> (png: Option<Vec<u8>>)
        ensures
            match png {
                Some(bytes) => embedded_png_of(self@) == Some(bytes@),
                None => embedded_png_of(self@).is_none(),
            },
    {
        if self.image.width == 0 || self.image.height == 0 || !self.image.is_well_formed() {
            None
        } else {
            self.image.to_png()
        }
    }
}

impl GraphicGroup {
    /// Lowers the elements of the group, in order, to the children of an
    /// output group.
    pub fn to_usvg_group(&self) -> (output: usvg::Group)
        ensures
            is_plain(output),
            renders_all(self@.elements, children_of(output)),
        decreases *self,
    {
        let mut output = new_group();
        let mut index: usize = 0;
        while index < self.elements.len()
            invariant
                index <= self.elements.len(),
                is_plain(output),
                renders_all(self@.elements.take(index as int), children_of(output)),
            decreases self.elements.len() - index,
        {
            let ghost before = children_of(output);
            let child = self.elements[index].to_usvg_node();
            push_child(&mut output, child);
            assert(forall|i: int| 0 <= i < index ==> children_of(output)[i] == before[i]);
            index += 1;
        }
        assert(self@.elements.take(index as int) =~= self@.elements);
        output
    }
}

impl GraphicElement {
    /// Lowers the element to the output node that draws it. No element is
    /// refused: one with nothing to draw gives an empty group.
    pub fn to_usvg_node(&self) -> (node: SvgNode)
        ensures
            renders(self@, node),
        decreases *self,
    {
        match self {
            GraphicElement::VectorData(vector_data) => path_node(path_data(vector_data), vector_data.transform),
            GraphicElement::ImageFrame(image_frame) => image_node(image_frame.embedded_png(), image_frame.transform),
            GraphicElement::GraphicGroup(group) => SvgNode::Group(Box::new(group.to_usvg_group())),
            GraphicElement::Artboard(_) => empty_group_node(),
        }
    }
}

/// Whether a scene can be lowered at this resolution and view box: the
/// resolution is positive in both directions, and the corners of the view
/// box span a finite area, the first above and to the left of the second.
pub open spec fn can_lower(resolution: UVec2, viewbox: [DVec2; 2]) -> bool {
    &&& resolution.x > 0
    &&& resolution.y > 0
    &&& rect_ltrb_of(viewbox[0], viewbox[1]).is_some()
}

/// Whether `tree` is the output for `group` at the given size and view box:
/// its root holds one child for each element of the group, in paint order,
/// each drawing its element.
pub open spec fn is_tree_of(group: GraphicGroupModel, size: usvg::Size, rect: usvg::NonZeroRect, tree: usvg::Tree) -> bool {
    &&& tree.size == size
    &&& tree.view_box.rect == rect
    &&& tree.view_box.aspect == centred()
    &&& is_plain(tree.root)
    &&& renders_all(group.elements, children_of(tree.root))
}

impl GraphicGroup {
    /// Lowers the group to an output tree of the given size and view box.
    pub fn to_tree(&self, size: usvg::Size, rect: usvg::NonZeroRect) -> (tree: usvg::Tree)
        ensures
            is_tree_of(self@, size, rect, tree),
    {
        usvg::Tree { size, view_box: usvg::ViewBox { rect, aspect: default_aspect() }, root: self.to_usvg_group() }
    }

    /// Lowers the group to an output tree for a target of `resolution`
    /// pixels that shows the rectangle between the two corners of `viewbox`.
    pub fn to_usvg_tree(&self, resolution: UVec2, viewbox: [DVec2; 2]) -> (tree: usvg::Tree)
        requires
            can_lower(resolution, viewbox),
        ensures
            output_size_of(resolution) matches Some(size) && rect_ltrb_of(viewbox[0], viewbox[1]) matches Some(rect) && is_tree_of(
                self@,
                size,
                rect,
                tree,
            ),
    {
        let size = size_from_resolution(resolution);
        let rect = rect_from_corners(viewbox[0], viewbox[1]);
        self.to_tree(size.unwrap(), rect.unwrap())
    }

    /// Lowers the group as `to_usvg_tree` does where the resolution and the
    /// view box allow it, and gives `None` where they do not.
    pub fn try_to_usvg_tree(&self, resolution: UVec2, viewbox: [DVec2; 2]) -> (tree: Option<usvg::Tree>)
        ensures
            tree.is_some() <==> can_lower(resolution, viewbox),
            tree matches Some(tree) ==> output_size_of(resolution) matches Some(size) && rect_ltrb_of(
                viewbox[0],
                viewbox[1],
            ) matches Some(rect) && is_tree_of(self@, size, rect, tree),
    {
        match (size_from_resolution(resolution), rect_from_corners(viewbox[0], viewbox[1])) {
            (Some(size), Some(rect)) => Some(self.to_tree(size, rect)),
            _ => None,
        }
    }
}

impl GraphicGroupModel {
    /// The group after `elements` have been pushed onto it, first to last.
    pub open spec fn pushed_all(self, elements: Seq<GraphicElementModel>) -> GraphicGroupModel
        decreases elements.len(),
    {
        if elements.len() == 0 {
            self
        } else {
            self.pushed_all(elements.drop_last()).pushed(elements.last())
        }
    }
}

/// Pushing keeps what a group held and adds the new elements after it, in
/// the order in which they were pushed.
pub proof fn pushed_all_appends(group: GraphicGroupModel, elements: Seq<GraphicElementModel>)
    ensures
        group.pushed_all(elements).elements == group.elements + elements,
        group.pushed_all(elements).transform == group.transform,
        group.pushed_all(elements).alpha_blending == group.alpha_blending,
    decreases elements.len(),
{
    if elements.len() > 0 {
        pushed_all_appends(group, elements.drop_last());
        assert(group.elements + elements =~= (group.elements + elements.drop_last()).push(elements.last()));
    } else {
        assert(group.elements + elements =~= group.elements);
    }
}

/// Paint order is push order: in any lowering of a group onto which
/// `elements` were pushed, the nodes of what the group held come first, and
/// after them one node for each pushed element, in the order of the pushes.
pub proof fn lowering_keeps_push_order(group: GraphicGroupModel, elements: Seq<GraphicElementModel>, nodes: Seq<SvgNode>)
    requires
        renders_all(group.pushed_all(elements).elements, nodes),
    ensures
        nodes.len() == group.elements.len() + elements.len(),
        forall|i: int| 0 <= i < group.elements.len() ==> renders(group.elements[i], #[trigger] nodes[i]),
        forall|i: int| 0 <= i < elements.len() ==> renders(#[trigger] elements[i], nodes[group.elements.len() + i]),
{
    pushed_all_appends(group, elements);
    let all = group.pushed_all(elements).elements;
    assert forall|i: int| 0 <= i < group.elements.len() implies renders(group.elements[i], #[trigger] nodes[i]) by {
        assert(all[i] == group.elements[i]);
    }
    assert forall|i: int| 0 <= i < elements.len() implies renders(#[trigger] elements[i], nodes[group.elements.len() + i]) by {
        assert(all[group.elements.len() + i] == elements[i]);
        assert(renders(all[group.elements.len() + i], nodes[group.elements.len() + i]));
    }
}

/// An image frame without width or without height is drawn by an empty
/// group, whatever else it holds.
pub proof fn image_without_area_is_empty_group(frame: ImageFrameModel, node: SvgNode)
    requires
        frame.image.width == 0 || frame.image.height == 0,
        renders(GraphicElementModel::ImageFrame(frame), node),
    ensures
        is_empty_group(node),
{
}

} // verus!
