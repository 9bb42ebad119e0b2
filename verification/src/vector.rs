//! Vector shapes: subpaths of bezier segments under a transform.

use crate::transform::identity_transform;
use bezier_rs::{Bezier, BezierHandles};
use glam::{DAffine2, DVec2};
use vstd::prelude::*;

verus! {

/// `bezier_rs::BezierHandles`: the handles of a segment, which tell its kind.
#[verifier::external_type_specification]
pub struct ExBezierHandles(BezierHandles);

/// `bezier_rs::Bezier`: one segment, with its start, its end and its handles.
#[verifier::external_type_specification]
pub struct ExBezier(Bezier);

/// What a `Subpath` holds.
pub struct SubpathModel {
    pub anchor: DVec2,
    pub segments: Seq<Bezier>,
    pub closed: bool,
}

/// One run of connected bezier segments. It starts at `anchor`; each segment
/// runs from where the one before it ended to its own `end`.
#[derive(Debug, PartialEq)]
pub struct Subpath {
    pub anchor: DVec2,
    pub segments: Vec<Bezier>,
    /// Whether the run returns to its anchor.
    pub closed: bool,
}

impl View for Subpath {
    type V = SubpathModel;

    open spec fn view(&self) -> SubpathModel {
        SubpathModel { anchor: self.anchor, segments: self.segments@, closed: self.closed }
    }
}

impl Clone for Subpath {
    /// A copy of the subpath that shares nothing with it.
    fn clone(&self) -> (copy: Subpath)
        ensures
            copy@ == self@,
    {
        let mut segments: Vec<Bezier> = Vec::new();
        let mut index: usize = 0;
        while index < self.segments.len()
            invariant
                index <= self.segments.len(),
                segments@ == self.segments@.take(index as int),
            decreases self.segments.len() - index,
        {
            segments.push(self.segments[index]);
            index += 1;
        }
        assert(segments@ =~= self.segments@);
        Subpath { anchor: self.anchor, segments, closed: self.closed }
    }
}

/// What a `VectorData` holds.
pub struct VectorDataModel {
    pub subpaths: Seq<SubpathModel>,
    pub transform: DAffine2,
}

/// A vector shape: its subpaths, in the shape's own space, and the transform
/// that places them.
#[derive(Debug, PartialEq)]
pub struct VectorData {
    pub subpaths: Vec<Subpath>,
    pub transform: DAffine2,
}

impl View for VectorData {
    type V = VectorDataModel;

    open spec fn view(&self) -> VectorDataModel {
        VectorDataModel { subpaths: Seq::new(self.subpaths@.len(), |i: int| self.subpaths@[i]@), transform: self.transform }
    }
}

impl VectorData {
    /// A shape without subpaths, left where it is.
    pub fn empty() -> (shape: VectorData)
        ensures
            shape@ == (VectorDataModel { subpaths: Seq::empty(), transform: crate::transform::identity() }),
    {
        let shape = VectorData { subpaths: Vec::new(), transform: identity_transform() };
        assert(shape@.subpaths =~= Seq::empty());
        shape
    }

    /// A shape with the given subpaths, left where it is.
    pub fn from_subpaths(subpaths: Vec<Subpath>) -> (shape: VectorData)
        ensures
            shape.subpaths == subpaths,
            shape.transform == crate::transform::identity(),
    {
        VectorData { subpaths, transform: identity_transform() }
    }
}

impl Clone for VectorData {
    /// A copy of the shape that shares nothing with it.
    fn clone(&self) -> (copy: VectorData)
        ensures
            copy@ == self@,
    {
        let mut subpaths: Vec<Subpath> = Vec::new();
        let mut index: usize = 0;
        while index < self.subpaths.len()
            invariant
                index <= self.subpaths.len(),
                subpaths@.len() == index,
                forall|i: int| 0 <= i < index ==> subpaths@[i]@ == self.subpaths@[i]@,
            decreases self.subpaths.len() - index,
        {
            subpaths.push(self.subpaths[index].clone());
            index += 1;
        }
        let copy = VectorData { subpaths, transform: self.transform };
        assert(copy@.subpaths =~= self@.subpaths);
        copy
    }
}

} // verus!
