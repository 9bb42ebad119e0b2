//! The ways in which the properties panel can change the transform of a
//! layer.

use vstd::prelude::*;

verus! {

/// One component of a layer's transform that the panel can set.
#[derive(PartialEq, Eq, Structural, Clone, Copy, Debug)]
pub enum TransformOp {
    X,
    Y,
    ScaleX,
    ScaleY,
    Width,
    Height,
    Rotation,
}

} // verus!
