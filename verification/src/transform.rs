//! The rendering context handed down an evaluation, and the integer and
//! double-precision vector arithmetic that the scene graph takes from `glam`.

use glam::{DAffine2, DVec2, IVec2, UVec2};
use vstd::prelude::*;

verus! {

/// `glam::IVec2`: two `i32` components.
#[verifier::external_type_specification]
pub struct ExIVec2(IVec2);

/// `glam::UVec2`: two `u32` components.
#[verifier::external_type_specification]
pub struct ExUVec2(UVec2);

/// `glam::DVec2`: a point or a vector in double precision, carried as it is.
#[verifier::external_type_specification]
#[verifier::external_body]
pub struct ExDVec2(DVec2);

/// `glam::DAffine2`: an affine transform in double precision, carried as it is.
#[verifier::external_type_specification]
#[verifier::external_body]
pub struct ExDAffine2(DAffine2);

/// The affine transform that `DAffine2::from_translation` builds from an
/// integer offset cast to double precision.
pub uninterp spec fn translation_of(offset: IVec2) -> DAffine2;

/// The product `left * right` of two affine transforms.
pub uninterp spec fn product_of(left: DAffine2, right: DAffine2) -> DAffine2;

/// The image of a point under `DAffine2::transform_point2`.
pub uninterp spec fn point_image(transform: DAffine2, point: DVec2) -> DVec2;

/// The transform that leaves every point where it is: a translation by nothing.
pub open spec fn identity() -> DAffine2 {
    translation_of(IVec2 { x: 0, y: 0 })
}

/// Component-wise minimum of two integer vectors.
pub open spec fn min_of(a: IVec2, b: IVec2) -> IVec2 {
    IVec2 { x: if a.x <= b.x { a.x } else { b.x }, y: if a.y <= b.y { a.y } else { b.y } }
}

/// Component-wise absolute value of an integer vector whose components are
/// both above `i32::MIN`.
pub open spec fn abs_of(v: IVec2) -> IVec2 {
    IVec2 { x: if v.x < 0 { (-v.x) as i32 } else { v.x }, y: if v.y < 0 { (-v.y) as i32 } else { v.y } }
}

/// Whether the component-wise sum of two integer vectors fits in `i32`.
pub open spec fn sum_fits(a: IVec2, b: IVec2) -> bool {
    &&& i32::MIN <= a.x + b.x <= i32::MAX
    &&& i32::MIN <= a.y + b.y <= i32::MAX
}

/// Component-wise sum of two integer vectors for which `sum_fits` holds.
pub open spec fn sum_of(a: IVec2, b: IVec2) -> IVec2 {
    IVec2 { x: (a.x + b.x) as i32, y: (a.y + b.y) as i32 }
}

/// `IVec2::min`: each component of the result is the smaller of the two
/// operands' components.
pub assume_specification[ IVec2::min ](a: IVec2, rhs: IVec2) -> (r: IVec2)
    ensures
        r == min_of(a, rhs),
;

/// `IVec2::abs`: each component of the result is the absolute value of the
/// operand's component. `i32::MIN` has none and is left out.
pub assume_specification[ IVec2::abs ](a: IVec2) -> (r: IVec2)
    requires
        a.x > i32::MIN,
        a.y > i32::MIN,
    ensures
        r == abs_of(a),
;

/// `IVec2 + IVec2`: the component-wise sum, for operands whose sum fits.
#[verifier::external_body]
pub(crate) fn sum(a: IVec2, b: IVec2) -> (r: IVec2)
    requires
        sum_fits(a, b),
    ensures
        r == sum_of(a, b),
{
    a + b
}

/// `DAffine2::IDENTITY`, which glam defines with the same matrix and the same
/// zero translation as `DAffine2::from_translation` gives for a zero offset.
#[verifier::external_body]
pub(crate) fn identity_transform() -> (transform: DAffine2)
    ensures
        transform == identity(),
{
    DAffine2::IDENTITY
}

/// `DAffine2::from_translation` on `IVec2::as_dvec2` of the offset.
#[verifier::external_body]
pub(crate) fn translation(offset: IVec2) -> (transform: DAffine2)
    ensures
        transform == translation_of(offset),
{
    DAffine2::from_translation(offset.as_dvec2())
}

/// `DAffine2 * DAffine2`.
#[verifier::external_body]
pub(crate) fn product(left: DAffine2, right: DAffine2) -> (transform: DAffine2)
    ensures
        transform == product_of(left, right),
{
    left * right
}

/// `DAffine2::transform_point2`.
#[verifier::external_body]
pub(crate) fn transform_point(transform: DAffine2, point: DVec2) -> (image: DVec2)
    ensures
        image == point_image(transform, point),
{
    transform.transform_point2(point)
}

/// The context of one render request: the transform from the space being
/// evaluated to the viewport, and the resolution of the target in pixels.
#[derive(Clone, Copy, Debug, PartialEq)]
pub struct Footprint {
    pub transform: DAffine2,
    pub resolution: UVec2,
}

impl Footprint {
    /// The footprint that a child placed at `offset` is evaluated with: the
    /// same resolution, and the transform multiplied on the right by the
    /// translation to `offset`.
    pub open spec fn translated_by(self, offset: IVec2) -> Footprint {
        Footprint { transform: product_of(self.transform, translation_of(offset)), resolution: self.resolution }
    }

    /// Returns the footprint for content placed at `offset`, leaving `self`
    /// as it was.
    pub fn translated(&self, offset: IVec2) -> (moved: Footprint)
        ensures
            moved == self.translated_by(offset),
    {
        Footprint { transform: product(self.transform, translation(offset)), resolution: self.resolution }
    }
}

} // verus!
