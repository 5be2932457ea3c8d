//! One immutable snapshot of a surface's local geometry at a parameter
//! pair.

use vstd::prelude::*;
use crate::scalar::Scalar;
use crate::vector::{Point3, Vector3};

verus! {

/// Position, parameter pair, normal and the two scalar curvatures at one
/// surface sample.
#[derive(Clone, Copy, Debug)]
pub struct SurfaceCurvature {
    pub point: Point3,
    pub uv: (Scalar, Scalar),
    pub normal: Vector3,
    pub gaussian: Scalar,
    pub mean: Scalar,
}

} // verus!
