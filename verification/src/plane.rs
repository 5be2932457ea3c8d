//! An oriented local basis used to embed 2-D parametrizations in 3-space.

use vstd::prelude::*;
use crate::scalar::{Scalar, ZERO_BITS, ONE_BITS, NEG_ONE_BITS, s_of};
use crate::vector::{Point3, Vector3, p3, v3, add_v, scale_v};

verus! {

/// An origin with an embedding basis. Orthonormality is a convention of the
/// default shapes, not an enforced invariant.
#[derive(Clone, Copy, PartialEq, Eq, Structural, Debug)]
pub struct Plane {
    pub origin: Point3,
    pub normal: Vector3,
    pub x_axis: Vector3,
    pub y_axis: Vector3,
}

/// The canonical plane at the origin: standard x and y axes, and a normal
/// deliberately pointing in the negative canonical direction. The default
/// shape formulas assume exactly this sign convention.
pub open spec fn spec_default_plane() -> Plane {
    Plane {
        origin: p3(s_of(ZERO_BITS), s_of(ZERO_BITS), s_of(ZERO_BITS)),
        x_axis: v3(s_of(ONE_BITS), s_of(ZERO_BITS), s_of(ZERO_BITS)),
        y_axis: v3(s_of(ZERO_BITS), s_of(ONE_BITS), s_of(ZERO_BITS)),
        normal: v3(s_of(ZERO_BITS), s_of(ZERO_BITS), s_of(NEG_ONE_BITS)),
    }
}

/// The basis combination `x_axis * dx + y_axis * dy + normal * dz` of `p`.
pub open spec fn spec_basis_vector(p: Plane, dx: Scalar, dy: Scalar, dz: Scalar) -> Vector3 {
    add_v(add_v(scale_v(p.x_axis, dx), scale_v(p.y_axis, dy)), scale_v(p.normal, dz))
}

impl Plane {
    /// The plane with the given origin and basis.
    pub fn new(o: Point3, x: Vector3, y: Vector3, n: Vector3) -> (r: Plane)
        ensures
            r.origin == o,
            r.x_axis == x,
            r.y_axis == y,
            r.normal == n,
    {
        Plane { origin: o, x_axis: x, y_axis: y, normal: n }
    }
}

impl Default for Plane {
    /// The canonical plane with the deliberately flipped default normal.
    fn default() -> (r: Plane)
        ensures
            r == spec_default_plane(),
    {
        let zero = crate::scalar::Scalar::from_bits(ZERO_BITS);
        let one = crate::scalar::Scalar::from_bits(ONE_BITS);
        let neg_one = crate::scalar::Scalar::from_bits(NEG_ONE_BITS);
        Plane {
            origin: Point3::new(zero, zero, zero),
            x_axis: Vector3::new(one, zero, zero),
            y_axis: Vector3::new(zero, one, zero),
            normal: Vector3::new(zero, zero, neg_one),
        }
    }
}

} // verus!
