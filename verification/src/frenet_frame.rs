//! One immutable snapshot of a curve's local orientation at a parameter
//! value.

use vstd::prelude::*;
use crate::vector::{Point3, Vector3};

verus! {

/// Position with tangent, normal and binormal directions at one curve
/// sample. The normal is the normalized acceleration direction, which is not
/// guaranteed orthogonal to the tangent unless the curve is arc-length
/// parametrized.
#[derive(Clone, Copy, PartialEq, Eq, Structural, Debug)]
pub struct FrenetFrame {
    pub position: Point3,
    pub tangent: Vector3,
    pub normal: Vector3,
    pub binormal: Vector3,
}

impl FrenetFrame {
    /// The frame with the given position and directions.
    pub fn new(p: &Point3, t: &Vector3, n: &Vector3, b: &Vector3) -> (r: FrenetFrame)
        ensures
            r.position == *p,
            r.tangent == *t,
            r.normal == *n,
            r.binormal == *b,
    {
        FrenetFrame { position: *p, tangent: *t, normal: *n, binormal: *b }
    }
}

} // verus!
