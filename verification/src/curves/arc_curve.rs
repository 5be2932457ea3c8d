//! A circular arc embedded in a plane.

use vstd::prelude::*;
use crate::curves::curve::{Curve, CurvePrimitives};
use crate::domain::Domain;
use crate::plane::{Plane, spec_default_plane};
use crate::scalar::{Scalar, ZERO_BITS, TWO_BITS, PI_BITS, s_of, s_mul, s_neg, s_sin, s_cos};
use crate::vector::{Point3, Vector3, add_v, scale_v, translate_p};

verus! {

/// An arc of the circle with the given radius, swept over the given angle,
/// embedded in `plane`.
#[derive(Clone, Copy, PartialEq, Eq, Structural, Debug)]
pub struct ArcCurve {
    pub plane: Plane,
    pub radius: Scalar,
    pub angle: Scalar,
}

impl ArcCurve {
    /// The arc with the given embedding plane, radius and sweep angle.
    pub fn new(plane: Plane, radius: Scalar, angle: Scalar) -> (r: ArcCurve)
        ensures
            r.plane == plane,
            r.radius == radius,
            r.angle == angle,
    {
        ArcCurve { plane, radius, angle }
    }
}

impl Default for ArcCurve {
    /// A half circle of radius 2 in the canonical plane.
    fn default() -> (r: ArcCurve)
        ensures
            r.plane == spec_default_plane(),
            r.radius == s_of(TWO_BITS),
            r.angle == s_of(PI_BITS),
    {
        ArcCurve::new(Plane::default(), Scalar::from_bits(TWO_BITS), Scalar::from_bits(PI_BITS))
    }
}

/// `origin + x_axis * (radius cos(s angle)) + y_axis * (radius sin(s angle))`.
pub open spec fn spec_arc_point(c: ArcCurve, s: Scalar) -> Point3 {
    let r = s_mul(s, c.angle);
    let dx = s_mul(c.radius, s_cos(r));
    let dy = s_mul(c.radius, s_sin(r));
    translate_p(
        translate_p(c.plane.origin, scale_v(c.plane.x_axis, dx)),
        scale_v(c.plane.y_axis, dy),
    )
}

/// `x_axis * (-radius sin(s angle)) + y_axis * (radius cos(s angle))`.
pub open spec fn spec_arc_velocity(c: ArcCurve, s: Scalar) -> Vector3 {
    let r = s_mul(s, c.angle);
    let dx = s_mul(s_neg(c.radius), s_sin(r));
    let dy = s_mul(c.radius, s_cos(r));
    add_v(scale_v(c.plane.x_axis, dx), scale_v(c.plane.y_axis, dy))
}

/// `x_axis * (-radius cos(s angle)) + y_axis * (-radius sin(s angle))`.
pub open spec fn spec_arc_acceleration(c: ArcCurve, s: Scalar) -> Vector3 {
    let r = s_mul(s, c.angle);
    let dx = s_mul(s_neg(c.radius), s_cos(r));
    let dy = s_mul(s_neg(c.radius), s_sin(r));
    add_v(scale_v(c.plane.x_axis, dx), scale_v(c.plane.y_axis, dy))
}

impl CurvePrimitives for ArcCurve {
    /// The angle interval from 0 to the sweep angle.
    open spec fn spec_domain(&self) -> Domain {
        Domain { start: s_of(ZERO_BITS), end: self.angle }
    }

    /// Exactly the arc formula's value.
    open spec fn point_at_spec(&self, s: Scalar, p: Point3) -> bool {
        p == spec_arc_point(*self, s)
    }

    /// Exactly the arc formula's derivative value.
    open spec fn velocity_at_spec(&self, s: Scalar, v: Vector3) -> bool {
        v == spec_arc_velocity(*self, s)
    }

    /// Exactly the arc formula's second derivative value.
    open spec fn acceleration_at_spec(&self, s: Scalar, a: Vector3) -> bool {
        a == spec_arc_acceleration(*self, s)
    }

    fn domain(&self) -> Domain {
        Domain::new(Scalar::from_bits(ZERO_BITS), self.angle)
    }

    fn point_at(&self, s: Scalar) -> Point3 {
        let r = s.mul_s(self.angle);
        let dx = self.radius.mul_s(r.cos());
        let dy = self.radius.mul_s(r.sin());
        let o = self.plane.origin;
        o.translate(self.plane.x_axis.scale(dx)).translate(self.plane.y_axis.scale(dy))
    }

    fn velocity_at(&self, s: Scalar) -> Vector3 {
        let r = s.mul_s(self.angle);
        let dx = self.radius.neg_s().mul_s(r.sin());
        let dy = self.radius.mul_s(r.cos());
        self.plane.x_axis.scale(dx).plus(self.plane.y_axis.scale(dy))
    }

    fn acceleration_at(&self, s: Scalar) -> Vector3 {
        let r = s.mul_s(self.angle);
        let dx = self.radius.neg_s().mul_s(r.cos());
        let dy = self.radius.neg_s().mul_s(r.sin());
        self.plane.x_axis.scale(dx).plus(self.plane.y_axis.scale(dy))
    }
}

impl Curve for ArcCurve {
    /// Exactly the closed form `radius * angle`.
    open spec fn length_spec(&self, r: Scalar) -> bool {
        r == s_mul(self.radius, self.angle)
    }

    fn length(&self) -> Scalar {
        self.radius.mul_s(self.angle)
    }
}

} // verus!
