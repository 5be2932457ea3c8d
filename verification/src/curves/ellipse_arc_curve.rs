//! An elliptical arc embedded in a plane.

use vstd::prelude::*;
use crate::curves::curve::{Curve, CurveOps, CurvePrimitives, spec_integral_length_rel};
use crate::domain::Domain;
use crate::plane::{Plane, spec_default_plane};
use crate::scalar::{
    Scalar, ZERO_BITS, ONE_BITS, TWO_BITS, PI_BITS, DELTA_DEFAULT_BITS, s_of, s_mul, s_neg,
    s_sin, s_cos,
};
use crate::vector::{Point3, Vector3, add_v, scale_v, translate_p};

verus! {

/// An arc of the ellipse with semi-axes `a` and `b`, swept over the given
/// angle, embedded in `plane`.
#[derive(Clone, Copy, PartialEq, Eq, Structural, Debug)]
pub struct EllipseArcCurve {
    pub plane: Plane,
    pub a: Scalar,
    pub b: Scalar,
    pub angle: Scalar,
}

impl EllipseArcCurve {
    /// The elliptical arc with the given plane, semi-axes and sweep angle.
    pub fn new(plane: Plane, a: Scalar, b: Scalar, angle: Scalar) -> (r: EllipseArcCurve)
        ensures
            r.plane == plane,
            r.a == a,
            r.b == b,
            r.angle == angle,
    {
        EllipseArcCurve { plane, a, b, angle }
    }
}

impl Default for EllipseArcCurve {
    /// A half sweep of the 1-by-2 ellipse in the canonical plane.
    fn default() -> (r: EllipseArcCurve)
        ensures
            r.plane == spec_default_plane(),
            r.a == s_of(ONE_BITS),
            r.b == s_of(TWO_BITS),
            r.angle == s_of(PI_BITS),
    {
        EllipseArcCurve::new(
            Plane::default(),
            Scalar::from_bits(ONE_BITS),
            Scalar::from_bits(TWO_BITS),
            Scalar::from_bits(PI_BITS),
        )
    }
}

/// `origin + x_axis * (a cos(s angle)) + y_axis * (b sin(s angle))`.
pub open spec fn spec_ellipse_point(c: EllipseArcCurve, s: Scalar) -> Point3 {
    let r = s_mul(s, c.angle);
    let dx = s_mul(c.a, s_cos(r));
    let dy = s_mul(c.b, s_sin(r));
    translate_p(
        translate_p(c.plane.origin, scale_v(c.plane.x_axis, dx)),
        scale_v(c.plane.y_axis, dy),
    )
}

/// `x_axis * (-a sin(s angle)) + y_axis * (b cos(s angle))`.
pub open spec fn spec_ellipse_velocity(c: EllipseArcCurve, s: Scalar) -> Vector3 {
    let r = s_mul(s, c.angle);
    let dx = s_mul(s_neg(c.a), s_sin(r));
    let dy = s_mul(c.b, s_cos(r));
    add_v(scale_v(c.plane.x_axis, dx), scale_v(c.plane.y_axis, dy))
}

/// `x_axis * (-a cos(s angle)) + y_axis * (-b sin(s angle))`.
pub open spec fn spec_ellipse_acceleration(c: EllipseArcCurve, s: Scalar) -> Vector3 {
    let r = s_mul(s, c.angle);
    let dx = s_mul(s_neg(c.a), s_cos(r));
    let dy = s_mul(s_neg(c.b), s_sin(r));
    add_v(scale_v(c.plane.x_axis, dx), scale_v(c.plane.y_axis, dy))
}

impl CurvePrimitives for EllipseArcCurve {
    /// The angle interval from 0 to the sweep angle.
    open spec fn spec_domain(&self) -> Domain {
        Domain { start: s_of(ZERO_BITS), end: self.angle }
    }

    /// Exactly the ellipse formula's value.
    open spec fn point_at_spec(&self, s: Scalar, p: Point3) -> bool {
        p == spec_ellipse_point(*self, s)
    }

    /// Exactly the ellipse formula's derivative value.
    open spec fn velocity_at_spec(&self, s: Scalar, v: Vector3) -> bool {
        v == spec_ellipse_velocity(*self, s)
    }

    /// Exactly the ellipse formula's second derivative value.
    open spec fn acceleration_at_spec(&self, s: Scalar, a: Vector3) -> bool {
        a == spec_ellipse_acceleration(*self, s)
    }

    fn domain(&self) -> Domain {
        Domain::new(Scalar::from_bits(ZERO_BITS), self.angle)
    }

    fn point_at(&self, s: Scalar) -> Point3 {
        let r = s.mul_s(self.angle);
        let dx = self.a.mul_s(r.cos());
        let dy = self.b.mul_s(r.sin());
        let o = self.plane.origin;
        o.translate(self.plane.x_axis.scale(dx)).translate(self.plane.y_axis.scale(dy))
    }

    fn velocity_at(&self, s: Scalar) -> Vector3 {
        let r = s.mul_s(self.angle);
        let dx = self.a.neg_s().mul_s(r.sin());
        let dy = self.b.mul_s(r.cos());
        self.plane.x_axis.scale(dx).plus(self.plane.y_axis.scale(dy))
    }

    fn acceleration_at(&self, s: Scalar) -> Vector3 {
        let r = s.mul_s(self.angle);
        let dx = self.a.neg_s().mul_s(r.cos());
        let dy = self.b.neg_s().mul_s(r.sin());
        self.plane.x_axis.scale(dx).plus(self.plane.y_axis.scale(dy))
    }
}

impl Curve for EllipseArcCurve {
    /// No closed form: a polyline approximation at the default resolution.
    open spec fn length_spec(&self, r: Scalar) -> bool {
        spec_integral_length_rel(self, s_of(DELTA_DEFAULT_BITS), r)
    }

    fn length(&self) -> Scalar {
        self.integral_length(None)
    }
}

} // verus!
