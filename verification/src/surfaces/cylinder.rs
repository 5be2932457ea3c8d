//! A right circular cylinder, parametrized by angle and height.

use vstd::prelude::*;
use crate::plane::Plane;
use crate::scalar::{
    Scalar, ZERO_BITS, ONE_BITS, ONE_POINT_FIVE_BITS, TWO_BITS, THREE_BITS, NEG_ONE_BITS,
    PI_BITS, TAU_BITS, SEAM_EPS_BITS, s_of, s_sub, s_mul, s_neg, s_sin, s_cos,
};
use crate::surfaces::surface::Surface;
use crate::vector::{Point3, Vector3, p3, v3, add_v, scale_v, translate_p};

verus! {

/// A cylinder of the given radius and height, embedded in `plane`.
#[derive(Clone, Copy, PartialEq, Eq, Structural, Debug)]
pub struct Cylinder {
    pub plane: Plane,
    pub radius: Scalar,
    pub height: Scalar,
}

/// The cylinder's clamped angle at `u`, as `(sin theta, cos theta)`. The
/// angle is nudged away from the periodic seam:
/// `theta = u * tau * (1 - eps)`.
pub open spec fn spec_cylinder_sin_cos(u: Scalar) -> (Scalar, Scalar) {
    let theta = s_mul(s_mul(u, s_of(TAU_BITS)), s_sub(s_of(ONE_BITS), s_of(SEAM_EPS_BITS)));
    (s_sin(theta), s_cos(theta))
}

impl Cylinder {
    /// The cylinder with the given embedding plane, radius and height.
    pub fn new(plane: Plane, radius: Scalar, height: Scalar) -> (r: Cylinder)
        ensures
            r.plane == plane,
            r.radius == radius,
            r.height == height,
    {
        Cylinder { plane, radius, height }
    }

    /// The closed-form lateral area `2 pi r h`, computed as
    /// `2 * pi * radius * height`.
    pub open spec fn spec_area(&self) -> Scalar {
        s_mul(s_mul(s_mul(s_of(TWO_BITS), s_of(PI_BITS)), self.radius), self.height)
    }

    /// The closed-form lateral area.
    pub fn area(&self) -> (r: Scalar)
        ensures
            r == self.spec_area(),
    {
        Scalar::from_bits(TWO_BITS).mul_s(Scalar::from_bits(PI_BITS)).mul_s(self.radius).mul_s(
            self.height,
        )
    }

    fn sin_cos(&self, u: Scalar) -> (r: (Scalar, Scalar))
        ensures
            r == spec_cylinder_sin_cos(u),
    {
        let theta = u.mul_s(Scalar::from_bits(TAU_BITS)).mul_s(
            Scalar::from_bits(ONE_BITS).sub_s(Scalar::from_bits(SEAM_EPS_BITS)),
        );
        (theta.sin(), theta.cos())
    }
}

impl Default for Cylinder {
    /// A cylinder of radius 2 and height 3, its plane lifted to z = 1.5
    /// with the standard axes and the deliberately flipped normal.
    fn default() -> (r: Cylinder)
        ensures
            r.plane == (Plane {
                origin: p3(s_of(ZERO_BITS), s_of(ZERO_BITS), s_of(ONE_POINT_FIVE_BITS)),
                x_axis: v3(s_of(ONE_BITS), s_of(ZERO_BITS), s_of(ZERO_BITS)),
                y_axis: v3(s_of(ZERO_BITS), s_of(ONE_BITS), s_of(ZERO_BITS)),
                normal: v3(s_of(ZERO_BITS), s_of(ZERO_BITS), s_of(NEG_ONE_BITS)),
            }),
            r.radius == s_of(TWO_BITS),
            r.height == s_of(THREE_BITS),
    {
        let zero = Scalar::from_bits(ZERO_BITS);
        let one = Scalar::from_bits(ONE_BITS);
        Cylinder::new(
            Plane::new(
                Point3::new(zero, zero, Scalar::from_bits(ONE_POINT_FIVE_BITS)),
                Vector3::new(one, zero, zero),
                Vector3::new(zero, one, zero),
                Vector3::new(zero, zero, Scalar::from_bits(NEG_ONE_BITS)),
            ),
            Scalar::from_bits(TWO_BITS),
            Scalar::from_bits(THREE_BITS),
        )
    }
}

impl Surface for Cylinder {
    /// `origin + x_axis (r sin t) + y_axis (r cos t) + normal (h v)`.
    open spec fn spec_point_at(&self, u: Scalar, v: Scalar) -> Point3 {
        let (st, ct) = spec_cylinder_sin_cos(u);
        let dx = scale_v(self.plane.x_axis, s_mul(self.radius, st));
        let dy = scale_v(self.plane.y_axis, s_mul(self.radius, ct));
        let dz = scale_v(self.plane.normal, s_mul(self.height, v));
        translate_p(translate_p(translate_p(self.plane.origin, dx), dy), dz)
    }

    /// `x_axis (r cos t) + y_axis (-r sin t)`.
    open spec fn spec_du_at(&self, u: Scalar, v: Scalar) -> Vector3 {
        let (st, ct) = spec_cylinder_sin_cos(u);
        let dx = scale_v(self.plane.x_axis, s_mul(self.radius, ct));
        let dy = scale_v(self.plane.y_axis, s_mul(s_neg(self.radius), st));
        add_v(dx, dy)
    }

    /// `normal * h`: the height direction, independent of `(u, v)`.
    open spec fn spec_dv_at(&self, u: Scalar, v: Scalar) -> Vector3 {
        scale_v(self.plane.normal, self.height)
    }

    /// `x_axis (-r sin t) + y_axis (-r cos t)`.
    open spec fn spec_dudu_at(&self, u: Scalar, v: Scalar) -> Vector3 {
        let (st, ct) = spec_cylinder_sin_cos(u);
        let dx = scale_v(self.plane.x_axis, s_mul(s_neg(self.radius), st));
        let dy = scale_v(self.plane.y_axis, s_mul(s_neg(self.radius), ct));
        add_v(dx, dy)
    }

    /// The zero vector: the parametrization is ruled in `v`.
    open spec fn spec_dudv_at(&self, u: Scalar, v: Scalar) -> Vector3 {
        v3(s_of(ZERO_BITS), s_of(ZERO_BITS), s_of(ZERO_BITS))
    }

    /// The zero vector: the parametrization is linear in `v`.
    open spec fn spec_dvdv_at(&self, u: Scalar, v: Scalar) -> Vector3 {
        v3(s_of(ZERO_BITS), s_of(ZERO_BITS), s_of(ZERO_BITS))
    }

    fn point_at(&self, u: Scalar, v: Scalar) -> Point3 {
        let (st, ct) = self.sin_cos(u);
        let dx = self.plane.x_axis.scale(self.radius.mul_s(st));
        let dy = self.plane.y_axis.scale(self.radius.mul_s(ct));
        let dz = self.plane.normal.scale(self.height.mul_s(v));
        self.plane.origin.translate(dx).translate(dy).translate(dz)
    }

    fn du_at(&self, u: Scalar, _v: Scalar) -> Vector3 {
        let (st, ct) = self.sin_cos(u);
        let dx = self.plane.x_axis.scale(self.radius.mul_s(ct));
        let dy = self.plane.y_axis.scale(self.radius.neg_s().mul_s(st));
        dx.plus(dy)
    }

    fn dv_at(&self, _u: Scalar, _v: Scalar) -> Vector3 {
        self.plane.normal.scale(self.height)
    }

    fn dudu_at(&self, u: Scalar, _v: Scalar) -> Vector3 {
        let (st, ct) = self.sin_cos(u);
        let dx = self.plane.x_axis.scale(self.radius.neg_s().mul_s(st));
        let dy = self.plane.y_axis.scale(self.radius.neg_s().mul_s(ct));
        dx.plus(dy)
    }

    fn dudv_at(&self, _u: Scalar, _v: Scalar) -> Vector3 {
        let zero = Scalar::from_bits(ZERO_BITS);
        Vector3::new(zero, zero, zero)
    }

    fn dvdv_at(&self, _u: Scalar, _v: Scalar) -> Vector3 {
        let zero = Scalar::from_bits(ZERO_BITS);
        Vector3::new(zero, zero, zero)
    }
}

} // verus!
