//! A sphere, parametrized by colatitude and longitude.

use vstd::prelude::*;
use crate::plane::{Plane, spec_default_plane};
use crate::scalar::{
    Scalar, ZERO_BITS, ONE_BITS, TWO_BITS, FOUR_BITS, PI_BITS, TAU_BITS, SEAM_EPS_BITS, s_of,
    s_add, s_sub, s_mul, s_neg, s_sin, s_cos,
};
use crate::surfaces::surface::Surface;
use crate::vector::{Point3, Vector3, add_v, scale_v, translate_p};

verus! {

/// A sphere of the given radius, embedded in `plane`.
#[derive(Clone, Copy, PartialEq, Eq, Structural, Debug)]
pub struct Sphere {
    pub plane: Plane,
    pub radius: Scalar,
}

/// The sphere's clamped angles at `(u, v)`, as the four values
/// `(sin theta, cos theta, sin phi, cos phi)`. Both angles are nudged away
/// from the periodic seam by the small clamp, so the derivative formulas
/// never sit exactly on the discontinuity:
/// `theta = u * pi * (1 - 2 eps) + eps` and `phi = v * tau * (1 - eps)`.
pub open spec fn spec_sphere_sin_cos(u: Scalar, v: Scalar) -> (Scalar, Scalar, Scalar, Scalar) {
    let eps = s_of(SEAM_EPS_BITS);
    let theta = s_add(s_mul(s_mul(u, s_of(PI_BITS)), s_sub(s_of(ONE_BITS), s_mul(eps, s_of(TWO_BITS)))), eps);
    let phi = s_mul(s_mul(v, s_of(TAU_BITS)), s_sub(s_of(ONE_BITS), eps));
    (s_sin(theta), s_cos(theta), s_sin(phi), s_cos(phi))
}

impl Sphere {
    /// The sphere with the given embedding plane and radius.
    pub fn new(plane: Plane, radius: Scalar) -> (r: Sphere)
        ensures
            r.plane == plane,
            r.radius == radius,
    {
        Sphere { plane, radius }
    }

    /// The closed-form surface area `4 pi r^2`, computed as
    /// `4 * pi * radius * radius`.
    pub open spec fn spec_area(&self) -> Scalar {
        s_mul(s_mul(s_mul(s_of(FOUR_BITS), s_of(PI_BITS)), self.radius), self.radius)
    }

    /// The closed-form surface area.
    pub fn area(&self) -> (r: Scalar)
        ensures
            r == self.spec_area(),
    {
        Scalar::from_bits(FOUR_BITS).mul_s(Scalar::from_bits(PI_BITS)).mul_s(self.radius).mul_s(
            self.radius,
        )
    }

    fn sin_cos(&self, u: Scalar, v: Scalar) -> (r: (Scalar, Scalar, Scalar, Scalar))
        ensures
            r == spec_sphere_sin_cos(u, v),
    {
        let eps = Scalar::from_bits(SEAM_EPS_BITS);
        let one = Scalar::from_bits(ONE_BITS);
        let theta = u.mul_s(Scalar::from_bits(PI_BITS)).mul_s(
            one.sub_s(eps.mul_s(Scalar::from_bits(TWO_BITS))),
        ).add_s(eps);
        let phi = v.mul_s(Scalar::from_bits(TAU_BITS)).mul_s(one.sub_s(eps));
        (theta.sin(), theta.cos(), phi.sin(), phi.cos())
    }
}

impl Default for Sphere {
    /// A sphere of radius 2 in the canonical plane.
    fn default() -> (r: Sphere)
        ensures
            r.plane == spec_default_plane(),
            r.radius == s_of(TWO_BITS),
    {
        Sphere::new(Plane::default(), Scalar::from_bits(TWO_BITS))
    }
}

impl Surface for Sphere {
    /// `origin + x_axis (r sin t cos p) + y_axis (r sin t sin p) + normal (r cos t)`.
    open spec fn spec_point_at(&self, u: Scalar, v: Scalar) -> Point3 {
        let (st, ct, sp, cp) = spec_sphere_sin_cos(u, v);
        let dx = scale_v(self.plane.x_axis, s_mul(s_mul(self.radius, st), cp));
        let dy = scale_v(self.plane.y_axis, s_mul(s_mul(self.radius, st), sp));
        let dz = scale_v(self.plane.normal, s_mul(self.radius, ct));
        translate_p(translate_p(translate_p(self.plane.origin, dx), dy), dz)
    }

    /// `x_axis (r cos t cos p) + y_axis (r cos t sin p) + normal (-r sin t)`.
    open spec fn spec_du_at(&self, u: Scalar, v: Scalar) -> Vector3 {
        let (st, ct, sp, cp) = spec_sphere_sin_cos(u, v);
        let dx = scale_v(self.plane.x_axis, s_mul(s_mul(self.radius, ct), cp));
        let dy = scale_v(self.plane.y_axis, s_mul(s_mul(self.radius, ct), sp));
        let dz = scale_v(self.plane.normal, s_mul(s_neg(self.radius), st));
        add_v(add_v(dx, dy), dz)
    }

    /// `x_axis (-r sin t sin p) + y_axis (r sin t cos p) + normal * 0`.
    open spec fn spec_dv_at(&self, u: Scalar, v: Scalar) -> Vector3 {
        let (st, _ct, sp, cp) = spec_sphere_sin_cos(u, v);
        let dx = scale_v(self.plane.x_axis, s_mul(s_mul(s_neg(self.radius), st), sp));
        let dy = scale_v(self.plane.y_axis, s_mul(s_mul(self.radius, st), cp));
        let dz = scale_v(self.plane.normal, s_of(ZERO_BITS));
        add_v(add_v(dx, dy), dz)
    }

    /// `x_axis (-r sin t cos p) + y_axis (-r sin t sin p) + normal (-r cos t)`.
    open spec fn spec_dudu_at(&self, u: Scalar, v: Scalar) -> Vector3 {
        let (st, ct, sp, cp) = spec_sphere_sin_cos(u, v);
        let dx = scale_v(self.plane.x_axis, s_mul(s_mul(s_neg(self.radius), st), cp));
        let dy = scale_v(self.plane.y_axis, s_mul(s_mul(s_neg(self.radius), st), sp));
        let dz = scale_v(self.plane.normal, s_mul(s_neg(self.radius), ct));
        add_v(add_v(dx, dy), dz)
    }

    /// `x_axis (-r cos t sin p) + y_axis (r cos t cos p) + normal * 0`.
    open spec fn spec_dudv_at(&self, u: Scalar, v: Scalar) -> Vector3 {
        let (_st, ct, sp, cp) = spec_sphere_sin_cos(u, v);
        let dx = scale_v(self.plane.x_axis, s_mul(s_mul(s_neg(self.radius), ct), sp));
        let dy = scale_v(self.plane.y_axis, s_mul(s_mul(self.radius, ct), cp));
        let dz = scale_v(self.plane.normal, s_of(ZERO_BITS));
        add_v(add_v(dx, dy), dz)
    }

    /// `x_axis (-r sin t cos p) + y_axis (-r sin t sin p) + normal * 0`.
    open spec fn spec_dvdv_at(&self, u: Scalar, v: Scalar) -> Vector3 {
        let (st, _ct, sp, cp) = spec_sphere_sin_cos(u, v);
        let dx = scale_v(self.plane.x_axis, s_mul(s_mul(s_neg(self.radius), st), cp));
        let dy = scale_v(self.plane.y_axis, s_mul(s_mul(s_neg(self.radius), st), sp));
        let dz = scale_v(self.plane.normal, s_of(ZERO_BITS));
        add_v(add_v(dx, dy), dz)
    }

    fn point_at(&self, u: Scalar, v: Scalar) -> Point3 {
        let (st, ct, sp, cp) = self.sin_cos(u, v);
        let dx = self.plane.x_axis.scale(self.radius.mul_s(st).mul_s(cp));
        let dy = self.plane.y_axis.scale(self.radius.mul_s(st).mul_s(sp));
        let dz = self.plane.normal.scale(self.radius.mul_s(ct));
        self.plane.origin.translate(dx).translate(dy).translate(dz)
    }

    fn du_at(&self, u: Scalar, v: Scalar) -> Vector3 {
        let (st, ct, sp, cp) = self.sin_cos(u, v);
        let dx = self.plane.x_axis.scale(self.radius.mul_s(ct).mul_s(cp));
        let dy = self.plane.y_axis.scale(self.radius.mul_s(ct).mul_s(sp));
        let dz = self.plane.normal.scale(self.radius.neg_s().mul_s(st));
        dx.plus(dy).plus(dz)
    }

    fn dv_at(&self, u: Scalar, v: Scalar) -> Vector3 {
        let (st, _ct, sp, cp) = self.sin_cos(u, v);
        let dx = self.plane.x_axis.scale(self.radius.neg_s().mul_s(st).mul_s(sp));
        let dy = self.plane.y_axis.scale(self.radius.mul_s(st).mul_s(cp));
        let dz = self.plane.normal.scale(Scalar::from_bits(ZERO_BITS));
        dx.plus(dy).plus(dz)
    }

    fn dudu_at(&self, u: Scalar, v: Scalar) -> Vector3 {
        let (st, ct, sp, cp) = self.sin_cos(u, v);
        let dx = self.plane.x_axis.scale(self.radius.neg_s().mul_s(st).mul_s(cp));
        let dy = self.plane.y_axis.scale(self.radius.neg_s().mul_s(st).mul_s(sp));
        let dz = self.plane.normal.scale(self.radius.neg_s().mul_s(ct));
        dx.plus(dy).plus(dz)
    }

    fn dudv_at(&self, u: Scalar, v: Scalar) -> Vector3 {
        let (_st, ct, sp, cp) = self.sin_cos(u, v);
        let dx = self.plane.x_axis.scale(self.radius.neg_s().mul_s(ct).mul_s(sp));
        let dy = self.plane.y_axis.scale(self.radius.mul_s(ct).mul_s(cp));
        let dz = self.plane.normal.scale(Scalar::from_bits(ZERO_BITS));
        dx.plus(dy).plus(dz)
    }

    fn dvdv_at(&self, u: Scalar, v: Scalar) -> Vector3 {
        let (st, _ct, sp, cp) = self.sin_cos(u, v);
        let dx = self.plane.x_axis.scale(self.radius.neg_s().mul_s(st).mul_s(cp));
        let dy = self.plane.y_axis.scale(self.radius.neg_s().mul_s(st).mul_s(sp));
        let dz = self.plane.normal.scale(Scalar::from_bits(ZERO_BITS));
        dx.plus(dy).plus(dz)
    }
}

} // verus!
