//! A torus with tube radius `a` around a center circle of radius `b`.

use vstd::prelude::*;
use crate::plane::{Plane, spec_default_plane};
use crate::scalar::{
    Scalar, ZERO_BITS, ONE_BITS, THREE_BITS, TAU_BITS, s_of, s_add, s_mul, s_neg, s_sin, s_cos,
};
use crate::surfaces::surface::Surface;
use crate::vector::{Point3, Vector3, p3, v3};

verus! {

/// A torus in canonical coordinates, with tube radius `a` and center-circle
/// radius `b`. The embedding plane is carried but the formulas work in
/// canonical coordinates.
#[derive(Clone, Copy, PartialEq, Eq, Structural, Debug)]
pub struct Torus {
    pub plane: Plane,
    pub a: Scalar,
    pub b: Scalar,
}

/// The torus angles at `(u, v)`, as `(sin theta, cos theta, sin phi,
/// cos phi)` with `theta = u * tau` and `phi = v * tau`.
pub open spec fn spec_torus_sin_cos(u: Scalar, v: Scalar) -> (Scalar, Scalar, Scalar, Scalar) {
    let theta = s_mul(u, s_of(TAU_BITS));
    let phi = s_mul(v, s_of(TAU_BITS));
    (s_sin(theta), s_cos(theta), s_sin(phi), s_cos(phi))
}

impl Torus {
    /// The torus with the given plane, tube radius and center radius.
    pub fn new(plane: Plane, a: Scalar, b: Scalar) -> (r: Torus)
        ensures
            r.plane == plane,
            r.a == a,
            r.b == b,
    {
        Torus { plane, a, b }
    }

    fn sin_cos(&self, u: Scalar, v: Scalar) -> (r: (Scalar, Scalar, Scalar, Scalar))
        ensures
            r == spec_torus_sin_cos(u, v),
    {
        let tau = Scalar::from_bits(TAU_BITS);
        let theta = u.mul_s(tau);
        let phi = v.mul_s(tau);
        (theta.sin(), theta.cos(), phi.sin(), phi.cos())
    }
}

impl Default for Torus {
    /// A torus with tube radius 1 around a circle of radius 3.
    fn default() -> (r: Torus)
        ensures
            r.plane == spec_default_plane(),
            r.a == s_of(ONE_BITS),
            r.b == s_of(THREE_BITS),
    {
        Torus::new(Plane::default(), Scalar::from_bits(ONE_BITS), Scalar::from_bits(THREE_BITS))
    }
}

impl Surface for Torus {
    /// `((a cos t + b) cos p, (a cos t + b) sin p, a sin t)`.
    open spec fn spec_point_at(&self, u: Scalar, v: Scalar) -> Point3 {
        let (st, ct, sp, cp) = spec_torus_sin_cos(u, v);
        p3(
            s_mul(s_add(s_mul(self.a, ct), self.b), cp),
            s_mul(s_add(s_mul(self.a, ct), self.b), sp),
            s_mul(self.a, st),
        )
    }

    /// `(-a sin t cos p, -a sin t sin p, a cos t)`.
    open spec fn spec_du_at(&self, u: Scalar, v: Scalar) -> Vector3 {
        let (st, ct, sp, cp) = spec_torus_sin_cos(u, v);
        v3(
            s_mul(s_mul(s_neg(self.a), st), cp),
            s_mul(s_mul(s_neg(self.a), st), sp),
            s_mul(self.a, ct),
        )
    }

    /// `(-(a cos t + b) sin p, (a cos t + b) cos p, 0)`.
    open spec fn spec_dv_at(&self, u: Scalar, v: Scalar) -> Vector3 {
        let (_st, ct, sp, cp) = spec_torus_sin_cos(u, v);
        v3(
            s_mul(s_neg(s_add(s_mul(self.a, ct), self.b)), sp),
            s_mul(s_add(s_mul(self.a, ct), self.b), cp),
            s_of(ZERO_BITS),
        )
    }

    /// `(-a cos t cos p, -a cos t sin p, -a sin t)`.
    open spec fn spec_dudu_at(&self, u: Scalar, v: Scalar) -> Vector3 {
        let (st, ct, sp, cp) = spec_torus_sin_cos(u, v);
        v3(
            s_mul(s_mul(s_neg(self.a), ct), cp),
            s_mul(s_mul(s_neg(self.a), ct), sp),
            s_mul(s_neg(self.a), st),
        )
    }

    /// `(a sin t sin p, -a sin t cos p, 0)`.
    open spec fn spec_dudv_at(&self, u: Scalar, v: Scalar) -> Vector3 {
        let (st, _ct, sp, cp) = spec_torus_sin_cos(u, v);
        v3(
            s_mul(s_mul(self.a, st), sp),
            s_mul(s_mul(s_neg(self.a), st), cp),
            s_of(ZERO_BITS),
        )
    }

    /// `(-(a cos t + b) cos p, -(a cos t + b) sin p, 0)`.
    open spec fn spec_dvdv_at(&self, u: Scalar, v: Scalar) -> Vector3 {
        let (_st, ct, sp, cp) = spec_torus_sin_cos(u, v);
        v3(
            s_mul(s_neg(s_add(s_mul(self.a, ct), self.b)), cp),
            s_mul(s_neg(s_add(s_mul(self.a, ct), self.b)), sp),
            s_of(ZERO_BITS),
        )
    }

    fn point_at(&self, u: Scalar, v: Scalar) -> Point3 {
        let (st, ct, sp, cp) = self.sin_cos(u, v);
        let dx = self.a.mul_s(ct).add_s(self.b).mul_s(cp);
        let dy = self.a.mul_s(ct).add_s(self.b).mul_s(sp);
        let dz = self.a.mul_s(st);
        Point3::new(dx, dy, dz)
    }

    fn du_at(&self, u: Scalar, v: Scalar) -> Vector3 {
        let (st, ct, sp, cp) = self.sin_cos(u, v);
        let dx = self.a.neg_s().mul_s(st).mul_s(cp);
        let dy = self.a.neg_s().mul_s(st).mul_s(sp);
        let dz = self.a.mul_s(ct);
        Vector3::new(dx, dy, dz)
    }

    fn dv_at(&self, u: Scalar, v: Scalar) -> Vector3 {
        let (_st, ct, sp, cp) = self.sin_cos(u, v);
        let dx = self.a.mul_s(ct).add_s(self.b).neg_s().mul_s(sp);
        let dy = self.a.mul_s(ct).add_s(self.b).mul_s(cp);
        let dz = Scalar::from_bits(ZERO_BITS);
        Vector3::new(dx, dy, dz)
    }

    fn dudu_at(&self, u: Scalar, v: Scalar) -> Vector3 {
        let (st, ct, sp, cp) = self.sin_cos(u, v);
        let dx = self.a.neg_s().mul_s(ct).mul_s(cp);
        let dy = self.a.neg_s().mul_s(ct).mul_s(sp);
        let dz = self.a.neg_s().mul_s(st);
        Vector3::new(dx, dy, dz)
    }

    fn dudv_at(&self, u: Scalar, v: Scalar) -> Vector3 {
        let (st, _ct, sp, cp) = self.sin_cos(u, v);
        let dx = self.a.mul_s(st).mul_s(sp);
        let dy = self.a.neg_s().mul_s(st).mul_s(cp);
        let dz = Scalar::from_bits(ZERO_BITS);
        Vector3::new(dx, dy, dz)
    }

    fn dvdv_at(&self, u: Scalar, v: Scalar) -> Vector3 {
        let (_st, ct, sp, cp) = self.sin_cos(u, v);
        let dx = self.a.mul_s(ct).add_s(self.b).neg_s().mul_s(cp);
        let dy = self.a.mul_s(ct).add_s(self.b).neg_s().mul_s(sp);
        let dz = Scalar::from_bits(ZERO_BITS);
        Vector3::new(dx, dy, dz)
    }
}

} // verus!
