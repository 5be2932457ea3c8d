//! A single-leaf hyperboloid: a waisted tube swept by hyperbolic functions
//! of `u` around a full turn of `v`.

use vstd::prelude::*;
use crate::domain::{Domain, spec_map};
use crate::plane::{Plane, spec_basis_vector, spec_default_plane};
use crate::scalar::{
    Scalar, ZERO_BITS, ONE_BITS, TWO_BITS, NEG_TWO_BITS, TAU_BITS, s_of, s_mul, s_neg, s_sin,
    s_cos, s_sinh, s_cosh,
};
use crate::surfaces::surface::Surface;
use crate::vector::{Point3, Vector3, translate_p, scale_v};

verus! {

/// A single-leaf hyperboloid with axis scales `a`, `b` and height scale
/// `c`; `u` is mapped through `domain` and `v` over a full turn.
#[derive(Clone, Copy, PartialEq, Eq, Structural, Debug)]
pub struct SingleLeafParaboloid {
    pub plane: Plane,
    pub a: Scalar,
    pub b: Scalar,
    pub c: Scalar,
    pub domain: Domain,
}

impl SingleLeafParaboloid {
    /// The hyperboloid with the given plane, scales and `u` interval.
    pub fn new(plane: Plane, a: Scalar, b: Scalar, c: Scalar, domain: Domain) -> (r:
        SingleLeafParaboloid)
        ensures
            r.plane == plane,
            r.a == a,
            r.b == b,
            r.c == c,
            r.domain == domain,
    {
        SingleLeafParaboloid { plane, a, b, c, domain }
    }

    fn map(&self, u: Scalar, v: Scalar) -> (r: (Scalar, Scalar))
        ensures
            r == (spec_map(self.domain, u), s_mul(v, s_of(TAU_BITS))),
    {
        (self.domain.map(u), v.mul_s(Scalar::from_bits(TAU_BITS)))
    }
}

impl Default for SingleLeafParaboloid {
    /// Unit axis scales with height scale 2 over [-2, 2] in the canonical
    /// plane.
    fn default() -> (r: SingleLeafParaboloid)
        ensures
            r.plane == spec_default_plane(),
            r.a == s_of(ONE_BITS),
            r.b == s_of(ONE_BITS),
            r.c == s_of(TWO_BITS),
            r.domain == (Domain { start: s_of(NEG_TWO_BITS), end: s_of(TWO_BITS) }),
    {
        let one = Scalar::from_bits(ONE_BITS);
        let two = Scalar::from_bits(TWO_BITS);
        SingleLeafParaboloid::new(
            Plane::default(),
            one,
            one,
            two,
            Domain::new(Scalar::from_bits(NEG_TWO_BITS), two),
        )
    }
}

impl Surface for SingleLeafParaboloid {
    /// `origin + x_axis (a cosh u cos v) + y_axis (b cosh u sin v)
    /// + normal (c sinh u)` over the mapped parameters.
    open spec fn spec_point_at(&self, u: Scalar, v: Scalar) -> Point3 {
        let mu = spec_map(self.domain, u);
        let mv = s_mul(v, s_of(TAU_BITS));
        let dx = s_mul(s_mul(self.a, s_cosh(mu)), s_cos(mv));
        let dy = s_mul(s_mul(self.b, s_cosh(mu)), s_sin(mv));
        let dz = s_mul(self.c, s_sinh(mu));
        translate_p(
            translate_p(
                translate_p(self.plane.origin, scale_v(self.plane.x_axis, dx)),
                scale_v(self.plane.y_axis, dy),
            ),
            scale_v(self.plane.normal, dz),
        )
    }

    /// `x_axis (a sinh u cos v) + y_axis (b sinh u sin v) + normal (c cosh u)`.
    open spec fn spec_du_at(&self, u: Scalar, v: Scalar) -> Vector3 {
        let mu = spec_map(self.domain, u);
        let mv = s_mul(v, s_of(TAU_BITS));
        spec_basis_vector(
            self.plane,
            s_mul(s_mul(self.a, s_sinh(mu)), s_cos(mv)),
            s_mul(s_mul(self.b, s_sinh(mu)), s_sin(mv)),
            s_mul(self.c, s_cosh(mu)),
        )
    }

    /// `x_axis (-a cosh u sin v) + y_axis (b cosh u cos v) + normal * 0`.
    open spec fn spec_dv_at(&self, u: Scalar, v: Scalar) -> Vector3 {
        let mu = spec_map(self.domain, u);
        let mv = s_mul(v, s_of(TAU_BITS));
        spec_basis_vector(
            self.plane,
            s_mul(s_mul(s_neg(self.a), s_cosh(mu)), s_sin(mv)),
            s_mul(s_mul(self.b, s_cosh(mu)), s_cos(mv)),
            s_of(ZERO_BITS),
        )
    }

    /// `x_axis (a cosh u cos v) + y_axis (b cosh u sin v) + normal (c sinh u)`.
    open spec fn spec_dudu_at(&self, u: Scalar, v: Scalar) -> Vector3 {
        let mu = spec_map(self.domain, u);
        let mv = s_mul(v, s_of(TAU_BITS));
        spec_basis_vector(
            self.plane,
            s_mul(s_mul(self.a, s_cosh(mu)), s_cos(mv)),
            s_mul(s_mul(self.b, s_cosh(mu)), s_sin(mv)),
            s_mul(self.c, s_sinh(mu)),
        )
    }

    /// `x_axis (-a sinh u sin v) + y_axis (b sinh u cos v) + normal * 0`.
    open spec fn spec_dudv_at(&self, u: Scalar, v: Scalar) -> Vector3 {
        let mu = spec_map(self.domain, u);
        let mv = s_mul(v, s_of(TAU_BITS));
        spec_basis_vector(
            self.plane,
            s_mul(s_mul(s_neg(self.a), s_sinh(mu)), s_sin(mv)),
            s_mul(s_mul(self.b, s_sinh(mu)), s_cos(mv)),
            s_of(ZERO_BITS),
        )
    }

    /// `x_axis (-a cosh u cos v) + y_axis (-b cosh u sin v) + normal * 0`.
    open spec fn spec_dvdv_at(&self, u: Scalar, v: Scalar) -> Vector3 {
        let mu = spec_map(self.domain, u);
        let mv = s_mul(v, s_of(TAU_BITS));
        spec_basis_vector(
            self.plane,
            s_mul(s_mul(s_neg(self.a), s_cosh(mu)), s_cos(mv)),
            s_mul(s_mul(s_neg(self.b), s_cosh(mu)), s_sin(mv)),
            s_of(ZERO_BITS),
        )
    }

    fn point_at(&self, u: Scalar, v: Scalar) -> Point3 {
        let (mu, mv) = self.map(u, v);
        let dx = self.a.mul_s(mu.cosh()).mul_s(mv.cos());
        let dy = self.b.mul_s(mu.cosh()).mul_s(mv.sin());
        let dz = self.c.mul_s(mu.sinh());
        self.plane.origin.translate(self.plane.x_axis.scale(dx)).translate(
            self.plane.y_axis.scale(dy),
        ).translate(self.plane.normal.scale(dz))
    }

    fn du_at(&self, u: Scalar, v: Scalar) -> Vector3 {
        let (mu, mv) = self.map(u, v);
        let dx = self.a.mul_s(mu.sinh()).mul_s(mv.cos());
        let dy = self.b.mul_s(mu.sinh()).mul_s(mv.sin());
        let dz = self.c.mul_s(mu.cosh());
        self.plane.x_axis.scale(dx).plus(self.plane.y_axis.scale(dy)).plus(
            self.plane.normal.scale(dz),
        )
    }

    fn dv_at(&self, u: Scalar, v: Scalar) -> Vector3 {
        let (mu, mv) = self.map(u, v);
        let dx = self.a.neg_s().mul_s(mu.cosh()).mul_s(mv.sin());
        let dy = self.b.mul_s(mu.cosh()).mul_s(mv.cos());
        let dz = Scalar::from_bits(ZERO_BITS);
        self.plane.x_axis.scale(dx).plus(self.plane.y_axis.scale(dy)).plus(
            self.plane.normal.scale(dz),
        )
    }

    fn dudu_at(&self, u: Scalar, v: Scalar) -> Vector3 {
        let (mu, mv) = self.map(u, v);
        let dx = self.a.mul_s(mu.cosh()).mul_s(mv.cos());
        let dy = self.b.mul_s(mu.cosh()).mul_s(mv.sin());
        let dz = self.c.mul_s(mu.sinh());
        self.plane.x_axis.scale(dx).plus(self.plane.y_axis.scale(dy)).plus(
            self.plane.normal.scale(dz),
        )
    }

    fn dudv_at(&self, u: Scalar, v: Scalar) -> Vector3 {
        let (mu, mv) = self.map(u, v);
        let dx = self.a.neg_s().mul_s(mu.sinh()).mul_s(mv.sin());
        let dy = self.b.mul_s(mu.sinh()).mul_s(mv.cos());
        let dz = Scalar::from_bits(ZERO_BITS);
        self.plane.x_axis.scale(dx).plus(self.plane.y_axis.scale(dy)).plus(
            self.plane.normal.scale(dz),
        )
    }

    fn dvdv_at(&self, u: Scalar, v: Scalar) -> Vector3 {
        let (mu, mv) = self.map(u, v);
        let dx = self.a.neg_s().mul_s(mu.cosh()).mul_s(mv.cos());
        let dy = self.b.neg_s().mul_s(mu.cosh()).mul_s(mv.sin());
        let dz = Scalar::from_bits(ZERO_BITS);
        self.plane.x_axis.scale(dx).plus(self.plane.y_axis.scale(dy)).plus(
            self.plane.normal.scale(dz),
        )
    }
}

} // verus!
