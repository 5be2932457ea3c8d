//! A hyperbolic paraboloid: a saddle rising as `u² - v²`.

use vstd::prelude::*;
use crate::domain::{Domain, spec_map};
use crate::plane::{Plane, spec_default_plane};
use crate::scalar::{
    Scalar, ZERO_BITS, TWO_BITS, NEG_TWO_BITS, s_of, s_sub, s_mul,
};
use crate::surfaces::surface::Surface;
use crate::vector::{Point3, Vector3, v3, add_v, sub_v, neg_v, scale_v, translate_p};

verus! {

/// A hyperbolic paraboloid with axis scales `a` and `b`, both parameters
/// mapped through `domain`, embedded in `plane`.
#[derive(Clone, Copy, PartialEq, Eq, Structural, Debug)]
pub struct HyperbolicParaboloid {
    pub plane: Plane,
    pub a: Scalar,
    pub b: Scalar,
    pub domain: Domain,
}

impl HyperbolicParaboloid {
    /// The saddle with the given plane, axis scales and parameter interval.
    pub fn new(plane: Plane, a: Scalar, b: Scalar, domain: Domain) -> (r: HyperbolicParaboloid)
        ensures
            r.plane == plane,
            r.a == a,
            r.b == b,
            r.domain == domain,
    {
        HyperbolicParaboloid { plane, a, b, domain }
    }

    fn map(&self, u: Scalar, v: Scalar) -> (r: (Scalar, Scalar))
        ensures
            r == (spec_map(self.domain, u), spec_map(self.domain, v)),
    {
        (self.domain.map(u), self.domain.map(v))
    }
}

impl Default for HyperbolicParaboloid {
    /// Axis scales 2 over [-2, 2] in the canonical plane.
    fn default() -> (r: HyperbolicParaboloid)
        ensures
            r.plane == spec_default_plane(),
            r.a == s_of(TWO_BITS),
            r.b == s_of(TWO_BITS),
            r.domain == (Domain { start: s_of(NEG_TWO_BITS), end: s_of(TWO_BITS) }),
    {
        let two = Scalar::from_bits(TWO_BITS);
        HyperbolicParaboloid::new(
            Plane::default(),
            two,
            two,
            Domain::new(Scalar::from_bits(NEG_TWO_BITS), two),
        )
    }
}

impl Surface for HyperbolicParaboloid {
    /// `origin + x_axis a u + y_axis b v + normal (u² - v²)` over the
    /// mapped parameters.
    open spec fn spec_point_at(&self, u: Scalar, v: Scalar) -> Point3 {
        let mu = spec_map(self.domain, u);
        let mv = spec_map(self.domain, v);
        let w = s_sub(s_mul(mu, mu), s_mul(mv, mv));
        translate_p(
            translate_p(
                translate_p(
                    self.plane.origin,
                    scale_v(scale_v(self.plane.x_axis, self.a), mu),
                ),
                scale_v(scale_v(self.plane.y_axis, self.b), mv),
            ),
            scale_v(self.plane.normal, w),
        )
    }

    /// `x_axis a + normal 2 u` over the mapped parameter.
    open spec fn spec_du_at(&self, u: Scalar, v: Scalar) -> Vector3 {
        let mu = spec_map(self.domain, u);
        add_v(
            scale_v(self.plane.x_axis, self.a),
            scale_v(scale_v(self.plane.normal, s_of(TWO_BITS)), mu),
        )
    }

    /// `y_axis b - normal 2 v` over the mapped parameter.
    open spec fn spec_dv_at(&self, u: Scalar, v: Scalar) -> Vector3 {
        let mv = spec_map(self.domain, v);
        sub_v(
            scale_v(self.plane.y_axis, self.b),
            scale_v(scale_v(self.plane.normal, s_of(TWO_BITS)), mv),
        )
    }

    /// `normal * 2`: constant curvature direction in `u`.
    open spec fn spec_dudu_at(&self, u: Scalar, v: Scalar) -> Vector3 {
        scale_v(self.plane.normal, s_of(TWO_BITS))
    }

    /// The zero vector: the axes do not mix.
    open spec fn spec_dudv_at(&self, u: Scalar, v: Scalar) -> Vector3 {
        v3(s_of(ZERO_BITS), s_of(ZERO_BITS), s_of(ZERO_BITS))
    }

    /// `-normal * 2`: the opposite constant curvature direction in `v`.
    open spec fn spec_dvdv_at(&self, u: Scalar, v: Scalar) -> Vector3 {
        scale_v(neg_v(self.plane.normal), s_of(TWO_BITS))
    }

    fn point_at(&self, u: Scalar, v: Scalar) -> Point3 {
        let (mu, mv) = self.map(u, v);
        let w = mu.mul_s(mu).sub_s(mv.mul_s(mv));
        self.plane.origin.translate(self.plane.x_axis.scale(self.a).scale(mu)).translate(
            self.plane.y_axis.scale(self.b).scale(mv),
        ).translate(self.plane.normal.scale(w))
    }

    fn du_at(&self, u: Scalar, v: Scalar) -> Vector3 {
        let (mu, _mv) = self.map(u, v);
        self.plane.x_axis.scale(self.a).plus(
            self.plane.normal.scale(Scalar::from_bits(TWO_BITS)).scale(mu),
        )
    }

    fn dv_at(&self, u: Scalar, v: Scalar) -> Vector3 {
        let (_mu, mv) = self.map(u, v);
        self.plane.y_axis.scale(self.b).minus(
            self.plane.normal.scale(Scalar::from_bits(TWO_BITS)).scale(mv),
        )
    }

    fn dudu_at(&self, _u: Scalar, _v: Scalar) -> Vector3 {
        self.plane.normal.scale(Scalar::from_bits(TWO_BITS))
    }

    fn dudv_at(&self, _u: Scalar, _v: Scalar) -> Vector3 {
        let zero = Scalar::from_bits(ZERO_BITS);
        Vector3::new(zero, zero, zero)
    }

    fn dvdv_at(&self, _u: Scalar, _v: Scalar) -> Vector3 {
        self.plane.normal.neg().scale(Scalar::from_bits(TWO_BITS))
    }
}

} // verus!
