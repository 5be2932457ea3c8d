//! A helicoid: the ruled surface swept by a line rotating while it climbs.

use vstd::prelude::*;
use crate::domain::{Domain, spec_map};
use crate::plane::{Plane, spec_default_plane};
use crate::scalar::{
    Scalar, ZERO_BITS, TWO_BITS, NEG_TWO_BITS, s_of, s_mul, s_sin, s_cos,
};
use crate::surfaces::surface::Surface;
use crate::vector::{Point3, Vector3, add_v, sub_v, neg_v, scale_v, translate_p, v3};

verus! {

/// A helicoid with pitch `c`, both parameters mapped through `domain`,
/// embedded in `plane`.
#[derive(Clone, Copy, PartialEq, Eq, Structural, Debug)]
pub struct Helicoid {
    pub plane: Plane,
    pub c: Scalar,
    pub domain: Domain,
}

impl Helicoid {
    /// The helicoid with the given plane, pitch and parameter interval.
    pub fn new(plane: Plane, c: Scalar, domain: Domain) -> (r: Helicoid)
        ensures
            r.plane == plane,
            r.c == c,
            r.domain == domain,
    {
        Helicoid { plane, c, domain }
    }

    fn map(&self, u: Scalar, v: Scalar) -> (r: (Scalar, Scalar))
        ensures
            r == (spec_map(self.domain, u), spec_map(self.domain, v)),
    {
        (self.domain.map(u), self.domain.map(v))
    }
}

impl Default for Helicoid {
    /// A helicoid of pitch 2 over the interval [-2, 2].
    fn default() -> (r: Helicoid)
        ensures
            r.plane == spec_default_plane(),
            r.c == s_of(TWO_BITS),
            r.domain == (Domain { start: s_of(NEG_TWO_BITS), end: s_of(TWO_BITS) }),
    {
        Helicoid::new(
            Plane::default(),
            Scalar::from_bits(TWO_BITS),
            Domain::new(Scalar::from_bits(NEG_TWO_BITS), Scalar::from_bits(TWO_BITS)),
        )
    }
}

impl Surface for Helicoid {
    /// `origin + x_axis u cos(v) + y_axis u sin(v) + normal c v` over the
    /// mapped parameters.
    open spec fn spec_point_at(&self, u: Scalar, v: Scalar) -> Point3 {
        let mu = spec_map(self.domain, u);
        let mv = spec_map(self.domain, v);
        translate_p(
            translate_p(
                translate_p(
                    self.plane.origin,
                    scale_v(scale_v(self.plane.x_axis, mu), s_cos(mv)),
                ),
                scale_v(scale_v(self.plane.y_axis, mu), s_sin(mv)),
            ),
            scale_v(scale_v(self.plane.normal, self.c), mv),
        )
    }

    /// `x_axis cos(v) + y_axis sin(v)` over the mapped parameter.
    open spec fn spec_du_at(&self, u: Scalar, v: Scalar) -> Vector3 {
        let mv = spec_map(self.domain, v);
        add_v(
            scale_v(self.plane.x_axis, s_cos(mv)),
            scale_v(self.plane.y_axis, s_sin(mv)),
        )
    }

    /// `-x_axis u sin(v) + y_axis u cos(v) + normal c` over the mapped
    /// parameters.
    open spec fn spec_dv_at(&self, u: Scalar, v: Scalar) -> Vector3 {
        let mu = spec_map(self.domain, u);
        let mv = spec_map(self.domain, v);
        add_v(
            add_v(
                scale_v(scale_v(neg_v(self.plane.x_axis), mu), s_sin(mv)),
                scale_v(scale_v(self.plane.y_axis, mu), s_cos(mv)),
            ),
            scale_v(self.plane.normal, self.c),
        )
    }

    /// The zero vector: the surface is ruled in `u`.
    open spec fn spec_dudu_at(&self, u: Scalar, v: Scalar) -> Vector3 {
        v3(s_of(ZERO_BITS), s_of(ZERO_BITS), s_of(ZERO_BITS))
    }

    /// `-x_axis sin(v) + y_axis cos(v)` over the mapped parameter.
    open spec fn spec_dudv_at(&self, u: Scalar, v: Scalar) -> Vector3 {
        let mv = spec_map(self.domain, v);
        add_v(
            scale_v(neg_v(self.plane.x_axis), s_sin(mv)),
            scale_v(self.plane.y_axis, s_cos(mv)),
        )
    }

    /// `-x_axis u cos(v) - y_axis u sin(v)` over the mapped parameters.
    open spec fn spec_dvdv_at(&self, u: Scalar, v: Scalar) -> Vector3 {
        let mu = spec_map(self.domain, u);
        let mv = spec_map(self.domain, v);
        sub_v(
            scale_v(scale_v(neg_v(self.plane.x_axis), mu), s_cos(mv)),
            scale_v(scale_v(self.plane.y_axis, mu), s_sin(mv)),
        )
    }

    fn point_at(&self, u: Scalar, v: Scalar) -> Point3 {
        let (mu, mv) = self.map(u, v);
        self.plane.origin.translate(self.plane.x_axis.scale(mu).scale(mv.cos())).translate(
            self.plane.y_axis.scale(mu).scale(mv.sin()),
        ).translate(self.plane.normal.scale(self.c).scale(mv))
    }

    fn du_at(&self, u: Scalar, v: Scalar) -> Vector3 {
        let (_mu, mv) = self.map(u, v);
        self.plane.x_axis.scale(mv.cos()).plus(self.plane.y_axis.scale(mv.sin()))
    }

    fn dv_at(&self, u: Scalar, v: Scalar) -> Vector3 {
        let (mu, mv) = self.map(u, v);
        self.plane.x_axis.neg().scale(mu).scale(mv.sin()).plus(
            self.plane.y_axis.scale(mu).scale(mv.cos()),
        ).plus(self.plane.normal.scale(self.c))
    }

    fn dudu_at(&self, _u: Scalar, _v: Scalar) -> Vector3 {
        let zero = Scalar::from_bits(ZERO_BITS);
        Vector3::new(zero, zero, zero)
    }

    fn dudv_at(&self, u: Scalar, v: Scalar) -> Vector3 {
        let (_mu, mv) = self.map(u, v);
        self.plane.x_axis.neg().scale(mv.sin()).plus(self.plane.y_axis.scale(mv.cos()))
    }

    fn dvdv_at(&self, u: Scalar, v: Scalar) -> Vector3 {
        let (mu, mv) = self.map(u, v);
        self.plane.x_axis.neg().scale(mu).scale(mv.cos()).minus(
            self.plane.y_axis.scale(mu).scale(mv.sin()),
        )
    }
}

} // verus!
