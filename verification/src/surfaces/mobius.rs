//! A Möbius band embedded in a plane.

use vstd::prelude::*;
use crate::plane::{Plane, spec_basis_vector, spec_default_plane};
use crate::scalar::{
    Scalar, ZERO_BITS, HALF_BITS, QUARTER_BITS, PI_BITS, TAU_BITS, s_of, s_add, s_sub, s_mul,
    s_neg, s_sin, s_cos,
};
use crate::surfaces::surface::Surface;
use crate::vector::{Point3, Vector3, v3, scale_v, translate_p};

verus! {

/// A Möbius band of unit size, embedded in `plane`.
#[derive(Clone, Copy, PartialEq, Eq, Structural, Debug)]
pub struct Mobius {
    pub plane: Plane,
}

/// The band's parameters at `(u, v)`: the angle `theta = u * tau - pi`
/// around the band, and the signed width offset `phi = v - 0.5` across it.
pub open spec fn spec_mobius_theta_phi(u: Scalar, v: Scalar) -> (Scalar, Scalar) {
    (s_sub(s_mul(u, s_of(TAU_BITS)), s_of(PI_BITS)), s_sub(v, s_of(HALF_BITS)))
}

impl Mobius {
    /// The band embedded in the given plane.
    pub fn new(plane: Plane) -> (r: Mobius)
        ensures
            r.plane == plane,
    {
        Mobius { plane }
    }

    fn theta_phi(&self, u: Scalar, v: Scalar) -> (r: (Scalar, Scalar))
        ensures
            r == spec_mobius_theta_phi(u, v),
    {
        let theta = u.mul_s(Scalar::from_bits(TAU_BITS)).sub_s(Scalar::from_bits(PI_BITS));
        let phi = v.sub_s(Scalar::from_bits(HALF_BITS));
        (theta, phi)
    }
}

impl Default for Mobius {
    /// The band in the canonical plane.
    fn default() -> (r: Mobius)
        ensures
            r.plane == spec_default_plane(),
    {
        Mobius::new(Plane::default())
    }
}

/// The band's position offsets at `(theta, phi)`:
/// `(cos T + phi sin(T/2) cos T, sin T + phi sin(T/2) sin T, phi cos(T/2))`.
pub open spec fn spec_mobius_point_coords(theta: Scalar, phi: Scalar) -> (
    Scalar,
    Scalar,
    Scalar,
) {
    let half = s_of(HALF_BITS);
    (
        s_add(s_cos(theta), s_mul(s_mul(phi, s_sin(s_mul(theta, half))), s_cos(theta))),
        s_add(s_sin(theta), s_mul(s_mul(phi, s_sin(s_mul(theta, half))), s_sin(theta))),
        s_mul(phi, s_cos(s_mul(theta, half))),
    )
}

/// The analytic theta-derivative of the band's position offsets:
/// `(-sin T + phi (1/2 cos(T/2) cos T - sin(T/2) sin T),
///    cos T + phi (1/2 cos(T/2) sin T + sin(T/2) cos T),
///   -phi (1/2) sin(T/2))`.
pub open spec fn spec_mobius_du_coords(theta: Scalar, phi: Scalar) -> (Scalar, Scalar, Scalar) {
    let half = s_of(HALF_BITS);
    let th = s_mul(theta, half);
    (
        s_add(
            s_neg(s_sin(theta)),
            s_mul(
                phi,
                s_sub(
                    s_mul(s_mul(half, s_cos(th)), s_cos(theta)),
                    s_mul(s_sin(th), s_sin(theta)),
                ),
            ),
        ),
        s_add(
            s_cos(theta),
            s_mul(
                phi,
                s_add(
                    s_mul(s_mul(half, s_cos(th)), s_sin(theta)),
                    s_mul(s_sin(th), s_cos(theta)),
                ),
            ),
        ),
        s_mul(s_mul(s_neg(phi), half), s_sin(th)),
    )
}

/// The analytic phi-derivative of the band's position offsets:
/// `(sin(T/2) cos T, sin(T/2) sin T, cos(T/2))`.
pub open spec fn spec_mobius_dv_coords(theta: Scalar) -> (Scalar, Scalar, Scalar) {
    let half = s_of(HALF_BITS);
    (
        s_mul(s_sin(s_mul(theta, half)), s_cos(theta)),
        s_mul(s_sin(s_mul(theta, half)), s_sin(theta)),
        s_cos(s_mul(theta, half)),
    )
}

/// The analytic second theta-derivative of the band's position offsets:
/// `(-cos T + phi ((-1/4 sin(T/2) cos T - cos(T/2) sin T) - sin(T/2) cos T),
///   -sin T + phi ((-1/4 sin(T/2) sin T + cos(T/2) cos T) - sin(T/2) sin T),
///   -phi (1/4) cos(T/2))`.
pub open spec fn spec_mobius_dudu_coords(theta: Scalar, phi: Scalar) -> (
    Scalar,
    Scalar,
    Scalar,
) {
    let half = s_of(HALF_BITS);
    let quarter = s_of(QUARTER_BITS);
    let th = s_mul(theta, half);
    (
        s_add(
            s_neg(s_cos(theta)),
            s_mul(
                phi,
                s_sub(
                    s_sub(
                        s_mul(s_mul(s_neg(quarter), s_sin(th)), s_cos(theta)),
                        s_mul(s_cos(th), s_sin(theta)),
                    ),
                    s_mul(s_sin(th), s_cos(theta)),
                ),
            ),
        ),
        s_add(
            s_neg(s_sin(theta)),
            s_mul(
                phi,
                s_sub(
                    s_add(
                        s_mul(s_mul(s_neg(quarter), s_sin(th)), s_sin(theta)),
                        s_mul(s_cos(th), s_cos(theta)),
                    ),
                    s_mul(s_sin(th), s_sin(theta)),
                ),
            ),
        ),
        s_mul(s_mul(s_neg(phi), quarter), s_cos(th)),
    )
}

/// The analytic mixed second derivative of the band's position offsets —
/// the phi-derivative of the theta-derivative, independent of phi:
/// `(1/2 cos(T/2) cos T - sin(T/2) sin T,
///   1/2 cos(T/2) sin T + sin(T/2) cos T,
///  -(1/2) sin(T/2))`.
pub open spec fn spec_mobius_dudv_coords(theta: Scalar) -> (Scalar, Scalar, Scalar) {
    let half = s_of(HALF_BITS);
    let th = s_mul(theta, half);
    (
        s_sub(s_mul(s_mul(half, s_cos(th)), s_cos(theta)), s_mul(s_sin(th), s_sin(theta))),
        s_add(s_mul(s_mul(half, s_cos(th)), s_sin(theta)), s_mul(s_sin(th), s_cos(theta))),
        s_mul(s_neg(half), s_sin(th)),
    )
}

impl Surface for Mobius {
    open spec fn spec_point_at(&self, u: Scalar, v: Scalar) -> Point3 {
        let (theta, phi) = spec_mobius_theta_phi(u, v);
        let (dx, dy, dz) = spec_mobius_point_coords(theta, phi);
        translate_p(
            translate_p(
                translate_p(self.plane.origin, scale_v(self.plane.x_axis, dx)),
                scale_v(self.plane.y_axis, dy),
            ),
            scale_v(self.plane.normal, dz),
        )
    }

    open spec fn spec_du_at(&self, u: Scalar, v: Scalar) -> Vector3 {
        let (theta, phi) = spec_mobius_theta_phi(u, v);
        let (dx, dy, dz) = spec_mobius_du_coords(theta, phi);
        spec_basis_vector(self.plane, dx, dy, dz)
    }

    open spec fn spec_dv_at(&self, u: Scalar, v: Scalar) -> Vector3 {
        let (theta, _phi) = spec_mobius_theta_phi(u, v);
        let (dx, dy, dz) = spec_mobius_dv_coords(theta);
        spec_basis_vector(self.plane, dx, dy, dz)
    }

    open spec fn spec_dudu_at(&self, u: Scalar, v: Scalar) -> Vector3 {
        let (theta, phi) = spec_mobius_theta_phi(u, v);
        let (dx, dy, dz) = spec_mobius_dudu_coords(theta, phi);
        spec_basis_vector(self.plane, dx, dy, dz)
    }

    open spec fn spec_dudv_at(&self, u: Scalar, v: Scalar) -> Vector3 {
        let (theta, _phi) = spec_mobius_theta_phi(u, v);
        let (dx, dy, dz) = spec_mobius_dudv_coords(theta);
        spec_basis_vector(self.plane, dx, dy, dz)
    }

    /// The zero vector: the position is affine in `v`, so its second
    /// `v`-derivative vanishes identically.
    open spec fn spec_dvdv_at(&self, u: Scalar, v: Scalar) -> Vector3 {
        v3(s_of(ZERO_BITS), s_of(ZERO_BITS), s_of(ZERO_BITS))
    }

    fn point_at(&self, u: Scalar, v: Scalar) -> Point3 {
        let (theta, phi) = self.theta_phi(u, v);
        let half = Scalar::from_bits(HALF_BITS);
        let dx = theta.cos().add_s(phi.mul_s(theta.mul_s(half).sin()).mul_s(theta.cos()));
        let dy = theta.sin().add_s(phi.mul_s(theta.mul_s(half).sin()).mul_s(theta.sin()));
        let dz = phi.mul_s(theta.mul_s(half).cos());
        self.plane.origin.translate(self.plane.x_axis.scale(dx)).translate(
            self.plane.y_axis.scale(dy),
        ).translate(self.plane.normal.scale(dz))
    }

    fn du_at(&self, u: Scalar, v: Scalar) -> Vector3 {
        let (theta, phi) = self.theta_phi(u, v);
        let half = Scalar::from_bits(HALF_BITS);
        let th = theta.mul_s(half);
        let dx = theta.sin().neg_s().add_s(
            phi.mul_s(
                half.mul_s(th.cos()).mul_s(theta.cos()).sub_s(th.sin().mul_s(theta.sin())),
            ),
        );
        let dy = theta.cos().add_s(
            phi.mul_s(
                half.mul_s(th.cos()).mul_s(theta.sin()).add_s(th.sin().mul_s(theta.cos())),
            ),
        );
        let dz = phi.neg_s().mul_s(half).mul_s(th.sin());
        self.plane.x_axis.scale(dx).plus(self.plane.y_axis.scale(dy)).plus(
            self.plane.normal.scale(dz),
        )
    }

    fn dv_at(&self, u: Scalar, v: Scalar) -> Vector3 {
        let (theta, _phi) = self.theta_phi(u, v);
        let half = Scalar::from_bits(HALF_BITS);
        let dx = theta.mul_s(half).sin().mul_s(theta.cos());
        let dy = theta.mul_s(half).sin().mul_s(theta.sin());
        let dz = theta.mul_s(half).cos();
        self.plane.x_axis.scale(dx).plus(self.plane.y_axis.scale(dy)).plus(
            self.plane.normal.scale(dz),
        )
    }

    fn dudu_at(&self, u: Scalar, v: Scalar) -> Vector3 {
        let (theta, phi) = self.theta_phi(u, v);
        let half = Scalar::from_bits(HALF_BITS);
        let quarter = Scalar::from_bits(QUARTER_BITS);
        let th = theta.mul_s(half);
        let dx = theta.cos().neg_s().add_s(
            phi.mul_s(
                quarter.neg_s().mul_s(th.sin()).mul_s(theta.cos()).sub_s(
                    th.cos().mul_s(theta.sin()),
                ).sub_s(th.sin().mul_s(theta.cos())),
            ),
        );
        let dy = theta.sin().neg_s().add_s(
            phi.mul_s(
                quarter.neg_s().mul_s(th.sin()).mul_s(theta.sin()).add_s(
                    th.cos().mul_s(theta.cos()),
                ).sub_s(th.sin().mul_s(theta.sin())),
            ),
        );
        let dz = phi.neg_s().mul_s(quarter).mul_s(th.cos());
        self.plane.x_axis.scale(dx).plus(self.plane.y_axis.scale(dy)).plus(
            self.plane.normal.scale(dz),
        )
    }

    fn dudv_at(&self, u: Scalar, v: Scalar) -> Vector3 {
        let (theta, _phi) = self.theta_phi(u, v);
        let half = Scalar::from_bits(HALF_BITS);
        let th = theta.mul_s(half);
        let dx = half.mul_s(th.cos()).mul_s(theta.cos()).sub_s(th.sin().mul_s(theta.sin()));
        let dy = half.mul_s(th.cos()).mul_s(theta.sin()).add_s(th.sin().mul_s(theta.cos()));
        let dz = half.neg_s().mul_s(th.sin());
        self.plane.x_axis.scale(dx).plus(self.plane.y_axis.scale(dy)).plus(
            self.plane.normal.scale(dz),
        )
    }

    fn dvdv_at(&self, _u: Scalar, _v: Scalar) -> Vector3 {
        let zero = Scalar::from_bits(ZERO_BITS);
        Vector3::new(zero, zero, zero)
    }
}

} // verus!
