//! A clothoid (Euler spiral) embedded in a plane: curvature grows linearly
//! with arc length. Its position has no closed form, so `point_at` walks the
//! Fresnel integrals as a finite sum of steps of size `delta`.

use vstd::prelude::*;
use crate::curves::curve::{Curve, CurveOps, CurvePrimitives, spec_integral_length_rel};
use crate::domain::Domain;
use crate::plane::{Plane, spec_default_plane};
use crate::scalar::{
    Scalar, ZERO_BITS, ONE_BITS, HALF_BITS, TAU_BITS, MILLI_BITS, CENTI_BITS,
    DELTA_DEFAULT_BITS, div_bits, i64_from_bits, bits_of_i64, s_of, s_add, s_sub, s_mul,
    s_neg, s_sin, s_cos, s_signum,
};
use crate::vector::{Point3, Vector3, add_v, scale_v, translate_p};

verus! {

/// A clothoid with flatness parameter `a`, walked between the two angles,
/// with Fresnel integration steps of size `delta`.
#[derive(Clone, Copy, PartialEq, Eq, Structural, Debug)]
pub struct ClothoidCurve {
    pub plane: Plane,
    pub a: Scalar,
    pub start_angle: Scalar,
    pub end_angle: Scalar,
    pub delta: Scalar,
}

/// The integration step a caller passed, or the default 1e-2.
pub open spec fn spec_cloth_delta(delta: Option<Scalar>) -> Scalar {
    match delta {
        Some(d) => d,
        None => s_of(CENTI_BITS),
    }
}

/// The absolute parameter `s` maps to: `s * (end - start) + start`.
pub open spec fn spec_cloth_t(c: ClothoidCurve, s: Scalar) -> Scalar {
    s_add(s_mul(s, s_sub(c.end_angle, c.start_angle)), c.start_angle)
}

/// How many integration steps the walk takes beyond the first: the
/// magnitude of `t / delta` truncated to an integer, kept one below the
/// signed maximum so the walk's step counter cannot overflow.
pub open spec fn spec_cloth_steps(n: i64) -> int {
    let m = if n < 0 {
        -(n as int)
    } else {
        n as int
    };
    if m >= i64::MAX {
        i64::MAX - 1
    } else {
        m
    }
}

/// The Fresnel phase at step `i`: `a * (i delta)^2 * 0.5`.
pub open spec fn spec_cloth_phase(a: Scalar, delta: Scalar, i: int) -> Scalar {
    let tt = s_mul(s_of(bits_of_i64(i as i64)), delta);
    s_mul(s_mul(s_mul(a, tt), tt), s_of(HALF_BITS))
}

/// The cosine Fresnel sum after `n` steps: each step adds
/// `cos(phase) * delta`.
pub open spec fn spec_cloth_dx(a: Scalar, delta: Scalar, n: nat) -> Scalar
    decreases n,
{
    if n == 0 {
        s_of(ZERO_BITS)
    } else {
        s_add(
            spec_cloth_dx(a, delta, (n - 1) as nat),
            s_mul(s_cos(spec_cloth_phase(a, delta, n - 1)), delta),
        )
    }
}

/// The sine Fresnel sum after `n` steps: each step adds
/// `sin(phase) * delta`.
pub open spec fn spec_cloth_dy(a: Scalar, delta: Scalar, n: nat) -> Scalar
    decreases n,
{
    if n == 0 {
        s_of(ZERO_BITS)
    } else {
        s_add(
            spec_cloth_dy(a, delta, (n - 1) as nat),
            s_mul(s_sin(spec_cloth_phase(a, delta, n - 1)), delta),
        )
    }
}

impl ClothoidCurve {
    /// The clothoid with the given plane, flatness, angle range and
    /// integration step (default 1e-2).
    pub fn new(
        plane: Plane,
        a: Scalar,
        start_angle: Scalar,
        end_angle: Scalar,
        delta: Option<Scalar>,
    ) -> (r: ClothoidCurve)
        ensures
            r.plane == plane,
            r.a == a,
            r.start_angle == start_angle,
            r.end_angle == end_angle,
            r.delta == spec_cloth_delta(delta),
    {
        let d = match delta {
            Some(x) => x,
            None => Scalar::from_bits(CENTI_BITS),
        };
        ClothoidCurve { plane, a, start_angle, end_angle, delta: d }
    }
}

impl Default for ClothoidCurve {
    /// A unit clothoid over one full turn in each direction, with step 1e-3.
    fn default() -> (r: ClothoidCurve)
        ensures
            r.plane == spec_default_plane(),
            r.a == s_of(ONE_BITS),
            r.start_angle == s_neg(s_of(TAU_BITS)),
            r.end_angle == s_of(TAU_BITS),
            r.delta == s_of(MILLI_BITS),
    {
        let tau = Scalar::from_bits(TAU_BITS);
        ClothoidCurve::new(
            Plane::default(),
            Scalar::from_bits(ONE_BITS),
            tau.neg_s(),
            tau,
            Some(Scalar::from_bits(MILLI_BITS)),
        )
    }
}

/// The Fresnel sums up to `t`, oriented by the sign of `t`:
/// `origin + x_axis * dx * sign(t) + y_axis * dy * sign(t)`.
pub open spec fn spec_cloth_point(c: ClothoidCurve, s: Scalar) -> Point3 {
    let t = spec_cloth_t(c, s);
    let sine = s_signum(t);
    let n = spec_cloth_steps(i64_from_bits(div_bits(t.bits, c.delta.bits)));
    let dx = spec_cloth_dx(c.a, c.delta, (n + 1) as nat);
    let dy = spec_cloth_dy(c.a, c.delta, (n + 1) as nat);
    translate_p(
        translate_p(c.plane.origin, scale_v(scale_v(c.plane.x_axis, dx), sine)),
        scale_v(scale_v(c.plane.y_axis, dy), sine),
    )
}

/// The oriented unit direction of the spiral at `t`:
/// `x_axis * cos(p) * sign(t) + y_axis * sin(p) * sign(t)` with the phase
/// `p = a t^2 / 2`.
pub open spec fn spec_cloth_velocity(c: ClothoidCurve, s: Scalar) -> Vector3 {
    let t = spec_cloth_t(c, s);
    let sine = s_signum(t);
    let p = s_mul(s_mul(s_mul(c.a, t), t), s_of(HALF_BITS));
    add_v(
        scale_v(scale_v(c.plane.x_axis, s_cos(p)), sine),
        scale_v(scale_v(c.plane.y_axis, s_sin(p)), sine),
    )
}

/// The derivative of the unit direction, scaled by the phase rate
/// `k = a t`: `x_axis * (k * -sin(p)) * sign(t) + y_axis * (k cos(p)) * sign(t)`.
pub open spec fn spec_cloth_acceleration(c: ClothoidCurve, s: Scalar) -> Vector3 {
    let t = spec_cloth_t(c, s);
    let sine = s_signum(t);
    let p = s_mul(s_mul(s_mul(c.a, t), t), s_of(HALF_BITS));
    let k = s_mul(c.a, t);
    add_v(
        scale_v(scale_v(c.plane.x_axis, s_mul(k, s_neg(s_sin(p)))), sine),
        scale_v(scale_v(c.plane.y_axis, s_mul(k, s_cos(p))), sine),
    )
}

impl CurvePrimitives for ClothoidCurve {
    /// The interval between the two construction angles.
    open spec fn spec_domain(&self) -> Domain {
        Domain { start: self.start_angle, end: self.end_angle }
    }

    /// Exactly the Fresnel walk's value.
    open spec fn point_at_spec(&self, s: Scalar, p: Point3) -> bool {
        p == spec_cloth_point(*self, s)
    }

    /// Exactly the oriented unit direction.
    open spec fn velocity_at_spec(&self, s: Scalar, v: Vector3) -> bool {
        v == spec_cloth_velocity(*self, s)
    }

    /// Exactly the oriented direction derivative.
    open spec fn acceleration_at_spec(&self, s: Scalar, a: Vector3) -> bool {
        a == spec_cloth_acceleration(*self, s)
    }

    fn domain(&self) -> Domain {
        Domain::new(self.start_angle, self.end_angle)
    }

    fn point_at(&self, s: Scalar) -> Point3 {
        let t = s.mul_s(self.end_angle.sub_s(self.start_angle)).add_s(self.start_angle);
        let sine = t.signum_s();
        let steps: i64 = t.div_s(self.delta).to_i64();
        let mag: i64 = if steps == i64::MIN {
            i64::MAX
        } else if steps < 0 {
            -steps
        } else {
            steps
        };
        let last: i64 = if mag == i64::MAX {
            i64::MAX - 1
        } else {
            mag
        };
        let half = Scalar::from_bits(HALF_BITS);
        let mut dx = Scalar::from_bits(ZERO_BITS);
        let mut dy = Scalar::from_bits(ZERO_BITS);
        let mut done: i64 = 0;
        while done <= last
            invariant
                0 <= done,
                done <= last + 1,
                last == spec_cloth_steps(steps),
                last <= i64::MAX - 1,
                half == s_of(HALF_BITS),
                dx == spec_cloth_dx(self.a, self.delta, done as nat),
                dy == spec_cloth_dy(self.a, self.delta, done as nat),
            decreases last + 1 - done,
        {
            let tt = Scalar::from_i64(done).mul_s(self.delta);
            let p = self.a.mul_s(tt).mul_s(tt).mul_s(half);
            dx = dx.add_s(p.cos().mul_s(self.delta));
            dy = dy.add_s(p.sin().mul_s(self.delta));
            done = done + 1;
        }
        let o = self.plane.origin;
        o.translate(self.plane.x_axis.scale(dx).scale(sine))
            .translate(self.plane.y_axis.scale(dy).scale(sine))
    }

    fn velocity_at(&self, s: Scalar) -> Vector3 {
        let t = s.mul_s(self.end_angle.sub_s(self.start_angle)).add_s(self.start_angle);
        let sine = t.signum_s();
        let p = self.a.mul_s(t).mul_s(t).mul_s(Scalar::from_bits(HALF_BITS));
        let dx = p.cos();
        let dy = p.sin();
        self.plane.x_axis.scale(dx).scale(sine).plus(self.plane.y_axis.scale(dy).scale(sine))
    }

    fn acceleration_at(&self, s: Scalar) -> Vector3 {
        let t = s.mul_s(self.end_angle.sub_s(self.start_angle)).add_s(self.start_angle);
        let sine = t.signum_s();
        let p = self.a.mul_s(t).mul_s(t).mul_s(Scalar::from_bits(HALF_BITS));
        let k = self.a.mul_s(t);
        let dx = k.mul_s(p.sin().neg_s());
        let dy = k.mul_s(p.cos());
        self.plane.x_axis.scale(dx).scale(sine).plus(self.plane.y_axis.scale(dy).scale(sine))
    }
}

impl Curve for ClothoidCurve {
    /// No closed form: a polyline approximation at the default resolution.
    open spec fn length_spec(&self, r: Scalar) -> bool {
        spec_integral_length_rel(self, s_of(DELTA_DEFAULT_BITS), r)
    }

    fn length(&self) -> Scalar {
        self.integral_length(None)
    }
}

} // verus!
