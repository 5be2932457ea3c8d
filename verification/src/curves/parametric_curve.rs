//! Curves whose coordinates are textual expressions over one variable.
//!
//! A [`ParametricCurve`] supplies a domain and one expression per
//! coordinate; every such shape is a full [`Curve`]: its position evaluates
//! the expressions, and its velocity and acceleration are first- and
//! second-order symmetric finite differences of them, so exact analytic
//! shapes and approximate expression-driven ones are interchangeable behind
//! the same interface. The evaluated values pass through the platform's
//! math library and are deliberately not modeled; the contracts state the
//! difference dags over those opaque outcomes.

use vstd::prelude::*;
use crate::curves::curve::{Curve, CurveOps, CurvePrimitives, spec_integral_length_rel};
use crate::domain::Domain;
use crate::eval::{df, eval_or_nan, spec_df_rel, spec_eval_outcome};
use crate::scalar::{Scalar, DELTA_DEFAULT_BITS, s_of, s_add, s_mul};
use crate::vector::{Point3, Vector3};

verus! {

/// A curve given by one textual coordinate expression per axis over the
/// variable `t`, with the parameter interval that `t` ranges over.
pub trait ParametricCurve: Sized {
    /// The parameter interval of the expressions.
    spec fn spec_domain(&self) -> Domain;

    /// The x-coordinate expression.
    spec fn spec_x_expr(&self) -> Seq<char>;

    /// The y-coordinate expression.
    spec fn spec_y_expr(&self) -> Seq<char>;

    /// The z-coordinate expression.
    spec fn spec_z_expr(&self) -> Seq<char>;

    /// The parameter interval of the expressions.
    fn domain(&self) -> (d: Domain)
        ensures
            d == self.spec_domain(),
    ;

    /// The x-coordinate expression.
    fn x_expr(&self) -> (r: &String)
        ensures
            r@ == self.spec_x_expr(),
    ;

    /// The y-coordinate expression.
    fn y_expr(&self) -> (r: &String)
        ensures
            r@ == self.spec_y_expr(),
    ;

    /// The z-coordinate expression.
    fn z_expr(&self) -> (r: &String)
        ensures
            r@ == self.spec_z_expr(),
    ;
}

/// The absolute parameter an expression curve evaluates at `s`:
/// `start + s * end`.
pub open spec fn spec_pc_t<T: ParametricCurve>(c: &T, s: Scalar) -> Scalar {
    s_add(
        ParametricCurve::spec_domain(c).start,
        s_mul(s, ParametricCurve::spec_domain(c).end),
    )
}

impl<T: ParametricCurve> CurvePrimitives for T {
    open spec fn spec_domain(&self) -> Domain {
        ParametricCurve::spec_domain(self)
    }

    /// Each coordinate is an outcome of evaluating its expression at
    /// `start + s * end`; a failed evaluation yields NaN, a successful one
    /// whatever value the platform's math library produced.
    open spec fn point_at_spec(&self, s: Scalar, p: Point3) -> bool {
        let t = spec_pc_t(self, s);
        &&& spec_eval_outcome(self.spec_x_expr(), t, p.x)
        &&& spec_eval_outcome(self.spec_y_expr(), t, p.y)
        &&& spec_eval_outcome(self.spec_z_expr(), t, p.z)
    }

    /// Each coordinate is a first symmetric difference of its expression's
    /// outcomes, with step 1e-4.
    open spec fn velocity_at_spec(&self, s: Scalar, v: Vector3) -> bool {
        let t = spec_pc_t(self, s);
        &&& spec_df_rel(self.spec_x_expr(), 1, t, s_of(DELTA_DEFAULT_BITS), v.x)
        &&& spec_df_rel(self.spec_y_expr(), 1, t, s_of(DELTA_DEFAULT_BITS), v.y)
        &&& spec_df_rel(self.spec_z_expr(), 1, t, s_of(DELTA_DEFAULT_BITS), v.z)
    }

    /// Each coordinate is a second symmetric difference of its expression's
    /// outcomes, with step 1e-4.
    open spec fn acceleration_at_spec(&self, s: Scalar, a: Vector3) -> bool {
        let t = spec_pc_t(self, s);
        &&& spec_df_rel(self.spec_x_expr(), 2, t, s_of(DELTA_DEFAULT_BITS), a.x)
        &&& spec_df_rel(self.spec_y_expr(), 2, t, s_of(DELTA_DEFAULT_BITS), a.y)
        &&& spec_df_rel(self.spec_z_expr(), 2, t, s_of(DELTA_DEFAULT_BITS), a.z)
    }

    fn domain(&self) -> Domain {
        ParametricCurve::domain(self)
    }

    fn point_at(&self, s: Scalar) -> Point3 {
        let d = ParametricCurve::domain(self);
        let t = d.start().add_s(s.mul_s(d.end()));
        let x = eval_or_nan(self.x_expr().as_str(), t);
        let y = eval_or_nan(self.y_expr().as_str(), t);
        let z = eval_or_nan(self.z_expr().as_str(), t);
        Point3::new(x, y, z)
    }

    fn velocity_at(&self, s: Scalar) -> Vector3 {
        let d = ParametricCurve::domain(self);
        let t = d.start().add_s(s.mul_s(d.end()));
        let delta = Scalar::from_bits(DELTA_DEFAULT_BITS);
        let dx = df(self.x_expr().as_str(), 1, t, delta);
        let dy = df(self.y_expr().as_str(), 1, t, delta);
        let dz = df(self.z_expr().as_str(), 1, t, delta);
        Vector3::new(dx, dy, dz)
    }

    fn acceleration_at(&self, s: Scalar) -> Vector3 {
        let d = ParametricCurve::domain(self);
        let t = d.start().add_s(s.mul_s(d.end()));
        let delta = Scalar::from_bits(DELTA_DEFAULT_BITS);
        let dx = df(self.x_expr().as_str(), 2, t, delta);
        let dy = df(self.y_expr().as_str(), 2, t, delta);
        let dz = df(self.z_expr().as_str(), 2, t, delta);
        Vector3::new(dx, dy, dz)
    }
}

impl<T: ParametricCurve> Curve for T {
    /// No closed form: a polyline approximation at the default resolution.
    open spec fn length_spec(&self, r: Scalar) -> bool {
        spec_integral_length_rel(self, s_of(DELTA_DEFAULT_BITS), r)
    }

    fn length(&self) -> Scalar {
        self.integral_length(None)
    }
}

} // verus!
