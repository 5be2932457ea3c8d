//! The expression-driven curve: three textual coordinate formulas over the
//! variable `t`.

use vstd::prelude::*;
use crate::curves::parametric_curve::ParametricCurve;
use crate::domain::Domain;
use crate::scalar::{ZERO_BITS, TEN_BITS, s_of, Scalar};

verus! {

/// A curve whose coordinates are the given expressions of `t`, with `t`
/// ranging over `domain`.
pub struct ExpressionCurve {
    pub x_expr: String,
    pub y_expr: String,
    pub z_expr: String,
    pub domain: Domain,
}

impl ExpressionCurve {
    /// The curve with the given coordinate expressions and parameter
    /// interval. The formulas are not validated here: a malformed one
    /// evaluates to NaN wherever it is sampled.
    pub fn expression(x: String, y: String, z: String, d: Domain) -> (r: ExpressionCurve)
        ensures
            r.x_expr@ == x@,
            r.y_expr@ == y@,
            r.z_expr@ == z@,
            r.domain == d,
    {
        ExpressionCurve { x_expr: x, y_expr: y, z_expr: z, domain: d }
    }
}

impl Default for ExpressionCurve {
    /// A helix: `(cos(t), sin(t), t)` for `t` in [0, 10].
    fn default() -> (r: ExpressionCurve)
        ensures
            r.x_expr@ == "cos(t)"@,
            r.y_expr@ == "sin(t)"@,
            r.z_expr@ == "t"@,
            r.domain.start == s_of(ZERO_BITS),
            r.domain.end == s_of(TEN_BITS),
    {
        ExpressionCurve::expression(
            "cos(t)".to_owned(),
            "sin(t)".to_owned(),
            "t".to_owned(),
            Domain::new(Scalar::from_bits(ZERO_BITS), Scalar::from_bits(TEN_BITS)),
        )
    }
}

impl ParametricCurve for ExpressionCurve {
    open spec fn spec_domain(&self) -> Domain {
        self.domain
    }

    open spec fn spec_x_expr(&self) -> Seq<char> {
        self.x_expr@
    }

    open spec fn spec_y_expr(&self) -> Seq<char> {
        self.y_expr@
    }

    open spec fn spec_z_expr(&self) -> Seq<char> {
        self.z_expr@
    }

    fn domain(&self) -> Domain {
        self.domain
    }

    fn x_expr(&self) -> &String {
        &self.x_expr
    }

    fn y_expr(&self) -> &String {
        &self.y_expr
    }

    fn z_expr(&self) -> &String {
        &self.z_expr
    }
}

} // verus!
