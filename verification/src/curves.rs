//! Curves: the shared interface with its derived operations, and the
//! concrete curve families.

pub mod arc_curve;
pub mod clothoid_curve;
pub mod curve;
pub mod ellipse_arc_curve;
pub mod expression_curve;
pub mod parametric_curve;
