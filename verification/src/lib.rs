//! A parametric differential-geometry kernel.
//!
//! Shapes supply closed-form position and derivative formulas; the shared
//! curve and surface layers derive tangents, normals, curvature and
//! tessellated point/normal/index buffers from them. Every scalar is carried
//! as the bit pattern of an IEEE 754 double, so for analytic shapes the
//! whole computation is pinned down, sample by sample, as an exact dag of
//! the primitive floating-point operations; expression-driven curves, whose
//! values pass through the platform's math library, are specified by what
//! holds of every evaluation outcome instead.

pub mod curve_tessellation;
pub mod curves;
pub mod domain;
pub mod eval;
pub mod frenet_frame;
pub mod plane;
pub mod surface_tessellation;
pub mod surfaces;
pub mod scalar;
pub mod vector;
