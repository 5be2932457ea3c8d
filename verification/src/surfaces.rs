//! Surfaces: the shared interface with its derived operations, and the
//! concrete surface families.

pub mod cylinder;
pub mod elliptic_paraboloid;
pub mod helicoid;
pub mod hyperbolic_paraboloid;
pub mod mobius;
pub mod single_leaf_paraboloid;
pub mod sphere;
pub mod torus;
pub mod surface;
pub mod surface_curvature;
