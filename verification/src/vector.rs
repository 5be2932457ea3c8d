//! Points and vectors in 3-space over [`Scalar`].
//!
//! Every operation's contract gives the exact dag of scalar operations it
//! performs, so the higher layers can state, sample by sample, which
//! floating-point computation produced each coordinate.

use vstd::prelude::*;
use crate::scalar::{Scalar, s_add, s_sub, s_mul, s_div, s_neg, s_sqrt};

verus! {

/// A direction in 3-space.
#[derive(Clone, Copy, PartialEq, Eq, Structural, Debug)]
pub struct Vector3 {
    pub x: Scalar,
    pub y: Scalar,
    pub z: Scalar,
}

/// A position in 3-space.
#[derive(Clone, Copy, PartialEq, Eq, Structural, Debug)]
pub struct Point3 {
    pub x: Scalar,
    pub y: Scalar,
    pub z: Scalar,
}

/// The vector with the given components.
pub open spec fn v3(x: Scalar, y: Scalar, z: Scalar) -> Vector3 {
    Vector3 { x, y, z }
}

/// The point with the given components.
pub open spec fn p3(x: Scalar, y: Scalar, z: Scalar) -> Point3 {
    Point3 { x, y, z }
}

/// Component-wise vector sum.
pub open spec fn add_v(a: Vector3, b: Vector3) -> Vector3 {
    v3(s_add(a.x, b.x), s_add(a.y, b.y), s_add(a.z, b.z))
}

/// Component-wise vector difference.
pub open spec fn sub_v(a: Vector3, b: Vector3) -> Vector3 {
    v3(s_sub(a.x, b.x), s_sub(a.y, b.y), s_sub(a.z, b.z))
}

/// The vector scaled by `s` in each component.
pub open spec fn scale_v(a: Vector3, s: Scalar) -> Vector3 {
    v3(s_mul(a.x, s), s_mul(a.y, s), s_mul(a.z, s))
}

/// The vector negated in each component.
pub open spec fn neg_v(a: Vector3) -> Vector3 {
    v3(s_neg(a.x), s_neg(a.y), s_neg(a.z))
}

/// The dot product `(a.x b.x + a.y b.y) + a.z b.z`.
pub open spec fn dot_v(a: Vector3, b: Vector3) -> Scalar {
    s_add(s_add(s_mul(a.x, b.x), s_mul(a.y, b.y)), s_mul(a.z, b.z))
}

/// The cross product of `a` and `b`.
pub open spec fn cross_v(a: Vector3, b: Vector3) -> Vector3 {
    v3(
        s_sub(s_mul(a.y, b.z), s_mul(a.z, b.y)),
        s_sub(s_mul(a.z, b.x), s_mul(a.x, b.z)),
        s_sub(s_mul(a.x, b.y), s_mul(a.y, b.x)),
    )
}

/// The Euclidean norm: the square root of the vector's dot product with
/// itself.
pub open spec fn norm_v(a: Vector3) -> Scalar {
    s_sqrt(dot_v(a, a))
}

/// The vector divided component-wise by its own norm. A zero vector yields
/// NaN components, which the kernel propagates rather than rejects.
pub open spec fn normalize_v(a: Vector3) -> Vector3 {
    v3(s_div(a.x, norm_v(a)), s_div(a.y, norm_v(a)), s_div(a.z, norm_v(a)))
}

/// The point translated by a vector, component-wise.
pub open spec fn translate_p(p: Point3, v: Vector3) -> Point3 {
    p3(s_add(p.x, v.x), s_add(p.y, v.y), s_add(p.z, v.z))
}

/// The difference of two points, component-wise.
pub open spec fn sub_p(p: Point3, q: Point3) -> Vector3 {
    v3(s_sub(p.x, q.x), s_sub(p.y, q.y), s_sub(p.z, q.z))
}

impl Vector3 {
    /// The vector with the given components.
    pub fn new(x: Scalar, y: Scalar, z: Scalar) -> (r: Vector3)
        ensures
            r == v3(x, y, z),
    {
        Vector3 { x, y, z }
    }

    /// Component-wise sum.
    pub fn plus(self, rhs: Vector3) -> (r: Vector3)
        ensures
            r == add_v(self, rhs),
    {
        Vector3 {
            x: self.x.add_s(rhs.x),
            y: self.y.add_s(rhs.y),
            z: self.z.add_s(rhs.z),
        }
    }

    /// Component-wise difference.
    pub fn minus(self, rhs: Vector3) -> (r: Vector3)
        ensures
            r == sub_v(self, rhs),
    {
        Vector3 {
            x: self.x.sub_s(rhs.x),
            y: self.y.sub_s(rhs.y),
            z: self.z.sub_s(rhs.z),
        }
    }

    /// The vector scaled by `s` in each component.
    pub fn scale(self, s: Scalar) -> (r: Vector3)
        ensures
            r == scale_v(self, s),
    {
        Vector3 { x: self.x.mul_s(s), y: self.y.mul_s(s), z: self.z.mul_s(s) }
    }

    /// The vector negated in each component.
    pub fn neg(self) -> (r: Vector3)
        ensures
            r == neg_v(self),
    {
        Vector3 { x: self.x.neg_s(), y: self.y.neg_s(), z: self.z.neg_s() }
    }

    /// The dot product with `rhs`.
    pub fn dot(self, rhs: Vector3) -> (r: Scalar)
        ensures
            r == dot_v(self, rhs),
    {
        self.x.mul_s(rhs.x).add_s(self.y.mul_s(rhs.y)).add_s(self.z.mul_s(rhs.z))
    }

    /// The cross product with `rhs`.
    pub fn cross(self, rhs: Vector3) -> (r: Vector3)
        ensures
            r == cross_v(self, rhs),
    {
        Vector3 {
            x: self.y.mul_s(rhs.z).sub_s(self.z.mul_s(rhs.y)),
            y: self.z.mul_s(rhs.x).sub_s(self.x.mul_s(rhs.z)),
            z: self.x.mul_s(rhs.y).sub_s(self.y.mul_s(rhs.x)),
        }
    }

    /// The Euclidean norm.
    pub fn norm(self) -> (r: Scalar)
        ensures
            r == norm_v(self),
    {
        self.dot(self).sqrt()
    }

    /// The vector divided component-wise by its own norm.
    pub fn normalize(self) -> (r: Vector3)
        ensures
            r == normalize_v(self),
    {
        let n = self.norm();
        Vector3 { x: self.x.div_s(n), y: self.y.div_s(n), z: self.z.div_s(n) }
    }
}

impl Point3 {
    /// The point with the given components.
    pub fn new(x: Scalar, y: Scalar, z: Scalar) -> (r: Point3)
        ensures
            r == p3(x, y, z),
    {
        Point3 { x, y, z }
    }

    /// The point translated by a vector.
    pub fn translate(self, v: Vector3) -> (r: Point3)
        ensures
            r == translate_p(self, v),
    {
        Point3 {
            x: self.x.add_s(v.x),
            y: self.y.add_s(v.y),
            z: self.z.add_s(v.z),
        }
    }

    /// The vector from `rhs` to `self`.
    pub fn minus(self, rhs: Point3) -> (r: Vector3)
        ensures
            r == sub_p(self, rhs),
    {
        Vector3 {
            x: self.x.sub_s(rhs.x),
            y: self.y.sub_s(rhs.y),
            z: self.z.sub_s(rhs.z),
        }
    }
}

} // verus!
