//! The curve interface: shapes supply position, velocity and acceleration
//! over the normalized parameter `s` in [0,1]; everything else — tangent,
//! normal, curvature, Frenet frames, arc length, tessellation — is derived
//! here once.
//!
//! Each primitive is specified as a relation between the parameter and the
//! admissible results: an analytic shape admits exactly one value, the exact
//! dag of scalar operations its formula performs, while an expression-driven
//! shape admits any outcome of evaluating its formulas, whose values pass
//! through the platform's math library and are deliberately not named. The
//! derived contracts then say precisely which dag was built over admissible
//! primitive results, so for analytic shapes every derived quantity is still
//! pinned to a single value.

use vstd::prelude::*;
use crate::curve_tessellation::CurveTessellation;
use crate::domain::Domain;
use crate::frenet_frame::FrenetFrame;
use crate::scalar::{
    Scalar, ZERO_BITS, ONE_BITS, DELTA_DEFAULT_BITS, div_bits, count_from_bits,
    bits_of_usize, bits_of_i64, s_add, s_div, s_mul,
};
use crate::vector::{Point3, Vector3, cross_v, norm_v, normalize_v, sub_p};

verus! {

/// The resolution a caller passed, or the nominal default 1e-4.
pub open spec fn spec_delta_or_default(delta: Option<Scalar>) -> Scalar {
    match delta {
        Some(d) => d,
        None => Scalar { bits: DELTA_DEFAULT_BITS },
    }
}

/// How many samples the resolution denotes: the integer part of `1/delta`.
pub open spec fn spec_sample_count(delta: Scalar) -> usize {
    count_from_bits(div_bits(ONE_BITS, delta.bits))
}

/// The `i`-th of `count` uniform samples of [0,1]: `i / (count - 1)`, both
/// converted to doubles.
pub open spec fn spec_unit_param(i: int, count: int) -> Scalar {
    s_div(
        Scalar { bits: bits_of_usize(i as usize) },
        Scalar { bits: bits_of_usize((count - 1) as usize) },
    )
}

/// The `i`-th of `n` uniform samples of [0,1] for a signed count:
/// `i / (n - 1)`, both converted to doubles.
pub open spec fn spec_unit_param_i64(i: int, n: int) -> Scalar {
    s_div(
        Scalar { bits: bits_of_i64(i as i64) },
        Scalar { bits: bits_of_i64((n - 1) as i64) },
    )
}

/// The parameter the integral-length walk evaluates at step `i`: 0 at the
/// start, then `i * delta` with `i` converted to a double.
pub open spec fn spec_walk_param(delta: Scalar, i: nat) -> Scalar {
    if i == 0 {
        Scalar { bits: ZERO_BITS }
    } else {
        s_mul(Scalar { bits: bits_of_usize(i as usize) }, delta)
    }
}

/// The contract of a parametric curve's primitives: the parameter interval,
/// and for each of position, velocity and acceleration the relation between
/// `s` and the results the shape admits there. The derived operations live
/// in [`CurveOps`], which every `CurvePrimitives` implements; the reported
/// length lives in [`Curve`], so that a shape without a closed form can
/// define it from its own primitives.
pub trait CurvePrimitives: Sized {
    /// The parameter interval the shape maps [0,1] onto.
    spec fn spec_domain(&self) -> Domain;

    /// Which positions the shape admits at `s`; analytic shapes admit
    /// exactly their formula's value.
    spec fn point_at_spec(&self, s: Scalar, p: Point3) -> bool;

    /// Which first derivatives the shape admits at `s`.
    spec fn velocity_at_spec(&self, s: Scalar, v: Vector3) -> bool;

    /// Which second derivatives the shape admits at `s`.
    spec fn acceleration_at_spec(&self, s: Scalar, a: Vector3) -> bool;

    /// The shape's natural parameter interval.
    fn domain(&self) -> (d: Domain)
        ensures
            d == self.spec_domain(),
    ;

    /// The position at normalized parameter `s`.
    fn point_at(&self, s: Scalar) -> (p: Point3)
        ensures
            self.point_at_spec(s, p),
    ;

    /// The first derivative at `s`.
    fn velocity_at(&self, s: Scalar) -> (v: Vector3)
        ensures
            self.velocity_at_spec(s, v),
    ;

    /// The second derivative at `s`.
    fn acceleration_at(&self, s: Scalar) -> (a: Vector3)
        ensures
            self.acceleration_at_spec(s, a),
    ;
}

/// A full curve: the primitives together with a reported arc length — a
/// closed form where the shape has one, else the polyline approximation of
/// its own primitives.
pub trait Curve: CurvePrimitives {
    /// Which lengths the shape admits.
    spec fn length_spec(&self, r: Scalar) -> bool;

    /// The arc length: closed form where the shape has one, else its
    /// polyline approximation.
    fn length(&self) -> (r: Scalar)
        ensures
            self.length_spec(r),
    ;
}

/// The normalized direction of an admissible velocity.
pub open spec fn spec_tangent_rel<C: CurvePrimitives>(c: &C, s: Scalar, r: Vector3) -> bool {
    exists|v: Vector3| #[trigger] c.velocity_at_spec(s, v) && r == normalize_v(v)
}

/// The normalized direction of an admissible acceleration. This is the
/// kernel's convention, not the textbook Frenet normal; it is meaningful
/// only while the acceleration is non-zero and not parallel to the
/// velocity.
pub open spec fn spec_normal_rel<C: CurvePrimitives>(c: &C, s: Scalar, r: Vector3) -> bool {
    exists|a: Vector3| #[trigger] c.acceleration_at_spec(s, a) && r == normalize_v(a)
}

/// The curvature convention of the kernel: the raw magnitude of an
/// admissible acceleration, not the Frenet `|v x a| / |v|^3`.
pub open spec fn spec_curvature_rel<C: CurvePrimitives>(c: &C, s: Scalar, r: Scalar) -> bool {
    exists|a: Vector3| #[trigger] c.acceleration_at_spec(s, a) && r == norm_v(a)
}

/// The reciprocal of an admissible curvature; an infinity where the
/// curvature is zero.
pub open spec fn spec_curvature_radius_rel<C: CurvePrimitives>(
    c: &C,
    s: Scalar,
    r: Scalar,
) -> bool {
    exists|a: Vector3|
        #[trigger] c.acceleration_at_spec(s, a) && r == s_div(
            Scalar { bits: ONE_BITS },
            norm_v(a),
        )
}

/// The cross product of admissible tangent and normal directions.
pub open spec fn spec_binormal_rel<C: CurvePrimitives>(c: &C, s: Scalar, r: Vector3) -> bool {
    exists|v: Vector3, a: Vector3|
        #![trigger c.velocity_at_spec(s, v), c.acceleration_at_spec(s, a)]
        c.velocity_at_spec(s, v) && c.acceleration_at_spec(s, a) && r == cross_v(
            normalize_v(v),
            normalize_v(a),
        )
}

/// The frame a tessellation stores: an admissible position, tangent and
/// normal each renormalized once more, and their cross product as binormal.
pub open spec fn spec_frame_rel<C: CurvePrimitives>(c: &C, s: Scalar, fr: FrenetFrame) -> bool {
    exists|v: Vector3, a: Vector3|
        #![trigger c.velocity_at_spec(s, v), c.acceleration_at_spec(s, a)]
        c.velocity_at_spec(s, v) && c.acceleration_at_spec(s, a) && c.point_at_spec(
            s,
            fr.position,
        ) && fr.tangent == normalize_v(normalize_v(v)) && fr.normal == normalize_v(
            normalize_v(a),
        ) && fr.binormal == cross_v(normalize_v(normalize_v(v)), normalize_v(normalize_v(a)))
}

/// Whether `pts` is a walk of admissible positions at the integral-length
/// parameters `0, delta, 2 delta, ...`.
pub open spec fn spec_walk_ok<C: CurvePrimitives>(
    c: &C,
    delta: Scalar,
    pts: Seq<Point3>,
) -> bool {
    forall|i: int|
        0 <= i < pts.len() ==> #[trigger] c.point_at_spec(spec_walk_param(delta, i as nat), pts[i])
}

/// The polyline length of the first `i` segments of `pts`: each segment
/// adds the Euclidean distance between consecutive points.
pub open spec fn spec_polyline_length(pts: Seq<Point3>, i: nat) -> Scalar
    decreases i,
{
    if i == 0 {
        Scalar { bits: ZERO_BITS }
    } else {
        s_add(
            spec_polyline_length(pts, (i - 1) as nat),
            norm_v(sub_p(pts[i as int], pts[i as int - 1])),
        )
    }
}

/// The polyline length of the first `i` segments does not depend on later
/// points.
proof fn lemma_polyline_length_prefix(pts: Seq<Point3>, x: Point3, i: nat)
    requires
        i < pts.len(),
    ensures
        spec_polyline_length(pts.push(x), i) == spec_polyline_length(pts, i),
    decreases i,
{
    if i > 0 {
        lemma_polyline_length_prefix(pts, x, (i - 1) as nat);
        assert(pts.push(x)[i as int] == pts[i as int]);
        assert(pts.push(x)[i as int - 1] == pts[i as int - 1]);
    }
}

/// Which lengths the polyline walk admits at the given resolution: the
/// accumulated distance over some walk of `1/delta` admissible steps.
pub open spec fn spec_integral_length_rel<C: CurvePrimitives>(
    c: &C,
    delta: Scalar,
    r: Scalar,
) -> bool {
    exists|pts: Seq<Point3>|
        #![trigger spec_walk_ok(c, delta, pts)]
        pts.len() == spec_sample_count(delta) + 1 && spec_walk_ok(c, delta, pts) && r
            == spec_polyline_length(pts, spec_sample_count(delta) as nat)
}

/// The frame stored at sample `i` of a curve tessellation.
pub open spec fn spec_tess_frame(r: CurveTessellation, i: int) -> FrenetFrame {
    FrenetFrame {
        position: r.points@[i],
        tangent: r.tangents@[i],
        normal: r.normals@[i],
        binormal: r.binormals@[i],
    }
}

/// Whether `r` is a tessellation of `c` at the given resolution:
/// `count = 1/delta` samples at `s_i = i/(count-1)` in five parallel
/// arrays, each sample an admissible frame and curvature of `c` there.
pub open spec fn spec_curve_tessellation<C: CurvePrimitives>(
    c: &C,
    delta: Option<Scalar>,
    r: CurveTessellation,
) -> bool {
    let d = spec_delta_or_default(delta);
    let count = spec_sample_count(d) as int;
    &&& r.points@.len() == count
    &&& r.tangents@.len() == count
    &&& r.normals@.len() == count
    &&& r.binormals@.len() == count
    &&& r.curvatures@.len() == count
    &&& forall|i: int|
        0 <= i < count ==> #[trigger] spec_frame_rel(c, spec_unit_param(i, count), spec_tess_frame(r, i))
    &&& forall|i: int|
        0 <= i < count ==> #[trigger] spec_curvature_rel(c, spec_unit_param(i, count), r.curvatures@[i])
}

/// The operations every curve derives from its primitives. Implemented
/// once, below, for every [`CurvePrimitives`].
pub trait CurveOps: CurvePrimitives {
    /// Numerically integrates the curve's length: sums the Euclidean
    /// distances between consecutive samples at steps of `delta` (default
    /// 1e-4) across [0,1].
    fn integral_length(&self, delta: Option<Scalar>) -> (r: Scalar)
        ensures
            spec_integral_length_rel(self, spec_delta_or_default(delta), r),
    {
        let d = match delta {
            Some(x) => x,
            None => Scalar::from_bits(DELTA_DEFAULT_BITS),
        };
        let step: usize = Scalar::from_bits(ONE_BITS).div_s(d).to_count();
        let mut l = Scalar::from_bits(ZERO_BITS);
        let mut prev = self.point_at(Scalar::from_bits(ZERO_BITS));
        let ghost mut pts: Seq<Point3> = Seq::empty().push(prev);
        let mut done: usize = 0;
        while done < step
            invariant
                done <= step,
                step == spec_sample_count(d),
                pts.len() == done + 1,
                spec_walk_ok(self, d, pts),
                prev == pts[done as int],
                l == spec_polyline_length(pts, done as nat),
            decreases step - done,
        {
            let i = done + 1;
            let s = Scalar::from_usize(i).mul_s(d);
            let current = self.point_at(s);
            l = l.add_s(current.minus(prev).norm());
            proof {
                lemma_polyline_length_prefix(pts, current, done as nat);
                pts = pts.push(current);
            }
            prev = current;
            done = i;
        }
        proof {
            assert(pts.len() == spec_sample_count(d) + 1 && spec_walk_ok(self, d, pts) && l
                == spec_polyline_length(pts, spec_sample_count(d) as nat));
        }
        l
    }

    /// The normalized velocity direction at `s`.
    fn tangent_at(&self, s: Scalar) -> (r: Vector3)
        ensures
            spec_tangent_rel(self, s, r),
    {
        let v = self.velocity_at(s);
        let r = v.normalize();
        proof {
            assert(self.velocity_at_spec(s, v) && r == normalize_v(v));
        }
        r
    }

    /// The normalized acceleration direction at `s`.
    fn normal_at(&self, s: Scalar) -> (r: Vector3)
        ensures
            spec_normal_rel(self, s, r),
    {
        let a = self.acceleration_at(s);
        let r = a.normalize();
        proof {
            assert(self.acceleration_at_spec(s, a) && r == normalize_v(a));
        }
        r
    }

    /// The acceleration magnitude at `s`.
    fn curvature_at(&self, s: Scalar) -> (r: Scalar)
        ensures
            spec_curvature_rel(self, s, r),
    {
        let n = self.acceleration_at(s);
        let r = n.norm();
        proof {
            assert(self.acceleration_at_spec(s, n) && r == norm_v(n));
        }
        r
    }

    /// The reciprocal of the curvature at `s`; where the curvature is zero
    /// this is an IEEE infinity, deliberately not special-cased.
    fn curvature_radius_at(&self, s: Scalar) -> (r: Scalar)
        ensures
            spec_curvature_radius_rel(self, s, r),
    {
        let n = self.acceleration_at(s);
        let r = Scalar::from_bits(ONE_BITS).div_s(n.norm());
        proof {
            assert(self.acceleration_at_spec(s, n) && r == s_div(
                Scalar { bits: ONE_BITS },
                norm_v(n),
            ));
        }
        r
    }

    /// The cross product of tangent and normal directions at `s`.
    fn binormal_at(&self, s: Scalar) -> (r: Vector3)
        ensures
            spec_binormal_rel(self, s, r),
    {
        let v = self.velocity_at(s);
        let a = self.acceleration_at(s);
        let tangent = v.normalize();
        let normal = a.normalize();
        let r = tangent.cross(normal);
        proof {
            assert(self.velocity_at_spec(s, v) && self.acceleration_at_spec(s, a) && r
                == cross_v(normalize_v(v), normalize_v(a)));
        }
        r
    }

    /// The full frame at `s`: position, independently renormalized tangent
    /// and normal, and their cross product as binormal.
    fn frame_at(&self, s: Scalar) -> (r: FrenetFrame)
        ensures
            spec_frame_rel(self, s, r),
    {
        let p = self.point_at(s);
        let v = self.velocity_at(s);
        let a = self.acceleration_at(s);
        let tangent = v.normalize().normalize();
        let normal = a.normalize().normalize();
        let binormal = tangent.cross(normal);
        let r = FrenetFrame::new(&p, &tangent, &normal, &binormal);
        proof {
            assert(self.velocity_at_spec(s, v) && self.acceleration_at_spec(s, a)
                && self.point_at_spec(s, r.position) && r.tangent == normalize_v(normalize_v(v))
                && r.normal == normalize_v(normalize_v(a)) && r.binormal == cross_v(
                normalize_v(normalize_v(v)),
                normalize_v(normalize_v(a)),
            ));
        }
        r
    }

    /// Builds `count = 1/delta` uniform samples at `s_i = i/(count-1)`, one
    /// frame and one curvature per sample, and returns them as flat parallel
    /// buffers.
    fn tessellate(&self, delta: Option<Scalar>) -> (r: CurveTessellation)
        ensures
            spec_curve_tessellation(self, delta, r),
    {
        let d = match delta {
            Some(x) => x,
            None => Scalar::from_bits(DELTA_DEFAULT_BITS),
        };
        let count: usize = Scalar::from_bits(ONE_BITS).div_s(d).to_count();
        let mut frames: Vec<FrenetFrame> = Vec::new();
        let mut curvatures: Vec<Scalar> = Vec::new();
        for i in 0..count
            invariant
                count == spec_sample_count(d),
                frames@.len() == i,
                curvatures@.len() == i,
                forall|j: int|
                    0 <= j < i ==> #[trigger] spec_frame_rel(
                        self,
                        spec_unit_param(j, count as int),
                        frames@[j],
                    ),
                forall|j: int|
                    0 <= j < i ==> #[trigger] spec_curvature_rel(
                        self,
                        spec_unit_param(j, count as int),
                        curvatures@[j],
                    ),
        {
            let denom = Scalar::from_usize(count - 1);
            let s = Scalar::from_usize(i).div_s(denom);
            frames.push(self.frame_at(s));
            curvatures.push(self.curvature_at(s));
        }
        let ghost gframes = frames@;
        let r = CurveTessellation::new(frames, curvatures);
        proof {
            assert forall|i: int| 0 <= i < count implies #[trigger] spec_frame_rel(
                self,
                spec_unit_param(i, count as int),
                spec_tess_frame(r, i),
            ) by {
                assert(spec_tess_frame(r, i) == gframes[i]);
            };
        }
        r
    }

    /// `n` uniform points at `s_i = i/(n-1)`; an empty buffer for `n <= 0`.
    fn divide_by_count(&self, count: i64) -> (r: Vec<Point3>)
        ensures
            r@.len() == (if count > 0 { count as int } else { 0 }),
            forall|j: int|
                0 <= j < r@.len() ==> #[trigger] self.point_at_spec(
                    spec_unit_param_i64(j, count as int),
                    r@[j],
                ),
    {
        let mut points: Vec<Point3> = Vec::new();
        let mut i: i64 = 0;
        while i < count
            invariant
                0 <= i,
                count > 0 ==> i <= count,
                count <= 0 ==> i == 0,
                points@.len() == i,
                forall|j: int|
                    0 <= j < i ==> #[trigger] self.point_at_spec(
                        spec_unit_param_i64(j, count as int),
                        points@[j],
                    ),
            decreases count - i,
        {
            let s = Scalar::from_i64(i).div_s(Scalar::from_i64(count - 1));
            points.push(self.point_at(s));
            i = i + 1;
        }
        points
    }

    /// True arc-length resampling is not provided: the operation reports
    /// itself unsupported for every curve.
    fn divide_by_length(&self, length: Scalar) -> (r: Option<Vec<Point3>>)
        ensures
            r is None,
    {
        None
    }
}

impl<C: CurvePrimitives> CurveOps for C {

}

} // verus!
