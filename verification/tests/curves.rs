use parageom::curves::arc_curve::ArcCurve;
use parageom::curves::clothoid_curve::ClothoidCurve;
use parageom::curves::curve::{Curve, CurveOps, CurvePrimitives};
use parageom::curves::ellipse_arc_curve::EllipseArcCurve;
use parageom::curves::expression_curve::ExpressionCurve;
use parageom::domain::Domain;
use parageom::plane::Plane;
use parageom::scalar::Scalar;
use parageom::vector::{Point3, Vector3};

fn s(x: f64) -> Scalar {
    Scalar::from_bits(x.to_bits())
}

fn f(x: Scalar) -> f64 {
    f64::from_bits(x.to_bits())
}

fn point(p: Point3) -> [f64; 3] {
    [f(p.x), f(p.y), f(p.z)]
}

fn vector(v: Vector3) -> [f64; 3] {
    [f(v.x), f(v.y), f(v.z)]
}

/// Central finite difference of `point_at` in the curve's own absolute
/// parameter: the curve maps `s` to `t` affinely, so a step `h` in `t` is a
/// step `h / t_span` in `s`.
fn point_diff<C: CurvePrimitives>(c: &C, s_val: f64, h: f64, t_span: f64) -> [f64; 3] {
    let hs = h / t_span;
    let plus = point(c.point_at(s(s_val + hs)));
    let minus = point(c.point_at(s(s_val - hs)));
    [
        (plus[0] - minus[0]) / (2.0 * h),
        (plus[1] - minus[1]) / (2.0 * h),
        (plus[2] - minus[2]) / (2.0 * h),
    ]
}

fn velocity_diff<C: CurvePrimitives>(c: &C, s_val: f64, h: f64, t_span: f64) -> [f64; 3] {
    let hs = h / t_span;
    let plus = vector(c.velocity_at(s(s_val + hs)));
    let minus = vector(c.velocity_at(s(s_val - hs)));
    [
        (plus[0] - minus[0]) / (2.0 * h),
        (plus[1] - minus[1]) / (2.0 * h),
        (plus[2] - minus[2]) / (2.0 * h),
    ]
}

fn assert_close3(a: [f64; 3], b: [f64; 3], tol: f64) {
    for i in 0..3 {
        assert!(
            (a[i] - b[i]).abs() < tol,
            "component {}: {} vs {} (tol {})",
            i,
            a[i],
            b[i],
            tol
        );
    }
}

#[test]
fn arc_derivatives_match_finite_differences() {
    let arc = ArcCurve::default();
    let span = std::f64::consts::PI;
    let mut k: usize = 1;
    while k < 20 {
        let s_val = k as f64 / 20.0;
        let fd = point_diff(&arc, s_val, 1e-5, span);
        let v = vector(arc.velocity_at(s(s_val)));
        assert_close3(fd, v, 1e-4);
        let fd2 = velocity_diff(&arc, s_val, 1e-5, span);
        let a = vector(arc.acceleration_at(s(s_val)));
        assert_close3(fd2, a, 1e-4);
        k += 1;
    }
}

#[test]
fn ellipse_arc_derivatives_match_finite_differences() {
    let ellipse = EllipseArcCurve::default();
    let span = std::f64::consts::PI;
    let mut k: usize = 1;
    while k < 20 {
        let s_val = k as f64 / 20.0;
        let fd = point_diff(&ellipse, s_val, 1e-5, span);
        let v = vector(ellipse.velocity_at(s(s_val)));
        assert_close3(fd, v, 1e-4);
        let fd2 = velocity_diff(&ellipse, s_val, 1e-5, span);
        let a = vector(ellipse.acceleration_at(s(s_val)));
        assert_close3(fd2, a, 1e-4);
        k += 1;
    }
}

#[test]
fn clothoid_derivatives_match_finite_differences() {
    // A fine Fresnel step keeps the position walk's staircase error below
    // the finite-difference tolerance.
    let clothoid = ClothoidCurve::new(Plane::default(), s(1.0), s(-0.5), s(0.5), Some(s(1e-7)));
    let span = 1.0;
    for k in [5usize, 7, 13] {
        let s_val = k as f64 / 20.0 + 0.5;
        let fd = point_diff(&clothoid, s_val, 1e-2, span);
        let v = vector(clothoid.velocity_at(s(s_val)));
        assert_close3(fd, v, 1e-4);
        let fd2 = velocity_diff(&clothoid, s_val, 1e-5, span);
        let a = vector(clothoid.acceleration_at(s(s_val)));
        assert_close3(fd2, a, 1e-4);
    }
}

#[test]
fn expression_curve_matches_closed_forms() {
    let helix = ExpressionCurve::default();
    // t = start + s * end = 10 s.
    let s_val = 0.3;
    let t = 10.0 * s_val;
    let p = point(helix.point_at(s(s_val)));
    assert!((p[0] - libm::cos(t)).abs() < 1e-9);
    assert!((p[1] - libm::sin(t)).abs() < 1e-9);
    assert!((p[2] - t).abs() < 1e-9);
    // The symmetric difference with step 1e-4 tracks the analytic
    // derivatives closely.
    let v = vector(helix.velocity_at(s(s_val)));
    assert!((v[0] - (-libm::sin(t))).abs() < 1e-6);
    assert!((v[1] - libm::cos(t)).abs() < 1e-6);
    assert!((v[2] - 1.0).abs() < 1e-6);
    let a = vector(helix.acceleration_at(s(s_val)));
    assert!((a[0] - (-libm::cos(t))).abs() < 1e-4);
    assert!((a[1] - (-libm::sin(t))).abs() < 1e-4);
    assert!(a[2].abs() < 1e-4);
}

#[test]
fn malformed_expression_yields_nan() {
    let broken = ExpressionCurve::expression(
        "nosuchfn(t)".to_owned(),
        "t".to_owned(),
        "t".to_owned(),
        Domain::new(s(0.0), s(1.0)),
    );
    let p = point(broken.point_at(s(0.5)));
    assert!(p[0].is_nan());
    assert!((p[1] - 0.5).abs() < 1e-12);
}

#[test]
fn arc_length_is_radius_times_angle() {
    let plane = Plane::default();
    let arc = ArcCurve::new(plane, s(2.0), s(std::f64::consts::PI));
    let expected = 2.0 * std::f64::consts::PI;
    assert_eq!(f(arc.length()), expected);
    // Bitwise: the contract pins length to the product of the two fields.
    assert_eq!(arc.length().to_bits(), expected.to_bits());
}

#[test]
fn arc_integral_length_converges_to_closed_form() {
    let arc = ArcCurve::default();
    let exact = 2.0 * std::f64::consts::PI;
    let coarse = f(arc.integral_length(Some(s(1e-2))));
    let fine = f(arc.integral_length(Some(s(1e-4))));
    assert!((fine - exact).abs() < 1e-3, "fine {} vs {}", fine, exact);
    assert!((fine - exact).abs() < (coarse - exact).abs());
}

#[test]
fn domain_map_is_affine() {
    let d = Domain::new(s(1.0), s(3.0));
    assert_eq!(f(d.map(s(0.0))), 1.0);
    assert_eq!(f(d.map(s(1.0))), 3.0);
    // Affine in its argument: matches (end - start) * t + start exactly.
    for t in [0.25, 0.5, 0.75, 2.0, -1.0] {
        assert_eq!(f(d.map(s(t))), (3.0 - 1.0) * t + 1.0);
    }
    // Inverted ranges are allowed and map the same way.
    let inv = Domain::new(s(5.0), s(-5.0));
    assert_eq!(f(inv.map(s(0.5))), (-5.0 - 5.0) * 0.5 + 5.0);
    assert_eq!(f(inv.start()), 5.0);
    assert_eq!(f(inv.end()), -5.0);
}

#[test]
fn frame_is_orthonormal_at_interior_parameter() {
    let helix = ExpressionCurve::default();
    let frame = helix.frame_at(s(0.37));
    let t = vector(frame.tangent);
    let n = vector(frame.normal);
    let b = vector(frame.binormal);
    let dot = |a: [f64; 3], c: [f64; 3]| a[0] * c[0] + a[1] * c[1] + a[2] * c[2];
    assert!(dot(t, n).abs() < 1e-6);
    assert!(dot(t, b).abs() < 1e-6);
    assert!(dot(n, b).abs() < 1e-6);
    assert!((dot(t, t) - 1.0).abs() < 1e-9);
    assert!((dot(n, n) - 1.0).abs() < 1e-9);
    assert!((dot(b, b) - 1.0).abs() < 1e-9);
}

#[test]
fn curve_tessellation_has_count_parallel_samples() {
    let arc = ArcCurve::default();
    let t = arc.tessellate(Some(s(0.1)));
    assert_eq!(t.count(), 10);
    assert_eq!(t.stride(), 3);
    assert_eq!(t.points().len(), 10);
    assert_eq!(t.tangents().len(), 10);
    assert_eq!(t.normals().len(), 10);
    assert_eq!(t.binormals().len(), 10);
    assert_eq!(t.curvatures().len(), 10);
    // Sample i sits at s = i/(count-1): the last point closes the arc.
    let first = point(t.points()[0]);
    let last = point(t.points()[9]);
    assert!((first[0] - 2.0).abs() < 1e-12);
    assert!((last[0] + 2.0).abs() < 1e-12);
    assert!(last[1].abs() < 1e-12);
}

#[test]
fn curve_curvature_is_acceleration_magnitude() {
    let arc = ArcCurve::default();
    // For the circle of radius 2 in angle parametrization the acceleration
    // magnitude is the radius... times angle^0: |a| = r = 2.
    let c = f(arc.curvature_at(s(0.25)));
    assert!((c - 2.0).abs() < 1e-12);
    let radius = f(arc.curvature_radius_at(s(0.25)));
    assert!((radius - 0.5).abs() < 1e-12);
}

#[test]
fn curvature_radius_of_straight_curve_is_infinite() {
    let line = ExpressionCurve::expression(
        "t".to_owned(),
        "0".to_owned(),
        "0".to_owned(),
        Domain::new(s(0.0), s(1.0)),
    );
    let r = f(line.curvature_radius_at(s(0.5)));
    assert!(r.is_infinite() || r > 1e6, "radius {}", r);
}

#[test]
fn divide_by_count_samples_uniformly() {
    let arc = ArcCurve::default();
    let pts = arc.divide_by_count(3);
    assert_eq!(pts.len(), 3);
    let mid = point(pts[1]);
    assert!(mid[0].abs() < 1e-12);
    assert!((mid[1] - 2.0).abs() < 1e-12);
    assert_eq!(arc.divide_by_count(0).len(), 0);
    assert_eq!(arc.divide_by_count(-4).len(), 0);
}

#[test]
fn divide_by_length_is_unsupported() {
    let arc = ArcCurve::default();
    assert!(arc.divide_by_length(s(1.0)).is_none());
}

#[test]
fn clothoid_at_zero_parameter_takes_one_exact_step() {
    let clothoid = ClothoidCurve::default();
    // s = 0.5 maps to t = +0, so the walk takes the single step i = 0:
    // dx = 0 + cos(0) * 1e-3, dy = 0 + sin(0) * 1e-3, both oriented by
    // signum(+0) = 1.
    let p = clothoid.point_at(s(0.5));
    assert_eq!(p.x.to_bits(), (1e-3f64).to_bits());
    assert_eq!(p.y.to_bits(), 0.0f64.to_bits());
    assert_eq!(p.z.to_bits(), 0.0f64.to_bits());
    // The domain carries the construction angles.
    let d = clothoid.domain();
    assert_eq!(f(d.start()), -std::f64::consts::TAU);
    assert_eq!(f(d.end()), std::f64::consts::TAU);
}

#[test]
fn clothoid_orientation_follows_parameter_sign() {
    let clothoid = ClothoidCurve::new(Plane::default(), s(1.0), s(-1.0), s(1.0), Some(s(1e-3)));
    let forward = point(clothoid.point_at(s(0.9)));
    let backward = point(clothoid.point_at(s(0.1)));
    assert!(forward[0] > 0.0);
    assert!(backward[0] < 0.0);
}

#[test]
fn ellipse_length_matches_integral_length() {
    let ellipse = EllipseArcCurve::default();
    let len = f(ellipse.length());
    let integral = f(ellipse.integral_length(None));
    assert_eq!(len.to_bits(), integral.to_bits());
    // Half of the 1-by-2 ellipse perimeter, roughly.
    assert!(len > 4.0 && len < 5.5, "length {}", len);
}

#[test]
fn curve_tessellation_default_resolution() {
    let arc = ArcCurve::default();
    let t = arc.tessellate(None);
    assert_eq!(t.count(), 10000);
}

#[test]
fn curve_tessellation_coarse_resolutions() {
    let arc = ArcCurve::default();
    // A resolution above 1 denotes zero samples.
    let empty = arc.tessellate(Some(s(2.0)));
    assert_eq!(empty.count(), 0);
    assert_eq!(empty.curvatures().len(), 0);
    // Exactly one sample: the parameter 0/0 is NaN and propagates.
    let one = arc.tessellate(Some(s(1.0)));
    assert_eq!(one.count(), 1);
    assert!(f64::from_bits(one.points()[0].x.to_bits()).is_nan());
}
