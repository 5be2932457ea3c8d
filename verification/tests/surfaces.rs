use parageom::scalar::Scalar;
use parageom::surfaces::cylinder::Cylinder;
use parageom::surfaces::elliptic_paraboloid::EllipticParaboloid;
use parageom::surfaces::helicoid::Helicoid;
use parageom::surfaces::hyperbolic_paraboloid::HyperbolicParaboloid;
use parageom::surfaces::mobius::Mobius;
use parageom::surfaces::single_leaf_paraboloid::SingleLeafParaboloid;
use parageom::surfaces::sphere::Sphere;
use parageom::surfaces::surface::{Surface, SurfaceOps};
use parageom::surfaces::torus::Torus;
use parageom::vector::{Point3, Vector3};

fn s(x: f64) -> Scalar {
    Scalar::from_bits(x.to_bits())
}

fn f(x: Scalar) -> f64 {
    f64::from_bits(x.to_bits())
}

fn point(p: Point3) -> [f64; 3] {
    [f(p.x), f(p.y), f(p.z)]
}

fn vector(v: Vector3) -> [f64; 3] {
    [f(v.x), f(v.y), f(v.z)]
}

fn sub3(a: [f64; 3], b: [f64; 3], scale: f64) -> [f64; 3] {
    [(a[0] - b[0]) * scale, (a[1] - b[1]) * scale, (a[2] - b[2]) * scale]
}

fn assert_close3(a: [f64; 3], b: [f64; 3], tol: f64) {
    for i in 0..3 {
        assert!(
            (a[i] - b[i]).abs() < tol,
            "component {}: {} vs {} (tol {})",
            i,
            a[i],
            b[i],
            tol
        );
    }
}

/// Checks that central finite differences of `point_at` match the shape's
/// first partials, and finite differences of those match its second
/// partials. The partials are taken in the shape's internal parameters,
/// which scale linearly with `(u, v)` by `fu` and `fv`.
fn check_partials<S: Surface>(su: &S, u: f64, v: f64, fu: f64, fv: f64, tol: f64) {
    let h = 1e-5;
    let p_du = sub3(
        point(su.point_at(s(u + h), s(v))),
        point(su.point_at(s(u - h), s(v))),
        1.0 / (2.0 * h * fu),
    );
    assert_close3(p_du, vector(su.du_at(s(u), s(v))), tol);
    let p_dv = sub3(
        point(su.point_at(s(u), s(v + h))),
        point(su.point_at(s(u), s(v - h))),
        1.0 / (2.0 * h * fv),
    );
    assert_close3(p_dv, vector(su.dv_at(s(u), s(v))), tol);
    let du_du = sub3(
        vector(su.du_at(s(u + h), s(v))),
        vector(su.du_at(s(u - h), s(v))),
        1.0 / (2.0 * h * fu),
    );
    assert_close3(du_du, vector(su.dudu_at(s(u), s(v))), tol);
    let du_dv = sub3(
        vector(su.du_at(s(u), s(v + h))),
        vector(su.du_at(s(u), s(v - h))),
        1.0 / (2.0 * h * fv),
    );
    assert_close3(du_dv, vector(su.dudv_at(s(u), s(v))), tol);
    let dv_dv = sub3(
        vector(su.dv_at(s(u), s(v + h))),
        vector(su.dv_at(s(u), s(v - h))),
        1.0 / (2.0 * h * fv),
    );
    assert_close3(dv_dv, vector(su.dvdv_at(s(u), s(v))), tol);
}

#[test]
fn sphere_partials_match_finite_differences() {
    let sphere = Sphere::default();
    let eps = 1e-8;
    let fu = std::f64::consts::PI * (1.0 - 2.0 * eps);
    let fv = std::f64::consts::TAU * (1.0 - eps);
    check_partials(&sphere, 0.3, 0.6, fu, fv, 1e-4);
    check_partials(&sphere, 0.7, 0.2, fu, fv, 1e-4);
}

#[test]
fn cylinder_partials_match_finite_differences() {
    let cylinder = Cylinder::default();
    let fu = std::f64::consts::TAU * (1.0 - 1e-8);
    check_partials(&cylinder, 0.3, 0.6, fu, 1.0, 1e-4);
}

#[test]
fn torus_partials_match_finite_differences() {
    let torus = Torus::default();
    let tau = std::f64::consts::TAU;
    check_partials(&torus, 0.3, 0.6, tau, tau, 1e-3);
    check_partials(&torus, 0.85, 0.15, tau, tau, 1e-3);
}

#[test]
fn helicoid_partials_match_finite_differences() {
    let helicoid = Helicoid::default();
    check_partials(&helicoid, 0.3, 0.6, 4.0, 4.0, 1e-4);
}

#[test]
fn elliptic_paraboloid_partials_match_finite_differences() {
    let bowl = EllipticParaboloid::default();
    check_partials(&bowl, 0.3, 0.6, 4.0, 4.0, 1e-4);
}

#[test]
fn hyperbolic_paraboloid_partials_match_finite_differences() {
    let saddle = HyperbolicParaboloid::default();
    check_partials(&saddle, 0.3, 0.6, 4.0, 4.0, 1e-4);
}

#[test]
fn single_leaf_partials_match_finite_differences() {
    let tube = SingleLeafParaboloid::default();
    check_partials(&tube, 0.4, 0.7, 4.0, std::f64::consts::TAU, 1e-3);
}

#[test]
fn mobius_partials_match_finite_differences() {
    let band = Mobius::default();
    let tau = std::f64::consts::TAU;
    check_partials(&band, 0.3, 0.6, tau, 1.0, 1e-4);
    check_partials(&band, 0.65, 0.25, tau, 1.0, 1e-4);
}

#[test]
fn mobius_second_v_partial_is_zero() {
    // The band's position is affine in v, so its second v-partial vanishes
    // identically.
    let band = Mobius::default();
    for (u, v) in [(0.0, 0.0), (0.3, 0.6), (0.9, 0.2)] {
        let d = vector(band.dvdv_at(s(u), s(v)));
        assert_eq!(d, [0.0, 0.0, 0.0]);
    }
}

#[test]
fn sphere_area_closed_form() {
    let area = f(Sphere::new(Default::default(), s(2.0)).area());
    assert_eq!(area.to_bits(), (16.0 * std::f64::consts::PI).to_bits());
}

#[test]
fn cylinder_area_closed_form() {
    let area = f(Cylinder::new(Default::default(), s(2.0), s(3.0)).area());
    assert_eq!(area.to_bits(), (12.0 * std::f64::consts::PI).to_bits());
}

#[test]
fn surface_tessellation_grid_shape() {
    let t = Sphere::default().tessellate(Some(s(0.1)));
    assert_eq!(t.rows(), 10);
    assert_eq!(t.columns(), 10);
    assert_eq!(t.points_count(), 100);
    assert_eq!(t.points().len(), 100);
    assert_eq!(t.normals().len(), 100);
    assert_eq!(t.gauss_curvature().len(), 100);
    assert_eq!(t.mean_curvature().len(), 100);
    assert_eq!(t.indices_count(), 486);
    assert_eq!(t.stride(), 3);
    for &ix in t.indices().iter() {
        assert!(ix < 100);
    }
    // The first cell's two triangles, in the kernel's winding order.
    assert_eq!(&t.indices()[0..6], &[0, 1, 10, 11, 10, 1]);
    // The last cell joins the last two rows and columns.
    assert_eq!(&t.indices()[480..486], &[88, 89, 98, 99, 98, 89]);
}

#[test]
fn sphere_tessellation_values_are_finite() {
    let t = Sphere::default().tessellate(Some(s(0.1)));
    for p in t.points().iter() {
        let c = point(*p);
        assert!(c[0].is_finite() && c[1].is_finite() && c[2].is_finite());
    }
    for n in t.normals().iter() {
        let c = vector(*n);
        assert!(c[0].is_finite() && c[1].is_finite() && c[2].is_finite());
    }
    for g in t.gauss_curvature().iter() {
        assert!(f(*g).is_finite());
    }
    for m in t.mean_curvature().iter() {
        assert!(f(*m).is_finite());
    }
}

#[test]
fn sphere_corner_matches_clamped_closed_form() {
    let sphere = Sphere::default();
    let p = point(sphere.point_at(s(0.0), s(0.0)));
    // The seam clamp puts (u, v) = (0, 0) at theta = eps, phi = 0; the
    // canonical plane's flipped normal carries the cos(theta) term.
    let eps = 1e-8;
    let theta = 0.0f64 * std::f64::consts::PI * (1.0 - eps * 2.0) + eps;
    let phi = 0.0f64 * std::f64::consts::TAU * (1.0 - eps);
    let expect = [
        2.0 * libm::sin(theta) * libm::cos(phi),
        2.0 * libm::sin(theta) * libm::sin(phi),
        -(2.0 * libm::cos(theta)),
    ];
    assert_eq!(p[0].to_bits(), expect[0].to_bits());
    assert!((p[1] - expect[1]).abs() < 1e-15);
    assert!((p[2] - expect[2]).abs() < 1e-12);
}

#[test]
fn sphere_curvature_matches_radius() {
    // A sphere of radius 2 has Gaussian curvature 1/4 everywhere.
    let sphere = Sphere::default();
    let sc = sphere.curvature_at(s(0.4), s(0.3));
    assert!((f(sc.gaussian) - 0.25).abs() < 1e-6, "gaussian {}", f(sc.gaussian));
    assert_eq!(f(sc.uv.0), 0.4);
    assert_eq!(f(sc.uv.1), 0.3);
}

#[test]
fn normal_is_cross_of_normalized_partials() {
    let sphere = Sphere::default();
    let (x, y) = sphere.derivatives_at(s(0.3), s(0.6));
    let xv = vector(x);
    let yv = vector(y);
    let n = vector(sphere.normal_at(s(0.3), s(0.6)));
    let cross = [
        xv[1] * yv[2] - xv[2] * yv[1],
        xv[2] * yv[0] - xv[0] * yv[2],
        xv[0] * yv[1] - xv[1] * yv[0],
    ];
    assert_close3(n, cross, 1e-12);
    let len_x = (xv[0] * xv[0] + xv[1] * xv[1] + xv[2] * xv[2]).sqrt();
    assert!((len_x - 1.0).abs() < 1e-12);
}

#[test]
fn tangent_plane_carries_basis() {
    let torus = Torus::default();
    let plane = torus.tangent_plane_at(s(0.2), s(0.7));
    let x = vector(plane.x_axis);
    let y = vector(plane.y_axis);
    let n = vector(plane.normal);
    let dot_xy = x[0] * y[0] + x[1] * y[1] + x[2] * y[2];
    let dot_xn = x[0] * n[0] + x[1] * n[1] + x[2] * n[2];
    assert!(dot_xy.abs() < 1e-9);
    assert!(dot_xn.abs() < 1e-9);
}

#[test]
fn area_element_of_flat_patch() {
    // A hyperbolic paraboloid at its center (u = v = 0.5 maps to 0) is
    // locally spanned by scaled axes: E = 4, G = 4, F = 0, so the area
    // element of a unit cell is 4.
    let saddle = HyperbolicParaboloid::default();
    let a = f(saddle.area_element_at(s(0.5), s(0.5), s(1.0), s(1.0)));
    assert!((a - 4.0).abs() < 1e-9, "area element {}", a);
}

#[test]
fn mean_curvature_keeps_kernel_formula() {
    // The kernel's mean curvature is (EN + GL - 2FM) / 2 * (EG - F²) —
    // division by two, then multiplication — and the contract pins it.
    let sphere = Sphere::default();
    let (u, v) = (0.4, 0.3);
    let du = vector(sphere.du_at(s(u), s(v)));
    let dv = vector(sphere.dv_at(s(u), s(v)));
    let duu = vector(sphere.dudu_at(s(u), s(v)));
    let duv = vector(sphere.dudv_at(s(u), s(v)));
    let dvv = vector(sphere.dvdv_at(s(u), s(v)));
    let nrm = vector(sphere.normal_at(s(u), s(v)));
    let dot = |a: [f64; 3], b: [f64; 3]| a[0] * b[0] + a[1] * b[1] + a[2] * b[2];
    let (e, ff, g) = (dot(du, du), dot(du, dv), dot(dv, dv));
    let (l, m, n) = (dot(duu, nrm), dot(duv, nrm), dot(dvv, nrm));
    let expected = (e * n + g * l - 2.0 * ff * m) / 2.0 * (e * g - ff * ff);
    let got = f(sphere.curvature_at(s(u), s(v)).mean);
    assert!((got - expected).abs() <= 1e-9 * expected.abs().max(1.0));
}

#[test]
fn surface_tessellation_coarse_resolutions() {
    let sphere = Sphere::default();
    // A resolution above 1 denotes an empty grid.
    let empty = sphere.tessellate(Some(s(2.0)));
    assert_eq!(empty.rows(), 0);
    assert_eq!(empty.points_count(), 0);
    assert_eq!(empty.indices_count(), 0);
    // A single-sample grid has one point and no cells to triangulate.
    let one = sphere.tessellate(Some(s(1.0)));
    assert_eq!(one.rows(), 1);
    assert_eq!(one.points_count(), 1);
    assert_eq!(one.indices_count(), 0);
}

#[test]
fn surface_tessellation_two_by_two_grid() {
    let t = Torus::default().tessellate(Some(s(0.5)));
    assert_eq!(t.rows(), 2);
    assert_eq!(t.points_count(), 4);
    assert_eq!(t.indices_count(), 6);
    assert_eq!(&t.indices()[0..6], &[0, 1, 2, 3, 2, 1]);
}
