//! The surface interface: shapes supply position and five partial
//! derivatives over the normalized parameters `(u, v)` in [0,1]²; normals,
//! tangent planes, the fundamental forms, Gaussian and mean curvature, the
//! area element and the grid tessellation are derived here once, with
//! contracts that pin each derived quantity as an exact dag of scalar
//! operations over the shape's own primitives.

use vstd::prelude::*;
use vstd::arithmetic::div_mod::{
    lemma_fundamental_div_mod_converse_div, lemma_fundamental_div_mod_converse_mod,
    lemma_mod_bound, lemma_multiply_divide_lt,
};
use crate::curves::curve::{spec_delta_or_default, spec_sample_count, spec_unit_param};
use crate::plane::Plane;
use crate::scalar::{
    Scalar, ONE_BITS, TWO_BITS, DELTA_DEFAULT_BITS, s_add, s_sub, s_mul, s_div, s_sqrt, s_of,
};
use crate::surface_tessellation::SurfaceTessellation;
use crate::surfaces::surface_curvature::SurfaceCurvature;
use crate::vector::{Point3, Vector3, cross_v, dot_v, normalize_v};

verus! {

/// Largest grid axis the tessellation builds: keeps every flat grid index
/// and triangle index within machine range on any platform. Grids at the
/// cap already hold more samples than a renderer can take.
pub const MAX_GRID: usize = 0xFFFF;

/// The contract of a parametric surface: a shape supplies its position and
/// the five partial derivatives `du, dv, duu, duv, dvv` over `(u, v)` in
/// [0,1]². The derived operations live in [`SurfaceOps`], which every
/// `Surface` implements. A closed-form area, where a shape has one, is an
/// inherent method of that shape: its absence is a static capability, not a
/// runtime error.
pub trait Surface: Sized {
    /// The position at `(u, v)`.
    spec fn spec_point_at(&self, u: Scalar, v: Scalar) -> Point3;

    /// The first partial derivative in `u`.
    spec fn spec_du_at(&self, u: Scalar, v: Scalar) -> Vector3;

    /// The first partial derivative in `v`.
    spec fn spec_dv_at(&self, u: Scalar, v: Scalar) -> Vector3;

    /// The second partial derivative in `u`.
    spec fn spec_dudu_at(&self, u: Scalar, v: Scalar) -> Vector3;

    /// The mixed second partial derivative.
    spec fn spec_dudv_at(&self, u: Scalar, v: Scalar) -> Vector3;

    /// The second partial derivative in `v`.
    spec fn spec_dvdv_at(&self, u: Scalar, v: Scalar) -> Vector3;

    /// The position at `(u, v)`.
    fn point_at(&self, u: Scalar, v: Scalar) -> (p: Point3)
        ensures
            p == self.spec_point_at(u, v),
    ;

    /// The first partial derivative in `u`.
    fn du_at(&self, u: Scalar, v: Scalar) -> (r: Vector3)
        ensures
            r == self.spec_du_at(u, v),
    ;

    /// The first partial derivative in `v`.
    fn dv_at(&self, u: Scalar, v: Scalar) -> (r: Vector3)
        ensures
            r == self.spec_dv_at(u, v),
    ;

    /// The second partial derivative in `u`.
    fn dudu_at(&self, u: Scalar, v: Scalar) -> (r: Vector3)
        ensures
            r == self.spec_dudu_at(u, v),
    ;

    /// The mixed second partial derivative.
    fn dudv_at(&self, u: Scalar, v: Scalar) -> (r: Vector3)
        ensures
            r == self.spec_dudv_at(u, v),
    ;

    /// The second partial derivative in `v`.
    fn dvdv_at(&self, u: Scalar, v: Scalar) -> (r: Vector3)
        ensures
            r == self.spec_dvdv_at(u, v),
    ;
}

/// The two normalized first partials.
pub open spec fn spec_derivatives_at<S: Surface>(su: &S, u: Scalar, v: Scalar) -> (
    Vector3,
    Vector3,
) {
    (normalize_v(su.spec_du_at(u, v)), normalize_v(su.spec_dv_at(u, v)))
}

/// The cross product of the two normalized first partials. Built from the
/// normalized partials, in contrast to the fundamental forms below, which
/// use the raw ones; this mix is the kernel's established numeric
/// behaviour.
pub open spec fn spec_surface_normal_at<S: Surface>(su: &S, u: Scalar, v: Scalar) -> Vector3 {
    cross_v(normalize_v(su.spec_du_at(u, v)), normalize_v(su.spec_dv_at(u, v)))
}

/// The local basis at `(u, v)`: the position, the two normalized partials,
/// and their cross product.
pub open spec fn spec_tangent_plane_at<S: Surface>(su: &S, u: Scalar, v: Scalar) -> Plane {
    let x = normalize_v(su.spec_du_at(u, v));
    let y = normalize_v(su.spec_dv_at(u, v));
    Plane { origin: su.spec_point_at(u, v), x_axis: x, y_axis: y, normal: cross_v(x, y) }
}

/// The curvature snapshot at `(u, v)`: first fundamental form E, F, G from
/// the raw partials, second fundamental form L, M, N against the normal
/// built from normalized partials, Gaussian curvature `(LN - M²)/(EG - F²)`,
/// and the mean curvature exactly as the kernel computes it:
/// `(EN + GL - 2FM) / 2 * (EG - F²)` — division by 2 first, then
/// multiplication by `(EG - F²)`, not the textbook division by `2(EG - F²)`.
pub open spec fn spec_surface_curvature_at<S: Surface>(
    su: &S,
    u: Scalar,
    v: Scalar,
) -> SurfaceCurvature {
    let normal = spec_surface_normal_at(su, u, v);
    let du = su.spec_du_at(u, v);
    let dv = su.spec_dv_at(u, v);
    let l = dot_v(su.spec_dudu_at(u, v), normal);
    let m = dot_v(su.spec_dudv_at(u, v), normal);
    let n = dot_v(su.spec_dvdv_at(u, v), normal);
    let e = dot_v(du, du);
    let f = dot_v(du, dv);
    let g = dot_v(dv, dv);
    SurfaceCurvature {
        point: su.spec_point_at(u, v),
        uv: (u, v),
        normal,
        gaussian: s_div(s_sub(s_mul(l, n), s_mul(m, m)), s_sub(s_mul(e, g), s_mul(f, f))),
        mean: s_mul(
            s_div(
                s_sub(s_add(s_mul(e, n), s_mul(g, l)), s_mul(s_mul(s_of(TWO_BITS), f), m)),
                s_of(TWO_BITS),
            ),
            s_sub(s_mul(e, g), s_mul(f, f)),
        ),
    }
}

/// The differential area of a `(delta_u, delta_v)` cell at `(u, v)`:
/// `sqrt(EG - F²) * delta_u * delta_v` over the raw partials.
pub open spec fn spec_area_element_at<S: Surface>(
    su: &S,
    u: Scalar,
    v: Scalar,
    delta_u: Scalar,
    delta_v: Scalar,
) -> Scalar {
    let du = su.spec_du_at(u, v);
    let dv = su.spec_dv_at(u, v);
    let e = dot_v(du, du);
    let f = dot_v(du, dv);
    let g = dot_v(dv, dv);
    s_mul(s_mul(s_sqrt(s_sub(s_mul(e, g), s_mul(f, f))), delta_u), delta_v)
}

/// The grid axis the resolution denotes, capped at [`MAX_GRID`].
pub open spec fn spec_grid_count(delta: Option<Scalar>) -> int {
    let c = spec_sample_count(spec_delta_or_default(delta)) as int;
    if c > MAX_GRID {
        MAX_GRID as int
    } else {
        c
    }
}

/// How many grid cells a `count` by `count` grid triangulates.
pub open spec fn spec_cells(count: int) -> int {
    if count <= 0 {
        0
    } else {
        (count - 1) * (count - 1)
    }
}

/// The six triangle-vertex indices of grid cell `q`, taken in row-major
/// cell order: with `row = q / (count-1)`, `col = q % (count-1)`,
/// `j = row * count + col` and `k = j + count`, the two triangles are
/// `(j, j+1, k)` and `(k+1, k, j+1)`.
pub open spec fn spec_cell_indices(count: int, q: int) -> Seq<usize> {
    let row = q / (count - 1);
    let col = q % (count - 1);
    let j = row * count + col;
    let k = j + count;
    seq![
        j as usize,
        (j + 1) as usize,
        k as usize,
        (k + 1) as usize,
        k as usize,
        (j + 1) as usize,
    ]
}

/// The triangle indices of the first `q` grid cells, concatenated in cell
/// order.
pub open spec fn spec_tri_indices(count: int, q: int) -> Seq<usize>
    decreases q,
{
    if q <= 0 {
        Seq::empty()
    } else {
        spec_tri_indices(count, q - 1) + spec_cell_indices(count, q - 1)
    }
}

/// Every triangle index of the first `q` cells of a `count` by `count`
/// grid names a sample strictly inside the grid: the index buffer holds
/// `6 q` entries, each below `count * count`.
pub proof fn lemma_tri_indices_in_range(count: int, q: int)
    requires
        2 <= count,
        0 <= q <= (count - 1) * (count - 1),
    ensures
        spec_tri_indices(count, q).len() == 6 * q,
        forall|t: int| 0 <= t < 6 * q ==> #[trigger] spec_tri_indices(count, q)[t] < count * count,
    decreases q,
{
    if q > 0 {
        lemma_tri_indices_in_range(count, q - 1);
        let row = (q - 1) / (count - 1);
        let col = (q - 1) % (count - 1);
        lemma_mod_bound(q - 1, count - 1);
        lemma_multiply_divide_lt(q - 1, count - 1, count - 1);
        assert(0 <= row < count - 1);
        assert(0 <= col < count - 1);
        let j = row * count + col;
        let k = j + count;
        assert(0 <= j && k + 1 < count * count) by (nonlinear_arith)
            requires
                0 <= row < count - 1,
                0 <= col < count - 1,
                2 <= count,
                j == row * count + col,
                k == j + count,
        {
        }
        let prev = spec_tri_indices(count, q - 1);
        let cell = spec_cell_indices(count, q - 1);
        assert(spec_tri_indices(count, q) == prev + cell);
        assert(forall|t: int|
            0 <= t < 6 * q ==> #[trigger] spec_tri_indices(count, q)[t] < count * count) by {
            assert(forall|t: int|
                0 <= t < 6 * (q - 1) ==> #[trigger] (prev + cell)[t] == prev[t]);
            assert(forall|t: int|
                6 * (q - 1) <= t < 6 * q ==> #[trigger] (prev + cell)[t] == cell[t - 6 * (q - 1)]);
        }
    }
}

/// Whether `r` is exactly the grid tessellation of `su` at the given
/// resolution: a `count` by `count` grid of curvature snapshots at
/// `u_i = v_j = i/(count-1)` in row-major order, and two triangles for
/// every interior cell, every index inside the grid.
pub open spec fn spec_surface_tessellation<S: Surface>(
    su: &S,
    delta: Option<Scalar>,
    r: SurfaceTessellation,
) -> bool {
    let count = spec_grid_count(delta);
    &&& r.rows == count
    &&& r.columns == count
    &&& r.points@.len() == count * count
    &&& r.normals@.len() == count * count
    &&& r.gauss_curvature@.len() == count * count
    &&& r.mean_curvature@.len() == count * count
    &&& forall|f: int|
        0 <= f < count * count ==> #[trigger] r.points@[f] == spec_surface_curvature_at(
            su,
            spec_unit_param(f / count, count),
            spec_unit_param(f % count, count),
        ).point
    &&& forall|f: int|
        0 <= f < count * count ==> #[trigger] r.normals@[f] == spec_surface_curvature_at(
            su,
            spec_unit_param(f / count, count),
            spec_unit_param(f % count, count),
        ).normal
    &&& forall|f: int|
        0 <= f < count * count ==> #[trigger] r.gauss_curvature@[f] == spec_surface_curvature_at(
            su,
            spec_unit_param(f / count, count),
            spec_unit_param(f % count, count),
        ).gaussian
    &&& forall|f: int|
        0 <= f < count * count ==> #[trigger] r.mean_curvature@[f] == spec_surface_curvature_at(
            su,
            spec_unit_param(f / count, count),
            spec_unit_param(f % count, count),
        ).mean
    &&& r.indices@ == spec_tri_indices(count, spec_cells(count))
    &&& r.indices@.len() == 6 * spec_cells(count)
    &&& forall|t: int|
        0 <= t < r.indices@.len() ==> #[trigger] r.indices@[t] < count * count
}

/// The operations every surface derives from its primitives. Implemented
/// once, below, for every [`Surface`].
pub trait SurfaceOps: Surface {
    /// The two normalized first partials at `(u, v)`.
    fn derivatives_at(&self, u: Scalar, v: Scalar) -> (r: (Vector3, Vector3))
        ensures
            r == spec_derivatives_at(self, u, v),
    {
        let x = self.du_at(u, v).normalize();
        let y = self.dv_at(u, v).normalize();
        (x, y)
    }

    /// The cross product of the normalized partials at `(u, v)`.
    fn normal_at(&self, u: Scalar, v: Scalar) -> (r: Vector3)
        ensures
            r == spec_surface_normal_at(self, u, v),
    {
        let (x, y) = self.derivatives_at(u, v);
        x.cross(y)
    }

    /// The local basis at `(u, v)`: position, normalized partials, and
    /// their cross product.
    fn tangent_plane_at(&self, u: Scalar, v: Scalar) -> (r: Plane)
        ensures
            r == spec_tangent_plane_at(self, u, v),
    {
        let o = self.point_at(u, v);
        let (x, y) = self.derivatives_at(u, v);
        let n = x.cross(y);
        Plane::new(o, x, y, n)
    }

    /// The curvature snapshot at `(u, v)`: fundamental forms, Gaussian and
    /// mean curvature, position and normal.
    fn curvature_at(&self, u: Scalar, v: Scalar) -> (r: SurfaceCurvature)
        ensures
            r == spec_surface_curvature_at(self, u, v),
    {
        let normal = self.normal_at(u, v);
        let du = self.du_at(u, v);
        let dv = self.dv_at(u, v);
        let l = self.dudu_at(u, v).dot(normal);
        let m = self.dudv_at(u, v).dot(normal);
        let n = self.dvdv_at(u, v).dot(normal);
        let e = du.dot(du);
        let f = du.dot(dv);
        let g = dv.dot(dv);
        let two = Scalar::from_bits(TWO_BITS);
        let gaussian = l.mul_s(n).sub_s(m.mul_s(m)).div_s(e.mul_s(g).sub_s(f.mul_s(f)));
        let mean = e.mul_s(n).add_s(g.mul_s(l)).sub_s(two.mul_s(f).mul_s(m)).div_s(two).mul_s(
            e.mul_s(g).sub_s(f.mul_s(f)),
        );
        SurfaceCurvature { point: self.point_at(u, v), uv: (u, v), normal, gaussian, mean }
    }

    /// The differential area of a `(delta_u, delta_v)` cell at `(u, v)`.
    fn area_element_at(&self, u: Scalar, v: Scalar, delta_u: Scalar, delta_v: Scalar) -> (r:
        Scalar)
        ensures
            r == spec_area_element_at(self, u, v, delta_u, delta_v),
    {
        let du = self.du_at(u, v);
        let dv = self.dv_at(u, v);
        let e = du.dot(du);
        let f = du.dot(dv);
        let g = dv.dot(dv);
        e.mul_s(g).sub_s(f.mul_s(f)).sqrt().mul_s(delta_u).mul_s(delta_v)
    }

    /// Builds a `count` by `count` grid (`count = 1/delta`, capped at
    /// [`MAX_GRID`]) of curvature snapshots at `u_i = v_j = i/(count-1)`,
    /// and for every interior cell the two triangles `(j, j+1, k)` and
    /// `(k+1, k, j+1)`, where `j` is the cell's flat index and `k` its
    /// neighbour one row down.
    fn tessellate(&self, delta: Option<Scalar>) -> (r: SurfaceTessellation)
        ensures
            spec_surface_tessellation(self, delta, r),
    {
        let d = match delta {
            Some(x) => x,
            None => Scalar::from_bits(DELTA_DEFAULT_BITS),
        };
        let raw: usize = Scalar::from_bits(ONE_BITS).div_s(d).to_count();
        let count: usize = if raw > MAX_GRID {
            MAX_GRID
        } else {
            raw
        };
        let mut points: Vec<Point3> = Vec::new();
        let mut normals: Vec<Vector3> = Vec::new();
        let mut gauss_curvature: Vec<Scalar> = Vec::new();
        let mut mean_curvature: Vec<Scalar> = Vec::new();
        let mut indices: Vec<usize> = Vec::new();
        proof {
            assert(0 * count == 0) by (nonlinear_arith);
        }
        for iu in 0..count
            invariant
                count == spec_grid_count(delta),
                count <= MAX_GRID,
                points@.len() == iu * count,
                normals@.len() == iu * count,
                gauss_curvature@.len() == iu * count,
                mean_curvature@.len() == iu * count,
                forall|f: int|
                    0 <= f < iu * count ==> #[trigger] points@[f] == spec_surface_curvature_at(
                        self,
                        spec_unit_param(f / count as int, count as int),
                        spec_unit_param(f % count as int, count as int),
                    ).point,
                forall|f: int|
                    0 <= f < iu * count ==> #[trigger] normals@[f] == spec_surface_curvature_at(
                        self,
                        spec_unit_param(f / count as int, count as int),
                        spec_unit_param(f % count as int, count as int),
                    ).normal,
                forall|f: int|
                    0 <= f < iu * count ==> #[trigger] gauss_curvature@[f]
                        == spec_surface_curvature_at(
                        self,
                        spec_unit_param(f / count as int, count as int),
                        spec_unit_param(f % count as int, count as int),
                    ).gaussian,
                forall|f: int|
                    0 <= f < iu * count ==> #[trigger] mean_curvature@[f]
                        == spec_surface_curvature_at(
                        self,
                        spec_unit_param(f / count as int, count as int),
                        spec_unit_param(f % count as int, count as int),
                    ).mean,
        {
            let u = Scalar::from_usize(iu).div_s(Scalar::from_usize(count - 1));
            assert(iu * count + count <= count * count) by (nonlinear_arith)
                requires
                    iu < count,
            {
            }
            for iv in 0..count
                invariant
                    count == spec_grid_count(delta),
                    count <= MAX_GRID,
                    iu < count,
                    u == spec_unit_param(iu as int, count as int),
                    points@.len() == iu * count + iv,
                    normals@.len() == iu * count + iv,
                    gauss_curvature@.len() == iu * count + iv,
                    mean_curvature@.len() == iu * count + iv,
                    forall|f: int|
                        0 <= f < iu * count + iv ==> #[trigger] points@[f]
                            == spec_surface_curvature_at(
                            self,
                            spec_unit_param(f / count as int, count as int),
                            spec_unit_param(f % count as int, count as int),
                        ).point,
                    forall|f: int|
                        0 <= f < iu * count + iv ==> #[trigger] normals@[f]
                            == spec_surface_curvature_at(
                            self,
                            spec_unit_param(f / count as int, count as int),
                            spec_unit_param(f % count as int, count as int),
                        ).normal,
                    forall|f: int|
                        0 <= f < iu * count + iv ==> #[trigger] gauss_curvature@[f]
                            == spec_surface_curvature_at(
                            self,
                            spec_unit_param(f / count as int, count as int),
                            spec_unit_param(f % count as int, count as int),
                        ).gaussian,
                    forall|f: int|
                        0 <= f < iu * count + iv ==> #[trigger] mean_curvature@[f]
                            == spec_surface_curvature_at(
                            self,
                            spec_unit_param(f / count as int, count as int),
                            spec_unit_param(f % count as int, count as int),
                        ).mean,
            {
                let v = Scalar::from_usize(iv).div_s(Scalar::from_usize(count - 1));
                let sc = self.curvature_at(u, v);
                proof {
                    lemma_fundamental_div_mod_converse_div(
                        iu as int * count as int + iv as int,
                        count as int,
                        iu as int,
                        iv as int,
                    );
                    lemma_fundamental_div_mod_converse_mod(
                        iu as int * count as int + iv as int,
                        count as int,
                        iu as int,
                        iv as int,
                    );
                }
                points.push(sc.point);
                normals.push(sc.normal);
                gauss_curvature.push(sc.gaussian);
                mean_curvature.push(sc.mean);
            }
            proof {
                assert(iu * count + count == (iu + 1) * count) by (nonlinear_arith);
            }
        }
        assert(points@.len() == count * count) by (nonlinear_arith)
            requires
                points@.len() == count * count,
        {
        }
        if count >= 1 {
            let cols = count - 1;
            proof {
                assert(0 * cols == 0) by (nonlinear_arith);
            }
            for row in 0..cols
                invariant
                    count == spec_grid_count(delta),
                    count <= MAX_GRID,
                    cols == count - 1,
                    indices@ == spec_tri_indices(count as int, row * cols),
                    indices@.len() == 6 * (row * cols),
            {
                for col in 0..cols
                    invariant
                        count == spec_grid_count(delta),
                        count <= MAX_GRID,
                        cols == count - 1,
                        row < cols,
                        indices@ == spec_tri_indices(count as int, row * cols + col),
                        indices@.len() == 6 * (row * cols + col),
                {
                    proof {
                        lemma_fundamental_div_mod_converse_div(
                            row as int * cols as int + col as int,
                            cols as int,
                            row as int,
                            col as int,
                        );
                        lemma_fundamental_div_mod_converse_mod(
                            row as int * cols as int + col as int,
                            cols as int,
                            row as int,
                            col as int,
                        );
                        assert(row * cols + col < cols * cols && row * count + col + count + 1
                            < count * count && count * count < 4294967295) by (nonlinear_arith)
                            requires
                                0 <= row < cols,
                                0 <= col < cols,
                                cols == count - 1,
                                1 <= count <= MAX_GRID,
                        {
                        }
                    }
                    let j = row * count + col;
                    let k = j + count;
                    indices.push(j);
                    indices.push(j + 1);
                    indices.push(k);
                    indices.push(k + 1);
                    indices.push(k);
                    indices.push(j + 1);
                    proof {
                        let q = row as int * cols as int + col as int;
                        assert(indices@ =~= spec_tri_indices(count as int, q + 1));
                    }
                }
                proof {
                    assert(row * cols + cols == (row + 1) * cols) by (nonlinear_arith);
                }
            }
        }
        proof {
            if count >= 2 {
                lemma_tri_indices_in_range(count as int, spec_cells(count as int));
            }
        }
        SurfaceTessellation::new(
            count,
            count,
            points,
            normals,
            gauss_curvature,
            mean_curvature,
            indices,
        )
    }
}

impl<S: Surface> SurfaceOps for S {

}

} // verus!
