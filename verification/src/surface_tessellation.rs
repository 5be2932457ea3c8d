//! Flat output buffers for a tessellated surface grid.

use vstd::prelude::*;
use crate::scalar::Scalar;
use crate::vector::{Point3, Vector3};

verus! {

/// A square sample grid in row-major order (`u` outer, `v` inner): one
/// point, normal and curvature pair per grid cell corner, and the triangle
/// index triples that join them. The buffers carry full double-precision
/// bit patterns; a render boundary that wants single precision narrows
/// them on its own side.
pub struct SurfaceTessellation {
    pub rows: usize,
    pub columns: usize,
    pub points: Vec<Point3>,
    pub normals: Vec<Vector3>,
    pub gauss_curvature: Vec<Scalar>,
    pub mean_curvature: Vec<Scalar>,
    pub indices: Vec<usize>,
}

impl SurfaceTessellation {
    /// The buffers as given, under the stated grid size.
    pub fn new(
        rows: usize,
        columns: usize,
        points: Vec<Point3>,
        normals: Vec<Vector3>,
        gauss_curvature: Vec<Scalar>,
        mean_curvature: Vec<Scalar>,
        indices: Vec<usize>,
    ) -> (r: SurfaceTessellation)
        ensures
            r.rows == rows,
            r.columns == columns,
            r.points@ == points@,
            r.normals@ == normals@,
            r.gauss_curvature@ == gauss_curvature@,
            r.mean_curvature@ == mean_curvature@,
            r.indices@ == indices@,
    {
        SurfaceTessellation { rows, columns, points, normals, gauss_curvature, mean_curvature, indices }
    }

    /// Grid rows.
    pub fn rows(&self) -> (r: usize)
        ensures
            r == self.rows,
    {
        self.rows
    }

    /// Grid columns.
    pub fn columns(&self) -> (r: usize)
        ensures
            r == self.columns,
    {
        self.columns
    }

    /// How many grid samples the buffers hold.
    pub fn points_count(&self) -> (r: usize)
        ensures
            r == self.points@.len(),
    {
        self.points.len()
    }

    /// How many triangle-vertex indices the index buffer holds.
    pub fn indices_count(&self) -> (r: usize)
        ensures
            r == self.indices@.len(),
    {
        self.indices.len()
    }

    /// Components per point or normal entry.
    pub fn stride(&self) -> (r: usize)
        ensures
            r == 3,
    {
        3
    }

    /// The sampled positions in row-major order.
    pub fn points(&self) -> (r: &Vec<Point3>)
        ensures
            r@ == self.points@,
    {
        &self.points
    }

    /// The sampled normals in row-major order.
    pub fn normals(&self) -> (r: &Vec<Vector3>)
        ensures
            r@ == self.normals@,
    {
        &self.normals
    }

    /// The sampled Gaussian curvatures in row-major order.
    pub fn gauss_curvature(&self) -> (r: &Vec<Scalar>)
        ensures
            r@ == self.gauss_curvature@,
    {
        &self.gauss_curvature
    }

    /// The sampled mean curvatures in row-major order.
    pub fn mean_curvature(&self) -> (r: &Vec<Scalar>)
        ensures
            r@ == self.mean_curvature@,
    {
        &self.mean_curvature
    }

    /// The triangle-vertex indices, two triangles per grid cell.
    pub fn indices(&self) -> (r: &Vec<usize>)
        ensures
            r@ == self.indices@,
    {
        &self.indices
    }
}

} // verus!
