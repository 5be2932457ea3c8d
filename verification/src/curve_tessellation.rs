//! Flat output buffers for a tessellated curve.

use vstd::prelude::*;
use crate::frenet_frame::FrenetFrame;
use crate::scalar::Scalar;
use crate::vector::{Point3, Vector3};

verus! {

/// Parallel, equally long sample arrays of a curve: one point, tangent,
/// normal, binormal and curvature per parameter value, in sampling order.
/// The buffers carry full double-precision bit patterns; a render boundary
/// that wants single precision narrows them on its own side.
pub struct CurveTessellation {
    pub points: Vec<Point3>,
    pub tangents: Vec<Vector3>,
    pub normals: Vec<Vector3>,
    pub binormals: Vec<Vector3>,
    pub curvatures: Vec<Scalar>,
}

/// Whether the buffers hold exactly the given frames and curvatures,
/// split into parallel arrays.
pub open spec fn holds_frames(
    t: CurveTessellation,
    frames: Seq<FrenetFrame>,
    curvatures: Seq<Scalar>,
) -> bool {
    &&& t.points@.len() == frames.len()
    &&& t.tangents@.len() == frames.len()
    &&& t.normals@.len() == frames.len()
    &&& t.binormals@.len() == frames.len()
    &&& t.curvatures@ == curvatures
    &&& forall|i: int|
        0 <= i < frames.len() ==> #[trigger] t.points@[i] == frames[i].position
    &&& forall|i: int|
        0 <= i < frames.len() ==> #[trigger] t.tangents@[i] == frames[i].tangent
    &&& forall|i: int|
        0 <= i < frames.len() ==> #[trigger] t.normals@[i] == frames[i].normal
    &&& forall|i: int|
        0 <= i < frames.len() ==> #[trigger] t.binormals@[i] == frames[i].binormal
}

impl CurveTessellation {
    /// Splits the given frames into the parallel output arrays and adopts the
    /// curvature array unchanged.
    pub fn new(frames: Vec<FrenetFrame>, curvatures: Vec<Scalar>) -> (r: CurveTessellation)
        ensures
            holds_frames(r, frames@, curvatures@),
    {
        let n = frames.len();
        let mut points: Vec<Point3> = Vec::new();
        let mut tangents: Vec<Vector3> = Vec::new();
        let mut normals: Vec<Vector3> = Vec::new();
        let mut binormals: Vec<Vector3> = Vec::new();
        for i in 0..n
            invariant
                n == frames@.len(),
                points@.len() == i,
                tangents@.len() == i,
                normals@.len() == i,
                binormals@.len() == i,
                forall|j: int| 0 <= j < i ==> #[trigger] points@[j] == frames@[j].position,
                forall|j: int| 0 <= j < i ==> #[trigger] tangents@[j] == frames@[j].tangent,
                forall|j: int| 0 <= j < i ==> #[trigger] normals@[j] == frames@[j].normal,
                forall|j: int| 0 <= j < i ==> #[trigger] binormals@[j] == frames@[j].binormal,
        {
            let f = &frames[i];
            points.push(f.position);
            tangents.push(f.tangent);
            normals.push(f.normal);
            binormals.push(f.binormal);
        }
        CurveTessellation { points, tangents, normals, binormals, curvatures }
    }

    /// How many samples the buffers hold.
    pub fn count(&self) -> (r: usize)
        ensures
            r == self.points@.len(),
    {
        self.points.len()
    }

    /// Components per point or direction entry.
    pub fn stride(&self) -> (r: usize)
        ensures
            r == 3,
    {
        3
    }

    /// The sampled positions, one per parameter value.
    pub fn points(&self) -> (r: &Vec<Point3>)
        ensures
            r@ == self.points@,
    {
        &self.points
    }

    /// The sampled tangent directions.
    pub fn tangents(&self) -> (r: &Vec<Vector3>)
        ensures
            r@ == self.tangents@,
    {
        &self.tangents
    }

    /// The sampled normal directions.
    pub fn normals(&self) -> (r: &Vec<Vector3>)
        ensures
            r@ == self.normals@,
    {
        &self.normals
    }

    /// The sampled binormal directions.
    pub fn binormals(&self) -> (r: &Vec<Vector3>)
        ensures
            r@ == self.binormals@,
    {
        &self.binormals
    }

    /// The sampled curvatures.
    pub fn curvatures(&self) -> (r: &Vec<Scalar>)
        ensures
            r@ == self.curvatures@,
    {
        &self.curvatures
    }
}

} // verus!
