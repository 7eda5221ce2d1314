//! Scene geometry: vertex, index and material buffers with load-time
//! validation.
//!
//! The loader (outside the library) hands over flat, xyz-packed vertex
//! coordinates, triangle indices in groups of three, one material index per
//! triangle and one material record per material slot.  Construction fails
//! with a descriptive error on any malformed input; afterwards the buffers
//! are immutable and every triangle lookup is in bounds.

use vstd::prelude::*;
use crate::scalar::Color;
use crate::vecmath::{Vec3, vec_in_range, coord_in_range, COORD_LIMIT};

verus! {

/// A surface description: diffuse reflectance and emitted radiance, both
/// with Q16.16 channels.  A material with a nonzero emissive color marks
/// its triangles as light sources.
#[derive(Clone, Copy, Debug, PartialEq, Eq, Structural)]
pub struct Material {
    pub diffuse: Color,
    pub emissive: Color,
}

/// Why scene construction was rejected.
#[derive(Clone, Copy, Debug, PartialEq, Eq, Structural)]
pub enum SceneError {
    /// The flat coordinate array's length is not a multiple of three.
    VertexCountNotTriple,
    /// The index array's length is not a positive multiple of three.
    IndexCountNotTriple,
    /// The scene holds no triangles.
    NoTriangles,
    /// The mesh holds more triangles than a 32-bit primitive index can name.
    TooManyTriangles,
    /// Some index references a vertex past the end of the vertex array.
    IndexOutOfRange,
    /// The per-triangle material array does not hold one entry per triangle.
    MaterialCountMismatch,
    /// Some triangle names a material past the end of the material array.
    MaterialIndexOutOfRange,
    /// Some coordinate exceeds the library's fixed-point range.
    CoordinateOutOfRange,
    /// The summed emitter area exceeds the Q16.16 range.
    EmitterAreaOverflow,
}

/// Immutable triangle-mesh buffers, validated at construction.
pub struct SceneGeometry {
    pub vertices: Vec<Vec3>,
    pub indices: Vec<u32>,
    pub triangle_material: Vec<u32>,
    pub materials: Vec<Material>,
}

/// A triple index `3k .. 3k+2` stays within an array whose length is a
/// multiple of three when `k` is below a third of that length.
pub proof fn lemma_triple_index(k: int, len: int)
    requires
        len % 3 == 0,
        0 <= k < len / 3,
    ensures
        0 <= 3 * k,
        3 * k + 2 < len,
{
    vstd::arithmetic::div_mod::lemma_fundamental_div_mod(len, 3);
}

/// The flat coordinate array grouped into vertices, three coordinates each.
pub open spec fn spec_group_vertices(coords: Seq<i32>) -> Seq<Vec3> {
    Seq::new((coords.len() / 3) as nat, |k: int| Vec3 {
        x: coords[3 * k],
        y: coords[3 * k + 1],
        z: coords[3 * k + 2],
    })
}

impl SceneGeometry {
    /// Number of triangles in the mesh.
    pub open spec fn spec_triangle_count(self) -> int {
        self.indices@.len() as int / 3
    }

    /// Well-formedness: established by [`SceneGeometry::build`] and relied
    /// on by every consumer.
    pub open spec fn wf(self) -> bool {
        &&& self.indices@.len() % 3 == 0
        &&& self.indices@.len() > 0
        &&& self.spec_triangle_count() <= u32::MAX
        &&& self.triangle_material@.len() == self.spec_triangle_count()
        &&& forall|i: int|
            0 <= i < self.indices@.len() ==> (#[trigger] self.indices@[i]) < self.vertices@.len()
        &&& forall|t: int|
            0 <= t < self.triangle_material@.len() ==> (#[trigger] self.triangle_material@[t])
                < self.materials@.len()
        &&& forall|v: int| 0 <= v < self.vertices@.len() ==> vec_in_range(#[trigger] self.vertices@[v])
    }

    /// The three corner positions of triangle `t`.
    pub open spec fn spec_corners(self, t: int) -> (Vec3, Vec3, Vec3) {
        (
            self.vertices@[self.indices@[3 * t] as int],
            self.vertices@[self.indices@[3 * t + 1] as int],
            self.vertices@[self.indices@[3 * t + 2] as int],
        )
    }

    /// The material of triangle `t`.
    pub open spec fn spec_material_of(self, t: int) -> Material {
        self.materials@[self.triangle_material@[t] as int]
    }

    /// Validates loader output and assembles the immutable scene buffers.
    ///
    /// Returns `Ok` exactly when the input is well formed: coordinates come
    /// in triples within the fixed-point range, indices come in a positive
    /// number of triples and reference existing vertices, and every triangle
    /// has an existing material.  Each error names the first violated
    /// condition, in the order given by [`SceneError`].
    pub fn build(
        coords: Vec<i32>,
        indices: Vec<u32>,
        triangle_material: Vec<u32>,
        materials: Vec<Material>,
    ) -> (r: Result<SceneGeometry, SceneError>)
        ensures
            match r {
                Ok(g) => {
                    &&& g.wf()
                    &&& g.vertices@ == spec_group_vertices(coords@)
                    &&& g.indices@ == indices@
                    &&& g.triangle_material@ == triangle_material@
                    &&& g.materials@ == materials@
                },
                Err(e) => {
                    ||| (e == SceneError::VertexCountNotTriple && coords@.len() % 3 != 0)
                    ||| (e == SceneError::IndexCountNotTriple && indices@.len() % 3 != 0)
                    ||| (e == SceneError::NoTriangles && indices@.len() == 0)
                    ||| (e == SceneError::TooManyTriangles && indices@.len() / 3 > u32::MAX)
                    ||| (e == SceneError::IndexOutOfRange && exists|i: int|
                        0 <= i < indices@.len() && (#[trigger] indices@[i]) >= coords@.len() / 3)
                    ||| (e == SceneError::MaterialCountMismatch && triangle_material@.len()
                        != indices@.len() / 3)
                    ||| (e == SceneError::MaterialIndexOutOfRange && exists|t: int|
                        0 <= t < triangle_material@.len() && (#[trigger] triangle_material@[t])
                            >= materials@.len())
                    ||| (e == SceneError::CoordinateOutOfRange && exists|i: int|
                        0 <= i < coords@.len() && !coord_in_range(#[trigger] coords@[i] as int))
                },
            },
            r is Ok <==> {
                &&& coords@.len() % 3 == 0
                &&& indices@.len() % 3 == 0
                &&& indices@.len() > 0
                &&& indices@.len() / 3 <= u32::MAX
                &&& forall|i: int|
                    0 <= i < indices@.len() ==> (#[trigger] indices@[i]) < coords@.len() / 3
                &&& triangle_material@.len() == indices@.len() / 3
                &&& forall|t: int|
                    0 <= t < triangle_material@.len() ==> (#[trigger] triangle_material@[t])
                        < materials@.len()
                &&& forall|i: int|
                    0 <= i < coords@.len() ==> coord_in_range(#[trigger] coords@[i] as int)
            },
    {
        if coords.len() % 3 != 0 {
            return Err(SceneError::VertexCountNotTriple);
        }
        if indices.len() % 3 != 0 {
            return Err(SceneError::IndexCountNotTriple);
        }
        if indices.len() == 0 {
            return Err(SceneError::NoTriangles);
        }
        if indices.len() / 3 > u32::MAX as usize {
            return Err(SceneError::TooManyTriangles);
        }
        let vertex_count = coords.len() / 3;
        let mut i: usize = 0;
        while i < indices.len()
            invariant
                i <= indices.len(),
                vertex_count == coords@.len() / 3,
                forall|j: int| 0 <= j < i ==> (#[trigger] indices@[j]) < vertex_count,
            decreases indices.len() - i,
        {
            if indices[i] as usize >= vertex_count {
                return Err(SceneError::IndexOutOfRange);
            }
            i += 1;
        }
        if triangle_material.len() != indices.len() / 3 {
            return Err(SceneError::MaterialCountMismatch);
        }
        let mut t: usize = 0;
        while t < triangle_material.len()
            invariant
                t <= triangle_material.len(),
                forall|j: int|
                    0 <= j < t ==> (#[trigger] triangle_material@[j]) < materials@.len(),
            decreases triangle_material.len() - t,
        {
            if triangle_material[t] as usize >= materials.len() {
                return Err(SceneError::MaterialIndexOutOfRange);
            }
            t += 1;
        }
        let mut c: usize = 0;
        while c < coords.len()
            invariant
                c <= coords.len(),
                forall|j: int| 0 <= j < c ==> coord_in_range(#[trigger] coords@[j] as int),
            decreases coords.len() - c,
        {
            if coords[c] < -COORD_LIMIT || coords[c] > COORD_LIMIT {
                return Err(SceneError::CoordinateOutOfRange);
            }
            c += 1;
        }
        let mut vertices: Vec<Vec3> = Vec::new();
        let mut k: usize = 0;
        while k < vertex_count
            invariant
                k <= vertex_count,
                vertex_count == coords@.len() / 3,
                coords@.len() % 3 == 0,
                coords@.len() <= usize::MAX,
                vertices@.len() == k,
                forall|j: int| 0 <= j < k ==> #[trigger] vertices@[j] == spec_group_vertices(
                    coords@,
                )[j],
            decreases vertex_count - k,
        {
            proof {
                lemma_triple_index(k as int, coords@.len() as int);
            }
            let v = Vec3 { x: coords[3 * k], y: coords[3 * k + 1], z: coords[3 * k + 2] };
            vertices.push(v);
            k += 1;
        }
        proof {
            assert(vertices@ =~= spec_group_vertices(coords@));
        }
        Ok(SceneGeometry { vertices, indices, triangle_material, materials })
    }

    /// Number of triangles in the mesh.
    pub fn triangle_count(&self) -> (n: usize)
        requires
            self.wf(),
        ensures
            n == self.spec_triangle_count(),
    {
        self.indices.len() / 3
    }

    /// The three corner positions of triangle `t`.
    pub fn corners(&self, t: usize) -> (r: (Vec3, Vec3, Vec3))
        requires
            self.wf(),
            t < self.spec_triangle_count(),
        ensures
            r == self.spec_corners(t as int),
            vec_in_range(r.0) && vec_in_range(r.1) && vec_in_range(r.2),
    {
        let n = self.indices.len();
        proof {
            lemma_triple_index(t as int, n as int);
        }
        let i0 = self.indices[3 * t] as usize;
        let i1 = self.indices[3 * t + 1] as usize;
        let i2 = self.indices[3 * t + 2] as usize;
        (self.vertices[i0], self.vertices[i1], self.vertices[i2])
    }

    /// The material of triangle `t`.
    pub fn material_of(&self, t: usize) -> (m: Material)
        requires
            self.wf(),
            t < self.spec_triangle_count(),
        ensures
            m == self.spec_material_of(t as int),
    {
        self.materials[self.triangle_material[t] as usize]
    }
}

} // verus!
