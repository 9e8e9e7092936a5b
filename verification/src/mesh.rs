//! The two mesh representations the loader moves between: the tessellator's
//! shared-vertex mesh and the engine's flat attribute buffers.
//!
//! Every scalar in this module is an IEEE-754 single-precision number carried
//! as its bit pattern. The library places scalars; it never computes with
//! them, so two buffers are equal here exactly when they are bit-identical.

use vstd::prelude::*;

verus! {

/// The texture coordinate given to every corner: positive zero, twice.
///
/// The tessellator produces no texture coordinates, so each corner receives
/// this fixed pair.
pub const UV_PLACEHOLDER: [u32; 2] = [0, 0];

/// One vertex of a tessellated surface: where it lies, which way the surface
/// faces there, and its color. Each is a triple of scalars, already narrowed
/// to the single precision that the engine draws with.
#[derive(Clone, Copy, Debug, PartialEq, Eq)]
pub struct Vertex {
    pub position: [u32; 3],
    pub normal: [u32; 3],
    pub color: [u32; 3],
}

/// A triangle, given as three positions in the vertex list of its mesh.
#[derive(Clone, Copy, Debug, PartialEq, Eq)]
pub struct Triangle {
    pub indices: [u32; 3],
}

/// The mathematical content of a [`GenericMesh`].
#[verifier::ext_equal]
pub struct GenericMeshView {
    pub vertices: Seq<Vertex>,
    pub triangles: Seq<Triangle>,
}

impl GenericMeshView {
    /// Every corner of every triangle names a vertex of the mesh.
    pub open spec fn indices_in_range(self) -> bool {
        forall|i: int, j: int|
            0 <= i < self.triangles.len() && 0 <= j < 3 ==> (#[trigger] self.triangles[i].indices[j])
                < self.vertices.len()
    }

    /// The number of corners: three for each triangle.
    pub open spec fn corner_count(self) -> nat {
        3 * self.triangles.len()
    }

    /// The vertex that corner `j` of triangle `i` refers to.
    pub open spec fn vertex_at(self, i: int, j: int) -> Vertex {
        self.vertices[self.triangles[i].indices[j] as int]
    }

    /// The vertex of the `k`-th corner when corners are counted triangle by
    /// triangle: corner `k` is corner `k % 3` of triangle `k / 3`.
    pub open spec fn corner(self, k: int) -> Vertex {
        self.vertex_at(k / 3, k % 3)
    }
}

/// A triangulated mesh as the tessellator produces it: a list of vertices and
/// a list of triangles that refer to them by position.
///
/// A value of this type always satisfies
/// [`indices_in_range`](GenericMeshView::indices_in_range); [`GenericMesh::new`]
/// is the only way to make one and it refuses anything else.
#[derive(Debug, PartialEq, Eq)]
pub struct GenericMesh {
    vertices: Vec<Vertex>,
    triangles: Vec<Triangle>,
}

impl View for GenericMesh {
    type V = GenericMeshView;

    closed spec fn view(&self) -> GenericMeshView {
        GenericMeshView { vertices: self.vertices@, triangles: self.triangles@ }
    }
}

impl GenericMesh {
    #[verifier::type_invariant]
    closed spec fn well_formed(self) -> bool {
        self@.indices_in_range()
    }

    /// Builds a mesh from its two lists, or returns `None` when some triangle
    /// refers to a vertex that is not there.
    pub fn new(vertices: Vec<Vertex>, triangles: Vec<Triangle>) -> (mesh: Option<GenericMesh>)
        ensures
            mesh is Some <==> (GenericMeshView {
                vertices: vertices@,
                triangles: triangles@,
            }).indices_in_range(),
            mesh matches Some(m) ==> m@ == (GenericMeshView {
                vertices: vertices@,
                triangles: triangles@,
            }),
    {
        let ghost view = GenericMeshView { vertices: vertices@, triangles: triangles@ };
        let vertex_count = vertices.len();
        let triangle_count = triangles.len();
        let mut i: usize = 0;
        while i < triangle_count
            invariant
                i <= triangle_count,
                triangle_count == triangles@.len(),
                vertex_count == vertices@.len(),
                view.vertices == vertices@,
                view.triangles == triangles@,
                forall|a: int, j: int|
                    0 <= a < i && 0 <= j < 3 ==> (#[trigger] view.triangles[a].indices[j])
                        < vertex_count,
            decreases triangle_count - i,
        {
            let triangle = triangles[i];
            let mut j: usize = 0;
            while j < 3
                invariant
                    j <= 3,
                    i < triangle_count,
                    triangle_count == triangles@.len(),
                    vertex_count == vertices@.len(),
                    view.vertices == vertices@,
                    view.triangles == triangles@,
                    triangle == triangles@[i as int],
                    forall|b: int| 0 <= b < j ==> (#[trigger] triangle.indices[b]) < vertex_count,
                decreases 3 - j,
            {
                if triangle.indices[j] as usize >= vertex_count {
                    assert(!(view.triangles[i as int].indices[j as int] < view.vertices.len()));
                    return None;
                }
                j += 1;
            }
            i += 1;
        }
        Some(GenericMesh { vertices, triangles })
    }

    /// The vertices, in the tessellator's order. Every triangle of the mesh
    /// refers to vertices among them.
    pub fn vertices(&self) -> (vertices: &Vec<Vertex>)
        ensures
            vertices@ == self@.vertices,
            self@.indices_in_range(),
    {
        proof {
            use_type_invariant(self);
        }
        &self.vertices
    }

    /// The triangles, in the tessellator's order. Each of them refers to
    /// vertices that exist.
    pub fn triangles(&self) -> (triangles: &Vec<Triangle>)
        ensures
            triangles@ == self@.triangles,
            self@.indices_in_range(),
    {
        proof {
            use_type_invariant(self);
        }
        &self.triangles
    }
}

/// The entry of an index buffer at place `k`: `k` itself, kept to the 32 bits
/// of an engine index.
pub open spec fn flat_index(k: int) -> u32 {
    (k % 0x1_0000_0000) as u32
}

/// The mathematical content of an [`EngineMesh`]: its five buffers.
#[verifier::ext_equal]
pub struct EngineMeshView {
    pub positions: Seq<[u32; 3]>,
    pub normals: Seq<[u32; 3]>,
    pub colors: Seq<[u32; 3]>,
    pub uvs: Seq<[u32; 2]>,
    pub indices: Seq<u32>,
}

/// A mesh in the engine's layout: four attribute buffers that run in
/// parallel, one entry for each corner, and the index buffer that draws them.
#[derive(Debug, PartialEq, Eq)]
pub struct EngineMesh {
    pub positions: Vec<[u32; 3]>,
    pub normals: Vec<[u32; 3]>,
    pub colors: Vec<[u32; 3]>,
    pub uvs: Vec<[u32; 2]>,
    pub indices: Vec<u32>,
}

impl EngineMeshView {
    /// The layout that the engine draws from: the five buffers hold one entry
    /// for each corner, corners come in threes, and the index buffer counts
    /// them in order, within the 32 bits of an index.
    pub open spec fn well_formed(self) -> bool {
        &&& self.normals.len() == self.positions.len()
        &&& self.colors.len() == self.positions.len()
        &&& self.uvs.len() == self.positions.len()
        &&& self.indices.len() == self.positions.len()
        &&& self.positions.len() % 3 == 0
        &&& forall|k: int| 0 <= k < self.indices.len() ==> #[trigger] self.indices[k] == flat_index(k)
    }

    /// All five buffers are empty.
    pub open spec fn is_empty(self) -> bool {
        &&& self.positions.len() == 0
        &&& self.normals.len() == 0
        &&& self.colors.len() == 0
        &&& self.uvs.len() == 0
        &&& self.indices.len() == 0
    }
}

impl View for EngineMesh {
    type V = EngineMeshView;

    open spec fn view(&self) -> EngineMeshView {
        EngineMeshView {
            positions: self.positions@,
            normals: self.normals@,
            colors: self.colors@,
            uvs: self.uvs@,
            indices: self.indices@,
        }
    }
}

} // verus!
