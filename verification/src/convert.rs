//! The mesh converter: from the tessellator's shared-vertex mesh to the
//! engine's flat layout, in which every triangle owns three fresh corners.

use crate::mesh::{
    flat_index, EngineMesh, EngineMeshView, GenericMesh, GenericMeshView, UV_PLACEHOLDER,
};
use vstd::prelude::*;

verus! {

/// The engine layout of a mesh: corner `k` of the output is corner `k % 3` of
/// triangle `k / 3` of the input, with the placeholder texture coordinate, and
/// the index buffer counts the corners in order.
pub open spec fn engine_layout(mesh: GenericMeshView) -> EngineMeshView {
    EngineMeshView {
        positions: Seq::new(mesh.corner_count(), |k: int| mesh.corner(k).position),
        normals: Seq::new(mesh.corner_count(), |k: int| mesh.corner(k).normal),
        colors: Seq::new(mesh.corner_count(), |k: int| mesh.corner(k).color),
        uvs: Seq::new(mesh.corner_count(), |k: int| UV_PLACEHOLDER),
        indices: Seq::new(mesh.corner_count(), |k: int| flat_index(k)),
    }
}

/// The first `count` corners of `mesh` have been written to `out`, and
/// nothing else.
spec fn emitted(mesh: GenericMeshView, out: EngineMeshView, count: int) -> bool {
    &&& out.positions.len() == count
    &&& out.normals.len() == count
    &&& out.colors.len() == count
    &&& out.uvs.len() == count
    &&& out.indices.len() == count
    &&& forall|k: int| 0 <= k < count ==> #[trigger] out.positions[k] == mesh.corner(k).position
    &&& forall|k: int| 0 <= k < count ==> #[trigger] out.normals[k] == mesh.corner(k).normal
    &&& forall|k: int| 0 <= k < count ==> #[trigger] out.colors[k] == mesh.corner(k).color
    &&& forall|k: int| 0 <= k < count ==> #[trigger] out.uvs[k] == UV_PLACEHOLDER
    &&& forall|k: int| 0 <= k < count ==> #[trigger] out.indices[k] == flat_index(k)
}

/// Converts a tessellated mesh into the engine's layout.
///
/// Each triangle, in order, contributes its three corners, in order, as three
/// fresh entries of every attribute buffer; vertices that triangles share are
/// written once for each use. The index buffer then simply counts.
pub fn to_engine_mesh(mesh: &GenericMesh) -> (out: EngineMesh)
    ensures
        out.positions@.len() == 3 * mesh@.triangles.len(),
        out.normals@.len() == 3 * mesh@.triangles.len(),
        out.colors@.len() == 3 * mesh@.triangles.len(),
        out.uvs@.len() == 3 * mesh@.triangles.len(),
        out.indices@.len() == 3 * mesh@.triangles.len(),
        forall|k: int| 0 <= k < out.indices@.len() ==> #[trigger] out.indices@[k] == flat_index(k),
        forall|k: int|
            0 <= k < out.indices@.len() && k <= u32::MAX ==> #[trigger] out.indices@[k] == k,
        forall|i: int, j: int|
            0 <= i < mesh@.triangles.len() && 0 <= j < 3 ==> {
                &&& out.positions@[3 * i + j] == (#[trigger] mesh@.vertex_at(i, j)).position
                &&& out.normals@[3 * i + j] == mesh@.vertex_at(i, j).normal
                &&& out.colors@[3 * i + j] == mesh@.vertex_at(i, j).color
            },
        forall|k: int| 0 <= k < out.uvs@.len() ==> #[trigger] out.uvs@[k] == UV_PLACEHOLDER,
        mesh@.triangles.len() == 0 ==> out@.is_empty(),
        out@.well_formed(),
        out@ == engine_layout(mesh@),
{
    let vertices = mesh.vertices();
    let triangles = mesh.triangles();
    let mut out = EngineMesh {
        positions: Vec::new(),
        normals: Vec::new(),
        colors: Vec::new(),
        uvs: Vec::new(),
        indices: Vec::new(),
    };
    let mut next_index: u32 = 0;
    let mut i: usize = 0;
    while i < triangles.len()
        invariant
            i <= triangles@.len(),
            vertices@ == mesh@.vertices,
            triangles@ == mesh@.triangles,
            mesh@.indices_in_range(),
            emitted(mesh@, out@, 3 * i),
            next_index == flat_index(3 * i),
        decreases triangles@.len() - i,
    {
        let triangle = triangles[i];
        let mut j: usize = 0;
        while j < 3
            invariant
                j <= 3,
                i < triangles@.len(),
                vertices@ == mesh@.vertices,
                triangles@ == mesh@.triangles,
                mesh@.indices_in_range(),
                triangle == triangles@[i as int],
                emitted(mesh@, out@, 3 * i + j),
                next_index == flat_index(3 * i + j),
            decreases 3 - j,
        {
            assert(mesh@.triangles[i as int].indices[j as int] < mesh@.vertices.len());
            let vertex = vertices[triangle.indices[j] as usize];
            assert(vertex == mesh@.corner(3 * i + j));
            out.positions.push(vertex.position);
            out.normals.push(vertex.normal);
            out.colors.push(vertex.color);
            out.uvs.push(UV_PLACEHOLDER);
            out.indices.push(next_index);
            next_index = next_index.wrapping_add(1);
            j += 1;
        }
        i += 1;
    }
    proof {
        let layout = engine_layout(mesh@);
        assert(out@.positions =~= layout.positions);
        assert(out@.normals =~= layout.normals);
        assert(out@.colors =~= layout.colors);
        assert(out@.uvs =~= layout.uvs);
        assert(out@.indices =~= layout.indices);
        lemma_layout_cardinality(mesh@);
        lemma_layout_indices(mesh@);
        lemma_layout_well_formed(mesh@);
        assert forall|i: int, j: int| 0 <= i < mesh@.triangles.len() && 0 <= j < 3 implies {
            &&& layout.positions[3 * i + j] == (#[trigger] mesh@.vertex_at(i, j)).position
            &&& layout.normals[3 * i + j] == mesh@.vertex_at(i, j).normal
            &&& layout.colors[3 * i + j] == mesh@.vertex_at(i, j).color
        } by {
            lemma_layout_corner_mapping(mesh@, i, j);
        }
        lemma_layout_uv_placeholder(mesh@);
        lemma_layout_of_empty_mesh(mesh@);
    }
    out
}

/// Each of the five buffers of a layout holds exactly three entries for
/// every triangle of the mesh.
pub proof fn lemma_layout_cardinality(mesh: GenericMeshView)
    ensures
        engine_layout(mesh).positions.len() == 3 * mesh.triangles.len(),
        engine_layout(mesh).normals.len() == 3 * mesh.triangles.len(),
        engine_layout(mesh).colors.len() == 3 * mesh.triangles.len(),
        engine_layout(mesh).uvs.len() == 3 * mesh.triangles.len(),
        engine_layout(mesh).indices.len() == 3 * mesh.triangles.len(),
{
}

/// The index buffer of a layout counts its corners in order: entry `k` is
/// `k`, for every `k` that an index of 32 bits can hold. Beyond that the
/// entries start again from zero.
pub proof fn lemma_layout_indices(mesh: GenericMeshView)
    ensures
        forall|k: int|
            0 <= k < 3 * mesh.triangles.len() ==> #[trigger] engine_layout(mesh).indices[k]
                == flat_index(k),
        forall|k: int|
            0 <= k < 3 * mesh.triangles.len() && k <= u32::MAX
                ==> #[trigger] engine_layout(mesh).indices[k] == k,
        3 * mesh.triangles.len() <= 0x1_0000_0000 ==> engine_layout(mesh).indices == Seq::new(
            3 * mesh.triangles.len(),
            |k: int| k as u32,
        ),
{
    if 3 * mesh.triangles.len() <= 0x1_0000_0000 {
        assert(engine_layout(mesh).indices =~= Seq::new(
            3 * mesh.triangles.len(),
            |k: int| k as u32,
        ));
    }
}

/// The entry of a layout at place `3 * i + j` carries the position, normal
/// and color of the vertex that corner `j` of triangle `i` refers to.
pub proof fn lemma_layout_corner_mapping(mesh: GenericMeshView, i: int, j: int)
    requires
        0 <= i < mesh.triangles.len(),
        0 <= j < 3,
    ensures
        engine_layout(mesh).positions[3 * i + j] == mesh.vertex_at(i, j).position,
        engine_layout(mesh).normals[3 * i + j] == mesh.vertex_at(i, j).normal,
        engine_layout(mesh).colors[3 * i + j] == mesh.vertex_at(i, j).color,
{
    assert((3 * i + j) / 3 == i);
    assert((3 * i + j) % 3 == j);
}

/// Every texture coordinate of a layout is the pair of zeros, whatever the
/// mesh holds.
pub proof fn lemma_layout_uv_placeholder(mesh: GenericMeshView)
    ensures
        forall|k: int|
            0 <= k < engine_layout(mesh).uvs.len() ==> #[trigger] engine_layout(mesh).uvs[k]
                == UV_PLACEHOLDER,
        UV_PLACEHOLDER[0] == 0,
        UV_PLACEHOLDER[1] == 0,
{
}

/// The layout of a mesh without triangles has five empty buffers, however
/// many vertices the mesh holds.
pub proof fn lemma_layout_of_empty_mesh(mesh: GenericMeshView)
    ensures
        mesh.triangles.len() == 0 ==> engine_layout(mesh).is_empty(),
{
}

/// Every layout meets the invariant of the engine's representation.
pub proof fn lemma_layout_well_formed(mesh: GenericMeshView)
    ensures
        engine_layout(mesh).well_formed(),
{
}

/// Two conversions of the same mesh agree in every entry of every buffer:
/// whatever [`to_engine_mesh`] returns for a mesh, it returns each time.
pub proof fn lemma_conversion_deterministic(
    mesh: GenericMeshView,
    first: EngineMesh,
    second: EngineMesh,
)
    requires
        first@ == engine_layout(mesh),
        second@ == engine_layout(mesh),
    ensures
        first.positions@ == second.positions@,
        first.normals@ == second.normals@,
        first.colors@ == second.colors@,
        first.uvs@ == second.uvs@,
        first.indices@ == second.indices@,
{
}

} // verus!
