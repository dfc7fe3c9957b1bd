//! The two mesh builders and the conversion entry point.

use vstd::prelude::*;

use crate::mesh::{MeshBuffers, Topology};
use crate::model::{IndexedModel, Vec2, Vec3};

verus! {

/// Bit pattern of the single-precision value 1.0: the x component of the
/// placeholder normal that the wireframe builder assigns to every vertex.
pub const WIRE_NORMAL_X: u32 = 0x3F80_0000;

/// Conversion failure: a face references a vertex index outside the bounds
/// of the model's vertex list. This signals an upstream parser violation;
/// the builders detect it and fail fast instead of reading out of bounds.
#[derive(Clone, Copy, Debug, PartialEq, Eq)]
pub enum MeshError {
    MalformedInput,
}

/// The texture coordinate assigned to every emitted vertex: STL carries no
/// texture data, so both components are the zero word (bit pattern of 0.0).
pub open spec fn uv_placeholder() -> Vec2 {
    Vec2 { x: 0, y: 0 }
}

/// The normal assigned to every wireframe vertex: the constant direction
/// (1.0, 0.0, 0.0), stored as bit patterns.
pub open spec fn wire_normal() -> Vec3 {
    Vec3 { x: WIRE_NORMAL_X, y: 0, z: 0 }
}

/// The position that slot `k` of the triangle mesh carries: face `k / 3`,
/// corner `k % 3`, looked up through that face's vertex indices.
pub open spec fn tri_position_at(m: IndexedModel, k: int) -> Vec3 {
    m.vertices@[m.faces@[k / 3].vertex_indices@[k % 3] as int]
}

/// The normal that slot `k` of the triangle mesh carries: the normal of
/// face `k / 3`, replicated across the face's three corners (flat shading).
pub open spec fn tri_normal_at(m: IndexedModel, k: int) -> Vec3 {
    m.faces@[k / 3].normal
}

/// The vertex index that slot `k` of the wireframe index buffer references.
/// Each face contributes six slots: three edges of two endpoints each, where
/// edge `e` runs from corner `e` to corner `(e + 1) % 3`.
pub open spec fn wire_index_at(m: IndexedModel, k: int) -> int {
    let face = m.faces@[k / 6];
    let edge = (k % 6) / 2;
    if k % 2 == 0 {
        face.vertex_indices@[edge] as int
    } else {
        face.vertex_indices@[(edge + 1) % 3] as int
    }
}

/// Exactly the buffers that the triangle builder produces for model `m`:
/// an unwelded triangle list with one vertex per face corner, flat normals,
/// placeholder texture coordinates, and the identity index sequence.
pub open spec fn triangle_output(m: IndexedModel, b: MeshBuffers) -> bool {
    let n = m.faces@.len() as int;
    &&& b.topology == Topology::TriangleList
    &&& b.positions@.len() == 3 * n
    &&& b.normals@.len() == 3 * n
    &&& b.uvs@.len() == 3 * n
    &&& b.indices@.len() == 3 * n
    &&& forall|k: int| 0 <= k < 3 * n ==> (#[trigger] b.positions@[k]) == tri_position_at(m, k)
    &&& forall|k: int| 0 <= k < 3 * n ==> (#[trigger] b.normals@[k]) == tri_normal_at(m, k)
    &&& forall|k: int| 0 <= k < 3 * n ==> (#[trigger] b.uvs@[k]) == uv_placeholder()
    &&& forall|k: int| 0 <= k < 3 * n ==> (#[trigger] b.indices@[k]) as int == k
}

/// Exactly the buffers that the wireframe builder produces for model `m`:
/// the original vertex list verbatim, placeholder normals and texture
/// coordinates, and six index entries per face outlining its three edges.
pub open spec fn wireframe_output(m: IndexedModel, b: MeshBuffers) -> bool {
    let v = m.vertices@.len() as int;
    let n = m.faces@.len() as int;
    &&& b.topology == Topology::LineList
    &&& b.positions@ == m.vertices@
    &&& b.normals@.len() == v
    &&& b.uvs@.len() == v
    &&& b.indices@.len() == 6 * n
    &&& forall|k: int| 0 <= k < v ==> (#[trigger] b.normals@[k]) == wire_normal()
    &&& forall|k: int| 0 <= k < v ==> (#[trigger] b.uvs@[k]) == uv_placeholder()
    &&& forall|k: int| 0 <= k < 6 * n ==> (#[trigger] b.indices@[k]) as int == wire_index_at(m, k)
}

/// Builds the solid, flat-shaded triangle mesh for `model`.
///
/// Succeeds exactly on well-formed models and then produces the buffers
/// that [`triangle_output`] describes: face `i` occupies output slots
/// `3i`, `3i + 1`, `3i + 2`, in face order, with no vertex deduplication.
/// A face with an out-of-bounds vertex index yields `MalformedInput` and
/// no buffers.
pub fn stl_to_triangle_mesh(model: &IndexedModel) -> (r: Result<MeshBuffers, MeshError>)
    requires
        3 * model.faces@.len() <= u32::MAX,
    ensures
        model.valid() <==> r is Ok,
        r is Ok ==> triangle_output(*model, r->Ok_0),
        r is Ok ==> r->Ok_0.well_formed(),
        r is Err ==> r->Err_0 == MeshError::MalformedInput,
{
    let face_count = model.faces.len();
    let vertex_count = model.vertices.len();
    let mut positions: Vec<Vec3> = Vec::new();
    let mut normals: Vec<Vec3> = Vec::new();
    let mut uvs: Vec<Vec2> = Vec::new();
    let mut indices: Vec<u32> = Vec::new();
    let mut i: usize = 0;
    while i < face_count
        invariant
            face_count == model.faces@.len(),
            vertex_count == model.vertices@.len(),
            3 * face_count <= u32::MAX,
            i <= face_count,
            positions@.len() == 3 * i,
            normals@.len() == 3 * i,
            uvs@.len() == 3 * i,
            indices@.len() == 3 * i,
            forall|a: int| 0 <= a < i ==> #[trigger] model.face_in_bounds(a),
            forall|k: int| 0 <= k < 3 * i ==> (#[trigger] positions@[k]) == tri_position_at(
                *model,
                k,
            ),
            forall|k: int| 0 <= k < 3 * i ==> (#[trigger] normals@[k]) == tri_normal_at(*model, k),
            forall|k: int| 0 <= k < 3 * i ==> (#[trigger] uvs@[k]) == uv_placeholder(),
            forall|k: int| 0 <= k < 3 * i ==> (#[trigger] indices@[k]) as int == k,
        decreases face_count - i,
    {
        let face = model.faces[i];
        let i0 = face.vertex_indices[0];
        let i1 = face.vertex_indices[1];
        let i2 = face.vertex_indices[2];
        if i0 >= vertex_count || i1 >= vertex_count || i2 >= vertex_count {
            proof {
                assert(!model.face_in_bounds(i as int));
            }
            return Err(MeshError::MalformedInput);
        }
        positions.push(model.vertices[i0]);
        positions.push(model.vertices[i1]);
        positions.push(model.vertices[i2]);
        normals.push(face.normal);
        normals.push(face.normal);
        normals.push(face.normal);
        uvs.push(Vec2 { x: 0, y: 0 });
        uvs.push(Vec2 { x: 0, y: 0 });
        uvs.push(Vec2 { x: 0, y: 0 });
        let base: u32 = (3 * i) as u32;
        indices.push(base);
        indices.push(base + 1);
        indices.push(base + 2);
        proof {
            let i0n = i as int;
            assert(model.face_in_bounds(i0n));
            assert((3 * i0n) / 3 == i0n && (3 * i0n) % 3 == 0) by (nonlinear_arith)
                requires
                    i0n >= 0,
            ;
            assert((3 * i0n + 1) / 3 == i0n && (3 * i0n + 1) % 3 == 1) by (nonlinear_arith)
                requires
                    i0n >= 0,
            ;
            assert((3 * i0n + 2) / 3 == i0n && (3 * i0n + 2) % 3 == 2) by (nonlinear_arith)
                requires
                    i0n >= 0,
            ;
        }
        i = i + 1;
    }
    let buffers = MeshBuffers {
        positions,
        normals,
        uvs,
        indices,
        topology: Topology::TriangleList,
    };
    Ok(buffers)
}

/// Builds the line-list wireframe mesh for `model`.
///
/// Succeeds exactly on well-formed models and then produces the buffers
/// that [`wireframe_output`] describes: the vertex list is reused verbatim
/// (no duplication, no renumbering), and every face contributes its three
/// edges to the index buffer. Shared edges of adjacent faces are emitted
/// once per face; the overdraw is deliberate. A face with an out-of-bounds
/// vertex index yields `MalformedInput` and no buffers.
pub fn stl_to_wireframe_mesh(model: &IndexedModel) -> (r: Result<MeshBuffers, MeshError>)
    requires
        model.vertices@.len() <= u32::MAX,
    ensures
        model.valid() <==> r is Ok,
        r is Ok ==> wireframe_output(*model, r->Ok_0),
        r is Ok ==> r->Ok_0.well_formed(),
        r is Err ==> r->Err_0 == MeshError::MalformedInput,
{
    let face_count = model.faces.len();
    let vertex_count = model.vertices.len();
    let mut positions: Vec<Vec3> = Vec::new();
    let mut normals: Vec<Vec3> = Vec::new();
    let mut uvs: Vec<Vec2> = Vec::new();
    let mut v: usize = 0;
    while v < vertex_count
        invariant
            vertex_count == model.vertices@.len(),
            v <= vertex_count,
            positions@.len() == v,
            normals@.len() == v,
            uvs@.len() == v,
            forall|k: int| 0 <= k < v ==> (#[trigger] positions@[k]) == model.vertices@[k],
            forall|k: int| 0 <= k < v ==> (#[trigger] normals@[k]) == wire_normal(),
            forall|k: int| 0 <= k < v ==> (#[trigger] uvs@[k]) == uv_placeholder(),
        decreases vertex_count - v,
    {
        positions.push(model.vertices[v]);
        normals.push(Vec3 { x: WIRE_NORMAL_X, y: 0, z: 0 });
        uvs.push(Vec2 { x: 0, y: 0 });
        v = v + 1;
    }
    proof {
        assert(positions@ =~= model.vertices@);
    }
    let mut indices: Vec<u32> = Vec::new();
    let mut i: usize = 0;
    while i < face_count
        invariant
            face_count == model.faces@.len(),
            vertex_count == model.vertices@.len(),
            vertex_count <= u32::MAX,
            i <= face_count,
            indices@.len() == 6 * i,
            forall|a: int| 0 <= a < i ==> #[trigger] model.face_in_bounds(a),
            forall|k: int| 0 <= k < 6 * i ==> (#[trigger] indices@[k]) as int == wire_index_at(
                *model,
                k,
            ),
            forall|k: int| 0 <= k < 6 * i ==> (#[trigger] indices@[k]) < vertex_count,
        decreases face_count - i,
    {
        let face = model.faces[i];
        let i0 = face.vertex_indices[0];
        let i1 = face.vertex_indices[1];
        let i2 = face.vertex_indices[2];
        if i0 >= vertex_count || i1 >= vertex_count || i2 >= vertex_count {
            proof {
                assert(!model.face_in_bounds(i as int));
            }
            return Err(MeshError::MalformedInput);
        }
        indices.push(i0 as u32);
        indices.push(i1 as u32);
        indices.push(i1 as u32);
        indices.push(i2 as u32);
        indices.push(i2 as u32);
        indices.push(i0 as u32);
        proof {
            let i0n = i as int;
            assert(model.face_in_bounds(i0n));
            assert((6 * i0n) / 6 == i0n && (6 * i0n) % 6 == 0) by (nonlinear_arith)
                requires
                    i0n >= 0,
            ;
            assert((6 * i0n + 1) / 6 == i0n && (6 * i0n + 1) % 6 == 1) by (nonlinear_arith)
                requires
                    i0n >= 0,
            ;
            assert((6 * i0n + 2) / 6 == i0n && (6 * i0n + 2) % 6 == 2) by (nonlinear_arith)
                requires
                    i0n >= 0,
            ;
            assert((6 * i0n + 3) / 6 == i0n && (6 * i0n + 3) % 6 == 3) by (nonlinear_arith)
                requires
                    i0n >= 0,
            ;
            assert((6 * i0n + 4) / 6 == i0n && (6 * i0n + 4) % 6 == 4) by (nonlinear_arith)
                requires
                    i0n >= 0,
            ;
            assert((6 * i0n + 5) / 6 == i0n && (6 * i0n + 5) % 6 == 5) by (nonlinear_arith)
                requires
                    i0n >= 0,
            ;
        }
        i = i + 1;
    }
    let buffers = MeshBuffers { positions, normals, uvs, indices, topology: Topology::LineList };
    Ok(buffers)
}

/// The result of one conversion: the solid mesh, and the wireframe mesh
/// when the caller asked for it.
#[derive(Clone, Debug, PartialEq)]
pub struct StlMeshes {
    pub mesh: MeshBuffers,
    pub wireframe: Option<MeshBuffers>,
}

/// Converts `model` into renderable buffers: always the solid triangle
/// mesh, plus the wireframe mesh when `emit_wireframe` is set.
///
/// Succeeds exactly on well-formed models; a face with an out-of-bounds
/// vertex index yields `MalformedInput` and no buffers at all.
pub fn convert_stl(model: &IndexedModel, emit_wireframe: bool) -> (r: Result<
    StlMeshes,
    MeshError,
>)
    requires
        3 * model.faces@.len() <= u32::MAX,
        model.vertices@.len() <= u32::MAX,
    ensures
        model.valid() <==> r is Ok,
        r is Ok ==> triangle_output(*model, r->Ok_0.mesh),
        r is Ok ==> r->Ok_0.mesh.well_formed(),
        r is Ok ==> (r->Ok_0.wireframe is Some <==> emit_wireframe),
        r is Ok && emit_wireframe ==> wireframe_output(*model, r->Ok_0.wireframe->0),
        r is Ok && emit_wireframe ==> r->Ok_0.wireframe->0.well_formed(),
        r is Err ==> r->Err_0 == MeshError::MalformedInput,
{
    let mesh = match stl_to_triangle_mesh(model) {
        Ok(mesh) => mesh,
        Err(e) => {
            return Err(e);
        },
    };
    let wireframe = if emit_wireframe {
        match stl_to_wireframe_mesh(model) {
            Ok(wire) => Some(wire),
            Err(e) => {
                return Err(e);
            },
        }
    } else {
        None
    };
    Ok(StlMeshes { mesh, wireframe })
}

} // verus!
