//! Library-wide laws, proved from the builders' output descriptions.

use vstd::prelude::*;

use crate::convert::{triangle_output, wireframe_output};
use crate::mesh::MeshBuffers;
use crate::model::IndexedModel;

verus! {

/// Law: the triangle builder is deterministic. Any two buffer sets that
/// satisfy [`triangle_output`] for the same model are identical, so two
/// invocations on the same input produce identical output.
pub proof fn lemma_triangle_deterministic(m: IndexedModel, b1: MeshBuffers, b2: MeshBuffers)
    requires
        triangle_output(m, b1),
        triangle_output(m, b2),
    ensures
        b1.positions@ == b2.positions@,
        b1.normals@ == b2.normals@,
        b1.uvs@ == b2.uvs@,
        b1.indices@ == b2.indices@,
        b1.topology == b2.topology,
{
    assert(b1.positions@ =~= b2.positions@);
    assert(b1.normals@ =~= b2.normals@);
    assert(b1.uvs@ =~= b2.uvs@);
    assert(b1.indices@ =~= b2.indices@);
}

/// Law: the wireframe builder is deterministic. Any two buffer sets that
/// satisfy [`wireframe_output`] for the same model are identical, so two
/// invocations on the same input produce identical output.
pub proof fn lemma_wireframe_deterministic(m: IndexedModel, b1: MeshBuffers, b2: MeshBuffers)
    requires
        wireframe_output(m, b1),
        wireframe_output(m, b2),
    ensures
        b1.positions@ == b2.positions@,
        b1.normals@ == b2.normals@,
        b1.uvs@ == b2.uvs@,
        b1.indices@ == b2.indices@,
        b1.topology == b2.topology,
{
    assert(b1.normals@ =~= b2.normals@);
    assert(b1.uvs@ =~= b2.uvs@);
    assert(b1.indices@ =~= b2.indices@);
}

/// Law: the triangle mesh is flat shaded. For every face `i`, the three
/// normals at output slots `3i`, `3i + 1`, `3i + 2` are identical to each
/// other and equal to the normal of face `i`.
pub proof fn lemma_triangle_normals_flat(m: IndexedModel, b: MeshBuffers, i: int)
    requires
        triangle_output(m, b),
        0 <= i < m.faces@.len(),
    ensures
        b.normals@[3 * i] == m.faces@[i].normal,
        b.normals@[3 * i + 1] == m.faces@[i].normal,
        b.normals@[3 * i + 2] == m.faces@[i].normal,
{
    assert((3 * i) / 3 == i && (3 * i + 1) / 3 == i && (3 * i + 2) / 3 == i) by (nonlinear_arith)
        requires
            i >= 0,
    ;
}

/// Law: face `i` occupies triangle-mesh slots `3i`, `3i + 1`, `3i + 2`, in
/// corner order, with each position looked up through the face's vertex
/// indices.
pub proof fn lemma_triangle_corners(m: IndexedModel, b: MeshBuffers, i: int, j: int)
    requires
        triangle_output(m, b),
        0 <= i < m.faces@.len(),
        0 <= j < 3,
    ensures
        b.positions@[3 * i + j] == m.vertices@[m.faces@[i].vertex_indices@[j] as int],
        (b.indices@[3 * i + j]) as int == 3 * i + j,
{
    assert((3 * i + j) / 3 == i && (3 * i + j) % 3 == j) by (nonlinear_arith)
        requires
            i >= 0 && 0 <= j < 3,
    ;
}

/// Law: face `i` contributes its three edges to wireframe-index slots
/// `6i .. 6i + 6`. Edge `e` runs from corner `e` to corner `(e + 1) % 3`,
/// and both endpoints reference the model's original vertex indices.
pub proof fn lemma_wireframe_edges(m: IndexedModel, b: MeshBuffers, i: int, e: int)
    requires
        wireframe_output(m, b),
        0 <= i < m.faces@.len(),
        0 <= e < 3,
    ensures
        (b.indices@[6 * i + 2 * e]) as int == m.faces@[i].vertex_indices@[e] as int,
        (b.indices@[6 * i + 2 * e + 1]) as int == m.faces@[i].vertex_indices@[(e + 1) % 3] as int,
{
    let k = 6 * i + 2 * e;
    assert(k / 6 == i && (k % 6) / 2 == e && k % 2 == 0) by (nonlinear_arith)
        requires
            i >= 0 && 0 <= e < 3 && k == 6 * i + 2 * e,
    ;
    assert((k + 1) / 6 == i && ((k + 1) % 6) / 2 == e && (k + 1) % 2 == 1) by (nonlinear_arith)
        requires
            i >= 0 && 0 <= e < 3 && k == 6 * i + 2 * e,
    ;
}

} // verus!
