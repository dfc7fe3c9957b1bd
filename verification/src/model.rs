//! The input side of the conversion: vertices, faces, and the indexed model.

use vstd::prelude::*;

verus! {

/// A 3-component vector of opaque 32-bit scalar words.
///
/// The converter copies these words without interpreting them; callers put
/// the bit patterns of their single-precision coordinates here and get the
/// same bit patterns back in the output buffers.
#[derive(Clone, Copy, Debug, PartialEq, Eq)]
pub struct Vec3 {
    pub x: u32,
    pub y: u32,
    pub z: u32,
}

impl Vec3 {
    pub fn new(x: u32, y: u32, z: u32) -> (v: Vec3)
        ensures
            v == (Vec3 { x, y, z }),
    {
        Vec3 { x, y, z }
    }
}

/// A 2-component vector of opaque 32-bit scalar words, used for texture
/// coordinates.
#[derive(Clone, Copy, Debug, PartialEq, Eq)]
pub struct Vec2 {
    pub x: u32,
    pub y: u32,
}

impl Vec2 {
    pub fn new(x: u32, y: u32) -> (v: Vec2)
        ensures
            v == (Vec2 { x, y }),
    {
        Vec2 { x, y }
    }
}

/// One triangular face: three indices into the model's vertex list, and the
/// face's normal vector.
#[derive(Clone, Copy, Debug, PartialEq, Eq)]
pub struct Face {
    pub vertex_indices: [usize; 3],
    pub normal: Vec3,
}

impl Face {
    pub fn new(vertex_indices: [usize; 3], normal: Vec3) -> (f: Face)
        ensures
            f == (Face { vertex_indices, normal }),
    {
        Face { vertex_indices, normal }
    }
}

/// A parsed STL model: an ordered vertex list and an ordered face list.
///
/// A model is well formed ([`IndexedModel::valid`]) when every vertex index
/// of every face is within bounds of `vertices`. The builders detect a
/// violation and report it as an error rather than reading out of bounds.
#[derive(Clone, Debug, PartialEq)]
pub struct IndexedModel {
    pub vertices: Vec<Vec3>,
    pub faces: Vec<Face>,
}

impl IndexedModel {
    /// The face at position `i` references only in-bounds vertices.
    pub open spec fn face_in_bounds(self, i: int) -> bool {
        forall|j: int|
            0 <= j < 3 ==> (#[trigger] self.faces@[i].vertex_indices@[j]) < self.vertices@.len()
    }

    /// Every face references only in-bounds vertices.
    pub open spec fn valid(self) -> bool {
        forall|i: int| 0 <= i < self.faces@.len() ==> #[trigger] self.face_in_bounds(i)
    }

    pub fn new(vertices: Vec<Vec3>, faces: Vec<Face>) -> (m: IndexedModel)
        ensures
            m == (IndexedModel { vertices, faces }),
    {
        IndexedModel { vertices, faces }
    }
}

} // verus!
