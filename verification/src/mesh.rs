//! The output side of the conversion: renderable mesh buffers.

use vstd::prelude::*;

use crate::model::{Vec2, Vec3};

verus! {

/// How consecutive entries of the index buffer group into primitives:
/// three per triangle, or two per line segment.
#[derive(Clone, Copy, Debug, PartialEq, Eq)]
pub enum Topology {
    TriangleList,
    LineList,
}

/// A complete vertex-attribute set plus an index buffer.
///
/// `positions`, `normals` and `uvs` always have the same length (one entry
/// per emitted vertex), and every entry of `indices` references a position
/// by its place in `positions`; see [`MeshBuffers::well_formed`].
#[derive(Clone, Debug, PartialEq)]
pub struct MeshBuffers {
    pub positions: Vec<Vec3>,
    pub normals: Vec<Vec3>,
    pub uvs: Vec<Vec2>,
    pub indices: Vec<u32>,
    pub topology: Topology,
}

impl MeshBuffers {
    /// The attribute lists agree in length and every index is in bounds.
    pub open spec fn well_formed(self) -> bool {
        &&& self.normals@.len() == self.positions@.len()
        &&& self.uvs@.len() == self.positions@.len()
        &&& forall|k: int|
            0 <= k < self.indices@.len() ==> (#[trigger] self.indices@[k]) < self.positions@.len()
    }
}

} // verus!
