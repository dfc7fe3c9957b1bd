//! Converter from an indexed STL triangle model to renderable mesh buffers.
//!
//! The input is an [`model::IndexedModel`]: a list of vertices and a list of
//! triangular faces, each face carrying a normal and three indices into the
//! vertex list. Two builders turn such a model into [`mesh::MeshBuffers`]:
//!
//! * [`convert::stl_to_triangle_mesh`] emits an unwelded triangle list with
//!   flat (per-face) normals, suitable for shaded rendering;
//! * [`convert::stl_to_wireframe_mesh`] emits a line list outlining every
//!   triangle's edges, reusing the original vertex list.
//!
//! Both builders are pure: the contracts below pin every element of every
//! output buffer down as a function of the input model, so two calls on the
//! same model produce identical buffers (see [`laws`]).
//!
//! The converter never interprets coordinate values; it only copies them.
//! Scalar components are therefore carried as opaque 32-bit words — callers
//! store the bit patterns of their single-precision coordinates and read the
//! same bit patterns back out of the produced buffers.

pub mod convert;
pub mod laws;
pub mod mesh;
pub mod model;
