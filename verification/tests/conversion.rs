use stl_mesh::convert::{
    convert_stl, stl_to_triangle_mesh, stl_to_wireframe_mesh, MeshError, WIRE_NORMAL_X,
};
use stl_mesh::mesh::Topology;
use stl_mesh::model::{Face, IndexedModel, Vec2, Vec3};

fn v3(x: f32, y: f32, z: f32) -> Vec3 {
    Vec3::new(x.to_bits(), y.to_bits(), z.to_bits())
}

fn one_face_model() -> IndexedModel {
    IndexedModel::new(
        vec![v3(0.0, 0.0, 0.0), v3(1.0, 0.0, 0.0), v3(0.0, 1.0, 0.0)],
        vec![Face::new([0, 1, 2], v3(0.0, 0.0, 1.0))],
    )
}

fn two_face_model() -> IndexedModel {
    IndexedModel::new(
        vec![
            v3(0.0, 0.0, 0.0),
            v3(1.0, 0.0, 0.0),
            v3(0.0, 1.0, 0.0),
            v3(1.0, 1.0, 0.0),
        ],
        vec![
            Face::new([0, 1, 2], v3(0.0, 0.0, 1.0)),
            Face::new([2, 1, 3], v3(0.0, 1.0, 0.0)),
        ],
    )
}

#[test]
fn triangle_single_face() {
    let model = one_face_model();
    let buffers = stl_to_triangle_mesh(&model).unwrap();
    assert_eq!(buffers.topology, Topology::TriangleList);
    assert_eq!(
        buffers.positions,
        vec![v3(0.0, 0.0, 0.0), v3(1.0, 0.0, 0.0), v3(0.0, 1.0, 0.0)]
    );
    assert_eq!(
        buffers.normals,
        vec![v3(0.0, 0.0, 1.0), v3(0.0, 0.0, 1.0), v3(0.0, 0.0, 1.0)]
    );
    assert_eq!(buffers.indices, vec![0, 1, 2]);
    assert_eq!(buffers.uvs, vec![Vec2::new(0, 0); 3]);
}

#[test]
fn wireframe_single_face() {
    let model = one_face_model();
    let buffers = stl_to_wireframe_mesh(&model).unwrap();
    assert_eq!(buffers.topology, Topology::LineList);
    assert_eq!(
        buffers.positions,
        vec![v3(0.0, 0.0, 0.0), v3(1.0, 0.0, 0.0), v3(0.0, 1.0, 0.0)]
    );
    assert_eq!(buffers.indices, vec![0, 1, 1, 2, 2, 0]);
    assert_eq!(buffers.normals, vec![v3(1.0, 0.0, 0.0); 3]);
    assert_eq!(buffers.uvs, vec![Vec2::new(0, 0); 3]);
}

#[test]
fn placeholder_bit_patterns_match_floats() {
    assert_eq!(WIRE_NORMAL_X, 1.0f32.to_bits());
    assert_eq!(0u32, 0.0f32.to_bits());
}

#[test]
fn empty_model_triangle() {
    let model = IndexedModel::new(vec![], vec![]);
    let buffers = stl_to_triangle_mesh(&model).unwrap();
    assert!(buffers.positions.is_empty());
    assert!(buffers.normals.is_empty());
    assert!(buffers.uvs.is_empty());
    assert!(buffers.indices.is_empty());
    assert_eq!(buffers.topology, Topology::TriangleList);
}

#[test]
fn empty_model_wireframe() {
    let model = IndexedModel::new(vec![], vec![]);
    let buffers = stl_to_wireframe_mesh(&model).unwrap();
    assert!(buffers.positions.is_empty());
    assert!(buffers.normals.is_empty());
    assert!(buffers.uvs.is_empty());
    assert!(buffers.indices.is_empty());
    assert_eq!(buffers.topology, Topology::LineList);
}

#[test]
fn malformed_triangle_reports_error() {
    let mut model = one_face_model();
    model.faces[0] = Face::new([0, 1, 3], v3(0.0, 0.0, 1.0));
    assert_eq!(
        stl_to_triangle_mesh(&model),
        Err(MeshError::MalformedInput)
    );
}

#[test]
fn malformed_wireframe_reports_error() {
    let mut model = one_face_model();
    model.faces[0] = Face::new([7, 1, 2], v3(0.0, 0.0, 1.0));
    assert_eq!(
        stl_to_wireframe_mesh(&model),
        Err(MeshError::MalformedInput)
    );
}

#[test]
fn malformed_convert_reports_error() {
    let mut model = two_face_model();
    model.faces[1] = Face::new([2, 4, 3], v3(0.0, 1.0, 0.0));
    assert_eq!(convert_stl(&model, true), Err(MeshError::MalformedInput));
}

#[test]
fn triangle_lengths_and_identity_indices() {
    let model = two_face_model();
    let buffers = stl_to_triangle_mesh(&model).unwrap();
    assert_eq!(buffers.positions.len(), 6);
    assert_eq!(buffers.normals.len(), 6);
    assert_eq!(buffers.uvs.len(), 6);
    assert_eq!(buffers.indices, vec![0, 1, 2, 3, 4, 5]);
}

#[test]
fn triangle_flat_normals_per_face() {
    let model = two_face_model();
    let buffers = stl_to_triangle_mesh(&model).unwrap();
    for slot in 0..3 {
        assert_eq!(buffers.normals[slot], v3(0.0, 0.0, 1.0));
    }
    for slot in 3..6 {
        assert_eq!(buffers.normals[slot], v3(0.0, 1.0, 0.0));
    }
}

#[test]
fn triangle_positions_follow_face_indices() {
    let model = two_face_model();
    let buffers = stl_to_triangle_mesh(&model).unwrap();
    assert_eq!(
        buffers.positions,
        vec![
            v3(0.0, 0.0, 0.0),
            v3(1.0, 0.0, 0.0),
            v3(0.0, 1.0, 0.0),
            v3(0.0, 1.0, 0.0),
            v3(1.0, 0.0, 0.0),
            v3(1.0, 1.0, 0.0),
        ]
    );
}

#[test]
fn wireframe_counts_and_bounds() {
    let model = two_face_model();
    let buffers = stl_to_wireframe_mesh(&model).unwrap();
    assert_eq!(buffers.positions.len(), 4);
    assert_eq!(buffers.normals.len(), 4);
    assert_eq!(buffers.uvs.len(), 4);
    assert_eq!(buffers.indices.len(), 12);
    for &index in &buffers.indices {
        assert!((index as usize) < 4);
    }
    assert_eq!(buffers.indices, vec![0, 1, 1, 2, 2, 0, 2, 1, 1, 3, 3, 2]);
}

#[test]
fn triangle_deterministic() {
    let model = two_face_model();
    let first = stl_to_triangle_mesh(&model).unwrap();
    let second = stl_to_triangle_mesh(&model).unwrap();
    assert_eq!(first, second);
}

#[test]
fn wireframe_deterministic() {
    let model = two_face_model();
    let first = stl_to_wireframe_mesh(&model).unwrap();
    let second = stl_to_wireframe_mesh(&model).unwrap();
    assert_eq!(first, second);
}

#[test]
fn convert_without_wireframe() {
    let model = two_face_model();
    let meshes = convert_stl(&model, false).unwrap();
    assert_eq!(meshes.mesh, stl_to_triangle_mesh(&model).unwrap());
    assert!(meshes.wireframe.is_none());
}

#[test]
fn convert_with_wireframe() {
    let model = two_face_model();
    let meshes = convert_stl(&model, true).unwrap();
    assert_eq!(meshes.mesh, stl_to_triangle_mesh(&model).unwrap());
    assert_eq!(
        meshes.wireframe,
        Some(stl_to_wireframe_mesh(&model).unwrap())
    );
}
