use dark_city_engine::asset::{
    create_cube_mesh, create_plane_mesh, AssetManager, MeshData, FLOATS_PER_VERTEX,
};

fn floats(m: &MeshData) -> Vec<f32> {
    m.vertices.iter().map(|b| f32::from_bits(*b)).collect()
}

fn vertex(m: &MeshData, v: usize) -> Vec<f32> {
    floats(m)[v * FLOATS_PER_VERTEX..(v + 1) * FLOATS_PER_VERTEX].to_vec()
}

#[test]
fn cube_has_36_vertices_and_sequential_indices() {
    let cube = create_cube_mesh();
    assert_eq!(cube.vertices.len(), 36 * 8);
    assert_eq!(cube.indices, (0u32..36).collect::<Vec<u32>>());
}

#[test]
fn cube_first_face_is_minus_z() {
    let cube = create_cube_mesh();
    assert_eq!(vertex(&cube, 0), vec![-0.5, -0.5, -0.5, 0.0, 0.0, -1.0, 0.0, 0.0]);
    assert_eq!(vertex(&cube, 1), vec![0.5, -0.5, -0.5, 0.0, 0.0, -1.0, 0.0, 0.0]);
    assert_eq!(vertex(&cube, 5), vec![-0.5, -0.5, -0.5, 0.0, 0.0, -1.0, 0.0, 0.0]);
}

#[test]
fn cube_last_vertex_is_minus_y_face() {
    let cube = create_cube_mesh();
    // face -Y: corners 4, 5, 1, 1, 0, 4
    assert_eq!(vertex(&cube, 35), vec![-0.5, -0.5, 0.5, 0.0, -1.0, 0.0, 0.0, 0.0]);
    assert_eq!(vertex(&cube, 32), vec![0.5, -0.5, -0.5, 0.0, -1.0, 0.0, 0.0, 0.0]);
}

#[test]
fn cube_normals_point_outward() {
    let cube = create_cube_mesh();
    for v in 0..36 {
        let d = vertex(&cube, v);
        for axis in 0..3 {
            let n = d[3 + axis];
            if n != 0.0 {
                assert_eq!(d[axis], 0.5 * n);
            }
        }
        assert_eq!(&d[6..8], &[0.0, 0.0]);
    }
}

#[test]
fn plane_mesh_matches_layout() {
    let plane = create_plane_mesh();
    assert_eq!(plane.indices, vec![0, 1, 2, 0, 2, 3]);
    assert_eq!(plane.vertices.len(), 48);
    assert_eq!(vertex(&plane, 0), vec![-5.0, 0.0, -5.0, 0.0, 1.0, 0.0, 0.0, 0.0]);
    assert_eq!(vertex(&plane, 1), vec![5.0, 0.0, -5.0, 0.0, 1.0, 0.0, 1.0, 0.0]);
    assert_eq!(vertex(&plane, 2), vec![5.0, 0.0, 5.0, 0.0, 1.0, 0.0, 1.0, 1.0]);
    assert_eq!(vertex(&plane, 3), vec![-5.0, 0.0, -5.0, 0.0, 1.0, 0.0, 0.0, 0.0]);
    assert_eq!(vertex(&plane, 5), vec![-5.0, 0.0, 5.0, 0.0, 1.0, 0.0, 0.0, 1.0]);
}

#[test]
fn meshes_index_existing_vertices() {
    for m in [create_cube_mesh(), create_plane_mesh()] {
        assert_eq!(m.vertices.len() % 8, 0);
        assert_eq!(m.indices.len() % 3, 0);
        let count = (m.vertices.len() / 8) as u32;
        assert!(m.indices.iter().all(|i| *i < count));
    }
}

#[test]
fn new_manager_is_empty() {
    let m = AssetManager::new();
    assert_eq!(m.mesh_count(), 0);
    assert!(!m.has_mesh("cube"));
    assert!(m.get_mesh("cube").is_none());
}

#[test]
fn registered_mesh_reads_back() {
    let mut m = AssetManager::new();
    m.register_mesh("cube", create_cube_mesh());
    m.register_mesh("plane", create_plane_mesh());
    assert_eq!(m.mesh_count(), 2);
    assert!(m.has_mesh("cube"));
    assert!(m.has_mesh("plane"));
    assert!(!m.has_mesh("sphere"));
    assert_eq!(m.get_mesh("cube").unwrap().vertices.len(), 288);
    assert_eq!(m.get_mesh("plane").unwrap().indices, vec![0, 1, 2, 0, 2, 3]);
}

#[test]
fn registering_a_name_again_replaces_and_keeps_count() {
    let mut m = AssetManager::new();
    m.register_mesh("ground", create_cube_mesh());
    m.register_mesh("ground", create_plane_mesh());
    assert_eq!(m.mesh_count(), 1);
    assert_eq!(m.get_mesh("ground").unwrap().vertices.len(), 48);
}

#[test]
fn custom_mesh_round_trips() {
    let mut m = AssetManager::new();
    let tri = MeshData {
        vertices: [0.0f32, 1.0, 0.0, 0.0, 0.0, 1.0, 0.5, 1.0].iter().map(|f| f.to_bits()).collect(),
        indices: vec![0, 0, 0],
    };
    m.register_mesh("tri", tri.clone());
    let got = m.get_mesh("tri").unwrap();
    assert_eq!(got.vertices, tri.vertices);
    assert_eq!(floats(got)[6], 0.5);
}
