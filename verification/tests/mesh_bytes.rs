use mesh_renderer::mesh::{
    check_mesh, faces_to_bytes, vertices_to_bytes, Face, Mesh, VertData, NORMAL_COMPONENTS,
    NORMAL_OFFSET, POSITION_COMPONENTS, POSITION_OFFSET, UV_COMPONENTS, UV_OFFSET, VERTEX_STRIDE,
};

fn vert(pos: [f32; 4], uv: [f32; 2], norm: [f32; 3]) -> VertData {
    VertData {
        pos_x: pos[0].to_bits(),
        pos_y: pos[1].to_bits(),
        pos_z: pos[2].to_bits(),
        pos_w: pos[3].to_bits(),
        u: uv[0].to_bits(),
        v: uv[1].to_bits(),
        norm_x: norm[0].to_bits(),
        norm_y: norm[1].to_bits(),
        norm_z: norm[2].to_bits(),
    }
}

#[test]
fn layout_constants() {
    assert_eq!(VERTEX_STRIDE, 36);
    assert_eq!(POSITION_OFFSET, 0);
    assert_eq!(UV_OFFSET, 16);
    assert_eq!(NORMAL_OFFSET, 24);
    assert_eq!(POSITION_COMPONENTS, 4);
    assert_eq!(UV_COMPONENTS, 2);
    assert_eq!(NORMAL_COMPONENTS, 3);
    // The attributes are tightly packed: each field is one 4-byte word.
    assert_eq!(POSITION_OFFSET + 4 * POSITION_COMPONENTS, UV_OFFSET);
    assert_eq!(UV_OFFSET + 4 * UV_COMPONENTS, NORMAL_OFFSET);
    assert_eq!(NORMAL_OFFSET + 4 * NORMAL_COMPONENTS, VERTEX_STRIDE);
}

#[test]
fn one_vertex_little_endian() {
    let v = VertData {
        pos_x: 0x0403_0201,
        pos_y: 0x0807_0605,
        pos_z: 0x0c0b_0a09,
        pos_w: 0x100f_0e0d,
        u: 0x1413_1211,
        v: 0x1817_1615,
        norm_x: 0x1c1b_1a19,
        norm_y: 0x201f_1e1d,
        norm_z: 0x2423_2221,
    };
    let bytes = vertices_to_bytes(&vec![v]);
    let expected: Vec<u8> = (1..=36).collect();
    assert_eq!(bytes, expected);
}

#[test]
fn vertex_attributes_at_their_offsets() {
    let v = vert([1.0, 2.0, 3.0, 4.0], [5.0, 6.0], [7.0, 8.0, 9.0]);
    let bytes = vertices_to_bytes(&vec![v]);
    assert_eq!(bytes.len(), 36);
    let pos: Vec<u8> = bytes[0..16].to_vec();
    let mut expected_pos = Vec::new();
    for f in [1.0f32, 2.0, 3.0, 4.0] {
        expected_pos.extend_from_slice(&f.to_bits().to_le_bytes());
    }
    assert_eq!(pos, expected_pos);
    let uv: Vec<u8> = bytes[16..24].to_vec();
    let mut expected_uv = Vec::new();
    for f in [5.0f32, 6.0] {
        expected_uv.extend_from_slice(&f.to_bits().to_le_bytes());
    }
    assert_eq!(uv, expected_uv);
    let norm: Vec<u8> = bytes[24..36].to_vec();
    let mut expected_norm = Vec::new();
    for f in [7.0f32, 8.0, 9.0] {
        expected_norm.extend_from_slice(&f.to_bits().to_le_bytes());
    }
    assert_eq!(norm, expected_norm);
}

#[test]
fn vertex_stream_is_tightly_packed() {
    let a = vert([1.0, 0.0, 0.0, 1.0], [0.0, 0.0], [0.0, 0.0, 1.0]);
    let b = vert([0.0, 1.0, 0.0, 1.0], [1.0, 0.0], [0.0, 0.0, 1.0]);
    let c = vert([0.0, 0.0, 1.0, 1.0], [0.0, 1.0], [0.0, 0.0, 1.0]);
    let bytes = vertices_to_bytes(&vec![a, b, c]);
    assert_eq!(bytes.len(), 3 * 36);
    assert_eq!(bytes[0..36], vertices_to_bytes(&vec![a])[..]);
    assert_eq!(bytes[36..72], vertices_to_bytes(&vec![b])[..]);
    assert_eq!(bytes[72..108], vertices_to_bytes(&vec![c])[..]);
}

#[test]
fn face_indices_little_endian() {
    let bytes = faces_to_bytes(&vec![Face { a: 0, b: 1, c: 2 }]);
    assert_eq!(bytes, vec![0, 0, 0, 0, 1, 0, 0, 0, 2, 0, 0, 0]);
}

#[test]
fn face_stream_is_tightly_packed() {
    let f0 = Face { a: 0, b: 1, c: 2 };
    let f1 = Face { a: 2, b: 1, c: 3 };
    let bytes = faces_to_bytes(&vec![f0, f1]);
    assert_eq!(bytes.len(), 24);
    assert_eq!(bytes[0..12], faces_to_bytes(&vec![f0])[..]);
    assert_eq!(bytes[12..24], faces_to_bytes(&vec![f1])[..]);
}

#[test]
fn check_mesh_accepts_a_valid_mesh() {
    let m = Mesh {
        vertices: vec![
            vert([0.0; 4], [0.0; 2], [0.0; 3]),
            vert([1.0; 4], [1.0; 2], [1.0; 3]),
            vert([2.0; 4], [0.5; 2], [0.0; 3]),
        ],
        faces: vec![Face { a: 0, b: 1, c: 2 }],
    };
    assert!(check_mesh(&m));
}

#[test]
fn check_mesh_rejects_empty_faces() {
    let m = Mesh {
        vertices: vec![vert([0.0; 4], [0.0; 2], [0.0; 3])],
        faces: vec![],
    };
    assert!(!check_mesh(&m));
}

#[test]
fn check_mesh_rejects_out_of_range_index() {
    let m = Mesh {
        vertices: vec![vert([0.0; 4], [0.0; 2], [0.0; 3])],
        faces: vec![Face { a: 0, b: 1, c: 0 }],
    };
    assert!(!check_mesh(&m));
}

#[test]
fn mesh_holds_its_parts() {
    let m = Mesh {
        vertices: vec![vert([0.0; 4], [0.0; 2], [0.0; 3])],
        faces: vec![Face { a: 0, b: 0, c: 0 }],
    };
    assert_eq!(m.vertices.len(), 1);
    assert_eq!(m.faces.len(), 1);
}
