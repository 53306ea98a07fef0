use mesh_renderer::commands::GlCommand;
use mesh_renderer::mesh::{Face, Mesh, VertData};
use mesh_renderer::renderer::{
    check_shader_build, AttributeName, GlError, GpuMesh, MeshRenderer, ProgramBindings,
    RendererError, ShaderBuildReport, Transform, UniformName, UploadMeshError,
};

fn bindings() -> ProgramBindings {
    ProgramBindings {
        program: 7,
        in_vert: Some(0),
        in_uv: Some(1),
        in_normal: Some(2),
        model: Some(10),
        view: Some(11),
        light_dir: Some(12),
        light_color: Some(13),
    }
}

fn renderer() -> MeshRenderer {
    MeshRenderer::new(bindings()).unwrap()
}

fn vert(pos: [f32; 4], uv: [f32; 2], norm: [f32; 3]) -> VertData {
    VertData {
        pos_x: pos[0].to_bits(),
        pos_y: pos[1].to_bits(),
        pos_z: pos[2].to_bits(),
        pos_w: pos[3].to_bits(),
        u: uv[0].to_bits(),
        v: uv[1].to_bits(),
        norm_x: norm[0].to_bits(),
        norm_y: norm[1].to_bits(),
        norm_z: norm[2].to_bits(),
    }
}

fn one_triangle() -> Mesh {
    Mesh {
        vertices: vec![
            vert([0.0, 0.0, 0.0, 1.0], [0.0, 0.0], [0.0, 0.0, 1.0]),
            vert([1.0, 0.0, 0.0, 1.0], [1.0, 0.0], [0.0, 0.0, 1.0]),
            vert([0.0, 1.0, 0.0, 1.0], [0.0, 1.0], [0.0, 0.0, 1.0]),
        ],
        faces: vec![Face { a: 0, b: 1, c: 2 }],
    }
}

fn two_faces() -> Mesh {
    let mut m = one_triangle();
    m.vertices.push(vert([1.0, 1.0, 0.0, 1.0], [1.0, 1.0], [0.0, 0.0, 1.0]));
    m.faces.push(Face { a: 1, b: 3, c: 2 });
    m
}

fn identity() -> Transform {
    let mut arr = [0u32; 16];
    for i in 0..4 {
        arr[4 * i + i] = 1.0f32.to_bits();
    }
    Transform { arr }
}

fn upload(r: &MeshRenderer, mesh: &Mesh) -> (GpuMesh, Vec<GlCommand>) {
    r.upload_mesh(mesh, 99, Ok(20), Ok(21), Ok(22)).unwrap()
}

/// Replays a command sequence against the five binding points of an
/// initially clean context and returns their final state.
fn replay_bindings(
    cmds: &[GlCommand],
) -> (Option<u32>, Option<u32>, Option<u32>, Option<u32>, Option<u32>) {
    let mut program = None;
    let mut vao = None;
    let mut array = None;
    let mut element = None;
    let mut tex = None;
    for c in cmds {
        match c {
            GlCommand::UseProgram(p) => program = *p,
            GlCommand::BindVertexArray(v) => vao = *v,
            GlCommand::BindArrayBuffer(b) => array = *b,
            GlCommand::BindElementArrayBuffer(b) => element = *b,
            GlCommand::BindTexture2d(t) => tex = *t,
            GlCommand::DeleteVertexArray(v) => {
                if vao == Some(*v) {
                    vao = None;
                }
            }
            GlCommand::DeleteBuffer(b) => {
                if array == Some(*b) {
                    array = None;
                }
                if element == Some(*b) {
                    element = None;
                }
            }
            _ => {}
        }
    }
    (program, vao, array, element, tex)
}

fn assert_clean(cmds: &[GlCommand]) {
    assert_eq!(replay_bindings(cmds), (None, None, None, None, None));
}

#[test]
fn new_caches_all_binding_points() {
    let r = renderer();
    assert_eq!(r.program, 7);
    assert_eq!(r.vert_loc, 0);
    assert_eq!(r.uv_loc, 1);
    assert_eq!(r.norm_loc, 2);
    assert_eq!(r.model_loc, 10);
    assert_eq!(r.view_loc, 11);
    assert_eq!(r.light_dir_loc, 12);
    assert_eq!(r.light_color_loc, 13);
}

#[test]
fn new_reports_position_attribute_first() {
    let mut q = bindings();
    q.in_vert = None;
    q.in_uv = None;
    q.model = None;
    let err = MeshRenderer::new(q).unwrap_err();
    assert_eq!(err, RendererError::MissingAttribute(AttributeName::InVert));
}

#[test]
fn new_reports_first_missing_attribute() {
    let mut q = bindings();
    q.in_uv = None;
    q.light_color = None;
    let err = MeshRenderer::new(q).unwrap_err();
    assert_eq!(err, RendererError::MissingAttribute(AttributeName::InUv));
}

#[test]
fn new_reports_missing_uniform_after_attributes() {
    let mut q = bindings();
    q.light_dir = None;
    let err = MeshRenderer::new(q).unwrap_err();
    assert_eq!(err, RendererError::MissingUniform(UniformName::LightDir));
}

#[test]
fn shader_compile_failure_is_fatal() {
    let report = ShaderBuildReport::CompileFailed(GlError(String::from("syntax error")));
    let err = check_shader_build(report).unwrap_err();
    assert_eq!(
        err,
        RendererError::ShaderCompileFailed(GlError(String::from("syntax error")))
    );
}

#[test]
fn shader_link_failure_is_fatal() {
    let report = ShaderBuildReport::LinkFailed(GlError(String::from("no main")));
    let err = check_shader_build(report).unwrap_err();
    assert_eq!(
        err,
        RendererError::ProgramLinkFailed(GlError(String::from("no main")))
    );
}

#[test]
fn shader_build_success_keeps_program() {
    assert_eq!(check_shader_build(ShaderBuildReport::Linked(5)), Ok(5));
}

#[test]
fn upload_one_triangle_counts_three_elements() {
    let r = renderer();
    let (mesh, _cmds) = upload(&r, &one_triangle());
    assert_eq!(mesh.num_elements, 3);
    assert_eq!(mesh.vao, 20);
    assert_eq!(mesh.vbo, 21);
    assert_eq!(mesh.ebo, 22);
    assert_eq!(mesh.tex, 99);
}

#[test]
fn upload_configures_interleaved_attributes() {
    let r = renderer();
    let (_mesh, cmds) = upload(&r, &one_triangle());
    assert_eq!(cmds.len(), 14);
    assert_eq!(
        cmds[5],
        GlCommand::VertexAttribPointer {
            location: 0,
            components: 4,
            stride: 36,
            byte_offset: 0,
        }
    );
    assert_eq!(
        cmds[7],
        GlCommand::VertexAttribPointer {
            location: 1,
            components: 2,
            stride: 36,
            byte_offset: 16,
        }
    );
    assert_eq!(
        cmds[9],
        GlCommand::VertexAttribPointer {
            location: 2,
            components: 3,
            stride: 36,
            byte_offset: 24,
        }
    );
    assert_eq!(cmds[6], GlCommand::EnableVertexAttribArray(0));
    assert_eq!(cmds[8], GlCommand::EnableVertexAttribArray(1));
    assert_eq!(cmds[10], GlCommand::EnableVertexAttribArray(2));
}

#[test]
fn upload_copies_both_byte_ranges() {
    let r = renderer();
    let m = one_triangle();
    let (_mesh, cmds) = upload(&r, &m);
    match &cmds[2] {
        GlCommand::ArrayBufferData(bytes) => assert_eq!(bytes.len(), 3 * 36),
        other => panic!("expected vertex data upload, got {:?}", other),
    }
    match &cmds[4] {
        GlCommand::ElementArrayBufferData(bytes) => {
            assert_eq!(bytes, &vec![0u8, 0, 0, 0, 1, 0, 0, 0, 2, 0, 0, 0]);
        }
        other => panic!("expected index data upload, got {:?}", other),
    }
}

#[test]
fn upload_leaves_bindings_clean() {
    let r = renderer();
    let (_mesh, cmds) = upload(&r, &one_triangle());
    assert_clean(&cmds);
    assert_eq!(cmds[0], GlCommand::BindVertexArray(Some(20)));
    assert_eq!(cmds[1], GlCommand::BindArrayBuffer(Some(21)));
    assert_eq!(cmds[3], GlCommand::BindElementArrayBuffer(Some(22)));
    assert_eq!(cmds[11], GlCommand::BindVertexArray(None));
    assert_eq!(cmds[12], GlCommand::BindElementArrayBuffer(None));
    assert_eq!(cmds[13], GlCommand::BindArrayBuffer(None));
}

#[test]
fn upload_error_order_vao_first() {
    let r = renderer();
    let m = one_triangle();
    let err = r
        .upload_mesh(&m, 99, Err(GlError(String::from("oom"))), Err(GlError(String::from("x"))), Ok(3))
        .unwrap_err();
    assert_eq!(err, UploadMeshError::Vao(GlError(String::from("oom"))));
}

#[test]
fn upload_error_vbo_second() {
    let r = renderer();
    let m = one_triangle();
    let err = r
        .upload_mesh(&m, 99, Ok(1), Err(GlError(String::from("oom"))), Err(GlError(String::from("x"))))
        .unwrap_err();
    assert_eq!(err, UploadMeshError::Vbo(GlError(String::from("oom"))));
}

#[test]
fn upload_error_ebo_last() {
    let r = renderer();
    let m = one_triangle();
    let err = r
        .upload_mesh(&m, 99, Ok(1), Ok(2), Err(GlError(String::from("oom"))))
        .unwrap_err();
    assert_eq!(err, UploadMeshError::Ebo(GlError(String::from("oom"))));
}

#[test]
fn render_two_faces_draws_six_indices_once() {
    let r = renderer();
    let (mesh, _cmds) = upload(&r, &two_faces());
    assert_eq!(mesh.num_elements, 6);
    let cmds = r.render(&mesh, &identity());
    let draws: Vec<&GlCommand> = cmds
        .iter()
        .filter(|c| matches!(c, GlCommand::DrawTriangles { .. }))
        .collect();
    assert_eq!(draws.len(), 1);
    assert_eq!(*draws[0], GlCommand::DrawTriangles { index_count: 6 });
}

#[test]
fn render_leaves_bindings_clean() {
    let r = renderer();
    let (mesh, _cmds) = upload(&r, &one_triangle());
    let cmds = r.render(&mesh, &identity());
    assert_eq!(cmds.len(), 9);
    assert_eq!(cmds[0], GlCommand::UseProgram(Some(7)));
    assert_eq!(cmds[1], GlCommand::BindVertexArray(Some(20)));
    assert_eq!(cmds[2], GlCommand::ActiveTextureUnit0);
    assert_eq!(cmds[3], GlCommand::BindTexture2d(Some(99)));
    assert_clean(&cmds);
}

#[test]
fn camera_transform_uploads_transposed() {
    let r = renderer();
    let mut t = identity();
    // Translation along x in row-major order: row 0, column 3.
    t.arr[3] = 5.0f32.to_bits();
    let cmds = r.set_camera_transform(&t);
    assert_eq!(cmds.len(), 3);
    assert_eq!(cmds[0], GlCommand::UseProgram(Some(7)));
    assert_eq!(cmds[2], GlCommand::UseProgram(None));
    match &cmds[1] {
        GlCommand::UniformMat4 { location, transpose, words } => {
            assert_eq!(*location, 11);
            assert!(*transpose);
            assert_eq!(*words, t.arr);
            assert_eq!(words[3], 5.0f32.to_bits());
        }
        other => panic!("expected view-matrix upload, got {:?}", other),
    }
    assert_clean(&cmds);
}

#[test]
fn model_matrix_uploads_transposed() {
    let r = renderer();
    let (mesh, _cmds) = upload(&r, &one_triangle());
    let cmds = r.render(&mesh, &identity());
    match &cmds[4] {
        GlCommand::UniformMat4 { location, transpose, words } => {
            assert_eq!(*location, 10);
            assert!(*transpose);
            assert_eq!(*words, identity().arr);
        }
        other => panic!("expected model-matrix upload, got {:?}", other),
    }
}

#[test]
fn light_dir_unit_vector_reaches_shader() {
    let r = renderer();
    // The caller normalizes: a direction along x of any magnitude
    // becomes the unit x vector before its bits reach the core.
    let dir = [2.5f32, 0.0, 0.0];
    let mag = (dir[0] * dir[0] + dir[1] * dir[1] + dir[2] * dir[2]).sqrt();
    let n = [dir[0] / mag, dir[1] / mag, dir[2] / mag];
    let cmds = r.set_light_dir(&[n[0].to_bits(), n[1].to_bits(), n[2].to_bits()]);
    assert_eq!(cmds.len(), 3);
    assert_eq!(
        cmds[1],
        GlCommand::UniformVec3 {
            location: 12,
            x: 1.0f32.to_bits(),
            y: 0.0f32.to_bits(),
            z: 0.0f32.to_bits(),
        }
    );
    assert_clean(&cmds);
}

#[test]
fn light_color_passes_through_unscaled() {
    let r = renderer();
    let cmds = r.set_light_color(&[0.1f32.to_bits(), 0.2f32.to_bits(), 0.3f32.to_bits()]);
    assert_eq!(cmds.len(), 3);
    assert_eq!(
        cmds[1],
        GlCommand::UniformVec3 {
            location: 13,
            x: 0.1f32.to_bits(),
            y: 0.2f32.to_bits(),
            z: 0.3f32.to_bits(),
        }
    );
    assert_clean(&cmds);
}

#[test]
fn drop_commands_delete_exactly_own_resources() {
    let r = renderer();
    let (mesh, _cmds) = upload(&r, &one_triangle());
    let cmds = mesh.drop_commands();
    assert_eq!(
        cmds,
        vec![
            GlCommand::DeleteVertexArray(20),
            GlCommand::DeleteBuffer(22),
            GlCommand::DeleteBuffer(21),
        ]
    );
    // No command touches a texture in any way.
    for c in &cmds {
        assert!(!matches!(c, GlCommand::BindTexture2d(_)));
        assert!(!matches!(c, GlCommand::ActiveTextureUnit0));
    }
}
