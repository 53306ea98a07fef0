//! The renderer and the GPU-side mesh handle.
//!
//! [`MeshRenderer`] holds a linked shader program's handle and the six
//! cached binding points the shader exposes; [`GpuMesh`] holds the
//! handles of one uploaded mesh.  Creating GPU resources, compiling
//! shaders and querying locations can only be done by the unverified
//! shell that owns the context; the shell reports the outcomes as
//! plain values, and the operations here make every decision — which
//! error to return, which commands to issue, in what order — with the
//! command sequences pinned exactly by their contracts.

use vstd::prelude::*;

use crate::commands::{CmdModel, GlCommand};
use crate::mesh::{
    face_stream_bytes, faces_to_bytes, vertex_stream_bytes, vertices_to_bytes, Mesh,
    NORMAL_COMPONENTS, NORMAL_OFFSET, POSITION_COMPONENTS, POSITION_OFFSET, UV_COMPONENTS,
    UV_OFFSET, VERTEX_STRIDE,
};

verus! {

/// An error string reported by the GPU context.
#[derive(Debug, PartialEq, Eq)]
pub struct GlError(pub String);

/// Why a mesh upload failed: the context could not allocate the
/// vertex array, the vertex buffer, or the element buffer.  Each
/// variant wraps the context's own error.
#[derive(Debug, PartialEq, Eq)]
pub enum UploadMeshError {
    Vao(GlError),
    Vbo(GlError),
    Ebo(GlError),
}

/// A vertex attribute the shader must declare.
#[derive(Clone, Copy, Debug, PartialEq, Eq, Structural)]
pub enum AttributeName {
    InVert,
    InUv,
    InNormal,
}

/// A uniform the shader must declare.
#[derive(Clone, Copy, Debug, PartialEq, Eq, Structural)]
pub enum UniformName {
    Model,
    View,
    LightDir,
    LightColor,
}

/// Why renderer construction failed.  Compilation and linking happen
/// in the shell, which wraps their outcomes in the first two
/// variants; the last two are decided here when a queried binding
/// point is absent from the linked program.
#[derive(Debug, PartialEq, Eq)]
pub enum RendererError {
    ShaderCompileFailed(GlError),
    ProgramLinkFailed(GlError),
    MissingAttribute(AttributeName),
    MissingUniform(UniformName),
}

/// How building the shader program went in the shell: either a
/// linked program handle, or the context's error from the stage that
/// failed.
#[derive(Debug)]
pub enum ShaderBuildReport {
    Linked(u32),
    CompileFailed(GlError),
    LinkFailed(GlError),
}

/// Turns the shell's shader-build report into the program handle or
/// the construction error it determines: a compilation failure is
/// fatal as [`RendererError::ShaderCompileFailed`], a link failure as
/// [`RendererError::ProgramLinkFailed`].
pub fn check_shader_build(report: ShaderBuildReport) -> (r: Result<u32, RendererError>)
    ensures
        report matches ShaderBuildReport::Linked(p) ==> r == Ok::<u32, RendererError>(p),
        report matches ShaderBuildReport::CompileFailed(e) ==> r == Err::<u32, RendererError>(
            RendererError::ShaderCompileFailed(e),
        ),
        report matches ShaderBuildReport::LinkFailed(e) ==> r == Err::<u32, RendererError>(
            RendererError::ProgramLinkFailed(e),
        ),
{
    match report {
        ShaderBuildReport::Linked(p) => Ok(p),
        ShaderBuildReport::CompileFailed(e) => Err(RendererError::ShaderCompileFailed(e)),
        ShaderBuildReport::LinkFailed(e) => Err(RendererError::ProgramLinkFailed(e)),
    }
}

/// What the shell reported back after linking the program and
/// querying each named attribute and uniform location: `None` where
/// the name was absent from the linked program.
#[derive(Clone, Copy, Debug)]
pub struct ProgramBindings {
    pub program: u32,
    pub in_vert: Option<u32>,
    pub in_uv: Option<u32>,
    pub in_normal: Option<u32>,
    pub model: Option<u32>,
    pub view: Option<u32>,
    pub light_dir: Option<u32>,
    pub light_color: Option<u32>,
}

impl ProgramBindings {
    /// Whether every queried binding point was present.
    pub open spec fn complete(self) -> bool {
        &&& self.in_vert is Some
        &&& self.in_uv is Some
        &&& self.in_normal is Some
        &&& self.model is Some
        &&& self.view is Some
        &&& self.light_dir is Some
        &&& self.light_color is Some
    }
}

/// A 4x4 transform, row-major in memory: sixteen IEEE-754 bit
/// patterns of 32-bit floats, `arr[4 * row + col]`.
#[derive(Clone, Copy, Debug, PartialEq)]
pub struct Transform {
    pub arr: [u32; 16],
}

/// One mesh uploaded to the GPU: the vertex-array binding, vertex
/// buffer and element buffer it owns, a non-owning texture handle,
/// and the number of indices a draw of it consumes.
#[derive(Debug)]
pub struct GpuMesh {
    pub vao: u32,
    pub vbo: u32,
    pub ebo: u32,
    pub tex: u32,
    pub num_elements: i32,
}

impl GpuMesh {
    /// The commands that release the mesh's owned resources, in
    /// order: vertex array, element buffer, vertex buffer.  The
    /// texture is not owned and no command deletes it.
    pub open spec fn drop_cmds(self) -> Seq<CmdModel> {
        seq![
            CmdModel::DeleteVertexArray(self.vao),
            CmdModel::DeleteBuffer(self.ebo),
            CmdModel::DeleteBuffer(self.vbo),
        ]
    }

    /// Commands to issue when the mesh is discarded: delete the
    /// vertex array, the element buffer and the vertex buffer, and
    /// nothing else — in particular, never the texture.
    pub fn drop_commands(&self) -> (r: Vec<GlCommand>)
        ensures
            r.deep_view() == self.drop_cmds(),
    {
        let mut out: Vec<GlCommand> = Vec::new();
        out.push(GlCommand::DeleteVertexArray(self.vao));
        out.push(GlCommand::DeleteBuffer(self.ebo));
        out.push(GlCommand::DeleteBuffer(self.vbo));
        proof {
            assert(out.deep_view() =~~= self.drop_cmds());
        }
        out
    }
}

/// The renderer: a linked shader program plus its three attribute
/// locations and four uniform locations.
#[derive(Clone, Copy, Debug)]
pub struct MeshRenderer {
    pub program: u32,
    pub vert_loc: u32,
    pub uv_loc: u32,
    pub norm_loc: u32,
    pub model_loc: u32,
    pub view_loc: u32,
    pub light_dir_loc: u32,
    pub light_color_loc: u32,
}

impl MeshRenderer {
    /// The renderer a complete set of bindings determines.
    pub open spec fn from_bindings(q: ProgramBindings) -> MeshRenderer {
        MeshRenderer {
            program: q.program,
            vert_loc: q.in_vert->Some_0,
            uv_loc: q.in_uv->Some_0,
            norm_loc: q.in_normal->Some_0,
            model_loc: q.model->Some_0,
            view_loc: q.view->Some_0,
            light_dir_loc: q.light_dir->Some_0,
            light_color_loc: q.light_color->Some_0,
        }
    }

    /// Builds the renderer from the shell's link-and-query report.
    ///
    /// Succeeds exactly when every binding point was present, and
    /// otherwise names the first absent one, in the fixed query
    /// order: the three attributes, then the four uniforms.
    pub fn new(q: ProgramBindings) -> (r: Result<MeshRenderer, RendererError>)
        ensures
            r is Ok <==> q.complete(),
            r matches Ok(m) ==> m == Self::from_bindings(q),
            q.in_vert is None ==> r == Err::<MeshRenderer, RendererError>(
                RendererError::MissingAttribute(AttributeName::InVert),
            ),
            q.in_vert is Some && q.in_uv is None ==> r == Err::<MeshRenderer, RendererError>(
                RendererError::MissingAttribute(AttributeName::InUv),
            ),
            q.in_vert is Some && q.in_uv is Some && q.in_normal is None ==> r == Err::<
                MeshRenderer,
                RendererError,
            >(RendererError::MissingAttribute(AttributeName::InNormal)),
            q.in_vert is Some && q.in_uv is Some && q.in_normal is Some && q.model is None ==> r
                == Err::<MeshRenderer, RendererError>(
                RendererError::MissingUniform(UniformName::Model),
            ),
            q.in_vert is Some && q.in_uv is Some && q.in_normal is Some && q.model is Some
                && q.view is None ==> r == Err::<MeshRenderer, RendererError>(
                RendererError::MissingUniform(UniformName::View),
            ),
            q.in_vert is Some && q.in_uv is Some && q.in_normal is Some && q.model is Some
                && q.view is Some && q.light_dir is None ==> r == Err::<
                MeshRenderer,
                RendererError,
            >(RendererError::MissingUniform(UniformName::LightDir)),
            q.in_vert is Some && q.in_uv is Some && q.in_normal is Some && q.model is Some
                && q.view is Some && q.light_dir is Some && q.light_color is None ==> r == Err::<
                MeshRenderer,
                RendererError,
            >(RendererError::MissingUniform(UniformName::LightColor)),
    {
        let vert_loc = match q.in_vert {
            Some(l) => l,
            None => {
                return Err(RendererError::MissingAttribute(AttributeName::InVert));
            },
        };
        let uv_loc = match q.in_uv {
            Some(l) => l,
            None => {
                return Err(RendererError::MissingAttribute(AttributeName::InUv));
            },
        };
        let norm_loc = match q.in_normal {
            Some(l) => l,
            None => {
                return Err(RendererError::MissingAttribute(AttributeName::InNormal));
            },
        };
        let model_loc = match q.model {
            Some(l) => l,
            None => {
                return Err(RendererError::MissingUniform(UniformName::Model));
            },
        };
        let view_loc = match q.view {
            Some(l) => l,
            None => {
                return Err(RendererError::MissingUniform(UniformName::View));
            },
        };
        let light_dir_loc = match q.light_dir {
            Some(l) => l,
            None => {
                return Err(RendererError::MissingUniform(UniformName::LightDir));
            },
        };
        let light_color_loc = match q.light_color {
            Some(l) => l,
            None => {
                return Err(RendererError::MissingUniform(UniformName::LightColor));
            },
        };
        Ok(
            MeshRenderer {
                program: q.program,
                vert_loc,
                uv_loc,
                norm_loc,
                model_loc,
                view_loc,
                light_dir_loc,
                light_color_loc,
            },
        )
    }

    /// The command sequence of a mesh upload, once the three
    /// resources exist: fill both buffers, configure the three
    /// interleaved attributes, and unbind everything that was bound.
    pub open spec fn upload_cmds(
        self,
        vao: u32,
        vbo: u32,
        ebo: u32,
        vbytes: Seq<u8>,
        ibytes: Seq<u8>,
    ) -> Seq<CmdModel> {
        seq![
            CmdModel::BindVertexArray(Some(vao)),
            CmdModel::BindArrayBuffer(Some(vbo)),
            CmdModel::ArrayBufferData(vbytes),
            CmdModel::BindElementArrayBuffer(Some(ebo)),
            CmdModel::ElementArrayBufferData(ibytes),
            CmdModel::VertexAttribPointer {
                location: self.vert_loc,
                components: POSITION_COMPONENTS,
                stride: VERTEX_STRIDE,
                byte_offset: POSITION_OFFSET,
            },
            CmdModel::EnableVertexAttribArray(0),
            CmdModel::VertexAttribPointer {
                location: self.uv_loc,
                components: UV_COMPONENTS,
                stride: VERTEX_STRIDE,
                byte_offset: UV_OFFSET,
            },
            CmdModel::EnableVertexAttribArray(1),
            CmdModel::VertexAttribPointer {
                location: self.norm_loc,
                components: NORMAL_COMPONENTS,
                stride: VERTEX_STRIDE,
                byte_offset: NORMAL_OFFSET,
            },
            CmdModel::EnableVertexAttribArray(2),
            CmdModel::BindVertexArray(None),
            CmdModel::BindElementArrayBuffer(None),
            CmdModel::BindArrayBuffer(None),
        ]
    }

    /// Uploads a mesh: builds the [`GpuMesh`] and the commands that
    /// copy its data to the GPU.
    ///
    /// The shell allocates the vertex array, vertex buffer and
    /// element buffer first (stopping at the first failure) and hands
    /// in the outcomes; the first failed allocation, in that order,
    /// decides the error.  On success the mesh records the three
    /// handles, the borrowed texture, and an element count of three
    /// indices per face, and the commands are exactly
    /// [`Self::upload_cmds`] over the mesh's byte images.
    pub fn upload_mesh(
        &self,
        mesh: &Mesh,
        tex: u32,
        vao: Result<u32, GlError>,
        vbo: Result<u32, GlError>,
        ebo: Result<u32, GlError>,
    ) -> (r: Result<(GpuMesh, Vec<GlCommand>), UploadMeshError>)
        requires
            mesh.wf(),
            mesh.element_count() <= i32::MAX,
        ensures
            r is Ok <==> (vao is Ok && vbo is Ok && ebo is Ok),
            vao is Err ==> r == Err::<(GpuMesh, Vec<GlCommand>), UploadMeshError>(
                UploadMeshError::Vao(vao->Err_0),
            ),
            vao is Ok && vbo is Err ==> r == Err::<(GpuMesh, Vec<GlCommand>), UploadMeshError>(
                UploadMeshError::Vbo(vbo->Err_0),
            ),
            vao is Ok && vbo is Ok && ebo is Err ==> r == Err::<
                (GpuMesh, Vec<GlCommand>),
                UploadMeshError,
            >(UploadMeshError::Ebo(ebo->Err_0)),
            r matches Ok((m, cmds)) ==> {
                &&& m.vao == vao->Ok_0
                &&& m.vbo == vbo->Ok_0
                &&& m.ebo == ebo->Ok_0
                &&& m.tex == tex
                &&& m.num_elements == mesh.element_count()
                &&& cmds.deep_view() == self.upload_cmds(
                    m.vao,
                    m.vbo,
                    m.ebo,
                    vertex_stream_bytes(mesh.vertices@),
                    face_stream_bytes(mesh.faces@),
                )
            },
    {
        let vao = match vao {
            Ok(v) => v,
            Err(e) => {
                return Err(UploadMeshError::Vao(e));
            },
        };
        let vbo = match vbo {
            Ok(v) => v,
            Err(e) => {
                return Err(UploadMeshError::Vbo(e));
            },
        };
        let ebo = match ebo {
            Ok(v) => v,
            Err(e) => {
                return Err(UploadMeshError::Ebo(e));
            },
        };

        let vbytes = vertices_to_bytes(&mesh.vertices);
        let ibytes = faces_to_bytes(&mesh.faces);

        let mut out: Vec<GlCommand> = Vec::new();
        out.push(GlCommand::BindVertexArray(Some(vao)));
        out.push(GlCommand::BindArrayBuffer(Some(vbo)));
        out.push(GlCommand::ArrayBufferData(vbytes));
        out.push(GlCommand::BindElementArrayBuffer(Some(ebo)));
        out.push(GlCommand::ElementArrayBufferData(ibytes));
        out.push(
            GlCommand::VertexAttribPointer {
                location: self.vert_loc,
                components: POSITION_COMPONENTS,
                stride: VERTEX_STRIDE,
                byte_offset: POSITION_OFFSET,
            },
        );
        out.push(GlCommand::EnableVertexAttribArray(0));
        out.push(
            GlCommand::VertexAttribPointer {
                location: self.uv_loc,
                components: UV_COMPONENTS,
                stride: VERTEX_STRIDE,
                byte_offset: UV_OFFSET,
            },
        );
        out.push(GlCommand::EnableVertexAttribArray(1));
        out.push(
            GlCommand::VertexAttribPointer {
                location: self.norm_loc,
                components: NORMAL_COMPONENTS,
                stride: VERTEX_STRIDE,
                byte_offset: NORMAL_OFFSET,
            },
        );
        out.push(GlCommand::EnableVertexAttribArray(2));
        out.push(GlCommand::BindVertexArray(None));
        out.push(GlCommand::BindElementArrayBuffer(None));
        out.push(GlCommand::BindArrayBuffer(None));

        let num_faces = mesh.faces.len();
        assert(3 * num_faces <= i32::MAX);
        let num_elements: i32 = (num_faces * 3) as i32;

        let gpu_mesh = GpuMesh { vao, vbo, ebo, tex, num_elements };
        proof {
            assert(out.deep_view() =~~= self.upload_cmds(
                vao,
                vbo,
                ebo,
                vertex_stream_bytes(mesh.vertices@),
                face_stream_bytes(mesh.faces@),
            ));
        }
        Ok((gpu_mesh, out))
    }

    /// The command sequence of a view-matrix update: bind the
    /// program, write the view uniform transposed, unbind.
    pub open spec fn set_view_cmds(self, words: Seq<u32>) -> Seq<CmdModel> {
        seq![
            CmdModel::UseProgram(Some(self.program)),
            CmdModel::UniformMat4 { location: self.view_loc, transpose: true, words },
            CmdModel::UseProgram(None),
        ]
    }

    /// Sets the camera's view matrix.
    ///
    /// The transform is row-major in CPU memory while the shader
    /// consumes column-major, so the uniform write carries the
    /// transpose flag.
    pub fn set_camera_transform(&self, transform: &Transform) -> (r: Vec<GlCommand>)
        ensures
            r.deep_view() == self.set_view_cmds(transform.arr@),
    {
        let mut out: Vec<GlCommand> = Vec::new();
        out.push(GlCommand::UseProgram(Some(self.program)));
        out.push(
            GlCommand::UniformMat4 {
                location: self.view_loc,
                transpose: true,
                words: transform.arr,
            },
        );
        out.push(GlCommand::UseProgram(None));
        proof {
            assert(out.deep_view() =~~= self.set_view_cmds(transform.arr@));
        }
        out
    }

    /// The command sequence of a light-direction update.
    pub open spec fn set_light_dir_cmds(self, x: u32, y: u32, z: u32) -> Seq<CmdModel> {
        seq![
            CmdModel::UseProgram(Some(self.program)),
            CmdModel::UniformVec3 { location: self.light_dir_loc, x, y, z },
            CmdModel::UseProgram(None),
        ]
    }

    /// Sets the directional light's direction.
    ///
    /// `dir` carries the bit patterns of an already normalized
    /// direction: normalizing is float arithmetic and is done by the
    /// caller before the components reach the core.  The three
    /// components are written to the uniform exactly as given.
    pub fn set_light_dir(&self, dir: &[u32; 3]) -> (r: Vec<GlCommand>)
        ensures
            r.deep_view() == self.set_light_dir_cmds(dir@[0], dir@[1], dir@[2]),
    {
        let mut out: Vec<GlCommand> = Vec::new();
        out.push(GlCommand::UseProgram(Some(self.program)));
        out.push(
            GlCommand::UniformVec3 {
                location: self.light_dir_loc,
                x: dir[0],
                y: dir[1],
                z: dir[2],
            },
        );
        out.push(GlCommand::UseProgram(None));
        proof {
            assert(out.deep_view() =~~= self.set_light_dir_cmds(dir@[0], dir@[1], dir@[2]));
        }
        out
    }

    /// The command sequence of a light-colour update.
    pub open spec fn set_light_color_cmds(self, x: u32, y: u32, z: u32) -> Seq<CmdModel> {
        seq![
            CmdModel::UseProgram(Some(self.program)),
            CmdModel::UniformVec3 { location: self.light_color_loc, x, y, z },
            CmdModel::UseProgram(None),
        ]
    }

    /// Sets the directional light's colour: the three components are
    /// written to the uniform exactly as given, with no scaling.
    pub fn set_light_color(&self, color: &[u32; 3]) -> (r: Vec<GlCommand>)
        ensures
            r.deep_view() == self.set_light_color_cmds(color@[0], color@[1], color@[2]),
    {
        let mut out: Vec<GlCommand> = Vec::new();
        out.push(GlCommand::UseProgram(Some(self.program)));
        out.push(
            GlCommand::UniformVec3 {
                location: self.light_color_loc,
                x: color[0],
                y: color[1],
                z: color[2],
            },
        );
        out.push(GlCommand::UseProgram(None));
        proof {
            assert(out.deep_view() =~~= self.set_light_color_cmds(
                color@[0],
                color@[1],
                color@[2],
            ));
        }
        out
    }

    /// The command sequence of one draw: bind program, vertex array
    /// and texture, write the model matrix transposed, issue one
    /// indexed draw of `index_count` indices, then unbind texture,
    /// vertex array and program.
    pub open spec fn render_cmds(
        self,
        vao: u32,
        tex: u32,
        index_count: i32,
        words: Seq<u32>,
    ) -> Seq<CmdModel> {
        seq![
            CmdModel::UseProgram(Some(self.program)),
            CmdModel::BindVertexArray(Some(vao)),
            CmdModel::ActiveTextureUnit0,
            CmdModel::BindTexture2d(Some(tex)),
            CmdModel::UniformMat4 { location: self.model_loc, transpose: true, words },
            CmdModel::DrawTriangles { index_count },
            CmdModel::BindTexture2d(None),
            CmdModel::BindVertexArray(None),
            CmdModel::UseProgram(None),
        ]
    }

    /// Draws one uploaded mesh with the given model transform: the
    /// draw consumes exactly the mesh's element count of 32-bit
    /// indices, and every binding made is unbound again afterwards.
    pub fn render(&self, mesh: &GpuMesh, transform: &Transform) -> (r: Vec<GlCommand>)
        ensures
            r.deep_view() == self.render_cmds(mesh.vao, mesh.tex, mesh.num_elements, transform.arr@),
    {
        let mut out: Vec<GlCommand> = Vec::new();
        out.push(GlCommand::UseProgram(Some(self.program)));
        out.push(GlCommand::BindVertexArray(Some(mesh.vao)));
        out.push(GlCommand::ActiveTextureUnit0);
        out.push(GlCommand::BindTexture2d(Some(mesh.tex)));
        out.push(
            GlCommand::UniformMat4 {
                location: self.model_loc,
                transpose: true,
                words: transform.arr,
            },
        );
        out.push(GlCommand::DrawTriangles { index_count: mesh.num_elements });
        out.push(GlCommand::BindTexture2d(None));
        out.push(GlCommand::BindVertexArray(None));
        out.push(GlCommand::UseProgram(None));
        proof {
            assert(out.deep_view() =~~= self.render_cmds(
                mesh.vao,
                mesh.tex,
                mesh.num_elements,
                transform.arr@,
            ));
        }
        out
    }
}

} // verus!
