//! The laws of the core, proved against the context model.
//!
//! Each public operation's command sequence is pinned by its
//! contract; the lemmas here say what issuing those sequences does to
//! the modelled context state of [`crate::gl_model`]: every operation
//! leaves the binding points as it found them (a clean context stays
//! clean), matrix uniforms always travel with the transpose flag, a
//! draw consumes exactly the mesh's element count, and discarding a
//! mesh deletes exactly its own three resources and never a texture.

use vstd::prelude::*;

use crate::commands::CmdModel;
use crate::gl_model::{lemma_run_concat, lemma_run_preserves_textures, run, GlState};
use crate::mesh::{NORMAL_OFFSET, POSITION_OFFSET, UV_OFFSET, VERTEX_STRIDE};
use crate::renderer::{GpuMesh, MeshRenderer};

verus! {

/// Whether the command writes the program binding point.
pub open spec fn sets_program(c: CmdModel) -> bool {
    c is UseProgram
}

/// Whether the command can write the vertex-array binding point.
pub open spec fn sets_vertex_array(c: CmdModel) -> bool {
    c is BindVertexArray || c is DeleteVertexArray
}

/// Whether the command can write the array-buffer binding point.
pub open spec fn sets_array_buffer(c: CmdModel) -> bool {
    c is BindArrayBuffer || c is DeleteBuffer
}

/// Whether the command can write the element-buffer binding point.
pub open spec fn sets_element_array_buffer(c: CmdModel) -> bool {
    c is BindElementArrayBuffer || c is DeleteBuffer
}

/// Whether the command writes the 2D-texture binding point.
pub open spec fn sets_texture_2d(c: CmdModel) -> bool {
    c is BindTexture2d
}

/// A sequence free of program-binding commands leaves the program
/// binding alone.
proof fn lemma_program_untouched(s: GlState, cmds: Seq<CmdModel>)
    requires
        forall|i: int| 0 <= i < cmds.len() ==> !sets_program(#[trigger] cmds[i]),
    ensures
        run(s, cmds).program == s.program,
    decreases cmds.len(),
{
    if cmds.len() > 0 {
        lemma_program_untouched(s, cmds.drop_last());
    }
}

/// A sequence free of vertex-array commands leaves that binding alone.
proof fn lemma_vertex_array_untouched(s: GlState, cmds: Seq<CmdModel>)
    requires
        forall|i: int| 0 <= i < cmds.len() ==> !sets_vertex_array(#[trigger] cmds[i]),
    ensures
        run(s, cmds).vertex_array == s.vertex_array,
    decreases cmds.len(),
{
    if cmds.len() > 0 {
        lemma_vertex_array_untouched(s, cmds.drop_last());
    }
}

/// A sequence free of array-buffer commands leaves that binding alone.
proof fn lemma_array_buffer_untouched(s: GlState, cmds: Seq<CmdModel>)
    requires
        forall|i: int| 0 <= i < cmds.len() ==> !sets_array_buffer(#[trigger] cmds[i]),
    ensures
        run(s, cmds).array_buffer == s.array_buffer,
    decreases cmds.len(),
{
    if cmds.len() > 0 {
        lemma_array_buffer_untouched(s, cmds.drop_last());
    }
}

/// A sequence free of element-buffer commands leaves that binding alone.
proof fn lemma_element_array_buffer_untouched(s: GlState, cmds: Seq<CmdModel>)
    requires
        forall|i: int| 0 <= i < cmds.len() ==> !sets_element_array_buffer(#[trigger] cmds[i]),
    ensures
        run(s, cmds).element_array_buffer == s.element_array_buffer,
    decreases cmds.len(),
{
    if cmds.len() > 0 {
        lemma_element_array_buffer_untouched(s, cmds.drop_last());
    }
}

/// A sequence free of texture-binding commands leaves that binding alone.
proof fn lemma_texture_2d_untouched(s: GlState, cmds: Seq<CmdModel>)
    requires
        forall|i: int| 0 <= i < cmds.len() ==> !sets_texture_2d(#[trigger] cmds[i]),
    ensures
        run(s, cmds).texture_2d == s.texture_2d,
    decreases cmds.len(),
{
    if cmds.len() > 0 {
        lemma_texture_2d_untouched(s, cmds.drop_last());
    }
}

/// A sequence free of buffer-writing and buffer-deleting commands
/// leaves every buffer's contents alone.
proof fn lemma_buffer_data_untouched(s: GlState, cmds: Seq<CmdModel>)
    requires
        forall|i: int|
            0 <= i < cmds.len() ==> !(#[trigger] cmds[i] is ArrayBufferData
                || cmds[i] is ElementArrayBufferData || cmds[i] is DeleteBuffer),
    ensures
        run(s, cmds).buffer_data == s.buffer_data,
    decreases cmds.len(),
{
    if cmds.len() > 0 {
        lemma_buffer_data_untouched(s, cmds.drop_last());
    }
}

/// An upload writes the vertex byte image to the vertex buffer and
/// the face byte image to the element buffer, and touches no other
/// buffer's contents.
pub proof fn lemma_upload_fills_buffers(
    r: MeshRenderer,
    s: GlState,
    vao: u32,
    vbo: u32,
    ebo: u32,
    vbytes: Seq<u8>,
    ibytes: Seq<u8>,
)
    requires
        vbo != ebo,
    ensures
        run(s, r.upload_cmds(vao, vbo, ebo, vbytes, ibytes)).buffer_data == s.buffer_data.insert(
            vbo,
            vbytes,
        ).insert(ebo, ibytes),
{
    reveal_with_fuel(run, 6);
    let c14 = r.upload_cmds(vao, vbo, ebo, vbytes, ibytes);
    let head = seq![c14[0], c14[1], c14[2], c14[3], c14[4]];
    let tail = c14.subrange(5, 14);
    assert(c14 =~= head + tail);
    lemma_run_concat(s, head, tail);
    assert(head.drop_last() =~= seq![c14[0], c14[1], c14[2], c14[3]]);
    assert(head.drop_last().drop_last() =~= seq![c14[0], c14[1], c14[2]]);
    assert(head.drop_last().drop_last().drop_last() =~= seq![c14[0], c14[1]]);
    assert(head.drop_last().drop_last().drop_last().drop_last() =~= seq![c14[0]]);
    assert(seq![c14[0]].drop_last() =~= Seq::<CmdModel>::empty());
    assert(run(s, head).buffer_data == s.buffer_data.insert(vbo, vbytes).insert(ebo, ibytes));
    lemma_buffer_data_untouched(run(s, head), tail);
}

/// Binding neutrality of an upload: the commands unbind the vertex
/// array and both buffer targets before returning, and never touch
/// the program or texture bindings.
pub proof fn lemma_upload_binding_neutral(
    r: MeshRenderer,
    s: GlState,
    vao: u32,
    vbo: u32,
    ebo: u32,
    vbytes: Seq<u8>,
    ibytes: Seq<u8>,
)
    ensures
        run(s, r.upload_cmds(vao, vbo, ebo, vbytes, ibytes)).vertex_array is None,
        run(s, r.upload_cmds(vao, vbo, ebo, vbytes, ibytes)).array_buffer is None,
        run(s, r.upload_cmds(vao, vbo, ebo, vbytes, ibytes)).element_array_buffer is None,
        run(s, r.upload_cmds(vao, vbo, ebo, vbytes, ibytes)).program == s.program,
        run(s, r.upload_cmds(vao, vbo, ebo, vbytes, ibytes)).texture_2d == s.texture_2d,
{
    reveal_with_fuel(run, 4);
    let c14 = r.upload_cmds(vao, vbo, ebo, vbytes, ibytes);
    let c13 = c14.drop_last();
    let c12 = c13.drop_last();
    assert(c14.last() == CmdModel::BindArrayBuffer(None::<u32>));
    assert(c13.last() == CmdModel::BindElementArrayBuffer(None::<u32>));
    assert(c12.last() == CmdModel::BindVertexArray(None::<u32>));
    lemma_program_untouched(s, c14);
    lemma_texture_2d_untouched(s, c14);
}

/// Binding neutrality of a view-matrix update: the program ends
/// unbound and no other binding point is touched.
pub proof fn lemma_set_view_binding_neutral(r: MeshRenderer, s: GlState, words: Seq<u32>)
    ensures
        run(s, r.set_view_cmds(words)).program is None,
        run(s, r.set_view_cmds(words)).vertex_array == s.vertex_array,
        run(s, r.set_view_cmds(words)).array_buffer == s.array_buffer,
        run(s, r.set_view_cmds(words)).element_array_buffer == s.element_array_buffer,
        run(s, r.set_view_cmds(words)).texture_2d == s.texture_2d,
{
    let c = r.set_view_cmds(words);
    assert(c.last() == CmdModel::UseProgram(None::<u32>));
    lemma_vertex_array_untouched(s, c);
    lemma_array_buffer_untouched(s, c);
    lemma_element_array_buffer_untouched(s, c);
    lemma_texture_2d_untouched(s, c);
}

/// Binding neutrality of a light-direction update.
pub proof fn lemma_set_light_dir_binding_neutral(
    r: MeshRenderer,
    s: GlState,
    x: u32,
    y: u32,
    z: u32,
)
    ensures
        run(s, r.set_light_dir_cmds(x, y, z)).program is None,
        run(s, r.set_light_dir_cmds(x, y, z)).vertex_array == s.vertex_array,
        run(s, r.set_light_dir_cmds(x, y, z)).array_buffer == s.array_buffer,
        run(s, r.set_light_dir_cmds(x, y, z)).element_array_buffer == s.element_array_buffer,
        run(s, r.set_light_dir_cmds(x, y, z)).texture_2d == s.texture_2d,
{
    let c = r.set_light_dir_cmds(x, y, z);
    assert(c.last() == CmdModel::UseProgram(None::<u32>));
    lemma_vertex_array_untouched(s, c);
    lemma_array_buffer_untouched(s, c);
    lemma_element_array_buffer_untouched(s, c);
    lemma_texture_2d_untouched(s, c);
}

/// Binding neutrality of a light-colour update.
pub proof fn lemma_set_light_color_binding_neutral(
    r: MeshRenderer,
    s: GlState,
    x: u32,
    y: u32,
    z: u32,
)
    ensures
        run(s, r.set_light_color_cmds(x, y, z)).program is None,
        run(s, r.set_light_color_cmds(x, y, z)).vertex_array == s.vertex_array,
        run(s, r.set_light_color_cmds(x, y, z)).array_buffer == s.array_buffer,
        run(s, r.set_light_color_cmds(x, y, z)).element_array_buffer == s.element_array_buffer,
        run(s, r.set_light_color_cmds(x, y, z)).texture_2d == s.texture_2d,
{
    let c = r.set_light_color_cmds(x, y, z);
    assert(c.last() == CmdModel::UseProgram(None::<u32>));
    lemma_vertex_array_untouched(s, c);
    lemma_array_buffer_untouched(s, c);
    lemma_element_array_buffer_untouched(s, c);
    lemma_texture_2d_untouched(s, c);
}

/// Binding neutrality of a draw: program, vertex array and texture
/// are all unbound again when the commands finish, and the buffer
/// targets are never touched.
pub proof fn lemma_render_binding_neutral(
    r: MeshRenderer,
    s: GlState,
    vao: u32,
    tex: u32,
    index_count: i32,
    words: Seq<u32>,
)
    ensures
        run(s, r.render_cmds(vao, tex, index_count, words)).program is None,
        run(s, r.render_cmds(vao, tex, index_count, words)).vertex_array is None,
        run(s, r.render_cmds(vao, tex, index_count, words)).texture_2d is None,
        run(s, r.render_cmds(vao, tex, index_count, words)).array_buffer == s.array_buffer,
        run(s, r.render_cmds(vao, tex, index_count, words)).element_array_buffer
            == s.element_array_buffer,
{
    reveal_with_fuel(run, 4);
    let c9 = r.render_cmds(vao, tex, index_count, words);
    let c8 = c9.drop_last();
    let c7 = c8.drop_last();
    assert(c9.last() == CmdModel::UseProgram(None::<u32>));
    assert(c8.last() == CmdModel::BindVertexArray(None::<u32>));
    assert(c7.last() == CmdModel::BindTexture2d(None::<u32>));
    lemma_array_buffer_untouched(s, c9);
    lemma_element_array_buffer_untouched(s, c9);
}

/// What discarding a mesh does to the context: its vertex array and
/// its two buffers leave the live sets, the texture set and the
/// texture binding are untouched, and the program binding is
/// untouched.  Where one of the deleted resources was still bound,
/// the delete unbinds it; from a clean state every binding stays
/// clean.
pub proof fn lemma_drop_releases_own_resources(m: GpuMesh, s: GlState)
    ensures
        run(s, m.drop_cmds()).live_vertex_arrays == s.live_vertex_arrays.remove(m.vao),
        run(s, m.drop_cmds()).live_buffers == s.live_buffers.remove(m.ebo).remove(m.vbo),
        run(s, m.drop_cmds()).live_textures == s.live_textures,
        run(s, m.drop_cmds()).texture_2d == s.texture_2d,
        run(s, m.drop_cmds()).program == s.program,
        s.clean() ==> run(s, m.drop_cmds()).clean(),
{
    reveal_with_fuel(run, 4);
    let c3 = m.drop_cmds();
    let c2 = c3.drop_last();
    let c1 = c2.drop_last();
    assert(c3.last() == CmdModel::DeleteBuffer(m.vbo));
    assert(c2.last() == CmdModel::DeleteBuffer(m.ebo));
    assert(c1.last() == CmdModel::DeleteVertexArray(m.vao));
    lemma_program_untouched(s, c3);
    lemma_texture_2d_untouched(s, c3);
}

/// Binding neutrality, summarised: a context whose binding points are
/// all unbound is left that way by every operation of the core.
pub proof fn lemma_ops_preserve_clean_context(
    r: MeshRenderer,
    m: GpuMesh,
    s: GlState,
    vbytes: Seq<u8>,
    ibytes: Seq<u8>,
    words: Seq<u32>,
    x: u32,
    y: u32,
    z: u32,
)
    requires
        s.clean(),
    ensures
        run(s, r.upload_cmds(m.vao, m.vbo, m.ebo, vbytes, ibytes)).clean(),
        run(s, r.set_view_cmds(words)).clean(),
        run(s, r.set_light_dir_cmds(x, y, z)).clean(),
        run(s, r.set_light_color_cmds(x, y, z)).clean(),
        run(s, r.render_cmds(m.vao, m.tex, m.num_elements, words)).clean(),
        run(s, m.drop_cmds()).clean(),
{
    lemma_upload_binding_neutral(r, s, m.vao, m.vbo, m.ebo, vbytes, ibytes);
    lemma_set_view_binding_neutral(r, s, words);
    lemma_set_light_dir_binding_neutral(r, s, x, y, z);
    lemma_set_light_color_binding_neutral(r, s, x, y, z);
    lemma_render_binding_neutral(r, s, m.vao, m.tex, m.num_elements, words);
    lemma_drop_releases_own_resources(m, s);
}

/// A whole upload-then-draw session, from a clean context: the
/// context ends clean again, the mesh's byte images sit in its two
/// buffers, and every texture that was live before is live after.
pub proof fn lemma_upload_then_render(
    r: MeshRenderer,
    s: GlState,
    m: GpuMesh,
    vbytes: Seq<u8>,
    ibytes: Seq<u8>,
    words: Seq<u32>,
)
    requires
        s.clean(),
        m.vbo != m.ebo,
    ensures
        ({
            let t = run(
                run(s, r.upload_cmds(m.vao, m.vbo, m.ebo, vbytes, ibytes)),
                r.render_cmds(m.vao, m.tex, m.num_elements, words),
            );
            &&& t.clean()
            &&& t.buffer_data == s.buffer_data.insert(m.vbo, vbytes).insert(m.ebo, ibytes)
            &&& t.live_textures == s.live_textures
        }),
{
    let mid = run(s, r.upload_cmds(m.vao, m.vbo, m.ebo, vbytes, ibytes));
    lemma_upload_binding_neutral(r, s, m.vao, m.vbo, m.ebo, vbytes, ibytes);
    lemma_upload_fills_buffers(r, s, m.vao, m.vbo, m.ebo, vbytes, ibytes);
    lemma_render_binding_neutral(r, mid, m.vao, m.tex, m.num_elements, words);
    lemma_buffer_data_untouched(mid, r.render_cmds(m.vao, m.tex, m.num_elements, words));
    lemma_run_preserves_textures(s, r.upload_cmds(m.vao, m.vbo, m.ebo, vbytes, ibytes));
    lemma_run_preserves_textures(mid, r.render_cmds(m.vao, m.tex, m.num_elements, words));
}

/// Every matrix uniform the core ever writes travels with the
/// transpose flag set: the transforms are row-major in CPU memory and
/// the shader consumes them column-major.
pub proof fn lemma_matrix_uploads_transposed(
    r: MeshRenderer,
    vao: u32,
    tex: u32,
    index_count: i32,
    words: Seq<u32>,
)
    ensures
        forall|i: int|
            0 <= i < r.set_view_cmds(words).len()
                ==> (#[trigger] r.set_view_cmds(words)[i] matches CmdModel::UniformMat4 {
                transpose,
                ..
            } ==> transpose),
        forall|i: int|
            0 <= i < r.render_cmds(vao, tex, index_count, words).len() ==> (#[trigger] r.render_cmds(
                vao,
                tex,
                index_count,
                words,
            )[i] matches CmdModel::UniformMat4 { transpose, .. } ==> transpose),
{
}

/// A draw issues exactly one indexed draw call, and it consumes
/// exactly the element count the mesh was uploaded with.
pub proof fn lemma_render_single_exact_draw(
    r: MeshRenderer,
    vao: u32,
    tex: u32,
    index_count: i32,
    words: Seq<u32>,
)
    ensures
        r.render_cmds(vao, tex, index_count, words)[5] == (CmdModel::DrawTriangles {
            index_count,
        }),
        forall|i: int|
            0 <= i < r.render_cmds(vao, tex, index_count, words).len() && i != 5
                ==> !(#[trigger] r.render_cmds(vao, tex, index_count, words)[i]
                is DrawTriangles),
{
}

/// The stride invariant: the three attribute pointers an upload
/// configures all use the 36-byte vertex stride, with the position at
/// byte offset 0, the texture coordinates at 16 and the normal at 24,
/// reading 4, 2 and 3 float words respectively.
pub proof fn lemma_upload_attribute_layout(
    r: MeshRenderer,
    vao: u32,
    vbo: u32,
    ebo: u32,
    vbytes: Seq<u8>,
    ibytes: Seq<u8>,
)
    ensures
        r.upload_cmds(vao, vbo, ebo, vbytes, ibytes)[5] == (CmdModel::VertexAttribPointer {
            location: r.vert_loc,
            components: 4u32,
            stride: VERTEX_STRIDE,
            byte_offset: POSITION_OFFSET,
        }),
        r.upload_cmds(vao, vbo, ebo, vbytes, ibytes)[7] == (CmdModel::VertexAttribPointer {
            location: r.uv_loc,
            components: 2u32,
            stride: VERTEX_STRIDE,
            byte_offset: UV_OFFSET,
        }),
        r.upload_cmds(vao, vbo, ebo, vbytes, ibytes)[9] == (CmdModel::VertexAttribPointer {
            location: r.norm_loc,
            components: 3u32,
            stride: VERTEX_STRIDE,
            byte_offset: NORMAL_OFFSET,
        }),
        VERTEX_STRIDE == 36u32 && POSITION_OFFSET == 0u32 && UV_OFFSET == 16u32 && NORMAL_OFFSET
            == 24u32,
        forall|i: int|
            0 <= i < r.upload_cmds(vao, vbo, ebo, vbytes, ibytes).len()
                ==> (#[trigger] r.upload_cmds(vao, vbo, ebo, vbytes, ibytes)[i]
                matches CmdModel::VertexAttribPointer { stride, .. } ==> stride == VERTEX_STRIDE),
{
}

} // verus!
