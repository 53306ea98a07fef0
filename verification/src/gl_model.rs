//! A mathematical model of the GPU context's binding and resource
//! state.
//!
//! The context is a global state machine: commands bind and unbind a
//! program, a vertex array, the two buffer targets and the 2D texture
//! target, fill whichever buffer is bound, and delete resources.  The
//! model tracks exactly that, plus which resources are live, so the
//! laws in [`crate::laws`] can state what a command sequence does to
//! the context — in particular that every public operation leaves the
//! context's bindings as it found them and that nothing the core ever
//! issues deletes a texture.

use vstd::prelude::*;

use crate::commands::CmdModel;

verus! {

/// The modelled context state: the five binding points, the sets of
/// live resources, and the bytes last written to each live buffer.
pub ghost struct GlState {
    pub program: Option<u32>,
    pub vertex_array: Option<u32>,
    pub array_buffer: Option<u32>,
    pub element_array_buffer: Option<u32>,
    pub texture_2d: Option<u32>,
    pub live_vertex_arrays: Set<u32>,
    pub live_buffers: Set<u32>,
    pub live_textures: Set<u32>,
    pub buffer_data: Map<u32, Seq<u8>>,
}

impl GlState {
    /// Whether all five binding points are unbound.
    pub open spec fn clean(self) -> bool {
        &&& self.program is None
        &&& self.vertex_array is None
        &&& self.array_buffer is None
        &&& self.element_array_buffer is None
        &&& self.texture_2d is None
    }

}

/// The effect of one command on the context state.
///
/// Attribute configuration, uniform writes and draws touch per-object
/// state (vertex-array records, program uniforms, the frame buffer)
/// that this model does not track; on the modelled state they are
/// no-ops.  A buffer-data command with no buffer bound at its target
/// is a context error and changes nothing.  Deleting a resource
/// removes it from the live set and unbinds it where it was bound.
pub open spec fn step(s: GlState, c: CmdModel) -> GlState {
    match c {
        CmdModel::UseProgram(p) => GlState { program: p, ..s },
        CmdModel::BindVertexArray(v) => GlState { vertex_array: v, ..s },
        CmdModel::BindArrayBuffer(b) => GlState { array_buffer: b, ..s },
        CmdModel::BindElementArrayBuffer(b) => GlState { element_array_buffer: b, ..s },
        CmdModel::ArrayBufferData(d) => match s.array_buffer {
            Some(b) => GlState { buffer_data: s.buffer_data.insert(b, d), ..s },
            None => s,
        },
        CmdModel::ElementArrayBufferData(d) => match s.element_array_buffer {
            Some(b) => GlState { buffer_data: s.buffer_data.insert(b, d), ..s },
            None => s,
        },
        CmdModel::VertexAttribPointer { .. } => s,
        CmdModel::EnableVertexAttribArray(_) => s,
        CmdModel::UniformMat4 { .. } => s,
        CmdModel::UniformVec3 { .. } => s,
        CmdModel::ActiveTextureUnit0 => s,
        CmdModel::BindTexture2d(t) => GlState { texture_2d: t, ..s },
        CmdModel::DrawTriangles { .. } => s,
        CmdModel::DeleteVertexArray(v) => GlState {
            live_vertex_arrays: s.live_vertex_arrays.remove(v),
            vertex_array: if s.vertex_array == Some(v) { None } else { s.vertex_array },
            ..s
        },
        CmdModel::DeleteBuffer(b) => GlState {
            live_buffers: s.live_buffers.remove(b),
            buffer_data: s.buffer_data.remove(b),
            array_buffer: if s.array_buffer == Some(b) { None } else { s.array_buffer },
            element_array_buffer: if s.element_array_buffer == Some(b) {
                None
            } else {
                s.element_array_buffer
            },
            ..s
        },
    }
}

/// The state after issuing a whole command sequence, in order.
pub open spec fn run(s: GlState, cmds: Seq<CmdModel>) -> GlState
    decreases cmds.len(),
{
    if cmds.len() == 0 {
        s
    } else {
        step(run(s, cmds.drop_last()), cmds.last())
    }
}

/// Running a concatenation is running the two parts in order.
pub proof fn lemma_run_concat(s: GlState, a: Seq<CmdModel>, b: Seq<CmdModel>)
    ensures
        run(s, a + b) == run(run(s, a), b),
    decreases b.len(),
{
    if b.len() == 0 {
        assert(a + b =~= a);
    } else {
        lemma_run_concat(s, a, b.drop_last());
        assert((a + b).drop_last() =~= a + b.drop_last());
        assert((a + b).last() == b.last());
    }
}

/// No command ever touches the set of live textures: whatever the
/// core issues, every texture that was live stays live.
pub proof fn lemma_run_preserves_textures(s: GlState, cmds: Seq<CmdModel>)
    ensures
        run(s, cmds).live_textures == s.live_textures,
    decreases cmds.len(),
{
    if cmds.len() > 0 {
        lemma_run_preserves_textures(s, cmds.drop_last());
    }
}

} // verus!
