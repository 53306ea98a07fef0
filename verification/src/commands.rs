//! The GPU command vocabulary.
//!
//! Every public operation of the core returns a `Vec<GlCommand>`: the
//! exact calls, in order, that an unverified shell must issue against
//! the GPU context.  The commands carry only plain values — handles as
//! `u32`, float data as IEEE-754 bit patterns — so the contracts can
//! pin each one down completely.  [`CmdModel`] is the mathematical
//! image of a command used by the contracts and by the state model in
//! [`crate::gl_model`].

use vstd::prelude::*;

verus! {

/// One call against the GPU context.
///
/// Buffer data commands write to the buffer currently bound at the
/// matching target, with a static-usage hint (written once, read many
/// times).  `VertexAttribPointer` configures a float-typed, non
/// normalized attribute sourcing from the currently bound array
/// buffer.  `DrawTriangles` is an indexed triangle draw with 32-bit
/// unsigned indices starting at byte offset zero.
#[derive(Debug, PartialEq)]
pub enum GlCommand {
    UseProgram(Option<u32>),
    BindVertexArray(Option<u32>),
    BindArrayBuffer(Option<u32>),
    BindElementArrayBuffer(Option<u32>),
    ArrayBufferData(Vec<u8>),
    ElementArrayBufferData(Vec<u8>),
    VertexAttribPointer { location: u32, components: u32, stride: u32, byte_offset: u32 },
    EnableVertexAttribArray(u32),
    UniformMat4 { location: u32, transpose: bool, words: [u32; 16] },
    UniformVec3 { location: u32, x: u32, y: u32, z: u32 },
    ActiveTextureUnit0,
    BindTexture2d(Option<u32>),
    DrawTriangles { index_count: i32 },
    DeleteVertexArray(u32),
    DeleteBuffer(u32),
}

/// The mathematical image of one [`GlCommand`]: byte and word
/// payloads become sequences, everything else is carried unchanged.
pub ghost enum CmdModel {
    UseProgram(Option<u32>),
    BindVertexArray(Option<u32>),
    BindArrayBuffer(Option<u32>),
    BindElementArrayBuffer(Option<u32>),
    ArrayBufferData(Seq<u8>),
    ElementArrayBufferData(Seq<u8>),
    VertexAttribPointer { location: u32, components: u32, stride: u32, byte_offset: u32 },
    EnableVertexAttribArray(u32),
    UniformMat4 { location: u32, transpose: bool, words: Seq<u32> },
    UniformVec3 { location: u32, x: u32, y: u32, z: u32 },
    ActiveTextureUnit0,
    BindTexture2d(Option<u32>),
    DrawTriangles { index_count: i32 },
    DeleteVertexArray(u32),
    DeleteBuffer(u32),
}

impl View for GlCommand {
    type V = CmdModel;

    open spec fn view(&self) -> CmdModel {
        match self {
            GlCommand::UseProgram(p) => CmdModel::UseProgram(*p),
            GlCommand::BindVertexArray(v) => CmdModel::BindVertexArray(*v),
            GlCommand::BindArrayBuffer(b) => CmdModel::BindArrayBuffer(*b),
            GlCommand::BindElementArrayBuffer(b) => CmdModel::BindElementArrayBuffer(*b),
            GlCommand::ArrayBufferData(d) => CmdModel::ArrayBufferData(d@),
            GlCommand::ElementArrayBufferData(d) => CmdModel::ElementArrayBufferData(d@),
            GlCommand::VertexAttribPointer { location, components, stride, byte_offset } =>
                CmdModel::VertexAttribPointer {
                    location: *location,
                    components: *components,
                    stride: *stride,
                    byte_offset: *byte_offset,
                },
            GlCommand::EnableVertexAttribArray(i) => CmdModel::EnableVertexAttribArray(*i),
            GlCommand::UniformMat4 { location, transpose, words } =>
                CmdModel::UniformMat4 {
                    location: *location,
                    transpose: *transpose,
                    words: words@,
                },
            GlCommand::UniformVec3 { location, x, y, z } =>
                CmdModel::UniformVec3 { location: *location, x: *x, y: *y, z: *z },
            GlCommand::ActiveTextureUnit0 => CmdModel::ActiveTextureUnit0,
            GlCommand::BindTexture2d(t) => CmdModel::BindTexture2d(*t),
            GlCommand::DrawTriangles { index_count } =>
                CmdModel::DrawTriangles { index_count: *index_count },
            GlCommand::DeleteVertexArray(v) => CmdModel::DeleteVertexArray(*v),
            GlCommand::DeleteBuffer(b) => CmdModel::DeleteBuffer(*b),
        }
    }
}

impl DeepView for GlCommand {
    type V = CmdModel;

    open spec fn deep_view(&self) -> CmdModel {
        self.view()
    }
}

} // verus!
