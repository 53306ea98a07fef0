//! CPU-side mesh data and its on-the-wire byte layout.
//!
//! A vertex is nine 32-bit words: four for position, two for texture
//! coordinates, three for the normal.  Each word is the IEEE-754 bit
//! pattern of one single-precision float; the core never does float
//! arithmetic on them, it only lays them out.  A vertex occupies 36
//! tightly packed bytes, each word written little-endian.  A face is a
//! triangle: three 32-bit unsigned indices into the vertex sequence,
//! 12 bytes on the wire.

use vstd::prelude::*;

verus! {

/// Byte distance between consecutive vertex records in the vertex buffer.
pub const VERTEX_STRIDE: u32 = 36;

/// Byte offset of the position words within a vertex record.
pub const POSITION_OFFSET: u32 = 0;

/// Byte offset of the texture-coordinate words within a vertex record.
pub const UV_OFFSET: u32 = 16;

/// Byte offset of the normal words within a vertex record.
pub const NORMAL_OFFSET: u32 = 24;

/// Number of 32-bit words in the position attribute.
pub const POSITION_COMPONENTS: u32 = 4;

/// Number of 32-bit words in the texture-coordinate attribute.
pub const UV_COMPONENTS: u32 = 2;

/// Number of 32-bit words in the normal attribute.
pub const NORMAL_COMPONENTS: u32 = 3;

/// One vertex: position (x, y, z, w), texture coordinates (u, v) and
/// normal (x, y, z), each field the bit pattern of a 32-bit float.
#[derive(Clone, Copy, Debug, PartialEq, Eq, Structural)]
pub struct VertData {
    pub pos_x: u32,
    pub pos_y: u32,
    pub pos_z: u32,
    pub pos_w: u32,
    pub u: u32,
    pub v: u32,
    pub norm_x: u32,
    pub norm_y: u32,
    pub norm_z: u32,
}

/// One triangle: an ordered triple of indices into the vertex sequence.
#[derive(Clone, Copy, Debug, PartialEq, Eq, Structural)]
pub struct Face {
    pub a: u32,
    pub b: u32,
    pub c: u32,
}

/// A CPU-side triangle mesh: vertices plus faces that index into them.
#[derive(Debug)]
pub struct Mesh {
    pub vertices: Vec<VertData>,
    pub faces: Vec<Face>,
}

impl VertData {
    /// The nine words of the record, in interleaved attribute order.
    pub open spec fn words(self) -> Seq<u32> {
        seq![
            self.pos_x, self.pos_y, self.pos_z, self.pos_w,
            self.u, self.v,
            self.norm_x, self.norm_y, self.norm_z,
        ]
    }
}

impl Face {
    /// The three indices of the triangle, in order.
    pub open spec fn indices(self) -> Seq<u32> {
        seq![self.a, self.b, self.c]
    }

    /// Whether every index of the face points into a vertex sequence
    /// of length `n`.
    pub open spec fn in_bounds(self, n: nat) -> bool {
        self.a < n && self.b < n && self.c < n
    }
}

impl Mesh {
    /// The invariant required at upload: the face sequence is
    /// non-empty and every index of every face is a valid position in
    /// the vertex sequence.
    pub open spec fn wf(self) -> bool {
        &&& self.faces@.len() > 0
        &&& forall|i: int| 0 <= i < self.faces@.len()
                ==> #[trigger] self.faces@[i].in_bounds(self.vertices@.len())
    }

    /// Number of indices an indexed draw of this mesh consumes: three
    /// per face.
    pub open spec fn element_count(self) -> int {
        3 * self.faces@.len() as int
    }
}

/// The four bytes of one 32-bit word, least significant first.
pub open spec fn word_le_bytes(w: u32) -> Seq<u8> {
    seq![
        (w & 0xff) as u8,
        ((w >> 8) & 0xff) as u8,
        ((w >> 16) & 0xff) as u8,
        ((w >> 24) & 0xff) as u8,
    ]
}

/// The bytes of a sequence of words, each written little-endian.
pub open spec fn words_le_bytes(ws: Seq<u32>) -> Seq<u8>
    decreases ws.len(),
{
    if ws.len() == 0 {
        Seq::empty()
    } else {
        words_le_bytes(ws.drop_last()) + word_le_bytes(ws.last())
    }
}

/// The 36 bytes of one vertex record.
pub open spec fn vertex_bytes(v: VertData) -> Seq<u8> {
    words_le_bytes(v.words())
}

/// The byte image of the whole vertex sequence: one 36-byte record per
/// vertex, in order, tightly packed.
pub open spec fn vertex_stream_bytes(vs: Seq<VertData>) -> Seq<u8>
    decreases vs.len(),
{
    if vs.len() == 0 {
        Seq::empty()
    } else {
        vertex_stream_bytes(vs.drop_last()) + vertex_bytes(vs.last())
    }
}

/// The 12 bytes of one face record.
pub open spec fn face_bytes(f: Face) -> Seq<u8> {
    words_le_bytes(f.indices())
}

/// The byte image of the whole face sequence: one 12-byte record per
/// face, in order, tightly packed.
pub open spec fn face_stream_bytes(fs: Seq<Face>) -> Seq<u8>
    decreases fs.len(),
{
    if fs.len() == 0 {
        Seq::empty()
    } else {
        face_stream_bytes(fs.drop_last()) + face_bytes(fs.last())
    }
}

/// Decides whether a mesh may be uploaded: the face sequence is
/// non-empty, every index points at a vertex, and the element count
/// fits a 32-bit signed integer.
pub fn check_mesh(mesh: &Mesh) -> (r: bool)
    ensures
        r <==> (mesh.wf() && mesh.element_count() <= i32::MAX),
{
    if mesh.faces.len() == 0 {
        return false;
    }
    let max_faces: usize = (i32::MAX as usize) / 3;
    if mesh.faces.len() > max_faces {
        return false;
    }
    let n = mesh.vertices.len();
    let mut i: usize = 0;
    while i < mesh.faces.len()
        invariant
            i <= mesh.faces@.len(),
            n == mesh.vertices@.len(),
            forall|j: int|
                0 <= j < i ==> #[trigger] mesh.faces@[j].in_bounds(mesh.vertices@.len()),
        decreases mesh.faces@.len() - i,
    {
        let f = mesh.faces[i];
        if f.a as usize >= n || f.b as usize >= n || f.c as usize >= n {
            assert(!mesh.faces@[i as int].in_bounds(mesh.vertices@.len()));
            return false;
        }
        i = i + 1;
    }
    true
}

/// Each word contributes four bytes.
pub proof fn lemma_words_le_bytes_len(ws: Seq<u32>)
    ensures
        words_le_bytes(ws).len() == 4 * ws.len(),
    decreases ws.len(),
{
    if ws.len() > 0 {
        lemma_words_le_bytes_len(ws.drop_last());
    }
}

/// Each vertex record occupies exactly one stride of bytes.
pub proof fn lemma_vertex_bytes_len(v: VertData)
    ensures
        vertex_bytes(v).len() == VERTEX_STRIDE as int,
{
    lemma_words_le_bytes_len(v.words());
}

/// The vertex stream is tightly packed: one stride per vertex.
pub proof fn lemma_vertex_stream_len(vs: Seq<VertData>)
    ensures
        vertex_stream_bytes(vs).len() == VERTEX_STRIDE as int * vs.len(),
    decreases vs.len(),
{
    if vs.len() > 0 {
        lemma_vertex_stream_len(vs.drop_last());
        lemma_vertex_bytes_len(vs.last());
    }
}

/// The face stream is tightly packed: twelve bytes per face.
pub proof fn lemma_face_stream_len(fs: Seq<Face>)
    ensures
        face_stream_bytes(fs).len() == 12 * fs.len(),
    decreases fs.len(),
{
    if fs.len() > 0 {
        lemma_face_stream_len(fs.drop_last());
        lemma_words_le_bytes_len(fs.last().indices());
    }
}

/// The stride invariant on the data itself: vertex `i`'s record
/// stands at byte offset `36 * i` of the vertex stream.
pub proof fn lemma_vertex_stream_record(vs: Seq<VertData>, i: int)
    requires
        0 <= i < vs.len(),
    ensures
        vertex_stream_bytes(vs).subrange(
            VERTEX_STRIDE as int * i,
            VERTEX_STRIDE as int * (i + 1),
        ) == vertex_bytes(vs[i]),
    decreases vs.len(),
{
    lemma_vertex_stream_len(vs.drop_last());
    lemma_vertex_bytes_len(vs.last());
    if i == vs.len() - 1 {
        assert(vertex_stream_bytes(vs).subrange(
            VERTEX_STRIDE as int * i,
            VERTEX_STRIDE as int * (i + 1),
        ) =~= vertex_bytes(vs[i]));
    } else {
        lemma_vertex_stream_record(vs.drop_last(), i);
        assert(vertex_stream_bytes(vs).subrange(
            VERTEX_STRIDE as int * i,
            VERTEX_STRIDE as int * (i + 1),
        ) =~= vertex_stream_bytes(vs.drop_last()).subrange(
            VERTEX_STRIDE as int * i,
            VERTEX_STRIDE as int * (i + 1),
        ));
    }
}

/// Within one vertex record the attributes stand at the fixed byte
/// offsets the attribute pointers use: position at 0, texture
/// coordinates at 16, normal at 24.
pub proof fn lemma_vertex_record_layout(v: VertData)
    ensures
        vertex_bytes(v).len() == VERTEX_STRIDE as int,
        vertex_bytes(v).subrange(POSITION_OFFSET as int, UV_OFFSET as int) == words_le_bytes(
            seq![v.pos_x, v.pos_y, v.pos_z, v.pos_w],
        ),
        vertex_bytes(v).subrange(UV_OFFSET as int, NORMAL_OFFSET as int) == words_le_bytes(
            seq![v.u, v.v],
        ),
        vertex_bytes(v).subrange(NORMAL_OFFSET as int, VERTEX_STRIDE as int) == words_le_bytes(
            seq![v.norm_x, v.norm_y, v.norm_z],
        ),
{
    lemma_vertex_bytes_len(v);
    lemma_words_le_bytes_unfold(v.words());
    assert(words_le_bytes(seq![v.pos_x, v.pos_y, v.pos_z, v.pos_w]) =~= word_le_bytes(v.pos_x)
        + word_le_bytes(v.pos_y) + word_le_bytes(v.pos_z) + word_le_bytes(v.pos_w)) by {
        reveal_with_fuel(words_le_bytes, 5);
    }
    assert(words_le_bytes(seq![v.u, v.v]) =~= word_le_bytes(v.u) + word_le_bytes(v.v)) by {
        reveal_with_fuel(words_le_bytes, 3);
    }
    assert(words_le_bytes(seq![v.norm_x, v.norm_y, v.norm_z]) =~= word_le_bytes(v.norm_x)
        + word_le_bytes(v.norm_y) + word_le_bytes(v.norm_z)) by {
        reveal_with_fuel(words_le_bytes, 4);
    }
    assert(vertex_bytes(v).subrange(POSITION_OFFSET as int, UV_OFFSET as int) =~= words_le_bytes(
        seq![v.pos_x, v.pos_y, v.pos_z, v.pos_w],
    ));
    assert(vertex_bytes(v).subrange(UV_OFFSET as int, NORMAL_OFFSET as int) =~= words_le_bytes(
        seq![v.u, v.v],
    ));
    assert(vertex_bytes(v).subrange(NORMAL_OFFSET as int, VERTEX_STRIDE as int) =~= words_le_bytes(
        seq![v.norm_x, v.norm_y, v.norm_z],
    ));
}

/// Appends the four little-endian bytes of `w` to `out`.
fn push_word_le(out: &mut Vec<u8>, w: u32)
    ensures
        final(out)@ == old(out)@ + word_le_bytes(w),
{
    out.push((w & 0xff) as u8);
    out.push(((w >> 8) & 0xff) as u8);
    out.push(((w >> 16) & 0xff) as u8);
    out.push(((w >> 24) & 0xff) as u8);
    assert(out@ =~= old(out)@ + word_le_bytes(w));
}

/// Appends the 36-byte record of one vertex to `out`.
fn push_vertex_bytes(out: &mut Vec<u8>, v: &VertData)
    ensures
        final(out)@ == old(out)@ + vertex_bytes(*v),
{
    push_word_le(out, v.pos_x);
    push_word_le(out, v.pos_y);
    push_word_le(out, v.pos_z);
    push_word_le(out, v.pos_w);
    push_word_le(out, v.u);
    push_word_le(out, v.v);
    push_word_le(out, v.norm_x);
    push_word_le(out, v.norm_y);
    push_word_le(out, v.norm_z);
    proof {
        lemma_words_le_bytes_unfold(v.words());
    }
    assert(out@ =~= old(out)@ + vertex_bytes(*v));
}

/// Unfolds `words_le_bytes` over a nine-word sequence into the
/// concatenation of its per-word bytes.
proof fn lemma_words_le_bytes_unfold(ws: Seq<u32>)
    requires
        ws.len() == 9,
    ensures
        words_le_bytes(ws) == word_le_bytes(ws[0]) + word_le_bytes(ws[1])
            + word_le_bytes(ws[2]) + word_le_bytes(ws[3]) + word_le_bytes(ws[4])
            + word_le_bytes(ws[5]) + word_le_bytes(ws[6]) + word_le_bytes(ws[7])
            + word_le_bytes(ws[8]),
{
    assert(words_le_bytes(ws) =~= word_le_bytes(ws[0]) + word_le_bytes(ws[1])
        + word_le_bytes(ws[2]) + word_le_bytes(ws[3]) + word_le_bytes(ws[4])
        + word_le_bytes(ws[5]) + word_le_bytes(ws[6]) + word_le_bytes(ws[7])
        + word_le_bytes(ws[8])) by {
        reveal_with_fuel(words_le_bytes, 10);
    }
}

/// Unfolds `words_le_bytes` over a three-word sequence.
proof fn lemma_words_le_bytes_three(ws: Seq<u32>)
    requires
        ws.len() == 3,
    ensures
        words_le_bytes(ws) == word_le_bytes(ws[0]) + word_le_bytes(ws[1])
            + word_le_bytes(ws[2]),
{
    assert(words_le_bytes(ws) =~= word_le_bytes(ws[0]) + word_le_bytes(ws[1])
        + word_le_bytes(ws[2])) by {
        reveal_with_fuel(words_le_bytes, 4);
    }
}

/// Serialises the vertex sequence to its tightly packed byte image.
pub fn vertices_to_bytes(vs: &Vec<VertData>) -> (r: Vec<u8>)
    ensures
        r@ == vertex_stream_bytes(vs@),
{
    let mut out: Vec<u8> = Vec::new();
    let mut i: usize = 0;
    while i < vs.len()
        invariant
            i <= vs@.len(),
            out@ == vertex_stream_bytes(vs@.subrange(0, i as int)),
        decreases vs@.len() - i,
    {
        let ghost prefix = vs@.subrange(0, i as int);
        push_vertex_bytes(&mut out, &vs[i]);
        proof {
            let next = vs@.subrange(0, i + 1);
            assert(next.drop_last() =~= prefix);
            assert(next.last() == vs@[i as int]);
            assert(out@ =~= vertex_stream_bytes(next));
        }
        i = i + 1;
    }
    proof {
        assert(vs@.subrange(0, vs@.len() as int) =~= vs@);
    }
    out
}

/// Serialises the face sequence to its tightly packed byte image.
pub fn faces_to_bytes(fs: &Vec<Face>) -> (r: Vec<u8>)
    ensures
        r@ == face_stream_bytes(fs@),
{
    let mut out: Vec<u8> = Vec::new();
    let mut i: usize = 0;
    while i < fs.len()
        invariant
            i <= fs@.len(),
            out@ == face_stream_bytes(fs@.subrange(0, i as int)),
        decreases fs@.len() - i,
    {
        let ghost prefix = fs@.subrange(0, i as int);
        let f = fs[i];
        push_word_le(&mut out, f.a);
        push_word_le(&mut out, f.b);
        push_word_le(&mut out, f.c);
        proof {
            lemma_words_le_bytes_three(f.indices());
            let next = fs@.subrange(0, i + 1);
            assert(next.drop_last() =~= prefix);
            assert(next.last() == fs@[i as int]);
            assert(out@ =~= face_stream_bytes(next));
        }
        i = i + 1;
    }
    proof {
        assert(fs@.subrange(0, fs@.len() as int) =~= fs@);
    }
    out
}

} // verus!
