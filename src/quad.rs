use crate::geometry::{
    filter_vertex_words, filter_vertices, identity_matrix, identity_matrix_words, indices,
    pos_color_vertex_words, pos_color_vertices, pos_vertex_words, pos_vertices, quad_indices,
};
use vstd::prelude::*;

verus! {

/// How a GPU buffer is bound.
#[derive(Clone, Copy, Debug, PartialEq, Eq, Structural)]
pub enum BufferUsage {
    Vertex,
    Index,
    Uniform,
}

/// Bytes `4 * i .. 4 * i + 4` of `bytes`: the memory of word `i`.
pub open spec fn word_chunk(bytes: Seq<u8>, i: int) -> Seq<u8> {
    bytes.subrange(4 * i, 4 * i + 4)
}

/// Whether `bytes` is the memory of `words`, laid out one after another in the
/// machine's byte order: four bytes per word, equal words stored alike and
/// different words differently, and a zero word as four zero bytes.
pub open spec fn encodes_words(bytes: Seq<u8>, words: Seq<u32>) -> bool {
    &&& bytes.len() == 4 * words.len()
    &&& forall|i: int, j: int|
        0 <= i < words.len() && 0 <= j < words.len() ==> (words[i] == words[j] <==> word_chunk(
            bytes,
            i,
        ) == word_chunk(bytes, j))
    &&& forall|i: int|
        0 <= i < words.len() && words[i] == 0 ==> #[trigger] word_chunk(bytes, i) == seq![
            0u8,
            0,
            0,
            0,
        ]
}

/// Relies on `bytemuck::cast_slice`, which views `u32`s as their memory (a
/// `u8` has no alignment and a `u32` is four of them, so the cast never fails).
#[verifier::external_body]
fn words_to_bytes(words: &[u32]) -> (r: Vec<u8>)
    ensures
        encodes_words(r@, words@),
{
    bytemuck::cast_slice::<u32, u8>(words).to_vec()
}

/// Whether `buffer` is what `create_buffer` gives for the memory of `words`
/// bound as `usage`.
pub open spec fn uploaded<B, C: Fn(Vec<u8>, BufferUsage) -> B>(
    create_buffer: C,
    words: Seq<u32>,
    usage: BufferUsage,
    buffer: B,
) -> bool {
    exists|data: Vec<u8>|
        encodes_words(data@, words) && #[trigger] create_buffer.ensures((data, usage), buffer)
}

/// Creates one buffer holding `words`.
pub fn upload<B, C: Fn(Vec<u8>, BufferUsage) -> B>(
    create_buffer: &C,
    words: &[u32],
    usage: BufferUsage,
) -> (r: B)
    requires
        forall|data: Vec<u8>, u: BufferUsage| create_buffer.requires((data, u)),
    ensures
        uploaded(*create_buffer, words@, usage, r),
{
    let data = words_to_bytes(words);
    let ghost sent = data;
    let r = create_buffer(data, usage);
    assert(encodes_words(sent@, words@) && create_buffer.ensures((sent, usage), r));
    r
}

/// Whether `q` holds the unit quad as `create_buffer` uploaded it: positions
/// only, positions with color, and positions with texture coordinates, all
/// for binding as vertices; the six indices of its two triangles; and the
/// identity texture transform as uniform data.
pub open spec fn is_unit_quad<B, C: Fn(Vec<u8>, BufferUsage) -> B>(create_buffer: C, q: Quad<B>) -> bool {
    &&& uploaded(create_buffer, pos_vertex_words(), BufferUsage::Vertex, q.vertices_pos)
    &&& uploaded(create_buffer, pos_color_vertex_words(), BufferUsage::Vertex, q.vertices_pos_color)
    &&& uploaded(create_buffer, filter_vertex_words(), BufferUsage::Vertex, q.filter_vertices)
    &&& uploaded(create_buffer, quad_indices(), BufferUsage::Index, q.indices)
    &&& uploaded(create_buffer, identity_matrix_words(), BufferUsage::Uniform, q.texture_transforms)
}

/// The static geometry shared by every draw call that needs a unit quad,
/// uploaded once and never changed.
pub struct Quad<B> {
    pub vertices_pos: B,
    pub vertices_pos_color: B,
    pub filter_vertices: B,
    pub indices: B,
    pub texture_transforms: B,
}

impl<B> Quad<B> {
    /// Uploads the unit quad in its three vertex layouts, its index buffer and
    /// an identity texture transform, each through `create_buffer`.
    pub fn new<C: Fn(Vec<u8>, BufferUsage) -> B>(create_buffer: &C) -> (r: Self)
        requires
            forall|data: Vec<u8>, u: BufferUsage| create_buffer.requires((data, u)),
        ensures
            is_unit_quad(*create_buffer, r),
    {
        let pos = pos_vertices();
        let pos_color = pos_color_vertices();
        let filter = filter_vertices();
        let index = indices();
        let transform = identity_matrix();
        Quad {
            vertices_pos: upload(create_buffer, pos.as_slice(), BufferUsage::Vertex),
            vertices_pos_color: upload(create_buffer, pos_color.as_slice(), BufferUsage::Vertex),
            filter_vertices: upload(create_buffer, filter.as_slice(), BufferUsage::Vertex),
            indices: upload(create_buffer, index.as_slice(), BufferUsage::Index),
            texture_transforms: upload(create_buffer, transform.as_slice(), BufferUsage::Uniform),
        }
    }
}

} // verus!
