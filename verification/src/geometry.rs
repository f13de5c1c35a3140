//! The unit quad that every shape is drawn from: four vertices, the index list
//! that cuts it into triangles, and how both lie in their buffers.

use vstd::prelude::*;

verus! {

/// A corner of the quad: a position in `[-1, 1] x [-1, 1]` and a texture
/// coordinate in `[0, 1] x [0, 1]`. All corners have whole coordinates.
#[derive(Clone, Copy, Debug, PartialEq, Eq, Structural)]
pub struct Vertex {
    pub x: i8,
    pub y: i8,
    pub u: u8,
    pub v: u8,
}

/// Component formats of a vertex attribute.
#[derive(Clone, Copy, Debug, PartialEq, Eq, Structural)]
pub enum VertexFormat {
    Float,
    Float2,
    Float3,
    Float4,
}

impl VertexFormat {
    /// Bytes that one attribute of this format takes.
    pub open spec fn size(self) -> int {
        match self {
            VertexFormat::Float => 4,
            VertexFormat::Float2 => 8,
            VertexFormat::Float3 => 12,
            VertexFormat::Float4 => 16,
        }
    }
}

/// Whether a vertex buffer advances per vertex or per instance.
#[derive(Clone, Copy, Debug, PartialEq, Eq, Structural)]
pub enum InputStepMode {
    Vertex,
    Instance,
}

/// Width of the entries of an index buffer.
#[derive(Clone, Copy, Debug, PartialEq, Eq, Structural)]
pub enum IndexFormat {
    Uint16,
    Uint32,
}

/// Where one attribute of a vertex lies within the vertex.
#[derive(Clone, Copy, Debug, PartialEq, Eq, Structural)]
pub struct VertexAttribute {
    pub offset: u64,
    pub shader_location: u32,
    pub format: VertexFormat,
}

impl VertexAttribute {
    /// First byte after the attribute.
    pub open spec fn end(self) -> int {
        self.offset + self.format.size()
    }
}

/// How the vertices lie in the vertex buffer.
#[derive(Clone, Copy, Debug, PartialEq, Eq, Structural)]
pub struct VertexBufferLayout {
    pub array_stride: u64,
    pub step_mode: InputStepMode,
    pub position: VertexAttribute,
    pub tex_coords: VertexAttribute,
}

impl VertexBufferLayout {
    /// The two attributes follow each other without a gap and fill the stride.
    pub open spec fn packed(self) -> bool {
        &&& self.position.offset == 0
        &&& self.tex_coords.offset == self.position.end()
        &&& self.array_stride == self.tex_coords.end()
    }
}

/// The coordinate of the quad's left and lower edges.
pub const LOW: i8 = -1;

/// The coordinate of the quad's right and upper edges.
pub const HIGH: i8 = 1;

/// Number of corners of the quad.
pub const VERTEX_COUNT: usize = 4;

/// Number of entries of the index list.
pub const INDEX_COUNT: u32 = 9;

/// The corners, counter-clockwise from the lower left. Texture coordinates
/// grow to the right and downwards, so that `(0, 0)` is the upper left corner.
pub open spec fn quad() -> Seq<Vertex> {
    seq![
        Vertex { x: LOW, y: LOW, u: 0, v: 1 },
        Vertex { x: HIGH, y: LOW, u: 1, v: 1 },
        Vertex { x: HIGH, y: HIGH, u: 1, v: 0 },
        Vertex { x: LOW, y: HIGH, u: 0, v: 0 },
    ]
}

/// The index list: the two triangles on either side of the diagonal from
/// corner 0 to corner 2, then a third triangle over corners 0, 1 and 3, which
/// covers nothing that the first two leave out.
pub open spec fn triangles() -> Seq<u16> {
    seq![0u16, 1u16, 2u16, 0u16, 2u16, 3u16, 0u16, 1u16, 3u16]
}

/// Twice the signed area of the triangle `a b c`: positive when the corners
/// run counter-clockwise.
pub open spec fn doubled_area(a: Vertex, b: Vertex, c: Vertex) -> int {
    (b.x - a.x) * (c.y - a.y) - (c.x - a.x) * (b.y - a.y)
}

/// Twice the signed area of the `t`-th triangle of the index list.
pub open spec fn triangle_area(t: int) -> int
    recommends
        0 <= t < 3,
{
    doubled_area(
        quad()[triangles()[3 * t] as int],
        quad()[triangles()[3 * t + 1] as int],
        quad()[triangles()[3 * t + 2] as int],
    )
}

impl Vertex {
    /// The layout of a vertex in the vertex buffer: two numbers of position at
    /// shader location 0, then two of texture coordinate at location 1, four
    /// bytes each.
    pub fn desc() -> (layout: VertexBufferLayout)
        ensures
            layout.packed(),
            layout.array_stride == 16,
            layout.step_mode == InputStepMode::Vertex,
            layout.position == (VertexAttribute {
                offset: 0,
                shader_location: 0,
                format: VertexFormat::Float2,
            }),
            layout.tex_coords == (VertexAttribute {
                offset: 8,
                shader_location: 1,
                format: VertexFormat::Float2,
            }),
    {
        VertexBufferLayout {
            array_stride: 16,
            step_mode: InputStepMode::Vertex,
            position: VertexAttribute { offset: 0, shader_location: 0, format: VertexFormat::Float2 },
            tex_coords: VertexAttribute {
                offset: 8,
                shader_location: 1,
                format: VertexFormat::Float2,
            },
        }
    }
}

/// The four corners of the quad, in buffer order.
pub fn vertices() -> (v: Vec<Vertex>)
    ensures
        v@ == quad(),
        v@.len() == VERTEX_COUNT,
{
    let v = vec![
        Vertex { x: LOW, y: LOW, u: 0, v: 1 },
        Vertex { x: HIGH, y: LOW, u: 1, v: 1 },
        Vertex { x: HIGH, y: HIGH, u: 1, v: 0 },
        Vertex { x: LOW, y: HIGH, u: 0, v: 0 },
    ];
    assert(v@ =~= quad());
    v
}

/// The index list, in buffer order.
pub fn indices() -> (v: Vec<u16>)
    ensures
        v@ == triangles(),
        v@.len() == INDEX_COUNT,
{
    let v = vec![0u16, 1u16, 2u16, 0u16, 2u16, 3u16, 0u16, 1u16, 3u16];
    assert(v@ =~= triangles());
    v
}

/// The low byte of each entry comes first.
pub open spec fn low_byte_first(entries: Seq<u16>, bytes: Seq<u8>) -> bool {
    &&& bytes.len() == 2 * entries.len()
    &&& forall|i: int|
        0 <= i < entries.len() ==> bytes[2 * i] == #[trigger] entries[i] % 256 && bytes[2 * i + 1]
            == entries[i] / 256
}

/// The high byte of each entry comes first.
pub open spec fn high_byte_first(entries: Seq<u16>, bytes: Seq<u8>) -> bool {
    &&& bytes.len() == 2 * entries.len()
    &&& forall|i: int|
        0 <= i < entries.len() ==> bytes[2 * i] == #[trigger] entries[i] / 256 && bytes[2 * i + 1]
            == entries[i] % 256
}

/// The bytes of `entries` as they lie in memory.
///
/// Calls `bytemuck::cast_slice` from `u16` to `u8`, which reads the same
/// memory as bytes: two for each entry, in the entries' order. Which byte of
/// an entry comes first is the machine's byte order, the same for all entries.
/// The cast cannot fail in this direction: a byte needs no alignment and
/// every length in bytes is a whole number of bytes.
#[verifier::external_body]
fn cast_indices(entries: &[u16]) -> (bytes: Vec<u8>)
    ensures
        low_byte_first(entries@, bytes@) || high_byte_first(entries@, bytes@),
{
    bytemuck::cast_slice::<u16, u8>(entries).to_vec()
}

/// What the index buffer is filled with: the index list as it lies in memory,
/// two bytes for each entry. Since every entry is below 256, one byte of each
/// pair is the entry and the other is zero.
pub fn index_buffer_contents() -> (bytes: Vec<u8>)
    ensures
        low_byte_first(triangles(), bytes@) || high_byte_first(triangles(), bytes@),
        bytes@.len() == 2 * INDEX_COUNT,
        forall|i: int|
            0 <= i < INDEX_COUNT ==> (bytes@[2 * i] == #[trigger] triangles()[i] && bytes@[2 * i + 1]
                == 0) || (bytes@[2 * i] == 0 && bytes@[2 * i + 1] == triangles()[i]),
{
    let entries = indices();
    let bytes = cast_indices(entries.as_slice());
    proof {
        lemma_quad_is_consistent();
        assert forall|i: int| 0 <= i < INDEX_COUNT implies (bytes@[2 * i] == #[trigger] triangles()[i]
            && bytes@[2 * i + 1] == 0) || (bytes@[2 * i] == 0 && bytes@[2 * i + 1]
            == triangles()[i]) by {
            let e = triangles()[i];
            assert(0 <= e < 4);
            assert(e % 256 == e && e / 256 == 0);
        }
    }
    bytes
}

/// The part of the index list that a shape is drawn with: all of it.
pub fn shape_index_range() -> (r: (u32, u32))
    ensures
        r == (0u32, INDEX_COUNT),
        r.1 - r.0 == triangles().len(),
{
    (0, INDEX_COUNT)
}

/// The part of the index list that the background pass draws: none of it.
pub fn background_index_range() -> (r: (u32, u32))
    ensures
        r == (0u32, 0u32),
{
    (0, 0)
}

/// Every entry of the index list names a corner, and each corner's texture
/// coordinate is its position, moved into the unit square with the vertical
/// axis turned over.
pub proof fn lemma_quad_is_consistent()
    ensures
        quad().len() == VERTEX_COUNT,
        triangles().len() == INDEX_COUNT,
        forall|i: int| 0 <= i < triangles().len() ==> 0 <= #[trigger] triangles()[i] < quad().len(),
        forall|k: int|
            0 <= k < quad().len() ==> {
                let c = #[trigger] quad()[k];
                &&& -1 <= c.x <= 1
                &&& -1 <= c.y <= 1
                &&& 2 * c.u == c.x + 1
                &&& 2 * c.v == 1 - c.y
            },
{
}

/// The coordinates of the four corners, one by one.
proof fn lemma_corners()
    ensures
        quad()[0].x == -1 && quad()[0].y == -1,
        quad()[1].x == 1 && quad()[1].y == -1,
        quad()[2].x == 1 && quad()[2].y == 1,
        quad()[3].x == -1 && quad()[3].y == 1,
{
}

/// The first two triangles cover the quad: they run counter-clockwise, so
/// neither is culled as a back face; they meet along the diagonal from corner
/// 0 to corner 2 with their third corners on opposite sides of it; and their
/// areas add up to the area of the quad, which measures 2 by 2.
pub proof fn lemma_two_triangles_cover_quad()
    ensures
        triangle_area(0) > 0,
        triangle_area(1) > 0,
        triangles()[0] == triangles()[3],
        triangles()[2] == triangles()[4],
        doubled_area(quad()[0], quad()[2], quad()[1]) < 0 < doubled_area(
            quad()[0],
            quad()[2],
            quad()[3],
        ),
        triangle_area(0) + triangle_area(1) == 2 * (2 * 2),
{
    lemma_corners();
    assert(triangles()[0] == 0 && triangles()[1] == 1 && triangles()[2] == 2);
    assert(triangles()[3] == 0 && triangles()[4] == 2 && triangles()[5] == 3);
    assert(doubled_area(quad()[0], quad()[1], quad()[2]) == 2 * 2 - 2 * 0);
    assert(doubled_area(quad()[0], quad()[2], quad()[3]) == 2 * 2 - 0 * 2);
    assert(doubled_area(quad()[0], quad()[2], quad()[1]) == 2 * 0 - 2 * 2);
}

/// The third triangle runs counter-clockwise too, and its corners are corners
/// of the quad.
pub proof fn lemma_third_triangle_within_quad()
    ensures
        triangle_area(2) > 0,
        forall|i: int| 6 <= i < 9 ==> 0 <= #[trigger] triangles()[i] < quad().len(),
{
    lemma_corners();
    assert(triangles()[6] == 0 && triangles()[7] == 1 && triangles()[8] == 3);
    assert(doubled_area(quad()[0], quad()[1], quad()[3]) == 2 * 2 - 0 * 0);
}

} // verus!
