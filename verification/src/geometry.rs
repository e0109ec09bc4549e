//! Mesh geometry: vertices, triangle indices, and the byte layout the GPU
//! sees. A `Geometry` starts CPU-side ("unbuffered"); `initialize_buffers`
//! produces the exact byte images to upload and moves it to the buffered
//! state; `render` yields the draw commands for an active render pass and is
//! only available once buffered.

use vstd::prelude::*;

verus! {

/// Size in bytes of one vertex as laid out for the GPU: six 32-bit lanes.
pub const VERTEX_STRIDE: u64 = 24;

/// Size in bytes of one index (16-bit unsigned).
pub const INDEX_STRIDE: u64 = 2;

/// One vertex: a position and a color, each three 32-bit lanes.
///
/// The lanes hold the IEEE-754 bit patterns of the scene's coordinates, so
/// the byte image below is exactly the per-vertex layout the shader reads:
/// stride 24, position at offset 0, color at offset 12.
#[derive(Clone, Copy, PartialEq, Debug)]
pub struct Vertex {
    pub position: [u32; 3],
    pub color: [u32; 3],
}

/// How often the vertex buffer advances: once per vertex or once per instance.
#[derive(Clone, Copy, PartialEq, Eq, Structural, Debug)]
pub enum VertexStepMode {
    PerVertex,
    PerInstance,
}

/// The lane format of one vertex attribute.
#[derive(Clone, Copy, PartialEq, Eq, Structural, Debug)]
pub enum VertexFormat {
    Float32x3,
}

/// One attribute of the per-vertex layout.
#[derive(Clone, Copy, PartialEq, Eq, Structural, Debug)]
pub struct VertexAttribute {
    pub offset: u64,
    pub shader_location: u32,
    pub format: VertexFormat,
}

/// The full per-vertex buffer layout handed to pipeline construction.
pub struct VertexBufferLayout {
    pub array_stride: u64,
    pub step_mode: VertexStepMode,
    pub attributes: Vec<VertexAttribute>,
}

impl Vertex {
    /// The buffer layout matching `Vertex`: stride 24, two three-lane
    /// attributes at offsets 0 and 12, shader locations 0 and 1.
    pub fn desc() -> (r: VertexBufferLayout)
        ensures
            r.array_stride == VERTEX_STRIDE,
            r.step_mode == VertexStepMode::PerVertex,
            r.attributes@.len() == 2,
            r.attributes@[0] == (VertexAttribute {
                offset: 0,
                shader_location: 0,
                format: VertexFormat::Float32x3,
            }),
            r.attributes@[1] == (VertexAttribute {
                offset: 12,
                shader_location: 1,
                format: VertexFormat::Float32x3,
            }),
    {
        let mut attributes: Vec<VertexAttribute> = Vec::new();
        attributes.push(VertexAttribute { offset: 0, shader_location: 0, format: VertexFormat::Float32x3 });
        attributes.push(VertexAttribute { offset: 12, shader_location: 1, format: VertexFormat::Float32x3 });
        VertexBufferLayout {
            array_stride: VERTEX_STRIDE,
            step_mode: VertexStepMode::PerVertex,
            attributes,
        }
    }
}

/// The little-endian byte image of one 32-bit lane.
pub open spec fn u32_le_bytes(x: u32) -> Seq<u8> {
    seq![
        (x & 0xff) as u8,
        ((x >> 8) & 0xff) as u8,
        ((x >> 16) & 0xff) as u8,
        ((x >> 24) & 0xff) as u8,
    ]
}

/// The little-endian byte image of one 16-bit index.
pub open spec fn u16_le_bytes(x: u16) -> Seq<u8> {
    seq![(x & 0xff) as u8, ((x >> 8) & 0xff) as u8]
}

/// The 24-byte image of one vertex: position lanes then color lanes.
pub open spec fn vertex_bytes(v: Vertex) -> Seq<u8> {
    u32_le_bytes(v.position[0]) + u32_le_bytes(v.position[1]) + u32_le_bytes(v.position[2])
        + u32_le_bytes(v.color[0]) + u32_le_bytes(v.color[1]) + u32_le_bytes(v.color[2])
}

/// The byte image of a vertex sequence, in order.
pub open spec fn vertices_bytes(vs: Seq<Vertex>) -> Seq<u8>
    decreases vs.len(),
{
    if vs.len() == 0 {
        Seq::empty()
    } else {
        vertex_bytes(vs[0]) + vertices_bytes(vs.drop_first())
    }
}

/// The byte image of an index sequence, in order.
pub open spec fn indices_bytes(is: Seq<u16>) -> Seq<u8>
    decreases is.len(),
{
    if is.len() == 0 {
        Seq::empty()
    } else {
        u16_le_bytes(is[0]) + indices_bytes(is.drop_first())
    }
}

/// A vertex byte image is exactly 24 bytes per vertex.
pub proof fn lemma_vertices_bytes_len(vs: Seq<Vertex>)
    ensures
        vertices_bytes(vs).len() == VERTEX_STRIDE * vs.len(),
    decreases vs.len(),
{
    if vs.len() > 0 {
        lemma_vertices_bytes_len(vs.drop_first());
    }
}

/// An index byte image is exactly 2 bytes per index.
pub proof fn lemma_indices_bytes_len(is: Seq<u16>)
    ensures
        indices_bytes(is).len() == INDEX_STRIDE * is.len(),
    decreases is.len(),
{
    if is.len() > 0 {
        lemma_indices_bytes_len(is.drop_first());
    }
}

proof fn lemma_vertices_bytes_push(vs: Seq<Vertex>, v: Vertex)
    ensures
        vertices_bytes(vs.push(v)) == vertices_bytes(vs) + vertex_bytes(v),
    decreases vs.len(),
{
    if vs.len() == 0 {
        assert(vs.push(v).drop_first() =~= vs);
        assert(vertices_bytes(vs.push(v)) =~= vertices_bytes(vs) + vertex_bytes(v));
    } else {
        assert(vs.push(v).drop_first() =~= vs.drop_first().push(v));
        lemma_vertices_bytes_push(vs.drop_first(), v);
        assert(vertices_bytes(vs.push(v)) =~= vertices_bytes(vs) + vertex_bytes(v));
    }
}

proof fn lemma_indices_bytes_push(is: Seq<u16>, x: u16)
    ensures
        indices_bytes(is.push(x)) == indices_bytes(is) + u16_le_bytes(x),
    decreases is.len(),
{
    if is.len() == 0 {
        assert(is.push(x).drop_first() =~= is);
        assert(indices_bytes(is.push(x)) =~= indices_bytes(is) + u16_le_bytes(x));
    } else {
        assert(is.push(x).drop_first() =~= is.drop_first().push(x));
        lemma_indices_bytes_push(is.drop_first(), x);
        assert(indices_bytes(is.push(x)) =~= indices_bytes(is) + u16_le_bytes(x));
    }
}

fn push_u32_le(out: &mut Vec<u8>, x: u32)
    ensures
        final(out)@ == old(out)@ + u32_le_bytes(x),
{
    out.push((x & 0xff) as u8);
    out.push(((x >> 8) & 0xff) as u8);
    out.push(((x >> 16) & 0xff) as u8);
    out.push(((x >> 24) & 0xff) as u8);
    proof {
        assert(out@ =~= old(out)@ + u32_le_bytes(x));
    }
}

fn push_u16_le(out: &mut Vec<u8>, x: u16)
    ensures
        final(out)@ == old(out)@ + u16_le_bytes(x),
{
    out.push((x & 0xff) as u8);
    out.push(((x >> 8) & 0xff) as u8);
    proof {
        assert(out@ =~= old(out)@ + u16_le_bytes(x));
    }
}

/// The exact byte image of a vertex sequence, as uploaded to the vertex buffer.
pub fn encode_vertices(vs: &Vec<Vertex>) -> (r: Vec<u8>)
    ensures
        r@ == vertices_bytes(vs@),
        r@.len() == VERTEX_STRIDE * vs@.len(),
{
    let mut out: Vec<u8> = Vec::new();
    let mut i: usize = 0;
    while i < vs.len()
        invariant
            i <= vs@.len(),
            out@ == vertices_bytes(vs@.take(i as int)),
        decreases vs@.len() - i,
    {
        let v = vs[i];
        push_u32_le(&mut out, v.position[0]);
        push_u32_le(&mut out, v.position[1]);
        push_u32_le(&mut out, v.position[2]);
        push_u32_le(&mut out, v.color[0]);
        push_u32_le(&mut out, v.color[1]);
        push_u32_le(&mut out, v.color[2]);
        proof {
            assert(vs@.take(i + 1 as int) =~= vs@.take(i as int).push(vs@[i as int]));
            lemma_vertices_bytes_push(vs@.take(i as int), vs@[i as int]);
            assert(out@ =~= vertices_bytes(vs@.take(i as int)) + vertex_bytes(vs@[i as int]));
        }
        i = i + 1;
    }
    proof {
        assert(vs@.take(vs@.len() as int) =~= vs@);
        lemma_vertices_bytes_len(vs@);
    }
    out
}

/// The exact byte image of an index sequence, as uploaded to the index buffer.
pub fn encode_indices(is: &Vec<u16>) -> (r: Vec<u8>)
    ensures
        r@ == indices_bytes(is@),
        r@.len() == INDEX_STRIDE * is@.len(),
{
    let mut out: Vec<u8> = Vec::new();
    let mut i: usize = 0;
    while i < is.len()
        invariant
            i <= is@.len(),
            out@ == indices_bytes(is@.take(i as int)),
        decreases is@.len() - i,
    {
        push_u16_le(&mut out, is[i]);
        proof {
            assert(is@.take(i + 1 as int) =~= is@.take(i as int).push(is@[i as int]));
            lemma_indices_bytes_push(is@.take(i as int), is@[i as int]);
        }
        i = i + 1;
    }
    proof {
        assert(is@.take(is@.len() as int) =~= is@);
        lemma_indices_bytes_len(is@);
    }
    out
}

/// The 32-bit lane stored little-endian at offset `off` of a byte image.
pub open spec fn lane_at(b: Seq<u8>, off: int) -> u32 {
    ((b[off] as u32) | ((b[off + 1] as u32) << 8) | ((b[off + 2] as u32) << 16) | ((b[off + 3]
        as u32) << 24)) as u32
}

/// The 16-bit index stored little-endian at offset `off` of a byte image.
pub open spec fn index_at(b: Seq<u8>, off: int) -> u16 {
    ((b[off] as u16) | ((b[off + 1] as u16) << 8)) as u16
}

proof fn lemma_u32_le_roundtrip(x: u32)
    ensures
        lane_at(u32_le_bytes(x), 0) == x,
{
    assert((((x & 0xff) as u8) as u32 | ((((x >> 8) & 0xff) as u8) as u32) << 8 | ((((x >> 16)
        & 0xff) as u8) as u32) << 16 | ((((x >> 24) & 0xff) as u8) as u32) << 24) as u32 == x)
        by (bit_vector);
}

proof fn lemma_u16_le_roundtrip(x: u16)
    ensures
        index_at(u16_le_bytes(x), 0) == x,
{
    assert((((x & 0xff) as u8) as u16 | ((((x >> 8) & 0xff) as u8) as u16) << 8) as u16 == x)
        by (bit_vector);
}

/// Reading the six lanes back from a vertex's byte image gives the vertex:
/// uploaded data round-trips byte for byte.
pub proof fn lemma_vertex_bytes_roundtrip(v: Vertex)
    ensures
        vertex_bytes(v).len() == VERTEX_STRIDE,
        lane_at(vertex_bytes(v), 0) == v.position[0],
        lane_at(vertex_bytes(v), 4) == v.position[1],
        lane_at(vertex_bytes(v), 8) == v.position[2],
        lane_at(vertex_bytes(v), 12) == v.color[0],
        lane_at(vertex_bytes(v), 16) == v.color[1],
        lane_at(vertex_bytes(v), 20) == v.color[2],
{
    lemma_u32_le_roundtrip(v.position[0]);
    lemma_u32_le_roundtrip(v.position[1]);
    lemma_u32_le_roundtrip(v.position[2]);
    lemma_u32_le_roundtrip(v.color[0]);
    lemma_u32_le_roundtrip(v.color[1]);
    lemma_u32_le_roundtrip(v.color[2]);
}

/// The byte image of vertex `i` sits at offset `24 * i` of the sequence image.
pub proof fn lemma_vertices_bytes_at(vs: Seq<Vertex>, i: int)
    requires
        0 <= i < vs.len(),
    ensures
        vertices_bytes(vs).subrange(
            VERTEX_STRIDE * i,
            VERTEX_STRIDE * i + VERTEX_STRIDE,
        ) == vertex_bytes(vs[i]),
    decreases vs.len(),
{
    lemma_vertices_bytes_len(vs);
    lemma_vertices_bytes_len(vs.drop_first());
    if i == 0 {
        assert(vertices_bytes(vs).subrange(0, VERTEX_STRIDE as int) =~= vertex_bytes(vs[0]));
    } else {
        lemma_vertices_bytes_at(vs.drop_first(), i - 1);
        assert(vertices_bytes(vs).subrange(VERTEX_STRIDE * i, VERTEX_STRIDE * i + VERTEX_STRIDE)
            =~= vertices_bytes(vs.drop_first()).subrange(
            VERTEX_STRIDE * (i - 1),
            VERTEX_STRIDE * (i - 1) + VERTEX_STRIDE,
        ));
    }
}

/// The byte image of index `i` sits at offset `2 * i` of the sequence image.
pub proof fn lemma_indices_bytes_at(is: Seq<u16>, i: int)
    requires
        0 <= i < is.len(),
    ensures
        indices_bytes(is).subrange(INDEX_STRIDE * i, INDEX_STRIDE * i + INDEX_STRIDE)
            == u16_le_bytes(is[i]),
    decreases is.len(),
{
    lemma_indices_bytes_len(is);
    lemma_indices_bytes_len(is.drop_first());
    if i == 0 {
        assert(indices_bytes(is).subrange(0, INDEX_STRIDE as int) =~= u16_le_bytes(is[0]));
    } else {
        lemma_indices_bytes_at(is.drop_first(), i - 1);
        assert(indices_bytes(is).subrange(INDEX_STRIDE * i, INDEX_STRIDE * i + INDEX_STRIDE)
            =~= indices_bytes(is.drop_first()).subrange(
            INDEX_STRIDE * (i - 1),
            INDEX_STRIDE * (i - 1) + INDEX_STRIDE,
        ));
    }
}

/// Two vertex sequences with the same byte image are the same sequence:
/// together with `lemma_vertices_bytes_at`, data read back from an uploaded
/// buffer determines the CPU-side data byte for byte.
pub proof fn lemma_vertices_bytes_injective(a: Seq<Vertex>, b: Seq<Vertex>)
    requires
        vertices_bytes(a) == vertices_bytes(b),
    ensures
        a == b,
{
    broadcast use vstd::array::group_array_axioms;

    lemma_vertices_bytes_len(a);
    lemma_vertices_bytes_len(b);
    assert(a.len() == b.len());
    assert forall|i: int| 0 <= i < a.len() implies a[i] == b[i] by {
        lemma_vertices_bytes_at(a, i);
        lemma_vertices_bytes_at(b, i);
        lemma_vertex_bytes_roundtrip(a[i]);
        lemma_vertex_bytes_roundtrip(b[i]);
        assert(a[i].position =~= b[i].position);
        assert(a[i].color =~= b[i].color);
    }
    assert(a =~= b);
}

/// Two index sequences with the same byte image are the same sequence.
pub proof fn lemma_indices_bytes_injective(a: Seq<u16>, b: Seq<u16>)
    requires
        indices_bytes(a) == indices_bytes(b),
    ensures
        a == b,
{
    lemma_indices_bytes_len(a);
    lemma_indices_bytes_len(b);
    assert(a.len() == b.len());
    assert forall|i: int| 0 <= i < a.len() implies a[i] == b[i] by {
        lemma_indices_bytes_at(a, i);
        lemma_indices_bytes_at(b, i);
        lemma_u16_le_roundtrip(a[i]);
        lemma_u16_le_roundtrip(b[i]);
    }
    assert(a =~= b);
}

/// Why a geometry operation was refused.
#[derive(Clone, Copy, PartialEq, Eq, Structural, Debug)]
pub enum GeometryError {
    /// An index value is not below the vertex count.
    IndexOutOfRange,
    /// A draw was asked of a mesh whose buffers were never uploaded.
    BuffersMissing,
}

/// The device buffers a mesh owns once uploaded, recorded by their byte sizes.
#[derive(Clone, Copy, PartialEq, Eq, Structural, Debug)]
pub struct MeshBuffers {
    pub vertex_buffer_size: u64,
    pub index_buffer_size: u64,
}

/// The exact byte images to write into the two device buffers, write-once.
pub struct MeshUpload {
    pub vertex_bytes: Vec<u8>,
    pub index_bytes: Vec<u8>,
}

/// The index format a mesh binds to the render pass.
#[derive(Clone, Copy, PartialEq, Eq, Structural, Debug)]
pub enum IndexFormat {
    Uint16,
    Uint32,
}

/// One step of the draw protocol against an active render pass. The buffers
/// named are the issuing mesh's own.
#[derive(Clone, Copy, PartialEq, Eq, Structural, Debug)]
pub enum DrawCommand {
    SetVertexBuffer { slot: u32 },
    SetIndexBuffer { format: IndexFormat },
    DrawIndexed { index_count: usize, base_vertex: i32, instance_count: u32 },
}

/// A mesh: an ordered vertex sequence and an ordered sequence of 16-bit
/// indices into it. `buffers` is `None` until `initialize_buffers` runs; a
/// draw is refused until then, so the unchecked-upload state cannot be
/// reached.
pub struct Geometry {
    pub points: Vec<Vertex>,
    pub indices: Vec<u16>,
    pub buffers: Option<MeshBuffers>,
}

/// Every index value is below the vertex count.
pub open spec fn indices_in_range(points: Seq<Vertex>, indices: Seq<u16>) -> bool {
    forall|i: int| 0 <= i < indices.len() ==> (indices[i] as int) < points.len()
}

/// The draw protocol of one buffered mesh: bind its vertex buffer at slot 0,
/// bind its index buffer as 16-bit, draw the full index range once.
pub open spec fn draw_commands_spec(g: Geometry) -> Seq<DrawCommand> {
    seq![
        DrawCommand::SetVertexBuffer { slot: 0 },
        DrawCommand::SetIndexBuffer { format: IndexFormat::Uint16 },
        DrawCommand::DrawIndexed {
            index_count: g.indices@.len() as usize,
            base_vertex: 0,
            instance_count: 1,
        },
    ]
}

impl Geometry {
    /// Every index points at an existing vertex.
    pub open spec fn wf(self) -> bool {
        indices_in_range(self.points@, self.indices@)
    }

    /// Whether the device buffers have been uploaded.
    pub open spec fn is_buffered(self) -> bool {
        self.buffers is Some
    }

    /// The recorded buffer sizes match the owned data exactly.
    pub open spec fn buffers_sized(self) -> bool {
        self.buffers matches Some(b) ==> b.vertex_buffer_size == VERTEX_STRIDE * self.points@.len()
            && b.index_buffer_size == INDEX_STRIDE * self.indices@.len()
    }

    /// Builds a mesh from CPU-side data, rejecting any index at or above the
    /// vertex count. Succeeds if and only if every index is in range; the
    /// mesh starts unbuffered with the data unchanged.
    pub fn new(points: Vec<Vertex>, indices: Vec<u16>) -> (r: Result<Geometry, GeometryError>)
        ensures
            r is Ok <==> indices_in_range(points@, indices@),
            r matches Ok(g) ==> g.points@ == points@ && g.indices@ == indices@
                && !g.is_buffered() && g.wf() && g.buffers_sized(),
            r is Err ==> r == Err::<Geometry, GeometryError>(GeometryError::IndexOutOfRange),
    {
        let mut i: usize = 0;
        while i < indices.len()
            invariant
                i <= indices@.len(),
                forall|j: int| 0 <= j < i ==> (indices@[j] as int) < points@.len(),
            decreases indices@.len() - i,
        {
            if indices[i] as usize >= points.len() {
                return Err(GeometryError::IndexOutOfRange);
            }
            i = i + 1;
        }
        Ok(Geometry { points, indices, buffers: None })
    }

    /// Uploads the mesh once: on the first call, hands back the exact byte
    /// images for the two device buffers (24 bytes per vertex, 2 per index)
    /// and records their sizes; on any later call, changes nothing and hands
    /// back nothing, so repeated initialization cannot reallocate.
    pub fn initialize_buffers(&mut self) -> (r: Option<MeshUpload>)
        ensures
            final(self).points@ == old(self).points@,
            final(self).indices@ == old(self).indices@,
            final(self).is_buffered(),
            old(self).buffers_sized() ==> final(self).buffers_sized(),
            !old(self).is_buffered() ==> final(self).buffers_sized(),
            old(self).is_buffered() ==> *final(self) == *old(self) && r is None,
            !old(self).is_buffered() ==> (r matches Some(up)
                && up.vertex_bytes@ == vertices_bytes(old(self).points@)
                && up.index_bytes@ == indices_bytes(old(self).indices@)
                && up.vertex_bytes@.len() == VERTEX_STRIDE * old(self).points@.len()
                && up.index_bytes@.len() == INDEX_STRIDE * old(self).indices@.len()),
    {
        if self.buffers.is_some() {
            return None;
        }
        let vertex_bytes = encode_vertices(&self.points);
        let index_bytes = encode_indices(&self.indices);
        self.buffers = Some(MeshBuffers {
            vertex_buffer_size: vertex_bytes.len() as u64,
            index_buffer_size: index_bytes.len() as u64,
        });
        Some(MeshUpload { vertex_bytes, index_bytes })
    }

    /// The draw protocol for this mesh: defined exactly on buffered meshes,
    /// and refused with `BuffersMissing` otherwise, never undefined behavior.
    pub fn render(&self) -> (r: Result<Vec<DrawCommand>, GeometryError>)
        ensures
            r is Ok <==> self.is_buffered(),
            r matches Ok(cmds) ==> cmds@ == draw_commands_spec(*self),
            r is Err ==> r == Err::<Vec<DrawCommand>, GeometryError>(GeometryError::BuffersMissing),
    {
        if self.buffers.is_none() {
            return Err(GeometryError::BuffersMissing);
        }
        let mut cmds: Vec<DrawCommand> = Vec::new();
        cmds.push(DrawCommand::SetVertexBuffer { slot: 0 });
        cmds.push(DrawCommand::SetIndexBuffer { format: IndexFormat::Uint16 });
        cmds.push(DrawCommand::DrawIndexed {
            index_count: self.indices.len(),
            base_vertex: 0,
            instance_count: 1,
        });
        proof {
            assert(cmds@ =~= draw_commands_spec(*self));
        }
        Ok(cmds)
    }

    /// How many triangles one indexed draw of this mesh covers: three
    /// consecutive indices form one triangle of the list topology.
    pub fn triangle_count(&self) -> (n: usize)
        ensures
            n == self.indices@.len() / 3,
    {
        self.indices.len() / 3
    }
}

} // verus!
