//! Models: vertex formats, vertex and index data, and the commands that
//! draw them.

use crate::gpu::buffer::{buffer_write_verdict, BufferError, KewBuffer};
use crate::gpu::bytes::{words_bytes, words_to_bytes};
use crate::gpu::command::Command;
use crate::gpu::memory::{written, KewMemory, KewMemoryBinding};
use crate::gpu::vk::{
    FORMAT_R32G32B32_SFLOAT, FORMAT_R32G32_SFLOAT, INDEX_TYPE_UINT32, VERTEX_INPUT_RATE_VERTEX,
};
use crate::math::vector::Vector;
use vstd::prelude::*;

verus! {

/// The bit pattern of 0.8.
pub const F32_0_8: u32 = 0x3f4c_cccd;

/// The bit pattern of -0.8.
pub const F32_NEG_0_8: u32 = 0xbf4c_cccd;

/// The bit pattern of 1.0.
pub const F32_1_0: u32 = 0x3f80_0000;

/// The bit pattern of 0.0.
pub const F32_0_0: u32 = 0;

/// How a vertex buffer is stepped through.
#[derive(Clone, Copy, Debug, PartialEq, Eq, Structural)]
pub struct VertexInputBindingDescription {
    pub binding: u32,
    pub stride: u32,
    pub input_rate: i32,
}

/// Where one attribute of a vertex lies.
#[derive(Clone, Copy, Debug, PartialEq, Eq, Structural)]
pub struct VertexInputAttributeDescription {
    pub location: u32,
    pub binding: u32,
    pub format: i32,
    pub offset: u32,
}

/// A model within shared vertex and index buffers.
#[derive(Clone, Copy, Debug, PartialEq, Eq, Structural)]
pub struct KewModel {
    pub vertex_offset: u32,
    pub index_amount: u32,
    pub index_offset: u32,
}

impl KewModel {
    /// The commands that bind the model's vertex and index data.
    pub open spec fn binding_of(&self, vrt_buffer: u64, idx_buffer: u64) -> Seq<Command> {
        seq![
            Command::BindVertexBuffer {
                first_binding: 0,
                buffer: vrt_buffer,
                offset: self.vertex_offset as u64,
            },
            Command::BindIndexBuffer {
                buffer: idx_buffer,
                offset: self.index_offset as u64,
                index_type: INDEX_TYPE_UINT32,
            },
        ]
    }

    /// The command that draws the model once.
    pub open spec fn drawing_of(&self) -> Command {
        Command::DrawIndexed {
            index_count: self.index_amount,
            instance_count: 1,
            first_index: 0,
            vertex_offset: 0,
            first_instance: 0,
        }
    }

    /// The commands that bind the model's vertex data at its offset in
    /// `vrt_buffer` and its 32-bit indices at their offset in `idx_buffer`.
    pub fn bind(&self, vrt_buffer: &KewBuffer, idx_buffer: &KewBuffer) -> (r: Vec<Command>)
        ensures
            r@ == self.binding_of(vrt_buffer.vk_buffer, idx_buffer.vk_buffer),
    {
        let mut commands: Vec<Command> = Vec::with_capacity(2);
        commands.push(
            Command::BindVertexBuffer {
                first_binding: 0,
                buffer: vrt_buffer.vk_buffer,
                offset: self.vertex_offset as u64,
            },
        );
        commands.push(
            Command::BindIndexBuffer {
                buffer: idx_buffer.vk_buffer,
                offset: self.index_offset as u64,
                index_type: INDEX_TYPE_UINT32,
            },
        );
        assert(commands@ =~= self.binding_of(vrt_buffer.vk_buffer, idx_buffer.vk_buffer));
        commands
    }

    /// The command that draws the model once, from its first index.
    pub fn draw(&self) -> (r: Command)
        ensures
            r == self.drawing_of(),
    {
        Command::DrawIndexed {
            index_count: self.index_amount,
            instance_count: 1,
            first_index: 0,
            vertex_offset: 0,
            first_instance: 0,
        }
    }
}

/// A vertex made of 32-bit words.
pub trait KewVertex: Sized {
    /// How many words a vertex takes.
    spec fn word_count() -> nat;

    /// The words of the vertex, as memory holds them.
    spec fn words(&self) -> Seq<u32>;

    /// The size of a vertex in bytes.
    fn vertex_size() -> (r: u64)
        ensures
            r == 4 * Self::word_count(),
            r > 0,
    ;

    /// Appends the words of the vertex to `out`.
    fn push_words(&self, out: &mut Vec<u32>)
        ensures
            final(out)@ == old(out)@ + self.words(),
            self.words().len() == Self::word_count(),
    ;
}

/// The words of `vertices`, vertex after vertex.
pub open spec fn vertex_words<T: KewVertex>(vertices: Seq<T>) -> Seq<u32>
    decreases vertices.len(),
{
    if vertices.len() == 0 {
        Seq::<u32>::empty()
    } else {
        vertex_words(vertices.drop_last()) + vertices.last().words()
    }
}

/// The vertices of a model and the indices that make its triangles.
pub struct KewModelVertexData<T: KewVertex + Clone + Copy> {
    pub vertices: Vec<T>,
    pub indices: Vec<u32>,
}

impl<T: KewVertex + Clone + Copy> KewModelVertexData<T> {
    /// The bytes of the vertex data.
    pub open spec fn vertex_image(&self) -> Seq<u8> {
        words_bytes(vertex_words(self.vertices@))
    }

    /// The bytes of the index data.
    pub open spec fn index_image(&self) -> Seq<u8> {
        words_bytes(self.indices@)
    }

    /// The size of the vertex data in bytes.
    pub fn vertex_data_size(&self) -> (r: u64)
        requires
            self.vertices@.len() * 4 * T::word_count() <= u64::MAX,
        ensures
            r == self.vertices@.len() * 4 * T::word_count(),
    {
        let size = T::vertex_size();
        let count = self.vertices.len() as u64;
        assert(count * size == self.vertices@.len() * 4 * T::word_count()) by (nonlinear_arith)
            requires
                count == self.vertices@.len(),
                size == 4 * T::word_count(),
        ;
        count * size
    }

    /// The size of the index data in bytes.
    pub fn index_data_size(&self) -> (r: u64)
        requires
            self.indices@.len() * 4 <= u64::MAX,
        ensures
            r == self.indices@.len() * 4,
    {
        self.indices.len() as u64 * 4
    }

    /// The words of the vertex data.
    pub fn vertex_data_words(&self) -> (r: Vec<u32>)
        ensures
            r@ == vertex_words(self.vertices@),
            r@.len() == self.vertices@.len() * T::word_count(),
    {
        let mut out: Vec<u32> = Vec::new();
        let mut i: usize = 0;
        while i < self.vertices.len()
            invariant
                i <= self.vertices@.len(),
                out@ == vertex_words(self.vertices@.subrange(0, i as int)),
                out@.len() == i * T::word_count(),
            decreases self.vertices@.len() - i,
        {
            let ghost before = out@;
            self.vertices[i].push_words(&mut out);
            proof {
                let next = self.vertices@.subrange(0, i + 1);
                assert(next.drop_last() =~= self.vertices@.subrange(0, i as int));
                assert(next.last() == self.vertices@[i as int]);
                assert((i + 1) * T::word_count() == i * T::word_count() + T::word_count())
                    by (nonlinear_arith);
            }
            i += 1;
        }
        assert(self.vertices@.subrange(0, i as int) =~= self.vertices@);
        out
    }

    /// Writes the vertex data into `vrt_buffer` at `vrt_offset`, then the
    /// index data into `idx_buffer` at `idx_offset`, both buffers being
    /// bound to the arena `memory`. A refused vertex write ends the call
    /// with nothing written; a refused index write leaves the vertex data
    /// written.
    pub fn write_to_memory(
        &self,
        memory: &mut KewMemory,
        vrt_buffer: &KewBuffer,
        idx_buffer: &KewBuffer,
        vrt_offset: u64,
        idx_offset: u64,
    ) -> (r: Result<(), BufferError>)
        requires
            old(memory).wf(),
            self.vertices@.len() * 4 * T::word_count() <= u64::MAX,
            self.indices@.len() * 4 <= u64::MAX,
        ensures
            final(memory).wf(),
            final(memory).memory == old(memory).memory,
            final(memory).b_size == old(memory).b_size,
            final(memory).m_type == old(memory).m_type,
            (r, final(memory).window()) == write_outcome(
                self.vertex_image(),
                self.index_image(),
                old(memory).memory,
                old(memory).b_size,
                old(memory).window(),
                vrt_buffer.m_bind,
                idx_buffer.m_bind,
                vrt_offset,
                idx_offset,
            ),
    {
        let vrt_size = self.vertex_data_size();
        let idx_size = self.index_data_size();
        let words = self.vertex_data_words();
        let vrt_bytes = words_to_bytes(words.as_slice());
        let idx_bytes = words_to_bytes(self.indices.as_slice());
        proof {
            let count = self.vertices@.len();
            let each = T::word_count();
            assert(4 * (count * each) == count * 4 * each) by (nonlinear_arith);
            assert(vrt_bytes@ == self.vertex_image());
            assert(idx_bytes@ == self.index_image());
            assert(vrt_bytes@.len() == vrt_size);
            assert(idx_bytes@.len() == idx_size);
        }
        match vrt_buffer.wr_visible_mem(memory, vrt_bytes.as_slice(), vrt_size, vrt_offset) {
            Err(e) => Err(e),
            Ok(()) => idx_buffer.wr_visible_mem(memory, idx_bytes.as_slice(), idx_size, idx_offset),
        }
    }
}

/// What comes of writing `vertex_image` whole at `vrt_offset` within the
/// buffer bound by `vrt_bind`, and then `index_image` whole at `idx_offset`
/// within the buffer bound by `idx_bind`, against the arena `arena` of
/// `arena_size` bytes with the host window `window`: the verdict, and the
/// window afterwards.
pub open spec fn write_outcome(
    vertex_image: Seq<u8>,
    index_image: Seq<u8>,
    arena: u64,
    arena_size: u64,
    window: Option<Seq<u8>>,
    vrt_bind: Option<KewMemoryBinding>,
    idx_bind: Option<KewMemoryBinding>,
    vrt_offset: u64,
    idx_offset: u64,
) -> (Result<(), BufferError>, Option<Seq<u8>>) {
    let first = buffer_write_verdict(
        vrt_bind,
        arena,
        arena_size,
        window.is_some(),
        vertex_image.len(),
        vertex_image.len() as u64,
        vrt_offset,
    );
    let second = buffer_write_verdict(
        idx_bind,
        arena,
        arena_size,
        window.is_some(),
        index_image.len(),
        index_image.len() as u64,
        idx_offset,
    );
    if first.is_err() {
        (first, window)
    } else {
        let after_first = written(
            window.unwrap(),
            vertex_image,
            vertex_image.len() as int,
            vrt_bind.unwrap().offset + vrt_offset,
        );
        if second.is_err() {
            (second, Some(after_first))
        } else {
            (
                Ok(()),
                Some(
                    written(
                        after_first,
                        index_image,
                        index_image.len() as int,
                        idx_bind.unwrap().offset + idx_offset,
                    ),
                ),
            )
        }
    }
}

/// The vertices of the square.
pub open spec fn square_vertices() -> Seq<FlatVertex> {
    seq![
        FlatVertex::at(F32_NEG_0_8, F32_0_8, F32_1_0, F32_0_0, F32_0_0),
        FlatVertex::at(F32_NEG_0_8, F32_NEG_0_8, F32_0_0, F32_0_0, F32_1_0),
        FlatVertex::at(F32_0_8, F32_0_8, F32_1_0, F32_0_0, F32_0_0),
        FlatVertex::at(F32_0_8, F32_NEG_0_8, F32_0_0, F32_0_0, F32_1_0),
    ]
}

/// The indices of the square's two triangles.
pub open spec fn square_indices() -> Seq<u32> {
    seq![0u32, 1u32, 2u32, 2u32, 1u32, 3u32]
}

impl KewModelVertexData<FlatVertex> {
    /// A square of two triangles, red on its upper and blue on its lower
    /// edge.
    pub fn square() -> (r: Self)
        ensures
            r.vertices@ == square_vertices(),
            r.indices@ == square_indices(),
    {
        let mut vertices: Vec<FlatVertex> = Vec::with_capacity(4);
        vertices.push(FlatVertex::new([F32_NEG_0_8, F32_0_8], [F32_1_0, F32_0_0, F32_0_0]));
        vertices.push(FlatVertex::new([F32_NEG_0_8, F32_NEG_0_8], [F32_0_0, F32_0_0, F32_1_0]));
        vertices.push(FlatVertex::new([F32_0_8, F32_0_8], [F32_1_0, F32_0_0, F32_0_0]));
        vertices.push(FlatVertex::new([F32_0_8, F32_NEG_0_8], [F32_0_0, F32_0_0, F32_1_0]));
        let mut indices: Vec<u32> = Vec::with_capacity(6);
        indices.push(0);
        indices.push(1);
        indices.push(2);
        indices.push(2);
        indices.push(1);
        indices.push(3);
        assert(indices@ =~= square_indices());
        assert(vertices@ =~= square_vertices());
        Self { vertices, indices }
    }
}

/// The vertex format of a pipeline.
#[derive(Clone, Copy, Debug, PartialEq, Eq, Structural)]
pub enum VertexType {
    /// No vertex buffer: the vertex shader makes its vertices up.
    NULL,
    /// `FlatVertex`.
    FLAT,
}

/// The one binding of flat vertices.
pub open spec fn flat_bindings() -> Seq<VertexInputBindingDescription> {
    seq![
        VertexInputBindingDescription {
            binding: 0,
            stride: 20,
            input_rate: VERTEX_INPUT_RATE_VERTEX,
        },
    ]
}

/// The attributes of a flat vertex: a position of two components, then a
/// colour of three.
pub open spec fn flat_attributes() -> Seq<VertexInputAttributeDescription> {
    seq![
        VertexInputAttributeDescription {
            location: 0,
            binding: 0,
            format: FORMAT_R32G32_SFLOAT,
            offset: 0,
        },
        VertexInputAttributeDescription {
            location: 1,
            binding: 0,
            format: FORMAT_R32G32B32_SFLOAT,
            offset: 8,
        },
    ]
}

impl VertexType {
    /// The vertex buffer bindings of the format, if it has vertex buffers.
    pub fn bind_descriptions(&self) -> (r: Option<Vec<VertexInputBindingDescription>>)
        ensures
            *self == VertexType::NULL ==> r.is_none(),
            *self == VertexType::FLAT ==> r.is_some() && r.unwrap()@ == flat_bindings(),
    {
        match self {
            VertexType::NULL => None,
            VertexType::FLAT => Some(FlatVertex::bind_descriptions()),
        }
    }

    /// The vertex attributes of the format, if it has vertex buffers.
    pub fn attr_descriptions(&self) -> (r: Option<Vec<VertexInputAttributeDescription>>)
        ensures
            *self == VertexType::NULL ==> r.is_none(),
            *self == VertexType::FLAT ==> r.is_some() && r.unwrap()@ == flat_attributes(),
    {
        match self {
            VertexType::NULL => None,
            VertexType::FLAT => Some(FlatVertex::attr_descriptions()),
        }
    }
}

/// A vertex with a position in the plane and a colour, each component held
/// as the bit pattern of a 32-bit float.
#[derive(Clone, Copy)]
pub struct FlatVertex {
    pub pos: Vector<u32, 2>,
    pub col: Vector<u32, 3>,
}

impl FlatVertex {
    /// The vertex at `(x, y)` with colour `(r, g, b)`.
    pub open spec fn at(x: u32, y: u32, r: u32, g: u32, b: u32) -> FlatVertex {
        FlatVertex { pos: Vector { data: [x, y] }, col: Vector { data: [r, g, b] } }
    }

    pub fn new(pos: [u32; 2], col: [u32; 3]) -> (r: Self)
        ensures
            r == (FlatVertex { pos: Vector { data: pos }, col: Vector { data: col } }),
    {
        Self { pos: Vector::from(pos), col: Vector::from(col) }
    }

    pub fn bind_descriptions() -> (r: Vec<VertexInputBindingDescription>)
        ensures
            r@ == flat_bindings(),
    {
        let mut bindings: Vec<VertexInputBindingDescription> = Vec::with_capacity(1);
        bindings.push(
            VertexInputBindingDescription {
                binding: 0,
                stride: 20,
                input_rate: VERTEX_INPUT_RATE_VERTEX,
            },
        );
        assert(bindings@ =~= flat_bindings());
        bindings
    }

    pub fn attr_descriptions() -> (r: Vec<VertexInputAttributeDescription>)
        ensures
            r@ == flat_attributes(),
    {
        let mut attributes: Vec<VertexInputAttributeDescription> = Vec::with_capacity(2);
        attributes.push(
            VertexInputAttributeDescription {
                location: 0,
                binding: 0,
                format: FORMAT_R32G32_SFLOAT,
                offset: 0,
            },
        );
        attributes.push(
            VertexInputAttributeDescription {
                location: 1,
                binding: 0,
                format: FORMAT_R32G32B32_SFLOAT,
                offset: 8,
            },
        );
        assert(attributes@ =~= flat_attributes());
        attributes
    }
}

impl KewVertex for FlatVertex {
    open spec fn word_count() -> nat {
        5
    }

    open spec fn words(&self) -> Seq<u32> {
        self.pos@ + self.col@
    }

    fn vertex_size() -> (r: u64) {
        20
    }

    fn push_words(&self, out: &mut Vec<u32>) {
        out.push(self.pos.data[0]);
        out.push(self.pos.data[1]);
        out.push(self.col.data[0]);
        out.push(self.col.data[1]);
        out.push(self.col.data[2]);
        assert(out@ =~= old(out)@ + self.words());
    }
}

/// A vertex with position, normal, colour and texture coordinate, each
/// component held as the bit pattern of a 32-bit float.
#[derive(Clone, Copy)]
pub struct Vertex {
    pub position: Vector<u32, 3>,
    pub normal: Vector<u32, 3>,
    pub color: Vector<u32, 3>,
    pub texture: Vector<u32, 2>,
}

/// The one binding of full vertices.
pub open spec fn full_bindings() -> Seq<VertexInputBindingDescription> {
    seq![
        VertexInputBindingDescription {
            binding: 0,
            stride: 44,
            input_rate: VERTEX_INPUT_RATE_VERTEX,
        },
    ]
}

/// The attributes of a full vertex: position, normal and colour of three
/// components each, then a texture coordinate of two.
pub open spec fn full_attributes() -> Seq<VertexInputAttributeDescription> {
    seq![
        VertexInputAttributeDescription {
            location: 0,
            binding: 0,
            format: FORMAT_R32G32B32_SFLOAT,
            offset: 0,
        },
        VertexInputAttributeDescription {
            location: 1,
            binding: 0,
            format: FORMAT_R32G32B32_SFLOAT,
            offset: 12,
        },
        VertexInputAttributeDescription {
            location: 2,
            binding: 0,
            format: FORMAT_R32G32B32_SFLOAT,
            offset: 24,
        },
        VertexInputAttributeDescription {
            location: 3,
            binding: 0,
            format: FORMAT_R32G32_SFLOAT,
            offset: 36,
        },
    ]
}

impl Vertex {
    pub fn bind_descriptions() -> (r: Vec<VertexInputBindingDescription>)
        ensures
            r@ == full_bindings(),
    {
        let mut bindings: Vec<VertexInputBindingDescription> = Vec::with_capacity(1);
        bindings.push(
            VertexInputBindingDescription {
                binding: 0,
                stride: 44,
                input_rate: VERTEX_INPUT_RATE_VERTEX,
            },
        );
        assert(bindings@ =~= full_bindings());
        bindings
    }

    pub fn attr_descriptions() -> (r: Vec<VertexInputAttributeDescription>)
        ensures
            r@ == full_attributes(),
    {
        let vector3_size: u32 = 12;
        let mut attributes: Vec<VertexInputAttributeDescription> = Vec::with_capacity(4);
        attributes.push(
            VertexInputAttributeDescription {
                location: 0,
                binding: 0,
                format: FORMAT_R32G32B32_SFLOAT,
                offset: 0,
            },
        );
        attributes.push(
            VertexInputAttributeDescription {
                location: 1,
                binding: 0,
                format: FORMAT_R32G32B32_SFLOAT,
                offset: vector3_size,
            },
        );
        attributes.push(
            VertexInputAttributeDescription {
                location: 2,
                binding: 0,
                format: FORMAT_R32G32B32_SFLOAT,
                offset: 2 * vector3_size,
            },
        );
        attributes.push(
            VertexInputAttributeDescription {
                location: 3,
                binding: 0,
                format: FORMAT_R32G32_SFLOAT,
                offset: 3 * vector3_size,
            },
        );
        assert(attributes@ =~= full_attributes());
        attributes
    }
}

} // verus!
