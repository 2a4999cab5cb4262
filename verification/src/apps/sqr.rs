//! The square job: every number of an input buffer is squared into an
//! output buffer.
//!
//! Both buffers live in one arena, the input at its front and the output
//! at the next multiple of the buffers' alignment.

use crate::gpu::buffer::{DescriptorBufferInfo, KewBuffer};
use crate::gpu::bytes::{bytes_to_words, bytes_words, words_bytes, words_to_bytes};
use crate::gpu::command::Command;
use crate::gpu::descriptor::{DescriptorPoolCreateInfo, DescriptorPoolSize, KewDescriptorPoolBuilder};
use crate::gpu::memory::{
    bind_once, window_once_mapped, written, KewMemory, KewMemoryBinding, MapRange, MemoryError,
    WHOLE_SIZE,
};
use crate::gpu::shader::{
    DescriptorSetLayoutBindingInfo, DescriptorTarget, KewShader, ShaderStageConfig,
    WriteDescriptorSet,
};
use crate::gpu::vk::{DESCRIPTOR_TYPE_STORAGE_BUFFER, SHADER_STAGE_COMPUTE};
use vstd::prelude::*;

verus! {

/// Where the two buffers of a square job lie.
#[derive(Clone, Copy, Debug, PartialEq, Eq, Structural)]
pub struct SqrLayout {
    /// The size of each buffer: four bytes for each number.
    pub buffer_b_size: u64,
    /// The room that each buffer takes: its size, rounded up to the
    /// alignment.
    pub memory_b_size: u64,
    /// The size of the arena: room for both buffers.
    pub arena_b_size: u64,
}

/// `size` rounded up to `alignment`, a power of two.
pub open spec fn aligned_up(size: u64, alignment: u64) -> u64 {
    ((size + alignment - 1) as u64) & !((alignment - 1) as u64)
}

/// The layout of a job on `count` numbers with buffers aligned to
/// `alignment`, where its sizes fit 64 bits.
pub open spec fn layout_of(count: nat, alignment: u64) -> Option<SqrLayout> {
    if alignment >= 1 && 4 * count + alignment - 1 <= u64::MAX && 2 * aligned_up(
        (4 * count) as u64,
        alignment,
    ) <= u64::MAX {
        Some(
            SqrLayout {
                buffer_b_size: (4 * count) as u64,
                memory_b_size: aligned_up((4 * count) as u64, alignment),
                arena_b_size: (2 * aligned_up((4 * count) as u64, alignment)) as u64,
            },
        )
    } else {
        None
    }
}

/// The numbers as the words that memory holds.
pub open spec fn as_words(numbers: Seq<i32>) -> Seq<u32> {
    numbers.map_values(|x: i32| x as u32)
}

/// The words of memory as numbers.
pub open spec fn as_numbers(words: Seq<u32>) -> Seq<i32> {
    words.map_values(|w: u32| w as i32)
}

/// The stage that squares: an input and an output storage buffer.
pub fn sqr_shader_config() -> (r: ShaderStageConfig<2>)
    ensures
        r.entry_name@ == "main"@,
        r.path@ == "./shader/sqr.spv"@,
        r.stage == SHADER_STAGE_COMPUTE,
        r.create_flags == 0,
        r.bindings@ == seq![
            DescriptorSetLayoutBindingInfo {
                descriptor_type: DESCRIPTOR_TYPE_STORAGE_BUFFER,
                descriptor_count: 1,
                stage_flags: SHADER_STAGE_COMPUTE,
            },
            DescriptorSetLayoutBindingInfo {
                descriptor_type: DESCRIPTOR_TYPE_STORAGE_BUFFER,
                descriptor_count: 1,
                stage_flags: SHADER_STAGE_COMPUTE,
            },
        ],
{
    let binding = DescriptorSetLayoutBindingInfo {
        descriptor_type: DESCRIPTOR_TYPE_STORAGE_BUFFER,
        descriptor_count: 1,
        stage_flags: SHADER_STAGE_COMPUTE,
    };
    let config = ShaderStageConfig {
        entry_name: "main",
        path: "./shader/sqr.spv",
        bindings: [binding, binding],
        stage: SHADER_STAGE_COMPUTE,
        create_flags: 0,
    };
    assert(config.bindings@ =~= seq![binding, binding]);
    config
}

/// The description of the job's descriptor pool: one set of two storage
/// buffers.
pub fn sqr_descriptor_pool() -> (r: DescriptorPoolCreateInfo)
    ensures
        r.max_sets == 1,
        r.flags == 0,
        r.pool_sizes@ == seq![
            DescriptorPoolSize { ty: DESCRIPTOR_TYPE_STORAGE_BUFFER, descriptor_count: 2 },
        ],
{
    let info = KewDescriptorPoolBuilder::new(1).add_pool_size(
        DESCRIPTOR_TYPE_STORAGE_BUFFER,
        2,
    ).build();
    assert(info.pool_sizes@ =~= seq![
        DescriptorPoolSize { ty: DESCRIPTOR_TYPE_STORAGE_BUFFER, descriptor_count: 2 },
    ]);
    info
}

/// The layout of a job on `count` numbers.
pub fn sqr_layout(count: usize, min_alignment: u64) -> (r: Option<SqrLayout>)
    ensures
        r == layout_of(count as nat, min_alignment),
{
    if min_alignment == 0 || count as u64 > (u64::MAX - (min_alignment - 1)) / 4 {
        return None;
    }
    let buffer_b_size: u64 = count as u64 * 4;
    let memory_b_size: u64 = (buffer_b_size + (min_alignment - 1)) & !(min_alignment - 1);
    if memory_b_size > u64::MAX / 2 {
        return None;
    }
    Some(SqrLayout { buffer_b_size, memory_b_size, arena_b_size: memory_b_size * 2 })
}

/// Rounding up to a power of two gives the least multiple of it that is
/// not below the size.
pub proof fn lemma_aligned_up(size: u64, alignment: u64)
    requires
        alignment >= 1,
        alignment & ((alignment - 1) as u64) == 0,
        size + alignment - 1 <= u64::MAX,
    ensures
        aligned_up(size, alignment) >= size,
        aligned_up(size, alignment) - size < alignment,
        aligned_up(size, alignment) & ((alignment - 1) as u64) == 0,
{
    let mask: u64 = (alignment - 1) as u64;
    let top: u64 = (size + mask) as u64;
    let r: u64 = top & !mask;
    assert(r >= size && r - size <= mask && r & mask == 0) by (bit_vector)
        requires
            alignment >= 1,
            mask == alignment - 1,
            alignment & mask == 0,
            top == size + mask,
            r == top & !mask,
    ;
}

/// What comes of staging `data` on an arena of `arena_size` bytes with the
/// host window `window`: the verdict, and the window afterwards. The
/// arena is mapped, and the input's bytes are written to its front where
/// they fit.
pub open spec fn stage_outcome(window: Option<Seq<u8>>, arena_size: u64, data: Seq<i32>) -> (
    Result<(), MemoryError>,
    Seq<u8>,
) {
    let mapped = window_once_mapped(window, arena_size);
    if 4 * data.len() > arena_size {
        (Err(MemoryError::OutOfBounds), mapped)
    } else {
        (Ok(()), written(mapped, words_bytes(as_words(data)), 4 * data.len() as int, 0))
    }
}

/// Stages a job: binds the input buffer to the arena's front and the
/// output buffer behind the input's room, maps the arena whole, and writes
/// the input to its front. Returns the range to map, where the arena was
/// not mapped. Bindings that the buffers had stand.
pub fn sqr_stage(
    memory: &mut KewMemory,
    src_buffer: &mut KewBuffer,
    dst_buffer: &mut KewBuffer,
    layout: &SqrLayout,
    data: &[i32],
) -> (r: Result<Option<MapRange>, MemoryError>)
    requires
        old(memory).wf(),
        old(memory).b_size <= usize::MAX,
    ensures
        final(memory).wf(),
        final(memory).memory == old(memory).memory,
        final(memory).b_size == old(memory).b_size,
        final(memory).m_type == old(memory).m_type,
        final(src_buffer).vk_buffer == old(src_buffer).vk_buffer,
        final(src_buffer).b_size == old(src_buffer).b_size,
        final(dst_buffer).vk_buffer == old(dst_buffer).vk_buffer,
        final(dst_buffer).b_size == old(dst_buffer).b_size,
        final(src_buffer).m_bind == bind_once(
            old(src_buffer).m_bind,
            (KewMemoryBinding { memory: old(memory).memory, offset: 0 }),
        ),
        final(dst_buffer).m_bind == bind_once(
            old(dst_buffer).m_bind,
            (KewMemoryBinding { memory: old(memory).memory, offset: layout.memory_b_size }),
        ),
        ({
            let outcome = stage_outcome(old(memory).window(), old(memory).b_size, data@);
            let range = if old(memory).window().is_none() {
                Some(MapRange { memory: old(memory).memory, offset: 0, b_size: WHOLE_SIZE })
            } else {
                None
            };
            &&& final(memory).window() == Some(outcome.1)
            &&& r == match outcome.0 {
                Ok(_) => Ok::<Option<MapRange>, MemoryError>(range),
                Err(e) => Err::<Option<MapRange>, MemoryError>(e),
            }
        }),
{
    let _ = src_buffer.bind_memory(memory, 0);
    let _ = dst_buffer.bind_memory(memory, layout.memory_b_size);
    let range = memory.map(WHOLE_SIZE, 0);
    let limit: usize = memory.mapped.as_ref().unwrap().len();
    if data.len() > limit / 4 {
        return Err(MemoryError::OutOfBounds);
    }
    let words = numbers_to_words(data);
    let bytes = words_to_bytes(words.as_slice());
    match memory.wr_visible_mem(bytes.as_slice(), data.len() as u64 * 4, 0) {
        Ok(()) => Ok(range),
        Err(e) => Err(e),
    }
}

/// The numbers as words.
pub fn numbers_to_words(numbers: &[i32]) -> (r: Vec<u32>)
    ensures
        r@ == as_words(numbers@),
{
    let mut words: Vec<u32> = Vec::with_capacity(numbers.len());
    let mut i: usize = 0;
    while i < numbers.len()
        invariant
            i <= numbers@.len(),
            words@.len() == i,
            forall|k: int| 0 <= k < i ==> words@[k] == numbers@[k] as u32,
        decreases numbers@.len() - i,
    {
        words.push(numbers[i] as u32);
        i += 1;
    }
    assert(words@ =~= as_words(numbers@));
    words
}

/// The words as numbers.
pub fn words_to_numbers(words: &[u32]) -> (r: Vec<i32>)
    ensures
        r@ == as_numbers(words@),
{
    let mut numbers: Vec<i32> = Vec::with_capacity(words.len());
    let mut i: usize = 0;
    while i < words.len()
        invariant
            i <= words@.len(),
            numbers@.len() == i,
            forall|k: int| 0 <= k < i ==> numbers@[k] == words@[k] as i32,
        decreases words@.len() - i,
    {
        numbers.push(words[i] as i32);
        i += 1;
    }
    assert(numbers@ =~= as_numbers(words@));
    numbers
}

/// The writes that point the first binding of `set` at the input buffer
/// and the second at the output buffer.
pub fn sqr_descriptor_writes(
    shader: &KewShader,
    src_buffer: &KewBuffer,
    dst_buffer: &KewBuffer,
    set: u64,
) -> (r: Vec<WriteDescriptorSet>)
    requires
        shader.bindings@.len() >= 2,
    ensures
        r@ == seq![
            WriteDescriptorSet {
                descriptor_type: shader.bindings@[0].descriptor_type,
                dst_binding: 0,
                dst_set: set,
                target: DescriptorTarget::Buffer(
                    DescriptorBufferInfo {
                        buffer: src_buffer.vk_buffer,
                        offset: 0,
                        range: src_buffer.b_size,
                    },
                ),
            },
            WriteDescriptorSet {
                descriptor_type: shader.bindings@[1].descriptor_type,
                dst_binding: 1,
                dst_set: set,
                target: DescriptorTarget::Buffer(
                    DescriptorBufferInfo {
                        buffer: dst_buffer.vk_buffer,
                        offset: 0,
                        range: dst_buffer.b_size,
                    },
                ),
            },
        ],
{
    let mut writes: Vec<WriteDescriptorSet> = Vec::with_capacity(2);
    writes.push(shader.write_buffer(0, src_buffer.descriptor_info(), set));
    writes.push(shader.write_buffer(1, dst_buffer.descriptor_info(), set));
    writes
}

/// The command that runs the stage once for each of `count` numbers.
pub fn sqr_dispatch(count: u32) -> (r: Command)
    ensures
        r == (Command::Dispatch { x: count, y: 1, z: 1 }),
{
    Command::Dispatch { x: count, y: 1, z: 1 }
}

/// The verdict on fetching `count` numbers at `offset` from an arena.
pub open spec fn fetch_verdict(is_mapped: bool, arena_size: u64, count: nat, offset: u64) -> Result<
    (),
    MemoryError,
> {
    if !is_mapped {
        Err(MemoryError::Unmapped)
    } else if 4 * count + offset > arena_size {
        Err(MemoryError::OutOfBounds)
    } else {
        Ok(())
    }
}

/// The result of the job: the `count` numbers that the arena holds at
/// `offset`, the offset of the output buffer.
pub fn sqr_compute(memory: &KewMemory, count: usize, offset: u64) -> (r: Result<
    Vec<i32>,
    MemoryError,
>)
    requires
        memory.wf(),
    ensures
        match fetch_verdict(memory.window().is_some(), memory.b_size, count as nat, offset) {
            Err(e) => r == Err::<Vec<i32>, MemoryError>(e),
            Ok(_) => r.is_ok() && r.unwrap()@ == as_numbers(
                bytes_words(
                    memory.window().unwrap().subrange(offset as int, offset + 4 * count),
                    count as nat,
                ),
            ),
        },
{
    if !memory.is_mapped() {
        return Err(MemoryError::Unmapped);
    }
    let limit: usize = memory.mapped.as_ref().unwrap().len();
    if count > limit / 4 {
        return Err(MemoryError::OutOfBounds);
    }
    let b_size: u64 = count as u64 * 4;
    let mut bytes: Vec<u8> = vec![0u8; count * 4];
    match memory.rd_visible_mem(&mut bytes, b_size, offset) {
        Err(e) => Err(e),
        Ok(()) => {
            assert(bytes@ =~= memory.window().unwrap().subrange(
                offset as int,
                offset + 4 * count,
            ));
            let words = bytes_to_words(bytes.as_slice(), count);
            Ok(words_to_numbers(words.as_slice()))
        },
    }
}

} // verus!
