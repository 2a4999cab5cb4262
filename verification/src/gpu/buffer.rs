//! A buffer object and its one binding to a memory arena.

use crate::gpu::image::KewImage;
use crate::gpu::memory::{bind_once, written, KewMemory, KewMemoryBinding, MemoryError};
use crate::gpu::vk::{BufferImageCopy, IMAGE_LAYOUT_TRANSFER_DST_OPTIMAL, SHARING_MODE_EXCLUSIVE};
use vstd::prelude::*;

verus! {

/// What a buffer is created from.
#[derive(Clone, Copy, Debug, PartialEq, Eq, Structural)]
pub struct BufferCreateInfo {
    pub b_size: u64,
    pub usage: u32,
    pub sharing_mode: i32,
}

/// The range of a buffer that a descriptor exposes.
#[derive(Clone, Copy, Debug, PartialEq, Eq, Structural)]
pub struct DescriptorBufferInfo {
    pub buffer: u64,
    pub offset: u64,
    pub range: u64,
}

/// A recorded copy from a buffer into an image.
#[derive(Clone, Copy, Debug, PartialEq, Eq, Structural)]
pub struct BufferToImageCopy {
    pub src_buffer: u64,
    pub dst_image: u64,
    pub dst_image_layout: i32,
    pub region: BufferImageCopy,
}

/// Why a write through a buffer was refused.
#[derive(Clone, Copy, Debug, PartialEq, Eq, Structural)]
pub enum BufferError {
    /// The buffer has no binding.
    Unbound,
    /// The arena handed in is not the one the buffer is bound to.
    ForeignArena,
    /// The arena refused the access.
    Memory(MemoryError),
}

/// A buffer of `b_size` bytes, named by its handle, and where it is bound,
/// once it is.
pub struct KewBuffer {
    pub m_bind: Option<KewMemoryBinding>,
    pub vk_buffer: u64,
    pub b_size: u64,
}

/// The verdict on a write of `b_size` bytes at `offset` within a buffer whose
/// binding is `m_bind`, made against the arena `arena` of `arena_size`
/// bytes.
pub open spec fn buffer_write_verdict(
    m_bind: Option<KewMemoryBinding>,
    arena: u64,
    arena_size: u64,
    is_mapped: bool,
    data_len: nat,
    b_size: u64,
    offset: u64,
) -> Result<(), BufferError> {
    match m_bind {
        None => Err(BufferError::Unbound),
        Some(binding) => if binding.memory != arena {
            Err(BufferError::ForeignArena)
        } else if !is_mapped {
            Err(BufferError::Memory(MemoryError::Unmapped))
        } else if b_size + binding.offset + offset > arena_size {
            Err(BufferError::Memory(MemoryError::OutOfBounds))
        } else if data_len < b_size {
            Err(BufferError::Memory(MemoryError::ShortData))
        } else {
            Ok(())
        },
    }
}

impl KewBuffer {
    /// The description of a buffer of `b_size` bytes for exclusive use.
    pub fn create_info(b_size: u64, usage: u32) -> (r: BufferCreateInfo)
        ensures
            r == (BufferCreateInfo { b_size, usage, sharing_mode: SHARING_MODE_EXCLUSIVE }),
    {
        BufferCreateInfo { b_size, usage, sharing_mode: SHARING_MODE_EXCLUSIVE }
    }

    /// Records a buffer of `b_size` bytes created under the handle
    /// `vk_buffer`. It starts unbound.
    pub fn new(vk_buffer: u64, b_size: u64) -> (r: Self)
        ensures
            r.vk_buffer == vk_buffer,
            r.b_size == b_size,
            r.m_bind.is_none(),
    {
        KewBuffer { m_bind: None, vk_buffer, b_size }
    }

    /// Binds the buffer to `memory` at `offset`, once. Returns the binding to
    /// establish on the device; on a bound buffer nothing changes and nothing
    /// is returned.
    pub fn bind_memory(&mut self, memory: &KewMemory, offset: u64) -> (r: Option<KewMemoryBinding>)
        ensures
            final(self).vk_buffer == old(self).vk_buffer,
            final(self).b_size == old(self).b_size,
            final(self).m_bind == bind_once(
                old(self).m_bind,
                (KewMemoryBinding { memory: memory.memory, offset }),
            ),
            old(self).m_bind.is_some() ==> r.is_none(),
            old(self).m_bind.is_none() ==> r == final(self).m_bind,
    {
        if self.m_bind.is_none() {
            let binding = KewMemoryBinding { memory: memory.memory, offset };
            self.m_bind = Some(binding);
            Some(binding)
        } else {
            None
        }
    }

    /// The copy of the whole buffer, tightly packed, into the first layer of
    /// `image`, which must be in the transfer-destination layout when the
    /// copy runs.
    pub fn copy_to_image(&self, image: &KewImage) -> (r: BufferToImageCopy)
        ensures
            r.src_buffer == self.vk_buffer,
            r.dst_image == image.vk_image,
            r.dst_image_layout == IMAGE_LAYOUT_TRANSFER_DST_OPTIMAL,
            r.region == image.whole_region(),
    {
        BufferToImageCopy {
            src_buffer: self.vk_buffer,
            dst_image: image.vk_image,
            dst_image_layout: IMAGE_LAYOUT_TRANSFER_DST_OPTIMAL,
            region: image.copy_region(),
        }
    }

    /// Stores the first `b_size` bytes of `data` at `offset` within the
    /// buffer, that is at the binding's offset plus `offset` within the arena.
    pub fn wr_visible_mem(
        &self,
        memory: &mut KewMemory,
        data: &[u8],
        b_size: u64,
        offset: u64,
    ) -> (r: Result<(), BufferError>)
        requires
            old(memory).wf(),
        ensures
            final(memory).wf(),
            final(memory).memory == old(memory).memory,
            final(memory).b_size == old(memory).b_size,
            final(memory).m_type == old(memory).m_type,
            r == buffer_write_verdict(
                self.m_bind,
                old(memory).memory,
                old(memory).b_size,
                old(memory).window().is_some(),
                data@.len(),
                b_size,
                offset,
            ),
            r.is_ok() ==> final(memory).window() == Some(
                written(
                    old(memory).window().unwrap(),
                    data@,
                    b_size as int,
                    self.m_bind.unwrap().offset + offset,
                ),
            ),
            r.is_err() ==> final(memory).window() == old(memory).window(),
    {
        match self.m_bind {
            None => Err(BufferError::Unbound),
            Some(binding) => {
                if binding.memory != memory.memory {
                    return Err(BufferError::ForeignArena);
                }
                if !memory.is_mapped() {
                    return Err(BufferError::Memory(MemoryError::Unmapped));
                }
                if offset > u64::MAX - binding.offset {
                    return Err(BufferError::Memory(MemoryError::OutOfBounds));
                }
                match memory.wr_visible_mem(data, b_size, binding.offset + offset) {
                    Ok(()) => Ok(()),
                    Err(e) => Err(BufferError::Memory(e)),
                }
            },
        }
    }

    /// The descriptor view of the whole buffer.
    pub fn descriptor_info(&self) -> (r: DescriptorBufferInfo)
        ensures
            r == (DescriptorBufferInfo { buffer: self.vk_buffer, offset: 0, range: self.b_size }),
    {
        DescriptorBufferInfo { buffer: self.vk_buffer, offset: 0, range: self.b_size }
    }
}

} // verus!
