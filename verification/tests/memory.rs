use kew::gpu::buffer::{BufferError, KewBuffer};
use kew::gpu::image::{ImageDescriptor, KewImage};
use kew::gpu::memory::{KewMemory, KewMemoryBinding, MapRange, MemoryError, WHOLE_SIZE};
use kew::gpu::vk::{
    FORMAT_R8G8B8A8_UNORM, IMAGE_LAYOUT_GENERAL, IMAGE_LAYOUT_TRANSFER_DST_OPTIMAL,
    IMAGE_LAYOUT_UNDEFINED, QUEUE_FAMILY_IGNORED,
};

fn mapped(size: u64) -> KewMemory {
    let mut memory = KewMemory::new(7, size, 1);
    assert_eq!(
        memory.map(WHOLE_SIZE, 0),
        Some(MapRange { memory: 7, offset: 0, b_size: WHOLE_SIZE })
    );
    memory
}

#[test]
fn new_arena_is_unmapped() {
    let memory = KewMemory::new(7, 64, 3);
    assert_eq!(memory.memory, 7);
    assert_eq!(memory.b_size, 64);
    assert_eq!(memory.m_type, 3);
    assert!(!memory.is_mapped());
    let info = KewMemory::allocate_info(64, 3);
    assert_eq!(info.allocation_size, 64);
    assert_eq!(info.memory_type_index, 3);
}

#[test]
fn second_map_is_a_no_op() {
    let mut memory = mapped(8);
    memory.wr_visible_mem(&[1, 2, 3], 3, 0).unwrap();
    assert_eq!(memory.map(4, 2), None);
    let mut back = vec![0u8; 3];
    memory.rd_visible_mem(&mut back, 3, 0).unwrap();
    assert_eq!(back, vec![1, 2, 3]);
}

#[test]
fn map_hands_the_range_on() {
    let mut memory = KewMemory::new(9, 16, 0);
    assert_eq!(memory.map(4, 8), Some(MapRange { memory: 9, offset: 8, b_size: 4 }));
    assert_eq!(memory.mapped, Some(vec![0u8; 16]));
}

#[test]
fn unmap_closes_the_window_once() {
    let mut memory = mapped(8);
    assert!(memory.unmap());
    assert!(!memory.is_mapped());
    assert!(!memory.unmap());
    assert_eq!(memory.wr_visible_mem(&[1], 1, 0), Err(MemoryError::Unmapped));
}

#[test]
fn write_then_read_returns_the_pattern() {
    let pattern: Vec<u8> = (0..32u8).map(|b| b.wrapping_mul(7).wrapping_add(3)).collect();
    let mut memory = mapped(32);
    assert_eq!(memory.wr_visible_mem(&pattern, 32, 0), Ok(()));
    let mut back = vec![0u8; 32];
    assert_eq!(memory.rd_visible_mem(&mut back, 32, 0), Ok(()));
    assert_eq!(back, pattern);
}

#[test]
fn write_then_read_in_a_larger_arena() {
    let pattern = [0xde, 0xad, 0xbe, 0xef, 0x01];
    let mut memory = mapped(100);
    memory.wr_visible_mem(&pattern, 5, 0).unwrap();
    let mut back = vec![9u8; 7];
    memory.rd_visible_mem(&mut back, 5, 0).unwrap();
    assert_eq!(back, vec![0xde, 0xad, 0xbe, 0xef, 0x01, 9, 9]);
}

#[test]
fn write_at_an_offset_leaves_the_rest() {
    let mut memory = mapped(8);
    memory.wr_visible_mem(&[1, 2, 3, 4], 2, 5).unwrap();
    assert_eq!(memory.mapped, Some(vec![0, 0, 0, 0, 0, 1, 2, 0]));
    let mut back = vec![0u8; 3];
    memory.rd_visible_mem(&mut back, 3, 4).unwrap();
    assert_eq!(back, vec![0, 1, 2]);
}

#[test]
fn access_beyond_the_arena_is_refused() {
    for arena in [0u64, 1, 7, 16] {
        let mut memory = mapped(arena);
        let before = memory.mapped.clone();
        for size in 0..20u64 {
            for offset in 0..20u64 {
                let data = vec![5u8; 32];
                let mut sink = vec![6u8; 32];
                let write = memory.wr_visible_mem(&data, size, offset);
                let read = memory.rd_visible_mem(&mut sink, size, offset);
                if size + offset > arena {
                    assert_eq!(write, Err(MemoryError::OutOfBounds));
                    assert_eq!(read, Err(MemoryError::OutOfBounds));
                    assert_eq!(sink, vec![6u8; 32]);
                } else {
                    assert_eq!(write, Ok(()));
                    assert_eq!(read, Ok(()));
                }
            }
        }
        if arena == 0 {
            assert_eq!(memory.mapped, before);
        }
    }
}

#[test]
fn sizes_that_overflow_are_out_of_bounds() {
    let mut memory = mapped(16);
    assert_eq!(memory.wr_visible_mem(&[1], u64::MAX, 1), Err(MemoryError::OutOfBounds));
    assert_eq!(memory.wr_visible_mem(&[1], 1, u64::MAX), Err(MemoryError::OutOfBounds));
    let mut sink = vec![0u8; 1];
    assert_eq!(memory.rd_visible_mem(&mut sink, u64::MAX, u64::MAX), Err(MemoryError::OutOfBounds));
    assert_eq!(memory.mapped, Some(vec![0u8; 16]));
}

#[test]
fn unmapped_access_is_refused_first() {
    let mut memory = KewMemory::new(1, 4, 0);
    assert_eq!(memory.wr_visible_mem(&[1, 2], 2, 0), Err(MemoryError::Unmapped));
    assert_eq!(memory.wr_visible_mem(&[1, 2], 9, 9), Err(MemoryError::Unmapped));
    let mut sink = vec![0u8; 2];
    assert_eq!(memory.rd_visible_mem(&mut sink, 2, 0), Err(MemoryError::Unmapped));
}

#[test]
fn short_data_is_refused() {
    let mut memory = mapped(16);
    assert_eq!(memory.wr_visible_mem(&[1, 2], 3, 0), Err(MemoryError::ShortData));
    let mut sink = vec![0u8; 2];
    assert_eq!(memory.rd_visible_mem(&mut sink, 3, 0), Err(MemoryError::ShortData));
    assert_eq!(memory.wr_visible_mem(&[1, 2], 3, 14), Err(MemoryError::OutOfBounds));
}

#[test]
fn buffer_binds_once() {
    let first = KewMemory::new(11, 64, 0);
    let second = KewMemory::new(12, 64, 0);
    let mut buffer = KewBuffer::new(5, 16);
    assert_eq!(buffer.m_bind, None);
    assert_eq!(
        buffer.bind_memory(&first, 8),
        Some(KewMemoryBinding { memory: 11, offset: 8 })
    );
    assert_eq!(buffer.bind_memory(&second, 24), None);
    assert_eq!(buffer.bind_memory(&first, 0), None);
    assert_eq!(buffer.m_bind, Some(KewMemoryBinding { memory: 11, offset: 8 }));
    assert_eq!(buffer.vk_buffer, 5);
    assert_eq!(buffer.b_size, 16);
}

#[test]
fn image_binds_once() {
    let first = KewMemory::new(11, 64, 0);
    let second = KewMemory::new(12, 64, 0);
    let mut image = KewImage::new(3, 4, 2, FORMAT_R8G8B8A8_UNORM, 32);
    assert_eq!(
        image.bind_memory(&first, 16),
        Some(KewMemoryBinding { memory: 11, offset: 16 })
    );
    assert_eq!(image.get_offset(), 16);
    assert_eq!(image.bind_memory(&second, 0), None);
    assert_eq!(image.m_bind, Some(KewMemoryBinding { memory: 11, offset: 16 }));
    assert_eq!(image.get_offset(), 16);
}

#[test]
fn buffer_writes_at_its_binding() {
    let mut memory = mapped(16);
    let mut buffer = KewBuffer::new(5, 8);
    buffer.bind_memory(&memory, 4);
    assert_eq!(buffer.wr_visible_mem(&mut memory, &[1, 2, 3], 3, 2), Ok(()));
    assert_eq!(
        memory.mapped,
        Some(vec![0, 0, 0, 0, 0, 0, 1, 2, 3, 0, 0, 0, 0, 0, 0, 0])
    );
}

#[test]
fn buffer_write_errors() {
    let mut memory = mapped(16);
    let mut other = mapped(16);
    other.memory = 8;
    let mut buffer = KewBuffer::new(5, 8);
    assert_eq!(buffer.wr_visible_mem(&mut memory, &[1], 1, 0), Err(BufferError::Unbound));
    buffer.bind_memory(&memory, 4);
    assert_eq!(buffer.wr_visible_mem(&mut other, &[1], 1, 0), Err(BufferError::ForeignArena));
    assert_eq!(
        buffer.wr_visible_mem(&mut memory, &[1; 16], 13, 0),
        Err(BufferError::Memory(MemoryError::OutOfBounds))
    );
    assert_eq!(
        buffer.wr_visible_mem(&mut memory, &[1], 1, u64::MAX),
        Err(BufferError::Memory(MemoryError::OutOfBounds))
    );
    assert_eq!(
        buffer.wr_visible_mem(&mut memory, &[1], 2, 0),
        Err(BufferError::Memory(MemoryError::ShortData))
    );
    memory.unmap();
    assert_eq!(
        buffer.wr_visible_mem(&mut memory, &[1], 1, 0),
        Err(BufferError::Memory(MemoryError::Unmapped))
    );
    assert_eq!(other.mapped, Some(vec![0u8; 16]));
}

#[test]
fn buffer_descriptions() {
    let buffer = KewBuffer::new(5, 48);
    let info = buffer.descriptor_info();
    assert_eq!((info.buffer, info.offset, info.range), (5, 0, 48));
    let create = KewBuffer::create_info(48, 0x20);
    assert_eq!((create.b_size, create.usage, create.sharing_mode), (48, 0x20, 0));
    let image = KewImage::new(3, 4, 2, FORMAT_R8G8B8A8_UNORM, 32);
    let copy = buffer.copy_to_image(&image);
    assert_eq!(copy.src_buffer, 5);
    assert_eq!(copy.dst_image, 3);
    assert_eq!(copy.dst_image_layout, IMAGE_LAYOUT_TRANSFER_DST_OPTIMAL);
    assert_eq!(copy.region, image.copy_region());
    assert_eq!(copy.region.image_extent.width, 4);
    assert_eq!(copy.region.image_extent.height, 2);
    assert_eq!(copy.region.image_extent.depth, 1);
    assert_eq!(copy.region.image_subresource.layer_count, 1);
    assert_eq!(copy.region.buffer_offset, 0);
}

#[test]
fn image_starts_undefined_and_unviewed() {
    let image = KewImage::new(3, 4, 2, FORMAT_R8G8B8A8_UNORM, 32);
    assert_eq!(image.layout, IMAGE_LAYOUT_UNDEFINED);
    assert_eq!(image.view, None);
    assert_eq!(image.b_size, 32);
    assert_eq!(image.subresource.aspect_mask, 1);
    assert_eq!(image.subresource.level_count, 1);
    let info = KewImage::create_info(4, 2, FORMAT_R8G8B8A8_UNORM, 0xb);
    assert_eq!(info.image_type, 1);
    assert_eq!(info.mip_levels, 1);
    assert_eq!(info.array_layers, 1);
    assert_eq!(info.usage, 0xb);
    assert_eq!(info.samples, 1);
    assert_eq!(info.initial_layout, IMAGE_LAYOUT_UNDEFINED);
    assert_eq!((info.extent.width, info.extent.height, info.extent.depth), (4, 2, 1));
}

#[test]
fn barrier_starts_from_the_recorded_layout() {
    let mut image = KewImage::new(3, 4, 2, FORMAT_R8G8B8A8_UNORM, 32);
    let barrier = image.get_memory_barrier(IMAGE_LAYOUT_TRANSFER_DST_OPTIMAL, 0, 0x1000);
    assert_eq!(barrier.old_layout, IMAGE_LAYOUT_UNDEFINED);
    assert_eq!(barrier.new_layout, IMAGE_LAYOUT_TRANSFER_DST_OPTIMAL);
    assert_eq!(barrier.src_queue_family_index, QUEUE_FAMILY_IGNORED);
    assert_eq!(barrier.dst_queue_family_index, QUEUE_FAMILY_IGNORED);
    assert_eq!(barrier.image, 3);
    assert_eq!(barrier.src_access_mask, 0);
    assert_eq!(barrier.dst_access_mask, 0x1000);
    assert_eq!(image.layout, IMAGE_LAYOUT_UNDEFINED);
    assert!(image.apply_barrier(&barrier));
    assert_eq!(image.layout, IMAGE_LAYOUT_TRANSFER_DST_OPTIMAL);
    assert!(!image.apply_barrier(&barrier));
    assert_eq!(image.layout, IMAGE_LAYOUT_TRANSFER_DST_OPTIMAL);
    let mut foreign = image.get_memory_barrier(IMAGE_LAYOUT_GENERAL, 0, 0);
    foreign.image = 4;
    assert!(!image.apply_barrier(&foreign));
    assert_eq!(image.layout, IMAGE_LAYOUT_TRANSFER_DST_OPTIMAL);
}

#[test]
fn descriptor_asks_for_a_missing_view() {
    let mut image = KewImage::new(3, 4, 2, FORMAT_R8G8B8A8_UNORM, 32);
    match image.descriptor_info() {
        ImageDescriptor::ViewMissing(info) => {
            assert_eq!(info, image.view_create_info());
            assert_eq!(info.image, 3);
            assert_eq!(info.view_type, 1);
            assert_eq!(info.format, FORMAT_R8G8B8A8_UNORM);
        }
        ImageDescriptor::Ready(_) => panic!("no view was recorded"),
    }
    assert_eq!(image.recreate_image_view(21), None);
    image.layout = IMAGE_LAYOUT_GENERAL;
    match image.descriptor_info() {
        ImageDescriptor::Ready(info) => {
            assert_eq!(info.image_view, 21);
            assert_eq!(info.image_layout, IMAGE_LAYOUT_GENERAL);
            assert_eq!(info.sampler, 0);
        }
        ImageDescriptor::ViewMissing(_) => panic!("a view was recorded"),
    }
    assert_eq!(image.recreate_image_view(22), Some(21));
    assert_eq!(image.view, Some(22));
}

#[test]
fn image_copies_from_its_recorded_layout() {
    let mut image = KewImage::new(3, 4, 2, FORMAT_R8G8B8A8_UNORM, 32);
    image.layout = IMAGE_LAYOUT_GENERAL;
    let buffer = KewBuffer::new(5, 32);
    let copy = image.copy_to_buffer(&buffer);
    assert_eq!(copy.src_image, 3);
    assert_eq!(copy.src_image_layout, IMAGE_LAYOUT_GENERAL);
    assert_eq!(copy.dst_buffer, 5);
    assert_eq!(copy.region, image.copy_region());
}
