//! An image object: its binding to a memory arena, its recorded layout and
//! the descriptions of the operations made on it.

use crate::gpu::buffer::KewBuffer;
use crate::gpu::memory::{bind_once, KewMemory, KewMemoryBinding};
use crate::gpu::vk::{
    BufferImageCopy, Extent3D, ImageSubresourceLayers, ImageSubresourceRange, Offset3D,
    IMAGE_ASPECT_COLOR, IMAGE_LAYOUT_UNDEFINED, IMAGE_TILING_OPTIMAL, IMAGE_TYPE_2D,
    IMAGE_VIEW_TYPE_2D, NULL_HANDLE, QUEUE_FAMILY_IGNORED, SAMPLE_COUNT_1, SHARING_MODE_EXCLUSIVE,
};
use vstd::prelude::*;

verus! {

/// What an image is created from.
#[derive(Clone, Copy, Debug, PartialEq, Eq, Structural)]
pub struct ImageCreateInfo {
    pub image_type: i32,
    pub extent: Extent3D,
    pub mip_levels: u32,
    pub array_layers: u32,
    pub format: i32,
    pub tiling: i32,
    pub initial_layout: i32,
    pub usage: u32,
    pub samples: u32,
    pub sharing_mode: i32,
}

/// What a view of an image is created from.
#[derive(Clone, Copy, Debug, PartialEq, Eq, Structural)]
pub struct ImageViewCreateInfo {
    pub image: u64,
    pub view_type: i32,
    pub format: i32,
    pub subresource_range: ImageSubresourceRange,
}

/// A layout transition of an image between two accesses.
#[derive(Clone, Copy, Debug, PartialEq, Eq, Structural)]
pub struct ImageMemoryBarrier {
    pub old_layout: i32,
    pub new_layout: i32,
    pub src_queue_family_index: u32,
    pub dst_queue_family_index: u32,
    pub image: u64,
    pub subresource_range: ImageSubresourceRange,
    pub src_access_mask: u32,
    pub dst_access_mask: u32,
}

/// How a descriptor sees an image.
#[derive(Clone, Copy, Debug, PartialEq, Eq, Structural)]
pub struct DescriptorImageInfo {
    pub image_layout: i32,
    pub image_view: u64,
    pub sampler: u64,
}

/// The answer to a request for an image's descriptor.
#[derive(Clone, Copy, Debug, PartialEq, Eq, Structural)]
pub enum ImageDescriptor {
    /// The image has a view.
    Ready(DescriptorImageInfo),
    /// The image has no view yet: one is to be created from this description
    /// and recorded before the descriptor can be had.
    ViewMissing(ImageViewCreateInfo),
}

/// A recorded copy from an image into a buffer.
#[derive(Clone, Copy, Debug, PartialEq, Eq, Structural)]
pub struct ImageToBufferCopy {
    pub src_image: u64,
    pub src_image_layout: i32,
    pub dst_buffer: u64,
    pub region: BufferImageCopy,
}

/// An image, named by its handle. `layout` records the layout that the
/// last submitted transition left the image in; nothing but the record
/// changes when it is set.
pub struct KewImage {
    pub m_bind: Option<KewMemoryBinding>,
    pub vk_image: u64,
    pub format: i32,
    pub b_size: u64,
    pub extent: Extent3D,
    pub layout: i32,
    pub subresource: ImageSubresourceRange,
    pub view: Option<u64>,
}

/// The first colour mip level and array layer.
pub open spec fn color_subresource() -> ImageSubresourceRange {
    ImageSubresourceRange {
        aspect_mask: IMAGE_ASPECT_COLOR,
        base_mip_level: 0,
        level_count: 1,
        base_array_layer: 0,
        layer_count: 1,
    }
}

impl KewImage {
    /// The region that covers the whole image in a tightly packed buffer.
    pub open spec fn whole_region(&self) -> BufferImageCopy {
        BufferImageCopy {
            buffer_offset: 0,
            buffer_row_length: 0,
            buffer_image_height: 0,
            image_subresource: ImageSubresourceLayers {
                aspect_mask: self.subresource.aspect_mask,
                mip_level: self.subresource.base_mip_level,
                base_array_layer: self.subresource.base_array_layer,
                layer_count: 1,
            },
            image_offset: Offset3D { x: 0, y: 0, z: 0 },
            image_extent: self.extent,
        }
    }

    /// The description that a view of this image is created from.
    pub open spec fn view_info(&self) -> ImageViewCreateInfo {
        ImageViewCreateInfo {
            image: self.vk_image,
            view_type: IMAGE_VIEW_TYPE_2D,
            format: self.format,
            subresource_range: self.subresource,
        }
    }

    /// The description of a two-dimensional image of `image_dx` by `image_dy`
    /// texels with one mip level, one layer and one sample, optimally tiled,
    /// for exclusive use, in the undefined layout.
    pub fn create_info(image_dx: u32, image_dy: u32, format: i32, usage: u32) -> (r:
        ImageCreateInfo)
        ensures
            r == (ImageCreateInfo {
                image_type: IMAGE_TYPE_2D,
                extent: Extent3D { width: image_dx, height: image_dy, depth: 1 },
                mip_levels: 1,
                array_layers: 1,
                format,
                tiling: IMAGE_TILING_OPTIMAL,
                initial_layout: IMAGE_LAYOUT_UNDEFINED,
                usage,
                samples: SAMPLE_COUNT_1,
                sharing_mode: SHARING_MODE_EXCLUSIVE,
            }),
    {
        ImageCreateInfo {
            image_type: IMAGE_TYPE_2D,
            extent: Extent3D { width: image_dx, height: image_dy, depth: 1 },
            mip_levels: 1,
            array_layers: 1,
            format,
            tiling: IMAGE_TILING_OPTIMAL,
            initial_layout: IMAGE_LAYOUT_UNDEFINED,
            usage,
            samples: SAMPLE_COUNT_1,
            sharing_mode: SHARING_MODE_EXCLUSIVE,
        }
    }

    /// Records an image created under the handle `vk_image`. It starts
    /// unbound, without a view, in the undefined layout.
    pub fn new(vk_image: u64, image_dx: u32, image_dy: u32, format: i32, b_size: u64) -> (r: Self)
        ensures
            r.vk_image == vk_image,
            r.m_bind.is_none(),
            r.b_size == b_size,
            r.extent == (Extent3D { width: image_dx, height: image_dy, depth: 1 }),
            r.layout == IMAGE_LAYOUT_UNDEFINED,
            r.format == format,
            r.subresource == color_subresource(),
            r.view.is_none(),
    {
        KewImage {
            vk_image,
            m_bind: None,
            b_size,
            extent: Extent3D { width: image_dx, height: image_dy, depth: 1 },
            layout: IMAGE_LAYOUT_UNDEFINED,
            format,
            subresource: ImageSubresourceRange {
                aspect_mask: IMAGE_ASPECT_COLOR,
                base_mip_level: 0,
                level_count: 1,
                base_array_layer: 0,
                layer_count: 1,
            },
            view: None,
        }
    }

    /// The description that a view of this image is created from.
    pub fn view_create_info(&self) -> (r: ImageViewCreateInfo)
        ensures
            r == self.view_info(),
    {
        ImageViewCreateInfo {
            image: self.vk_image,
            view_type: IMAGE_VIEW_TYPE_2D,
            format: self.format,
            subresource_range: self.subresource,
        }
    }

    /// Records `view`, created from `view_create_info`, as the image's view.
    /// Returns the view it replaces.
    pub fn recreate_image_view(&mut self, view: u64) -> (r: Option<u64>)
        ensures
            r == old(self).view,
            *final(self) == (KewImage { view: Some(view), ..*old(self) }),
    {
        let before = self.view;
        self.view = Some(view);
        before
    }

    /// Binds the image to `memory` at `offset`, once. Returns the binding to
    /// establish on the device; on a bound image nothing changes and nothing
    /// is returned.
    pub fn bind_memory(&mut self, memory: &KewMemory, offset: u64) -> (r: Option<KewMemoryBinding>)
        ensures
            *final(self) == (KewImage { m_bind: final(self).m_bind, ..*old(self) }),
            final(self).m_bind == bind_once(
                old(self).m_bind,
                (KewMemoryBinding { memory: memory.memory, offset }),
            ),
            old(self).m_bind.is_some() ==> r.is_none(),
            old(self).m_bind.is_none() ==> r == final(self).m_bind,
    {
        if self.m_bind.is_none() {
            let binding = KewMemoryBinding { memory: memory.memory, offset };
            self.m_bind = Some(binding);
            Some(binding)
        } else {
            None
        }
    }

    /// The transition from the recorded layout to `dst_layout`, on the same
    /// queue family. The recorded layout does not change: see
    /// `apply_barrier`.
    pub fn get_memory_barrier(
        &self,
        dst_layout: i32,
        src_access_flags: u32,
        dst_access_flags: u32,
    ) -> (r: ImageMemoryBarrier)
        ensures
            r == (ImageMemoryBarrier {
                old_layout: self.layout,
                new_layout: dst_layout,
                src_queue_family_index: QUEUE_FAMILY_IGNORED,
                dst_queue_family_index: QUEUE_FAMILY_IGNORED,
                image: self.vk_image,
                subresource_range: self.subresource,
                src_access_mask: src_access_flags,
                dst_access_mask: dst_access_flags,
            }),
    {
        ImageMemoryBarrier {
            old_layout: self.layout,
            new_layout: dst_layout,
            src_queue_family_index: QUEUE_FAMILY_IGNORED,
            dst_queue_family_index: QUEUE_FAMILY_IGNORED,
            image: self.vk_image,
            subresource_range: self.subresource,
            src_access_mask: src_access_flags,
            dst_access_mask: dst_access_flags,
        }
    }

    /// Advances the recorded layout once `barrier` has been submitted. Only a
    /// barrier of this image that starts from the recorded layout is
    /// accepted; any other leaves the record as it was.
    pub fn apply_barrier(&mut self, barrier: &ImageMemoryBarrier) -> (r: bool)
        ensures
            r == (barrier.image == old(self).vk_image && barrier.old_layout == old(self).layout),
            r ==> *final(self) == (KewImage { layout: barrier.new_layout, ..*old(self) }),
            !r ==> *final(self) == *old(self),
    {
        if barrier.image == self.vk_image && barrier.old_layout == self.layout {
            self.layout = barrier.new_layout;
            true
        } else {
            false
        }
    }

    /// The region that covers the whole image in a tightly packed buffer.
    pub fn copy_region(&self) -> (r: BufferImageCopy)
        ensures
            r == self.whole_region(),
    {
        BufferImageCopy {
            buffer_offset: 0,
            buffer_row_length: 0,
            buffer_image_height: 0,
            image_subresource: ImageSubresourceLayers {
                aspect_mask: self.subresource.aspect_mask,
                mip_level: self.subresource.base_mip_level,
                base_array_layer: self.subresource.base_array_layer,
                layer_count: 1,
            },
            image_offset: Offset3D { x: 0, y: 0, z: 0 },
            image_extent: self.extent,
        }
    }

    /// The copy of the whole image, in its recorded layout, into the front of
    /// `buffer`.
    pub fn copy_to_buffer(&self, buffer: &KewBuffer) -> (r: ImageToBufferCopy)
        ensures
            r == (ImageToBufferCopy {
                src_image: self.vk_image,
                src_image_layout: self.layout,
                dst_buffer: buffer.vk_buffer,
                region: self.whole_region(),
            }),
    {
        ImageToBufferCopy {
            src_image: self.vk_image,
            src_image_layout: self.layout,
            dst_buffer: buffer.vk_buffer,
            region: self.copy_region(),
        }
    }

    /// The offset of the image within its arena.
    pub fn get_offset(&self) -> (r: u64)
        requires
            self.m_bind.is_some(),
        ensures
            r == self.m_bind.unwrap().offset,
    {
        match self.m_bind {
            Some(binding) => binding.offset,
            None => 0,
        }
    }

    /// The descriptor of the image in its recorded layout, without a sampler,
    /// or the description of the view that is first to be created.
    pub fn descriptor_info(&self) -> (r: ImageDescriptor)
        ensures
            r == (match self.view {
                Some(view) => ImageDescriptor::Ready(
                    DescriptorImageInfo {
                        image_layout: self.layout,
                        image_view: view,
                        sampler: NULL_HANDLE,
                    },
                ),
                None => ImageDescriptor::ViewMissing(self.view_info()),
            }),
    {
        match self.view {
            Some(view) => ImageDescriptor::Ready(
                DescriptorImageInfo {
                    image_layout: self.layout,
                    image_view: view,
                    sampler: NULL_HANDLE,
                },
            ),
            None => ImageDescriptor::ViewMissing(self.view_create_info()),
        }
    }
}

} // verus!
