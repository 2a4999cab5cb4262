//! The numbering of the graphics API, as plain integers, and the small
//! value structures that descriptions are made of.
//!
//! Handles are `u64`, enumerations `i32`, flag sets `u32`. Zero is the null
//! handle.

use vstd::prelude::*;

verus! {

pub const NULL_HANDLE: u64 = 0;

pub const QUEUE_FAMILY_IGNORED: u32 = 0xffff_ffff;

pub const MAX_MEMORY_TYPES: usize = 32;

pub const QUEUE_GRAPHICS: u32 = 0x1;

pub const QUEUE_COMPUTE: u32 = 0x2;

pub const QUEUE_TRANSFER: u32 = 0x4;

pub const MEMORY_DEVICE_LOCAL: u32 = 0x1;

pub const MEMORY_HOST_VISIBLE: u32 = 0x2;

pub const MEMORY_HOST_COHERENT: u32 = 0x4;

pub const IMAGE_LAYOUT_UNDEFINED: i32 = 0;

pub const IMAGE_LAYOUT_GENERAL: i32 = 1;

pub const IMAGE_LAYOUT_COLOR_ATTACHMENT_OPTIMAL: i32 = 2;

pub const IMAGE_LAYOUT_TRANSFER_SRC_OPTIMAL: i32 = 6;

pub const IMAGE_LAYOUT_TRANSFER_DST_OPTIMAL: i32 = 7;

pub const IMAGE_LAYOUT_PRESENT_SRC: i32 = 1_000_001_002;

pub const IMAGE_ASPECT_COLOR: u32 = 0x1;

pub const FORMAT_R8G8B8A8_UNORM: i32 = 37;

pub const FORMAT_R32G32_SFLOAT: i32 = 103;

pub const FORMAT_R32G32B32_SFLOAT: i32 = 106;

pub const COLOR_SPACE_SRGB_NONLINEAR: i32 = 0;

pub const PRESENT_MODE_IMMEDIATE: i32 = 0;

pub const PRESENT_MODE_FIFO: i32 = 2;

pub const DEVICE_TYPE_DISCRETE_GPU: i32 = 2;

pub const IMAGE_TYPE_2D: i32 = 1;

pub const IMAGE_VIEW_TYPE_2D: i32 = 1;

pub const IMAGE_TILING_OPTIMAL: i32 = 0;

pub const SAMPLE_COUNT_1: u32 = 0x1;

pub const SHARING_MODE_EXCLUSIVE: i32 = 0;

pub const COMMAND_POOL_TRANSIENT: u32 = 0x1;

pub const COMMAND_POOL_RESET_COMMAND_BUFFER: u32 = 0x2;

pub const COMMAND_BUFFER_ONE_TIME_SUBMIT: u32 = 0x1;

pub const COMMAND_BUFFER_LEVEL_PRIMARY: i32 = 0;

pub const STAGE_TOP_OF_PIPE: u32 = 0x1;

pub const STAGE_COLOR_ATTACHMENT_OUTPUT: u32 = 0x400;

pub const STAGE_COMPUTE_SHADER: u32 = 0x800;

pub const STAGE_TRANSFER: u32 = 0x1000;

pub const BIND_POINT_GRAPHICS: i32 = 0;

pub const BIND_POINT_COMPUTE: i32 = 1;

pub const INDEX_TYPE_UINT32: i32 = 1;

pub const VERTEX_INPUT_RATE_VERTEX: i32 = 0;

pub const DYNAMIC_STATE_VIEWPORT: i32 = 0;

pub const DYNAMIC_STATE_SCISSOR: i32 = 1;

pub const LOAD_OP_CLEAR: i32 = 1;

pub const LOAD_OP_DONT_CARE: i32 = 2;

pub const STORE_OP_STORE: i32 = 0;

pub const STORE_OP_DONT_CARE: i32 = 1;

pub const IMAGE_USAGE_TRANSFER_SRC: u32 = 0x1;

pub const IMAGE_USAGE_TRANSFER_DST: u32 = 0x2;

pub const IMAGE_USAGE_SAMPLED: u32 = 0x4;

pub const IMAGE_USAGE_STORAGE: u32 = 0x8;

pub const IMAGE_USAGE_COLOR_ATTACHMENT: u32 = 0x10;

pub const BUFFER_USAGE_TRANSFER_SRC: u32 = 0x1;

pub const BUFFER_USAGE_TRANSFER_DST: u32 = 0x2;

pub const BUFFER_USAGE_STORAGE_BUFFER: u32 = 0x20;

pub const BUFFER_USAGE_INDEX_BUFFER: u32 = 0x40;

pub const BUFFER_USAGE_VERTEX_BUFFER: u32 = 0x80;

pub const COMPOSITE_ALPHA_OPAQUE: u32 = 0x1;

pub const SUBPASS_CONTENTS_INLINE: i32 = 0;

pub const FENCE_CREATE_SIGNALED: u32 = 0x1;

pub const DESCRIPTOR_TYPE_STORAGE_IMAGE: i32 = 3;

pub const DESCRIPTOR_TYPE_UNIFORM_BUFFER: i32 = 6;

pub const DESCRIPTOR_TYPE_STORAGE_BUFFER: i32 = 7;

pub const SHADER_STAGE_VERTEX: u32 = 0x1;

pub const SHADER_STAGE_FRAGMENT: u32 = 0x10;

pub const SHADER_STAGE_COMPUTE: u32 = 0x20;

pub const TOPOLOGY_TRIANGLE_LIST: i32 = 3;

pub const POLYGON_MODE_FILL: i32 = 0;

pub const CULL_MODE_NONE: u32 = 0;

pub const FRONT_FACE_CLOCKWISE: i32 = 1;

pub const COLOR_COMPONENT_RGBA: u32 = 0xf;

pub const ACCESS_NONE: u32 = 0;

pub const ACCESS_SHADER_READ: u32 = 0x20;

pub const ACCESS_SHADER_WRITE: u32 = 0x40;

pub const ACCESS_TRANSFER_WRITE: u32 = 0x1000;

pub const DEPENDENCY_BY_REGION: u32 = 0x1;

pub const BLEND_FACTOR_ZERO: i32 = 0;

pub const BLEND_OP_ADD: i32 = 0;

/// Version 1.3.0 of the API, packed.
pub const API_VERSION_1_3: u32 = 0x0040_3000;

/// A width and a height in texels.
#[derive(Clone, Copy, Debug, PartialEq, Eq, Structural)]
pub struct Extent2D {
    pub width: u32,
    pub height: u32,
}

/// A width, a height and a depth in texels.
#[derive(Clone, Copy, Debug, PartialEq, Eq, Structural)]
pub struct Extent3D {
    pub width: u32,
    pub height: u32,
    pub depth: u32,
}

/// A position in an image.
#[derive(Clone, Copy, Debug, PartialEq, Eq, Structural)]
pub struct Offset3D {
    pub x: i32,
    pub y: i32,
    pub z: i32,
}

/// What a resource asks of the memory it is bound to.
#[derive(Clone, Copy, Debug, PartialEq, Eq, Structural)]
pub struct MemoryRequirements {
    pub size: u64,
    pub alignment: u64,
    pub memory_type_bits: u32,
}

/// The mip levels and array layers of an image that an operation covers.
#[derive(Clone, Copy, Debug, PartialEq, Eq, Structural)]
pub struct ImageSubresourceRange {
    pub aspect_mask: u32,
    pub base_mip_level: u32,
    pub level_count: u32,
    pub base_array_layer: u32,
    pub layer_count: u32,
}

/// One mip level and a run of array layers of an image.
#[derive(Clone, Copy, Debug, PartialEq, Eq, Structural)]
pub struct ImageSubresourceLayers {
    pub aspect_mask: u32,
    pub mip_level: u32,
    pub base_array_layer: u32,
    pub layer_count: u32,
}

/// A copy between a tightly packed buffer and a region of an image.
#[derive(Clone, Copy, Debug, PartialEq, Eq, Structural)]
pub struct BufferImageCopy {
    pub buffer_offset: u64,
    pub buffer_row_length: u32,
    pub buffer_image_height: u32,
    pub image_subresource: ImageSubresourceLayers,
    pub image_offset: Offset3D,
    pub image_extent: Extent3D,
}

} // verus!
