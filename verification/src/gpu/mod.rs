//! Resource and synchronisation layer.

pub mod buffer;
pub mod bytes;
pub mod command;
pub mod context;
pub mod descriptor;
pub mod device;
pub mod flags;
pub mod image;
pub mod memory;
pub mod model;
pub mod pipeline;
pub mod shader;
pub mod surface;
pub mod swapchain;
pub mod version;
pub mod vk;
