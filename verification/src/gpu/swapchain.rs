//! The swapchain: presentable images, the synchronisation objects of the
//! frames in flight, and the descriptions of what is submitted, presented
//! and torn down.
//!
//! A frame slot and an acquired image are indexed in two unrelated spaces:
//! slots count up to `MAX_IN_FLIGHT_FRAMES`, images up to the number of
//! frame bundles.

use crate::gpu::command::{ClearColor, Command, RenderPassBegin};
use crate::gpu::image::ImageViewCreateInfo;
use crate::gpu::vk::{
    Extent2D, ImageSubresourceRange, BIND_POINT_GRAPHICS, COLOR_SPACE_SRGB_NONLINEAR,
    COMPOSITE_ALPHA_OPAQUE, FENCE_CREATE_SIGNALED, FORMAT_R8G8B8A8_UNORM, IMAGE_ASPECT_COLOR,
    IMAGE_LAYOUT_COLOR_ATTACHMENT_OPTIMAL, IMAGE_LAYOUT_PRESENT_SRC, IMAGE_LAYOUT_UNDEFINED,
    IMAGE_USAGE_COLOR_ATTACHMENT, IMAGE_VIEW_TYPE_2D, LOAD_OP_CLEAR, LOAD_OP_DONT_CARE,
    NULL_HANDLE, PRESENT_MODE_FIFO, PRESENT_MODE_IMMEDIATE, SAMPLE_COUNT_1,
    SHARING_MODE_EXCLUSIVE, STAGE_COLOR_ATTACHMENT_OUTPUT, STORE_OP_DONT_CARE, STORE_OP_STORE,
    SUBPASS_CONTENTS_INLINE,
};
use vstd::prelude::*;

verus! {

/// How many frames may be submitted and not yet finished.
pub const MAX_IN_FLIGHT_FRAMES: usize = 2;

/// The surface format asked for where the surface offers it.
pub const PREFERRED_SURFACE_FORMAT: i32 = FORMAT_R8G8B8A8_UNORM;

/// The colour space asked for where the surface offers it.
pub const PREFERRED_SURFACE_COLORS: i32 = COLOR_SPACE_SRGB_NONLINEAR;

/// The bit pattern of the clear colour's components, 0.01 each.
pub const CLEAR_COMPONENT: u32 = 0x3c23_d70a;

/// A format and colour space that a surface offers.
#[derive(Clone, Copy, Debug, PartialEq, Eq, Structural)]
pub struct SurfaceFormat {
    pub format: i32,
    pub color_space: i32,
}

/// What a surface reports of itself.
#[derive(Clone, Copy, Debug, PartialEq, Eq, Structural)]
pub struct SurfaceCapabilities {
    pub min_image_count: u32,
    pub current_extent: Extent2D,
    pub current_transform: u32,
}

/// What a swapchain is created from.
#[derive(Clone, Copy, Debug, PartialEq, Eq, Structural)]
pub struct SwapchainCreateInfo {
    pub surface: u64,
    pub min_image_count: u32,
    pub image_color_space: i32,
    pub image_format: i32,
    pub image_extent: Extent2D,
    pub image_usage: u32,
    pub image_sharing_mode: i32,
    pub pre_transform: u32,
    pub composite_alpha: u32,
    pub present_mode: i32,
    pub clipped: bool,
    pub image_array_layers: u32,
}

/// The one colour attachment of the render pass and the one graphics
/// subpass that draws to it.
#[derive(Clone, Copy, Debug, PartialEq, Eq, Structural)]
pub struct RenderPassCreateInfo {
    pub format: i32,
    pub samples: u32,
    pub load_op: i32,
    pub store_op: i32,
    pub stencil_load_op: i32,
    pub stencil_store_op: i32,
    pub initial_layout: i32,
    pub final_layout: i32,
    pub subpass_attachment: u32,
    pub subpass_layout: i32,
    pub subpass_bind_point: i32,
}

/// What the framebuffer of one presentable image is created from.
#[derive(Clone, Copy, Debug, PartialEq, Eq, Structural)]
pub struct FramebufferCreateInfo {
    pub render_pass: u64,
    pub attachment: u64,
    pub width: u32,
    pub height: u32,
    pub layers: u32,
}

/// One presentable image with its view and framebuffer.
#[derive(Clone, Copy, Debug, PartialEq, Eq, Structural)]
pub struct KewFrameBundle {
    pub framebuffer: u64,
    pub image: u64,
    pub view: u64,
}

/// A request for the next presentable image.
#[derive(Clone, Copy, Debug, PartialEq, Eq, Structural)]
pub struct AcquireRequest {
    pub swapchain: u64,
    pub timeout: u64,
    pub semaphore: u64,
    pub fence: u64,
}

/// The end of a frame: the slot's fence is reset, the command buffer is
/// submitted, and the image is presented, in that order.
#[derive(Clone, Copy, Debug, PartialEq, Eq, Structural)]
pub struct FrameSubmission {
    pub reset_fence: u64,
    pub submit_queue: u64,
    pub wait_semaphore: u64,
    pub wait_stage: u32,
    pub cmd_buffer: u64,
    pub signal_semaphore: u64,
    pub signal_fence: u64,
    pub present_queue: u64,
    pub present_wait_semaphore: u64,
    pub swapchain: u64,
    pub image_index: u32,
}

/// One step of tearing a swapchain down.
#[derive(Clone, Copy, Debug, PartialEq, Eq)]
pub enum TeardownStep {
    /// Block until every listed fence, or any where `wait_all` is false, is
    /// signaled, at most `timeout` nanoseconds.
    WaitForFences { fences: [u64; 2], wait_all: bool, timeout: u64 },
    DestroyFence(u64),
    DestroySwapchain(u64),
    DestroyRenderPass(u64),
    DestroySemaphore(u64),
    DestroyImageView(u64),
    DestroyFramebuffer(u64),
}

/// A swapchain: its presentable images, the render pass that draws to
/// them, and for each frame slot an image-available semaphore, a
/// render-finished semaphore and an in-flight fence.
pub struct KewSwapchain {
    pub present_queue: u64,
    pub swapchain: u64,
    pub swapchain_extent: Extent2D,
    pub frame_bundles: Vec<KewFrameBundle>,
    pub image_available_semaphores: [u64; 2],
    pub render_finished_semaphores: [u64; 2],
    pub frame_in_flight_fences: [u64; 2],
    pub image_format: i32,
    pub render_pass: u64,
}

/// Whether `f` is the preferred surface format.
pub open spec fn is_preferred(f: SurfaceFormat) -> bool {
    f.format == PREFERRED_SURFACE_FORMAT && f.color_space == PREFERRED_SURFACE_COLORS
}

/// The surface format to use: the first preferred one offered, else the
/// first offered, if any is offered.
pub open spec fn picks_format(formats: Seq<SurfaceFormat>, pick: Option<SurfaceFormat>) -> bool {
    if formats.len() == 0 {
        pick.is_none()
    } else if exists|i: int| 0 <= i < formats.len() && is_preferred(#[trigger] formats[i]) {
        pick.is_some() && is_preferred(pick.unwrap())
    } else {
        pick == Some(formats[0])
    }
}

/// The extent of the swapchain images: the surface's, unless the surface
/// leaves it to the swapchain, which then takes the window's.
pub open spec fn extent_of(capabilities: SurfaceCapabilities, window_extent: Extent2D) -> Extent2D {
    if capabilities.current_extent.width == u32::MAX {
        window_extent
    } else {
        capabilities.current_extent
    }
}

/// The present mode: immediate where offered, else first-in first-out.
pub open spec fn present_mode_of(modes: Seq<i32>) -> i32 {
    if modes.contains(PRESENT_MODE_IMMEDIATE) {
        PRESENT_MODE_IMMEDIATE
    } else {
        PRESENT_MODE_FIFO
    }
}

/// The steps that destroy the bundles: of each in turn its view, then its
/// framebuffer.
pub open spec fn bundle_teardown(bundles: Seq<KewFrameBundle>) -> Seq<TeardownStep> {
    Seq::new(
        2 * bundles.len(),
        |i: int|
            if i % 2 == 0 {
                TeardownStep::DestroyImageView(bundles[i / 2].view)
            } else {
                TeardownStep::DestroyFramebuffer(bundles[i / 2].framebuffer)
            },
    )
}

impl KewSwapchain {
    /// The steps that tear the swapchain down: a wait without time limit for
    /// every frame's fence, then the destruction of the fences, the
    /// swapchain, the render pass, the semaphores and the bundles.
    pub open spec fn teardown_of(&self) -> Seq<TeardownStep> {
        seq![
            TeardownStep::WaitForFences {
                fences: self.frame_in_flight_fences,
                wait_all: true,
                timeout: u64::MAX,
            },
            TeardownStep::DestroyFence(self.frame_in_flight_fences[0]),
            TeardownStep::DestroyFence(self.frame_in_flight_fences[1]),
            TeardownStep::DestroySwapchain(self.swapchain),
            TeardownStep::DestroyRenderPass(self.render_pass),
            TeardownStep::DestroySemaphore(self.image_available_semaphores[0]),
            TeardownStep::DestroySemaphore(self.image_available_semaphores[1]),
            TeardownStep::DestroySemaphore(self.render_finished_semaphores[0]),
            TeardownStep::DestroySemaphore(self.render_finished_semaphores[1]),
        ] + bundle_teardown(self.frame_bundles@)
    }

    /// The commands that start the render pass on the image `image_idx`.
    pub open spec fn render_pass_start(&self, image_idx: int) -> Seq<Command> {
        seq![
            Command::BeginRenderPass(
                RenderPassBegin {
                    render_pass: self.render_pass,
                    framebuffer: self.frame_bundles@[image_idx].framebuffer,
                    render_area: self.swapchain_extent,
                    clear_color: ClearColor {
                        r: CLEAR_COMPONENT,
                        g: CLEAR_COMPONENT,
                        b: CLEAR_COMPONENT,
                        a: CLEAR_COMPONENT,
                    },
                    contents: SUBPASS_CONTENTS_INLINE,
                },
            ),
            Command::SetViewport { extent: self.swapchain_extent },
            Command::SetScissor { extent: self.swapchain_extent },
        ]
    }

    /// The end of the frame recorded in `cmd_buffer` for the slot
    /// `frame_idx`, drawn to the image `image_idx`.
    pub open spec fn submission_of(
        &self,
        cmd_buffer: u64,
        image_idx: int,
        frame_idx: int,
        gfx_queue: u64,
    ) -> FrameSubmission {
        FrameSubmission {
            reset_fence: self.frame_in_flight_fences[frame_idx],
            submit_queue: gfx_queue,
            wait_semaphore: self.image_available_semaphores[frame_idx],
            wait_stage: STAGE_COLOR_ATTACHMENT_OUTPUT,
            cmd_buffer,
            signal_semaphore: self.render_finished_semaphores[frame_idx],
            signal_fence: self.frame_in_flight_fences[frame_idx],
            present_queue: self.present_queue,
            present_wait_semaphore: self.render_finished_semaphores[frame_idx],
            swapchain: self.swapchain,
            image_index: image_idx as u32,
        }
    }

    /// The surface format to use among those offered.
    pub fn pick_surface_format(formats: &[SurfaceFormat]) -> (r: Option<SurfaceFormat>)
        ensures
            picks_format(formats@, r),
    {
        if formats.len() == 0 {
            return None;
        }
        let mut i: usize = 0;
        while i < formats.len()
            invariant
                i <= formats@.len(),
                forall|j: int| 0 <= j < i ==> !is_preferred(#[trigger] formats@[j]),
            decreases formats@.len() - i,
        {
            let f = formats[i];
            if f.format == PREFERRED_SURFACE_FORMAT && f.color_space == PREFERRED_SURFACE_COLORS {
                return Some(f);
            }
            i += 1;
        }
        Some(formats[0])
    }

    /// The extent of the swapchain images.
    pub fn pick_extent(capabilities: &SurfaceCapabilities, window_extent: Extent2D) -> (r:
        Extent2D)
        ensures
            r == extent_of(*capabilities, window_extent),
    {
        if capabilities.current_extent.width == u32::MAX {
            window_extent
        } else {
            capabilities.current_extent
        }
    }

    /// The present mode to use among those offered.
    pub fn pick_present_mode(modes: &[i32]) -> (r: i32)
        ensures
            r == present_mode_of(modes@),
    {
        let mut i: usize = 0;
        while i < modes.len()
            invariant
                i <= modes@.len(),
                forall|j: int| 0 <= j < i ==> modes@[j] != PRESENT_MODE_IMMEDIATE,
            decreases modes@.len() - i,
        {
            if modes[i] == PRESENT_MODE_IMMEDIATE {
                assert(modes@.contains(PRESENT_MODE_IMMEDIATE));
                return PRESENT_MODE_IMMEDIATE;
            }
            i += 1;
        }
        PRESENT_MODE_FIFO
    }

    /// The description of the swapchain on `surface`: one image more than
    /// the surface's minimum, opaque, clipped, single-layered colour
    /// attachments for exclusive use.
    pub fn create_info(
        surface: u64,
        capabilities: &SurfaceCapabilities,
        surface_format: SurfaceFormat,
        present_modes: &[i32],
        window_extent: Extent2D,
    ) -> (r: SwapchainCreateInfo)
        requires
            capabilities.min_image_count < u32::MAX,
        ensures
            r == (SwapchainCreateInfo {
                surface,
                min_image_count: (capabilities.min_image_count + 1) as u32,
                image_color_space: surface_format.color_space,
                image_format: surface_format.format,
                image_extent: extent_of(*capabilities, window_extent),
                image_usage: IMAGE_USAGE_COLOR_ATTACHMENT,
                image_sharing_mode: SHARING_MODE_EXCLUSIVE,
                pre_transform: capabilities.current_transform,
                composite_alpha: COMPOSITE_ALPHA_OPAQUE,
                present_mode: present_mode_of(present_modes@),
                clipped: true,
                image_array_layers: 1,
            }),
    {
        SwapchainCreateInfo {
            surface,
            min_image_count: capabilities.min_image_count + 1,
            image_color_space: surface_format.color_space,
            image_format: surface_format.format,
            image_extent: Self::pick_extent(capabilities, window_extent),
            image_usage: IMAGE_USAGE_COLOR_ATTACHMENT,
            image_sharing_mode: SHARING_MODE_EXCLUSIVE,
            pre_transform: capabilities.current_transform,
            composite_alpha: COMPOSITE_ALPHA_OPAQUE,
            present_mode: Self::pick_present_mode(present_modes),
            clipped: true,
            image_array_layers: 1,
        }
    }

    /// The description of the render pass: one colour attachment of the
    /// swapchain's format, cleared on load, stored, and left ready to
    /// present.
    pub fn create_render_pass(swapchain_image_format: i32) -> (r: RenderPassCreateInfo)
        ensures
            r == (RenderPassCreateInfo {
                format: swapchain_image_format,
                samples: SAMPLE_COUNT_1,
                load_op: LOAD_OP_CLEAR,
                store_op: STORE_OP_STORE,
                stencil_load_op: LOAD_OP_DONT_CARE,
                stencil_store_op: STORE_OP_DONT_CARE,
                initial_layout: IMAGE_LAYOUT_UNDEFINED,
                final_layout: IMAGE_LAYOUT_PRESENT_SRC,
                subpass_attachment: 0,
                subpass_layout: IMAGE_LAYOUT_COLOR_ATTACHMENT_OPTIMAL,
                subpass_bind_point: BIND_POINT_GRAPHICS,
            }),
    {
        RenderPassCreateInfo {
            format: swapchain_image_format,
            samples: SAMPLE_COUNT_1,
            load_op: LOAD_OP_CLEAR,
            store_op: STORE_OP_STORE,
            stencil_load_op: LOAD_OP_DONT_CARE,
            stencil_store_op: STORE_OP_DONT_CARE,
            initial_layout: IMAGE_LAYOUT_UNDEFINED,
            final_layout: IMAGE_LAYOUT_PRESENT_SRC,
            subpass_attachment: 0,
            subpass_layout: IMAGE_LAYOUT_COLOR_ATTACHMENT_OPTIMAL,
            subpass_bind_point: BIND_POINT_GRAPHICS,
        }
    }

    /// The flags that a frame's fence is created with: signaled, so that the
    /// first frame of each slot is not held back.
    pub fn fence_create_flags() -> (r: u32)
        ensures
            r == FENCE_CREATE_SIGNALED,
    {
        FENCE_CREATE_SIGNALED
    }

    /// The description of the view of one presentable image.
    pub fn frame_view_info(image: u64, image_format: i32) -> (r: ImageViewCreateInfo)
        ensures
            r == (ImageViewCreateInfo {
                image,
                view_type: IMAGE_VIEW_TYPE_2D,
                format: image_format,
                subresource_range: ImageSubresourceRange {
                    aspect_mask: IMAGE_ASPECT_COLOR,
                    base_mip_level: 0,
                    level_count: 1,
                    base_array_layer: 0,
                    layer_count: 1,
                },
            }),
    {
        ImageViewCreateInfo {
            image,
            view_type: IMAGE_VIEW_TYPE_2D,
            format: image_format,
            subresource_range: ImageSubresourceRange {
                aspect_mask: IMAGE_ASPECT_COLOR,
                base_mip_level: 0,
                level_count: 1,
                base_array_layer: 0,
                layer_count: 1,
            },
        }
    }

    /// The description of the framebuffer over one view.
    pub fn framebuffer_info(render_pass: u64, view: u64, swapchain_extent: Extent2D) -> (r:
        FramebufferCreateInfo)
        ensures
            r == (FramebufferCreateInfo {
                render_pass,
                attachment: view,
                width: swapchain_extent.width,
                height: swapchain_extent.height,
                layers: 1,
            }),
    {
        FramebufferCreateInfo {
            render_pass,
            attachment: view,
            width: swapchain_extent.width,
            height: swapchain_extent.height,
            layers: 1,
        }
    }

    /// One bundle for each presentable image, in the images' order.
    pub fn create_frame_bundles(images: &[u64], views: &[u64], framebuffers: &[u64]) -> (r: Vec<
        KewFrameBundle,
    >)
        requires
            views@.len() == images@.len(),
            framebuffers@.len() == images@.len(),
        ensures
            r@.len() == images@.len(),
            forall|i: int|
                0 <= i < images@.len() ==> #[trigger] r@[i] == (KewFrameBundle {
                    framebuffer: framebuffers@[i],
                    image: images@[i],
                    view: views@[i],
                }),
    {
        let mut bundles: Vec<KewFrameBundle> = Vec::with_capacity(images.len());
        let mut i: usize = 0;
        while i < images.len()
            invariant
                i <= images@.len(),
                views@.len() == images@.len(),
                framebuffers@.len() == images@.len(),
                bundles@.len() == i,
                forall|k: int|
                    0 <= k < i ==> #[trigger] bundles@[k] == (KewFrameBundle {
                        framebuffer: framebuffers@[k],
                        image: images@[k],
                        view: views@[k],
                    }),
            decreases images@.len() - i,
        {
            bundles.push(
                KewFrameBundle { framebuffer: framebuffers[i], image: images[i], view: views[i] },
            );
            i += 1;
        }
        bundles
    }

    /// Records a swapchain from the handles of its parts.
    pub fn new(
        present_queue: u64,
        swapchain: u64,
        swapchain_extent: Extent2D,
        frame_bundles: Vec<KewFrameBundle>,
        image_available_semaphores: [u64; 2],
        render_finished_semaphores: [u64; 2],
        frame_in_flight_fences: [u64; 2],
        image_format: i32,
        render_pass: u64,
    ) -> (r: Self)
        ensures
            r.present_queue == present_queue,
            r.swapchain == swapchain,
            r.swapchain_extent == swapchain_extent,
            r.frame_bundles == frame_bundles,
            r.image_available_semaphores == image_available_semaphores,
            r.render_finished_semaphores == render_finished_semaphores,
            r.frame_in_flight_fences == frame_in_flight_fences,
            r.image_format == image_format,
            r.render_pass == render_pass,
    {
        KewSwapchain {
            present_queue,
            swapchain,
            swapchain_extent,
            frame_bundles,
            image_available_semaphores,
            render_finished_semaphores,
            frame_in_flight_fences,
            image_format,
            render_pass,
        }
    }

    /// How many presentable images there are.
    pub fn image_count(&self) -> (r: usize)
        ensures
            r == self.frame_bundles@.len(),
    {
        self.frame_bundles.len()
    }

    /// The commands that start the render pass on the framebuffer of the
    /// acquired image, clear it, and set viewport and scissor to the whole
    /// extent.
    pub fn begin_render_pass(&self, image_idx: usize) -> (r: Vec<Command>)
        requires
            image_idx < self.frame_bundles@.len(),
        ensures
            r@ == self.render_pass_start(image_idx as int),
    {
        let mut commands: Vec<Command> = Vec::with_capacity(3);
        commands.push(
            Command::BeginRenderPass(
                RenderPassBegin {
                    render_pass: self.render_pass,
                    framebuffer: self.frame_bundles[image_idx].framebuffer,
                    render_area: self.swapchain_extent,
                    clear_color: ClearColor {
                        r: CLEAR_COMPONENT,
                        g: CLEAR_COMPONENT,
                        b: CLEAR_COMPONENT,
                        a: CLEAR_COMPONENT,
                    },
                    contents: SUBPASS_CONTENTS_INLINE,
                },
            ),
        );
        commands.push(Command::SetViewport { extent: self.swapchain_extent });
        commands.push(Command::SetScissor { extent: self.swapchain_extent });
        assert(commands@ =~= self.render_pass_start(image_idx as int));
        commands
    }

    /// The command that ends the render pass.
    pub fn end_render_pass(&self) -> (r: Command)
        ensures
            r == Command::EndRenderPass,
    {
        Command::EndRenderPass
    }

    /// The end of a frame. The submission waits for the slot's
    /// image-available semaphore where colour is written, and signals the
    /// slot's render-finished semaphore and fence; the presentation waits
    /// for the render-finished semaphore.
    pub fn submit_and_present(
        &self,
        cmd_buffer: u64,
        image_idx: usize,
        frame_idx: usize,
        gfx_queue: u64,
    ) -> (r: FrameSubmission)
        requires
            frame_idx < MAX_IN_FLIGHT_FRAMES,
            image_idx <= u32::MAX,
        ensures
            r == self.submission_of(cmd_buffer, image_idx as int, frame_idx as int, gfx_queue),
    {
        FrameSubmission {
            reset_fence: self.frame_in_flight_fences[frame_idx],
            submit_queue: gfx_queue,
            wait_semaphore: self.image_available_semaphores[frame_idx],
            wait_stage: STAGE_COLOR_ATTACHMENT_OUTPUT,
            cmd_buffer,
            signal_semaphore: self.render_finished_semaphores[frame_idx],
            signal_fence: self.frame_in_flight_fences[frame_idx],
            present_queue: self.present_queue,
            present_wait_semaphore: self.render_finished_semaphores[frame_idx],
            swapchain: self.swapchain,
            image_index: image_idx as u32,
        }
    }

    /// The fence that tells whether the slot `frame_idx` is still in use.
    pub fn frame_fence(&self, frame_idx: usize) -> (r: u64)
        requires
            frame_idx < MAX_IN_FLIGHT_FRAMES,
        ensures
            r == self.frame_in_flight_fences[frame_idx as int],
    {
        self.frame_in_flight_fences[frame_idx]
    }

    /// Whether the slot is still in use, given the status of its fence: it
    /// is as long as the fence is not signaled.
    pub fn frame_in_use(&self, frame_idx: usize, fence_signaled: bool) -> (r: bool)
        requires
            frame_idx < MAX_IN_FLIGHT_FRAMES,
        ensures
            r == !fence_signaled,
    {
        !fence_signaled
    }

    /// The request for the next image: without time limit, signalling the
    /// slot's image-available semaphore and no fence.
    pub fn next_image_idx(&self, frame_idx: usize) -> (r: AcquireRequest)
        requires
            frame_idx < MAX_IN_FLIGHT_FRAMES,
        ensures
            r == (AcquireRequest {
                swapchain: self.swapchain,
                timeout: u64::MAX,
                semaphore: self.image_available_semaphores[frame_idx as int],
                fence: NULL_HANDLE,
            }),
    {
        AcquireRequest {
            swapchain: self.swapchain,
            timeout: u64::MAX,
            semaphore: self.image_available_semaphores[frame_idx],
            fence: NULL_HANDLE,
        }
    }

    /// The steps that tear the swapchain down, in order.
    pub fn teardown(&self) -> (r: Vec<TeardownStep>)
        requires
            2 * self.frame_bundles@.len() + 9 <= usize::MAX,
        ensures
            r@ == self.teardown_of(),
    {
        let mut steps: Vec<TeardownStep> = Vec::new();
        steps.push(
            TeardownStep::WaitForFences {
                fences: self.frame_in_flight_fences,
                wait_all: true,
                timeout: u64::MAX,
            },
        );
        steps.push(TeardownStep::DestroyFence(self.frame_in_flight_fences[0]));
        steps.push(TeardownStep::DestroyFence(self.frame_in_flight_fences[1]));
        steps.push(TeardownStep::DestroySwapchain(self.swapchain));
        steps.push(TeardownStep::DestroyRenderPass(self.render_pass));
        steps.push(TeardownStep::DestroySemaphore(self.image_available_semaphores[0]));
        steps.push(TeardownStep::DestroySemaphore(self.image_available_semaphores[1]));
        steps.push(TeardownStep::DestroySemaphore(self.render_finished_semaphores[0]));
        steps.push(TeardownStep::DestroySemaphore(self.render_finished_semaphores[1]));
        let ghost head = steps@;
        let mut i: usize = 0;
        while i < self.frame_bundles.len()
            invariant
                i <= self.frame_bundles@.len(),
                2 * self.frame_bundles@.len() + 9 <= usize::MAX,
                head.len() == 9,
                steps@.len() == 9 + 2 * i,
                steps@.subrange(0, 9) == head,
                forall|k: int|
                    0 <= k < 2 * i ==> steps@[9 + k] == bundle_teardown(self.frame_bundles@)[k],
            decreases self.frame_bundles@.len() - i,
        {
            let bundle = self.frame_bundles[i];
            let ghost before = steps@;
            steps.push(TeardownStep::DestroyImageView(bundle.view));
            steps.push(TeardownStep::DestroyFramebuffer(bundle.framebuffer));
            assert(steps@.subrange(0, 9) =~= before.subrange(0, 9));
            i += 1;
        }
        let ghost plan = self.teardown_of();
        assert(steps@.len() == plan.len());
        assert forall|k: int| 0 <= k < steps@.len() implies steps@[k] == plan[k] by {
            if k < 9 {
                assert(steps@[k] == steps@.subrange(0, 9)[k]);
            } else {
                assert(steps@[9 + (k - 9)] == bundle_teardown(self.frame_bundles@)[k - 9]);
            }
        }
        assert(steps@ =~= plan);
        steps
    }
}

/// Teardown waits before it destroys: the first step blocks, without time
/// limit, until the fence of every frame slot is signaled, however many of
/// them are pending, and every later step is a destruction. Each fence and
/// semaphore, the render pass and the swapchain are destroyed after it.
pub proof fn lemma_teardown_waits_first(sc: KewSwapchain)
    ensures
        sc.teardown_of().len() == 9 + 2 * sc.frame_bundles@.len(),
        sc.teardown_of()[0] == (TeardownStep::WaitForFences {
            fences: sc.frame_in_flight_fences,
            wait_all: true,
            timeout: u64::MAX,
        }),
        forall|i: int|
            1 <= i < sc.teardown_of().len() ==> !(#[trigger] sc.teardown_of()[i] is WaitForFences),
        forall|slot: int|
            0 <= slot < 2 ==> exists|i: int|
                1 <= i < sc.teardown_of().len() && sc.teardown_of()[i] == TeardownStep::DestroyFence(
                    #[trigger] sc.frame_in_flight_fences[slot],
                ),
        forall|slot: int|
            0 <= slot < 2 ==> exists|i: int|
                1 <= i < sc.teardown_of().len() && sc.teardown_of()[i]
                    == TeardownStep::DestroySemaphore(
                    #[trigger] sc.image_available_semaphores[slot],
                ),
        forall|slot: int|
            0 <= slot < 2 ==> exists|i: int|
                1 <= i < sc.teardown_of().len() && sc.teardown_of()[i]
                    == TeardownStep::DestroySemaphore(
                    #[trigger] sc.render_finished_semaphores[slot],
                ),
        exists|i: int|
            1 <= i < sc.teardown_of().len() && sc.teardown_of()[i] == TeardownStep::DestroySwapchain(
                sc.swapchain,
            ),
        exists|i: int|
            1 <= i < sc.teardown_of().len() && sc.teardown_of()[i]
                == TeardownStep::DestroyRenderPass(sc.render_pass),
{
    let steps = sc.teardown_of();
    assert(steps[1] == TeardownStep::DestroyFence(sc.frame_in_flight_fences[0]));
    assert(steps[2] == TeardownStep::DestroyFence(sc.frame_in_flight_fences[1]));
    assert(steps[3] == TeardownStep::DestroySwapchain(sc.swapchain));
    assert(steps[4] == TeardownStep::DestroyRenderPass(sc.render_pass));
    assert(steps[5] == TeardownStep::DestroySemaphore(sc.image_available_semaphores[0]));
    assert(steps[6] == TeardownStep::DestroySemaphore(sc.image_available_semaphores[1]));
    assert(steps[7] == TeardownStep::DestroySemaphore(sc.render_finished_semaphores[0]));
    assert(steps[8] == TeardownStep::DestroySemaphore(sc.render_finished_semaphores[1]));
    assert forall|i: int| 1 <= i < steps.len() implies !(#[trigger] steps[i] is WaitForFences) by {
        if i >= 9 {
            assert(steps[i] == bundle_teardown(sc.frame_bundles@)[i - 9]);
        }
    }
}

} // verus!
