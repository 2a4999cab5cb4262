//! The image job: an image is uploaded, run through a compute stage into a
//! second image, and downloaded.
//!
//! The job runs in stages. Each stage has its commands, which are recorded,
//! submitted and waited for outside; only when that is reported does the
//! recorded layout of the images advance.

use crate::gpu::buffer::{BufferToImageCopy, KewBuffer};
use crate::gpu::command::Command;
use crate::gpu::descriptor::{DescriptorPoolCreateInfo, DescriptorPoolSize, KewDescriptorPoolBuilder};
use crate::gpu::image::{
    color_subresource, DescriptorImageInfo, ImageDescriptor, ImageMemoryBarrier,
    ImageToBufferCopy, KewImage,
};
use crate::gpu::memory::{KewMemory, MemoryAllocateInfo};
use crate::gpu::pipeline::KewCmpPipeline;
use crate::gpu::shader::{
    DescriptorSetLayoutBindingInfo, DescriptorTarget, KewShader, ShaderStageConfig,
    WriteDescriptorSet,
};
use crate::gpu::vk::{
    Extent3D, MemoryRequirements, ACCESS_NONE, ACCESS_SHADER_READ, ACCESS_SHADER_WRITE,
    ACCESS_TRANSFER_WRITE, DEPENDENCY_BY_REGION, DESCRIPTOR_TYPE_STORAGE_IMAGE,
    FORMAT_R8G8B8A8_UNORM, IMAGE_LAYOUT_GENERAL, IMAGE_LAYOUT_TRANSFER_DST_OPTIMAL,
    IMAGE_LAYOUT_UNDEFINED, NULL_HANDLE,
    QUEUE_FAMILY_IGNORED, SHADER_STAGE_COMPUTE, STAGE_COMPUTE_SHADER, STAGE_TOP_OF_PIPE,
    STAGE_TRANSFER,
};
use vstd::prelude::*;

verus! {

/// The stages of the job, in their order.
#[derive(Clone, Copy, Debug, PartialEq, Eq, Structural)]
pub enum ImgStage {
    /// The source image is made ready to receive the upload.
    Upload,
    /// The staging buffer is copied into the source image.
    Copy,
    /// Both images are made ready for the compute stage.
    Prepare,
    /// The compute stage runs once for each texel.
    Dispatch,
    /// The destination image is copied into the staging buffer.
    Download,
    /// Nothing is left to do.
    Done,
}

/// The pool whose queue a stage is submitted to.
#[derive(Clone, Copy, Debug, PartialEq, Eq, Structural)]
pub enum JobPool {
    Transfer,
    Compute,
}

/// What one stage does: the descriptors to write first, then the commands
/// to record and submit on the queue of `pool`. Where `separate_buffers`
/// holds, each command goes into a command buffer of its own; all of them
/// are submitted as one batch either way.
pub struct ImgBatch {
    pub pool: JobPool,
    pub descriptor_writes: Vec<WriteDescriptorSet>,
    pub commands: Vec<Command>,
    pub separate_buffers: bool,
}

/// The pool that `stage` is submitted on: transitions into and out of
/// compute use and the compute stage itself go to the compute pool, the
/// rest to the transfer pool.
pub open spec fn stage_pool(stage: ImgStage) -> JobPool {
    match stage {
        ImgStage::Prepare => JobPool::Compute,
        ImgStage::Dispatch => JobPool::Compute,
        _ => JobPool::Transfer,
    }
}

/// Whether `stage` can be run: the compute stage needs a view of each
/// image and a binding for each in the shader.
pub open spec fn stage_ready(
    stage: ImgStage,
    src_img: KewImage,
    dst_img: KewImage,
    shader: KewShader,
) -> bool {
    stage == ImgStage::Dispatch ==> src_img.view.is_some() && dst_img.view.is_some()
        && shader.bindings@.len() >= 2
}

/// The descriptor writes of `stage`: before the compute stage runs, the
/// first binding of `set` is pointed at the source image and the second at
/// the destination image, each in its recorded layout.
pub open spec fn stage_writes(
    stage: ImgStage,
    src_img: KewImage,
    dst_img: KewImage,
    shader: KewShader,
    set: u64,
) -> Seq<WriteDescriptorSet> {
    if stage == ImgStage::Dispatch {
        seq![
            WriteDescriptorSet {
                descriptor_type: shader.bindings@[0].descriptor_type,
                dst_binding: 0,
                dst_set: set,
                target: DescriptorTarget::Image(
                    DescriptorImageInfo {
                        image_layout: src_img.layout,
                        image_view: src_img.view.unwrap(),
                        sampler: NULL_HANDLE,
                    },
                ),
            },
            WriteDescriptorSet {
                descriptor_type: shader.bindings@[1].descriptor_type,
                dst_binding: 1,
                dst_set: set,
                target: DescriptorTarget::Image(
                    DescriptorImageInfo {
                        image_layout: dst_img.layout,
                        image_view: dst_img.view.unwrap(),
                        sampler: NULL_HANDLE,
                    },
                ),
            },
        ]
    } else {
        Seq::<WriteDescriptorSet>::empty()
    }
}

/// The stage after `stage`.
pub open spec fn next_stage(stage: ImgStage) -> ImgStage {
    match stage {
        ImgStage::Upload => ImgStage::Copy,
        ImgStage::Copy => ImgStage::Prepare,
        ImgStage::Prepare => ImgStage::Dispatch,
        ImgStage::Dispatch => ImgStage::Download,
        ImgStage::Download => ImgStage::Done,
        ImgStage::Done => ImgStage::Done,
    }
}

/// The layout of the source image once `stage` was submitted.
pub open spec fn src_layout_after(stage: ImgStage, layout: i32) -> i32 {
    match stage {
        ImgStage::Upload => IMAGE_LAYOUT_TRANSFER_DST_OPTIMAL,
        ImgStage::Prepare => IMAGE_LAYOUT_GENERAL,
        _ => layout,
    }
}

/// The layout of the destination image once `stage` was submitted.
pub open spec fn dst_layout_after(stage: ImgStage, layout: i32) -> i32 {
    match stage {
        ImgStage::Prepare => IMAGE_LAYOUT_GENERAL,
        _ => layout,
    }
}

/// The transition of `image` from its recorded layout to `new_layout`.
pub open spec fn transition_of(
    image: KewImage,
    new_layout: i32,
    src_access: u32,
    dst_access: u32,
) -> ImageMemoryBarrier {
    ImageMemoryBarrier {
        old_layout: image.layout,
        new_layout,
        src_queue_family_index: QUEUE_FAMILY_IGNORED,
        dst_queue_family_index: QUEUE_FAMILY_IGNORED,
        image: image.vk_image,
        subresource_range: image.subresource,
        src_access_mask: src_access,
        dst_access_mask: dst_access,
    }
}

/// The commands of `stage`, for images in their recorded layouts.
pub open spec fn stage_commands(
    stage: ImgStage,
    src_img: KewImage,
    dst_img: KewImage,
    stage_buffer: u64,
    pipeline: KewCmpPipeline,
    set: u64,
) -> Seq<Command> {
    match stage {
        ImgStage::Upload => seq![
            Command::ImageBarrier {
                src_stage: STAGE_TOP_OF_PIPE,
                dst_stage: STAGE_TRANSFER,
                dependency: DEPENDENCY_BY_REGION,
                barrier: transition_of(
                    src_img,
                    IMAGE_LAYOUT_TRANSFER_DST_OPTIMAL,
                    ACCESS_NONE,
                    ACCESS_TRANSFER_WRITE,
                ),
            },
        ],
        ImgStage::Copy => seq![
            Command::CopyBufferToImage(
                BufferToImageCopy {
                    src_buffer: stage_buffer,
                    dst_image: src_img.vk_image,
                    dst_image_layout: IMAGE_LAYOUT_TRANSFER_DST_OPTIMAL,
                    region: src_img.whole_region(),
                },
            ),
        ],
        ImgStage::Prepare => seq![
            Command::ImageBarrier {
                src_stage: STAGE_TRANSFER,
                dst_stage: STAGE_COMPUTE_SHADER,
                dependency: DEPENDENCY_BY_REGION,
                barrier: transition_of(
                    src_img,
                    IMAGE_LAYOUT_GENERAL,
                    ACCESS_TRANSFER_WRITE,
                    ACCESS_SHADER_READ,
                ),
            },
            Command::ImageBarrier {
                src_stage: STAGE_TOP_OF_PIPE,
                dst_stage: STAGE_COMPUTE_SHADER,
                dependency: DEPENDENCY_BY_REGION,
                barrier: transition_of(
                    dst_img,
                    IMAGE_LAYOUT_GENERAL,
                    ACCESS_NONE,
                    ACCESS_SHADER_WRITE,
                ),
            },
        ],
        ImgStage::Dispatch => pipeline.binding_of(set) + seq![
            Command::Dispatch { x: src_img.extent.width, y: src_img.extent.height, z: 1 },
        ],
        ImgStage::Download => seq![
            Command::CopyImageToBuffer(
                ImageToBufferCopy {
                    src_image: dst_img.vk_image,
                    src_image_layout: dst_img.layout,
                    dst_buffer: stage_buffer,
                    region: dst_img.whole_region(),
                },
            ),
        ],
        ImgStage::Done => Seq::<Command>::empty(),
    }
}

/// The stage that filters: an input and an output storage image.
pub fn img_shader_config() -> (r: ShaderStageConfig<2>)
    ensures
        r.entry_name@ == "main"@,
        r.path@ == "./shader/img.spv"@,
        r.stage == SHADER_STAGE_COMPUTE,
        r.create_flags == 0,
        r.bindings@ == seq![
            DescriptorSetLayoutBindingInfo {
                descriptor_type: DESCRIPTOR_TYPE_STORAGE_IMAGE,
                descriptor_count: 1,
                stage_flags: SHADER_STAGE_COMPUTE,
            },
            DescriptorSetLayoutBindingInfo {
                descriptor_type: DESCRIPTOR_TYPE_STORAGE_IMAGE,
                descriptor_count: 1,
                stage_flags: SHADER_STAGE_COMPUTE,
            },
        ],
{
    let binding = DescriptorSetLayoutBindingInfo {
        descriptor_type: DESCRIPTOR_TYPE_STORAGE_IMAGE,
        descriptor_count: 1,
        stage_flags: SHADER_STAGE_COMPUTE,
    };
    let config = ShaderStageConfig {
        entry_name: "main",
        path: "./shader/img.spv",
        bindings: [binding, binding],
        stage: SHADER_STAGE_COMPUTE,
        create_flags: 0,
    };
    assert(config.bindings@ =~= seq![binding, binding]);
    config
}

/// The description of the job's descriptor pool: one set of two storage
/// images.
pub fn img_descriptor_pool() -> (r: DescriptorPoolCreateInfo)
    ensures
        r.max_sets == 1,
        r.flags == 0,
        r.pool_sizes@ == seq![
            DescriptorPoolSize { ty: DESCRIPTOR_TYPE_STORAGE_IMAGE, descriptor_count: 2 },
        ],
{
    let info = KewDescriptorPoolBuilder::new(1).add_pool_size(
        DESCRIPTOR_TYPE_STORAGE_IMAGE,
        2,
    ).build();
    assert(info.pool_sizes@ =~= seq![
        DescriptorPoolSize { ty: DESCRIPTOR_TYPE_STORAGE_IMAGE, descriptor_count: 2 },
    ]);
    info
}

/// The bytes of an image of `image_dx` by `image_dy` texels of four bytes
/// each, where they can be counted in 32 bits.
pub fn image_b_size(image_dx: u32, image_dy: u32) -> (r: Option<u64>)
    ensures
        r == (if image_dx * image_dy * 4 <= u32::MAX {
            Some((image_dx * image_dy * 4) as u64)
        } else {
            None
        }),
{
    assert(image_dx * image_dy <= 0xffff_ffff * 0xffff_ffff) by (nonlinear_arith)
        requires
            image_dx <= 0xffff_ffff,
            image_dy <= 0xffff_ffff,
    ;
    let texels: u64 = image_dx as u64 * image_dy as u64;
    if texels > 0x3fff_ffff {
        assert(image_dx * image_dy * 4 > u32::MAX) by (nonlinear_arith)
            requires
                image_dx * image_dy > 0x3fff_ffff,
        ;
        None
    } else {
        assert(image_dx * image_dy * 4 <= u32::MAX) by (nonlinear_arith)
            requires
                image_dx * image_dy <= 0x3fff_ffff,
        ;
        Some(texels * 4)
    }
}

/// Records the image created under `vk_image` for the job, and describes
/// the arena that serves it: as large as the image asks, of the memory
/// type `memory_type`. There is neither where the image's bytes cannot be
/// counted in 32 bits.
pub fn image_malloc(
    vk_image: u64,
    image_dx: u32,
    image_dy: u32,
    memory_reqs: &MemoryRequirements,
    memory_type: u32,
) -> (r: Option<(MemoryAllocateInfo, KewImage)>)
    ensures
        r.is_some() == (image_dx * image_dy * 4 <= u32::MAX),
        r matches Some(made) ==> {
            &&& made.0 == (MemoryAllocateInfo {
                allocation_size: memory_reqs.size,
                memory_type_index: memory_type,
            })
            &&& made.1.vk_image == vk_image
            &&& made.1.b_size == image_dx * image_dy * 4
            &&& made.1.format == FORMAT_R8G8B8A8_UNORM
            &&& made.1.extent == (Extent3D {
                width: image_dx,
                height: image_dy,
                depth: 1,
            })
            &&& made.1.layout == IMAGE_LAYOUT_UNDEFINED
            &&& made.1.subresource == color_subresource()
            &&& made.1.m_bind.is_none()
            &&& made.1.view.is_none()
        },
{
    match image_b_size(image_dx, image_dy) {
        None => None,
        Some(image_b_size) => Some(
            (
                KewMemory::allocate_info(memory_reqs.size, memory_type),
                KewImage::new(vk_image, image_dx, image_dy, FORMAT_R8G8B8A8_UNORM, image_b_size),
            ),
        ),
    }
}

/// The command that takes an image through `memory_barrier` between two
/// pipeline stages.
pub fn image_layout_transition(
    src_pipeline_stage: u32,
    dst_pipeline_stage: u32,
    memory_barrier: ImageMemoryBarrier,
) -> (r: Command)
    ensures
        r == (Command::ImageBarrier {
            src_stage: src_pipeline_stage,
            dst_stage: dst_pipeline_stage,
            dependency: DEPENDENCY_BY_REGION,
            barrier: memory_barrier,
        }),
{
    Command::ImageBarrier {
        src_stage: src_pipeline_stage,
        dst_stage: dst_pipeline_stage,
        dependency: DEPENDENCY_BY_REGION,
        barrier: memory_barrier,
    }
}

/// What `stage` does, where it can be run. The images are not changed:
/// their recorded layouts advance with `img_submitted`.
pub fn img_compute(
    stage: ImgStage,
    src_img: &KewImage,
    dst_img: &KewImage,
    stage_buffer: &KewBuffer,
    shader: &KewShader,
    pipeline: &KewCmpPipeline,
    set: u64,
) -> (r: Option<ImgBatch>)
    ensures
        r.is_some() == stage_ready(stage, *src_img, *dst_img, *shader),
        r matches Some(batch) ==> {
            &&& batch.pool == stage_pool(stage)
            &&& batch.descriptor_writes@ == stage_writes(stage, *src_img, *dst_img, *shader, set)
            &&& batch.commands@ == stage_commands(
                stage,
                *src_img,
                *dst_img,
                stage_buffer.vk_buffer,
                *pipeline,
                set,
            )
            &&& batch.separate_buffers == (stage == ImgStage::Prepare)
        },
{
    let mut descriptor_writes: Vec<WriteDescriptorSet> = Vec::new();
    let mut commands: Vec<Command> = Vec::new();
    let mut separate_buffers = false;
    let mut pool = JobPool::Transfer;
    match stage {
        ImgStage::Upload => {
            let barrier = src_img.get_memory_barrier(
                IMAGE_LAYOUT_TRANSFER_DST_OPTIMAL,
                ACCESS_NONE,
                ACCESS_TRANSFER_WRITE,
            );
            commands.push(image_layout_transition(STAGE_TOP_OF_PIPE, STAGE_TRANSFER, barrier));
        },
        ImgStage::Copy => {
            commands.push(Command::CopyBufferToImage(stage_buffer.copy_to_image(src_img)));
        },
        ImgStage::Prepare => {
            let b0 = src_img.get_memory_barrier(
                IMAGE_LAYOUT_GENERAL,
                ACCESS_TRANSFER_WRITE,
                ACCESS_SHADER_READ,
            );
            let b1 = dst_img.get_memory_barrier(
                IMAGE_LAYOUT_GENERAL,
                ACCESS_NONE,
                ACCESS_SHADER_WRITE,
            );
            commands.push(image_layout_transition(STAGE_TRANSFER, STAGE_COMPUTE_SHADER, b0));
            commands.push(image_layout_transition(STAGE_TOP_OF_PIPE, STAGE_COMPUTE_SHADER, b1));
            separate_buffers = true;
            pool = JobPool::Compute;
        },
        ImgStage::Dispatch => {
            if shader.bindings.len() < 2 {
                return None;
            }
            match (src_img.descriptor_info(), dst_img.descriptor_info()) {
                (ImageDescriptor::Ready(src_info), ImageDescriptor::Ready(dst_info)) => {
                    descriptor_writes.push(shader.write_image(0, src_info, set));
                    descriptor_writes.push(shader.write_image(1, dst_info, set));
                },
                _ => {
                    return None;
                },
            }
            pool = JobPool::Compute;
            commands = pipeline.bind(set);
            commands.push(
                Command::Dispatch { x: src_img.extent.width, y: src_img.extent.height, z: 1 },
            );
        },
        ImgStage::Download => {
            commands.push(Command::CopyImageToBuffer(dst_img.copy_to_buffer(stage_buffer)));
        },
        ImgStage::Done => {},
    }
    assert(commands@ =~= stage_commands(
        stage,
        *src_img,
        *dst_img,
        stage_buffer.vk_buffer,
        *pipeline,
        set,
    ));
    assert(descriptor_writes@ =~= stage_writes(stage, *src_img, *dst_img, *shader, set));
    Some(ImgBatch { pool, descriptor_writes, commands, separate_buffers })
}

/// Records that the commands of `stage` were submitted and have run: the
/// images' recorded layouts advance by the transitions of the stage.
/// Returns the next stage.
pub fn img_submitted(stage: ImgStage, src_img: &mut KewImage, dst_img: &mut KewImage) -> (r:
    ImgStage)
    ensures
        r == next_stage(stage),
        *final(src_img) == (KewImage {
            layout: src_layout_after(stage, old(src_img).layout),
            ..*old(src_img)
        }),
        *final(dst_img) == (KewImage {
            layout: dst_layout_after(stage, old(dst_img).layout),
            ..*old(dst_img)
        }),
{
    match stage {
        ImgStage::Upload => {
            let barrier = src_img.get_memory_barrier(
                IMAGE_LAYOUT_TRANSFER_DST_OPTIMAL,
                ACCESS_NONE,
                ACCESS_TRANSFER_WRITE,
            );
            let _ = src_img.apply_barrier(&barrier);
            ImgStage::Copy
        },
        ImgStage::Copy => ImgStage::Prepare,
        ImgStage::Prepare => {
            let b0 = src_img.get_memory_barrier(
                IMAGE_LAYOUT_GENERAL,
                ACCESS_TRANSFER_WRITE,
                ACCESS_SHADER_READ,
            );
            let b1 = dst_img.get_memory_barrier(
                IMAGE_LAYOUT_GENERAL,
                ACCESS_NONE,
                ACCESS_SHADER_WRITE,
            );
            let _ = src_img.apply_barrier(&b0);
            let _ = dst_img.apply_barrier(&b1);
            ImgStage::Dispatch
        },
        ImgStage::Dispatch => ImgStage::Download,
        ImgStage::Download => ImgStage::Done,
        ImgStage::Done => ImgStage::Done,
    }
}

/// Run in order from the first stage, the job copies into a source image
/// that is in the layout that the copy names, dispatches on two images in
/// the general layout, and downloads from the general layout, whatever
/// layouts the images started in.
pub proof fn lemma_stages_agree(src_layout: i32, dst_layout: i32)
    ensures
        src_layout_after(ImgStage::Upload, src_layout) == IMAGE_LAYOUT_TRANSFER_DST_OPTIMAL,
        src_layout_after(
            ImgStage::Prepare,
            src_layout_after(ImgStage::Copy, src_layout_after(ImgStage::Upload, src_layout)),
        ) == IMAGE_LAYOUT_GENERAL,
        dst_layout_after(
            ImgStage::Dispatch,
            dst_layout_after(
                ImgStage::Prepare,
                dst_layout_after(ImgStage::Copy, dst_layout_after(ImgStage::Upload, dst_layout)),
            ),
        ) == IMAGE_LAYOUT_GENERAL,
        next_stage(
            next_stage(next_stage(next_stage(next_stage(ImgStage::Upload)))),
        ) == ImgStage::Done,
{
}

} // verus!
