//! Command pools, the commands recorded into command buffers, and the
//! synchronous submission of a batch.

use crate::gpu::buffer::BufferToImageCopy;
use crate::gpu::image::{ImageMemoryBarrier, ImageToBufferCopy};
use crate::gpu::vk::{
    Extent2D, COMMAND_BUFFER_LEVEL_PRIMARY, COMMAND_BUFFER_ONE_TIME_SUBMIT,
    COMMAND_POOL_RESET_COMMAND_BUFFER, COMMAND_POOL_TRANSIENT,
};
use vstd::prelude::*;

verus! {

/// A colour, each component held as the bit pattern of a 32-bit float.
#[derive(Clone, Copy, Debug, PartialEq, Eq, Structural)]
pub struct ClearColor {
    pub r: u32,
    pub g: u32,
    pub b: u32,
    pub a: u32,
}

/// The start of a render pass on one framebuffer, over an area at the
/// origin.
#[derive(Clone, Copy, Debug, PartialEq, Eq, Structural)]
pub struct RenderPassBegin {
    pub render_pass: u64,
    pub framebuffer: u64,
    pub render_area: Extent2D,
    pub clear_color: ClearColor,
    pub contents: i32,
}

/// One command as it is recorded into a command buffer.
#[derive(Clone, Copy, Debug, PartialEq, Eq, Structural)]
pub enum Command {
    BeginRenderPass(RenderPassBegin),
    /// A viewport at the origin, `extent` wide and high.
    SetViewport { extent: Extent2D },
    /// A scissor at the origin, `extent` wide and high.
    SetScissor { extent: Extent2D },
    EndRenderPass,
    BindPipeline { bind_point: i32, pipeline: u64 },
    BindDescriptorSet { bind_point: i32, layout: u64, first_set: u32, descriptor_set: u64 },
    BindVertexBuffer { first_binding: u32, buffer: u64, offset: u64 },
    BindIndexBuffer { buffer: u64, offset: u64, index_type: i32 },
    Draw { vertex_count: u32, instance_count: u32, first_vertex: u32, first_instance: u32 },
    DrawIndexed {
        index_count: u32,
        instance_count: u32,
        first_index: u32,
        vertex_offset: i32,
        first_instance: u32,
    },
    Dispatch { x: u32, y: u32, z: u32 },
    ImageBarrier { src_stage: u32, dst_stage: u32, dependency: u32, barrier: ImageMemoryBarrier },
    CopyBufferToImage(BufferToImageCopy),
    CopyImageToBuffer(ImageToBufferCopy),
}

/// What a command pool is created from.
#[derive(Clone, Copy, Debug, PartialEq, Eq, Structural)]
pub struct CommandPoolCreateInfo {
    pub queue_family_index: u32,
    pub flags: u32,
}

/// A request for `count` command buffers of one pool.
#[derive(Clone, Copy, Debug, PartialEq, Eq, Structural)]
pub struct CommandBufferAllocateInfo {
    pub command_pool: u64,
    pub level: i32,
    pub count: u32,
}

/// How a one-shot command buffer comes to be: one primary buffer of the
/// pool, recording begun with `begin_flags`.
#[derive(Clone, Copy, Debug, PartialEq, Eq, Structural)]
pub struct OneShotBegin {
    pub allocate: CommandBufferAllocateInfo,
    pub begin_flags: u32,
}

/// One step of a synchronous submission.
#[derive(Clone, Copy, Debug, PartialEq, Eq, Structural)]
pub enum SubmitStep {
    /// End recording on the buffer.
    End { cmd_buffer: u64 },
    /// Submit the first `count` buffers handed in as one batch, without fence.
    Submit { queue: u64, count: usize },
    /// Block until the queue is idle.
    WaitIdle { queue: u64 },
    /// Free the first `count` buffers handed in.
    Free { command_pool: u64, count: usize },
}

/// A pool of transient command buffers on the first queue of one family.
#[derive(Clone, Copy, Debug, PartialEq, Eq, Structural)]
pub struct KewCommandPool {
    pub queue: u64,
    pub command_pool: u64,
}

/// The steps of a synchronous submission of `buffers` on `pool`: recording
/// ends on each buffer in turn, the batch is submitted, the queue drains,
/// and the buffers are freed.
pub open spec fn submission_of(pool: KewCommandPool, buffers: Seq<u64>) -> Seq<SubmitStep> {
    Seq::new(buffers.len(), |i: int| SubmitStep::End { cmd_buffer: buffers[i] }) + seq![
        SubmitStep::Submit { queue: pool.queue, count: buffers.len() as usize },
        SubmitStep::WaitIdle { queue: pool.queue },
        SubmitStep::Free { command_pool: pool.command_pool, count: buffers.len() as usize },
    ]
}

impl KewCommandPool {
    /// The description of a pool of short-lived, resettable buffers on the
    /// family `queue_idx`.
    pub fn create_info(queue_idx: u32) -> (r: CommandPoolCreateInfo)
        ensures
            r.queue_family_index == queue_idx,
            r.flags == COMMAND_POOL_RESET_COMMAND_BUFFER | COMMAND_POOL_TRANSIENT,
    {
        CommandPoolCreateInfo {
            queue_family_index: queue_idx,
            flags: COMMAND_POOL_RESET_COMMAND_BUFFER | COMMAND_POOL_TRANSIENT,
        }
    }

    /// Records a pool created under the handle `command_pool`, with `queue`
    /// the queue that its buffers are submitted to.
    pub fn new(command_pool: u64, queue: u64) -> (r: Self)
        ensures
            r == (KewCommandPool { queue, command_pool }),
    {
        KewCommandPool { queue, command_pool }
    }

    /// The request for `N` buffers of this pool at `level`.
    pub fn allocate_command_buffers<const N: usize>(&self, level: i32) -> (r:
        CommandBufferAllocateInfo)
        requires
            N <= u32::MAX,
        ensures
            r == (CommandBufferAllocateInfo {
                command_pool: self.command_pool,
                level,
                count: N as u32,
            }),
    {
        CommandBufferAllocateInfo { command_pool: self.command_pool, level, count: N as u32 }
    }

    /// The first `N` of the buffers that an allocation handed out.
    pub fn take_command_buffers<const N: usize>(allocated: &[u64]) -> (r: [u64; N])
        requires
            N <= allocated@.len(),
        ensures
            r@ == allocated@.subrange(0, N as int),
    {
        let mut buffers: [u64; N] = [0u64; N];
        let mut i: usize = 0;
        while i < N
            invariant
                i <= N,
                N <= allocated@.len(),
                buffers@.len() == N,
                forall|k: int| 0 <= k < i ==> buffers@[k] == allocated@[k],
            decreases N - i,
        {
            buffers[i] = allocated[i];
            i += 1;
        }
        assert(buffers@ =~= allocated@.subrange(0, N as int));
        buffers
    }

    /// How a buffer for a single submission comes to be: one primary buffer,
    /// its recording begun for one-time submission.
    pub fn begin_one_shot(&self) -> (r: OneShotBegin)
        ensures
            r == (OneShotBegin {
                allocate: CommandBufferAllocateInfo {
                    command_pool: self.command_pool,
                    level: COMMAND_BUFFER_LEVEL_PRIMARY,
                    count: 1,
                },
                begin_flags: COMMAND_BUFFER_ONE_TIME_SUBMIT,
            }),
    {
        OneShotBegin {
            allocate: CommandBufferAllocateInfo {
                command_pool: self.command_pool,
                level: COMMAND_BUFFER_LEVEL_PRIMARY,
                count: 1,
            },
            begin_flags: COMMAND_BUFFER_ONE_TIME_SUBMIT,
        }
    }

    /// The steps that submit `buffers` as one batch and wait for it.
    pub fn submit_and_wait(&self, buffers: &[u64]) -> (r: Vec<SubmitStep>)
        requires
            buffers@.len() + 3 <= usize::MAX,
        ensures
            r@ == submission_of(*self, buffers@),
    {
        let mut steps: Vec<SubmitStep> = Vec::new();
        let mut i: usize = 0;
        while i < buffers.len()
            invariant
                i <= buffers@.len(),
                steps@.len() == i,
                forall|k: int| 0 <= k < i ==> steps@[k] == (SubmitStep::End {
                    cmd_buffer: buffers@[k],
                }),
            decreases buffers@.len() - i,
        {
            steps.push(SubmitStep::End { cmd_buffer: buffers[i] });
            i += 1;
        }
        steps.push(SubmitStep::Submit { queue: self.queue, count: buffers.len() });
        steps.push(SubmitStep::WaitIdle { queue: self.queue });
        steps.push(SubmitStep::Free { command_pool: self.command_pool, count: buffers.len() });
        assert(steps@ =~= submission_of(*self, buffers@));
        steps
    }
}

/// In a synchronous submission the queue drains after the batch is
/// submitted and before any buffer is freed, and recording has ended on
/// every buffer before the batch is submitted.
pub proof fn lemma_submission_order(pool: KewCommandPool, buffers: Seq<u64>)
    requires
        buffers.len() <= usize::MAX,
    ensures
        ({
            let steps = submission_of(pool, buffers);
            let n = buffers.len() as int;
            &&& steps.len() == n + 3
            &&& forall|i: int| 0 <= i < n ==> steps[i] == (SubmitStep::End { cmd_buffer: buffers[i] })
            &&& steps[n] is Submit
            &&& steps[n + 1] is WaitIdle
            &&& steps[n + 2] is Free
        }),
{
}

} // verus!
