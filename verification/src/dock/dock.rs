//! The frame pacer and the scene it draws.
//!
//! A frame goes through three phases. A redraw request on an idle renderer
//! whose current slot is free claims the slot and asks for an image; the
//! arrival of the image opens the frame for recording; closing the frame
//! submits it and moves on to the next slot. A request that finds a frame
//! under way, or the slot's fence unsignaled, is dropped.

use crate::dock::DockErr;
use crate::gpu::buffer::{BufferError, KewBuffer};
use crate::gpu::bytes::words_bytes;
use crate::gpu::command::{Command, KewCommandPool};
use crate::gpu::descriptor::{
    DescriptorPoolCreateInfo, DescriptorPoolSize, KewDescriptorPool, KewDescriptorPoolBuilder,
};
use crate::gpu::device::{memory_marks, selects, KewDevice};
use crate::gpu::memory::{
    bind_once, window_once_mapped, KewMemory, KewMemoryBinding, MapRange, MemoryAllocateInfo,
    WHOLE_SIZE,
};
use crate::gpu::model::{
    square_indices, square_vertices, vertex_words, write_outcome, FlatVertex, KewModel,
    KewModelVertexData, KewVertex,
};
use crate::gpu::pipeline::KewGfxPipeline;
use crate::gpu::swapchain::{AcquireRequest, FrameSubmission, KewSwapchain, MAX_IN_FLIGHT_FRAMES};
use crate::gpu::vk::{
    MemoryRequirements, BIND_POINT_GRAPHICS, DESCRIPTOR_TYPE_UNIFORM_BUFFER, MAX_MEMORY_TYPES,
    NULL_HANDLE,
};
use vstd::prelude::*;

verus! {

/// The arena that holds the models.
pub const MODEL_MEM_IDX: usize = 0;

/// The bytes set aside for vertex data, and as many again for index data.
pub const MODEL_MEM_SIZE: u64 = 1024;

/// Where a frame stands.
#[derive(Clone, Copy, Debug, PartialEq, Eq, Structural)]
pub enum FramePhase {
    /// No frame is under way.
    Idle,
    /// The slot is claimed and the next image is asked for.
    Acquiring,
    /// The image is there and the frame is being recorded.
    Open,
}

/// A frame that is open for recording.
#[derive(Clone, Copy, Debug, PartialEq, Eq, Structural)]
pub struct OpenedFrame {
    /// The command buffer of the slot, on which recording is to begin.
    pub cmd_buffer: u64,
    /// Whether the swapchain no longer matches the surface exactly. The
    /// swapchain is not recreated on that account.
    pub suboptimal: bool,
}

/// What happened outside that the renderer is told of.
#[derive(Clone, Copy, Debug, PartialEq, Eq, Structural)]
pub enum RenderEvent {
    /// A redraw was requested, and the fence of the current slot was found
    /// signaled or not.
    Redraw { fence_signaled: bool },
    /// The image asked for has arrived.
    Acquired { image_idx: u32, suboptimal: bool },
}

/// A whole frame: what to record into the slot's command buffer between
/// the begin and the end of its recording, and how to submit it.
pub struct FrameScript {
    pub frame: OpenedFrame,
    pub commands: Vec<Command>,
    pub submission: FrameSubmission,
}

/// What is to be done outside in answer to an event.
pub enum RenderAction {
    /// Nothing: the request was dropped, or the event came out of turn.
    Dropped,
    /// Acquire the next image, then report it.
    Acquire(AcquireRequest),
    /// Record and submit the frame.
    Frame(FrameScript),
}

/// The frame pacer: the swapchain, one command buffer for each frame slot,
/// the slot in turn, the image of the open frame, and where the frame
/// stands.
pub struct DockRenderer {
    pub swapchain: KewSwapchain,
    pub cmd_pool: KewCommandPool,
    pub cmd_buffers: [u64; 2],
    pub descriptor_pool: KewDescriptorPool,
    pub current_frame_idx: usize,
    pub current_image_idx: usize,
    pub phase: FramePhase,
}

/// The slot after `slot`, round robin.
pub open spec fn next_slot(slot: usize) -> usize {
    if slot + 1 >= MAX_IN_FLIGHT_FRAMES {
        0
    } else {
        (slot + 1) as usize
    }
}

/// Whether a redraw request opens a frame: only on an idle renderer whose
/// current slot's fence is signaled.
pub open spec fn opens(phase: FramePhase, fence_signaled: bool) -> bool {
    phase == FramePhase::Idle && fence_signaled
}

/// The slots of the frames that open when a renderer that is idle at `slot`
/// gets one redraw request for each entry of `fences`, the entry telling
/// whether the request finds the current slot's fence signaled, and every
/// frame that opens is closed before the next request.
pub open spec fn opened_slots(slot: usize, fences: Seq<bool>) -> Seq<usize>
    decreases fences.len(),
{
    if fences.len() == 0 {
        Seq::<usize>::empty()
    } else if opens(FramePhase::Idle, fences[0]) {
        seq![slot] + opened_slots(next_slot(slot), fences.drop_first())
    } else {
        opened_slots(slot, fences.drop_first())
    }
}

impl DockRenderer {
    /// The current slot is one of the frame slots; while a frame is open,
    /// the current image is one of the swapchain's images.
    pub open spec fn wf(&self) -> bool {
        &&& self.current_frame_idx < MAX_IN_FLIGHT_FRAMES
        &&& self.swapchain.frame_bundles@.len() <= u32::MAX
        &&& self.phase == FramePhase::Open ==> self.current_image_idx
            < self.swapchain.frame_bundles@.len()
    }

    /// The answer to a redraw request.
    pub open spec fn opening(&self, fence_signaled: bool) -> Result<AcquireRequest, DockErr> {
        if opens(self.phase, fence_signaled) {
            Ok(
                AcquireRequest {
                    swapchain: self.swapchain.swapchain,
                    timeout: u64::MAX,
                    semaphore: self.swapchain.image_available_semaphores[self.current_frame_idx as int],
                    fence: NULL_HANDLE,
                },
            )
        } else {
            Err(DockErr::SOFT)
        }
    }

    /// The renderer after a redraw request.
    pub open spec fn after_open(&self, fence_signaled: bool) -> DockRenderer {
        if opens(self.phase, fence_signaled) {
            DockRenderer { phase: FramePhase::Acquiring, ..*self }
        } else {
            *self
        }
    }

    /// The renderer after the image `image_idx` arrived.
    pub open spec fn after_acquire(&self, image_idx: u32) -> DockRenderer {
        DockRenderer {
            phase: FramePhase::Open,
            current_image_idx: image_idx as usize,
            ..*self
        }
    }

    /// The renderer after its frame was closed.
    pub open spec fn after_close(&self) -> DockRenderer {
        DockRenderer {
            phase: FramePhase::Idle,
            current_frame_idx: next_slot(self.current_frame_idx),
            ..*self
        }
    }

    /// The description of the renderer's descriptor pool: one set and one
    /// uniform buffer for each frame in flight.
    pub fn descriptor_pool_info() -> (r: DescriptorPoolCreateInfo)
        ensures
            r.max_sets == MAX_IN_FLIGHT_FRAMES,
            r.flags == 0,
            r.pool_sizes@ == seq![
                DescriptorPoolSize {
                    ty: DESCRIPTOR_TYPE_UNIFORM_BUFFER,
                    descriptor_count: 2,
                },
            ],
    {
        let info = KewDescriptorPoolBuilder::new(2).add_pool_size(
            DESCRIPTOR_TYPE_UNIFORM_BUFFER,
            2,
        ).build();
        assert(info.pool_sizes@ =~= seq![
            DescriptorPoolSize {
                ty: DESCRIPTOR_TYPE_UNIFORM_BUFFER,
                descriptor_count: 2,
            },
        ]);
        info
    }

    /// A renderer at rest on the first slot.
    pub fn new(
        swapchain: KewSwapchain,
        cmd_pool: KewCommandPool,
        cmd_buffers: [u64; 2],
        descriptor_pool: KewDescriptorPool,
    ) -> (r: Self)
        requires
            swapchain.frame_bundles@.len() <= u32::MAX,
        ensures
            r.wf(),
            r.swapchain == swapchain,
            r.cmd_pool == cmd_pool,
            r.cmd_buffers == cmd_buffers,
            r.descriptor_pool == descriptor_pool,
            r.current_frame_idx == 0,
            r.current_image_idx == 0,
            r.phase == FramePhase::Idle,
    {
        DockRenderer {
            swapchain,
            cmd_pool,
            cmd_buffers,
            descriptor_pool,
            current_frame_idx: 0,
            current_image_idx: 0,
            phase: FramePhase::Idle,
        }
    }

    /// Whether a frame is under way.
    pub fn frame_opened(&self) -> (r: bool)
        ensures
            r == (self.phase != FramePhase::Idle),
    {
        match self.phase {
            FramePhase::Idle => false,
            _ => true,
        }
    }

    /// The fence to poll before a redraw request: that of the current
    /// slot.
    pub fn current_fence(&self) -> (r: u64)
        requires
            self.wf(),
        ensures
            r == self.swapchain.frame_in_flight_fences[self.current_frame_idx as int],
    {
        self.swapchain.frame_fence(self.current_frame_idx)
    }

    /// Answers a redraw request. The frame is dropped where a frame is
    /// under way or the current slot's fence is not signaled; the renderer
    /// is then as it was. Else the slot is claimed, and the request for its
    /// image is returned.
    pub fn open_frame(&mut self, fence_signaled: bool) -> (r: Result<AcquireRequest, DockErr>)
        requires
            old(self).wf(),
        ensures
            final(self).wf(),
            r == old(self).opening(fence_signaled),
            r.is_ok() == opens(old(self).phase, fence_signaled),
            *final(self) == old(self).after_open(fence_signaled),
    {
        let busy = self.frame_opened();
        if busy || self.swapchain.frame_in_use(self.current_frame_idx, fence_signaled) {
            return Err(DockErr::SOFT);
        }
        let request = self.swapchain.next_image_idx(self.current_frame_idx);
        self.phase = FramePhase::Acquiring;
        Ok(request)
    }

    /// Records the arrival of the image asked for, which opens the frame.
    pub fn image_acquired(&mut self, image_idx: u32, suboptimal: bool) -> (r: OpenedFrame)
        requires
            old(self).wf(),
            old(self).phase == FramePhase::Acquiring,
            image_idx < old(self).swapchain.frame_bundles@.len(),
        ensures
            final(self).wf(),
            *final(self) == old(self).after_acquire(image_idx),
            r == (OpenedFrame {
                cmd_buffer: old(self).cmd_buffers[old(self).current_frame_idx as int],
                suboptimal,
            }),
    {
        self.phase = FramePhase::Open;
        self.current_image_idx = image_idx as usize;
        OpenedFrame { cmd_buffer: self.cmd_buffers[self.current_frame_idx], suboptimal }
    }

    /// The command buffer of the open frame.
    pub fn current_cmd_buffer(&self) -> (r: u64)
        requires
            self.wf(),
            self.phase == FramePhase::Open,
        ensures
            r == self.cmd_buffers[self.current_frame_idx as int],
    {
        self.cmd_buffers[self.current_frame_idx]
    }

    /// The commands that start the render pass of the open frame, on the
    /// framebuffer of its image. `cmd_buffer` is the frame's command
    /// buffer.
    pub fn begin_render_pass(&self, cmd_buffer: u64) -> (r: Vec<Command>)
        requires
            self.wf(),
            self.phase == FramePhase::Open,
            cmd_buffer == self.cmd_buffers[self.current_frame_idx as int],
        ensures
            r@ == self.swapchain.render_pass_start(self.current_image_idx as int),
    {
        self.swapchain.begin_render_pass(self.current_image_idx)
    }

    /// The command that ends the render pass of the open frame.
    /// `cmd_buffer` is the frame's command buffer.
    pub fn end_render_pass(&self, cmd_buffer: u64) -> (r: Command)
        requires
            self.wf(),
            self.phase == FramePhase::Open,
            cmd_buffer == self.cmd_buffers[self.current_frame_idx as int],
        ensures
            r == Command::EndRenderPass,
    {
        self.swapchain.end_render_pass()
    }

    /// Closes the open frame: returns its submission and moves on to the
    /// next slot.
    pub fn close_frame(&mut self, cmd_buffer: u64) -> (r: FrameSubmission)
        requires
            old(self).wf(),
            old(self).phase == FramePhase::Open,
        ensures
            final(self).wf(),
            *final(self) == old(self).after_close(),
            r == old(self).swapchain.submission_of(
                cmd_buffer,
                old(self).current_image_idx as int,
                old(self).current_frame_idx as int,
                old(self).cmd_pool.queue,
            ),
    {
        let submission = self.swapchain.submit_and_present(
            cmd_buffer,
            self.current_image_idx,
            self.current_frame_idx,
            self.cmd_pool.queue,
        );
        self.phase = FramePhase::Idle;
        self.current_frame_idx = (self.current_frame_idx + 1) % MAX_IN_FLIGHT_FRAMES;
        submission
    }

    /// Whether `action`, with the renderer going from `self` to `after`,
    /// answers `event` for a frame whose content is `content`.
    ///
    /// A redraw request is answered as `open_frame` does. An image that
    /// arrives while one is awaited gets the whole frame: the render pass
    /// on the image's framebuffer, the content, the end of the render pass,
    /// and the submission, after which the renderer is idle on the next
    /// slot. An image that arrives out of turn is ignored.
    pub open spec fn answers(
        &self,
        after: DockRenderer,
        content: Seq<Command>,
        event: RenderEvent,
        action: RenderAction,
    ) -> bool {
        match event {
            RenderEvent::Redraw { fence_signaled } => {
                &&& after == self.after_open(fence_signaled)
                &&& match self.opening(fence_signaled) {
                    Ok(request) => action matches RenderAction::Acquire(a) && a == request,
                    Err(_) => action is Dropped,
                }
            },
            RenderEvent::Acquired { image_idx, suboptimal } => if self.phase
                == FramePhase::Acquiring {
                &&& after == self.after_acquire(image_idx).after_close()
                &&& action matches RenderAction::Frame(script)
                &&& script.frame == (OpenedFrame {
                    cmd_buffer: self.cmd_buffers[self.current_frame_idx as int],
                    suboptimal,
                })
                &&& script.commands@ == self.swapchain.render_pass_start(image_idx as int)
                    + content + seq![Command::EndRenderPass]
                &&& script.submission == self.swapchain.submission_of(
                    script.frame.cmd_buffer,
                    image_idx as int,
                    self.current_frame_idx as int,
                    self.cmd_pool.queue,
                )
            } else {
                after == *self && action is Dropped
            },
        }
    }

    /// Answers an event for a frame whose content is `content`: the commands
    /// to record between the start and the end of the render pass.
    pub fn render(&mut self, content: Vec<Command>, event: RenderEvent) -> (r: RenderAction)
        requires
            old(self).wf(),
            content@.len() + 4 <= usize::MAX,
            event matches RenderEvent::Acquired { image_idx, .. } ==> image_idx < old(
                self,
            ).swapchain.frame_bundles@.len(),
        ensures
            final(self).wf(),
            old(self).answers(*final(self), content@, event, r),
    {
        match event {
            RenderEvent::Redraw { fence_signaled } => match self.open_frame(fence_signaled) {
                Ok(request) => RenderAction::Acquire(request),
                Err(_) => RenderAction::Dropped,
            },
            RenderEvent::Acquired { image_idx, suboptimal } => {
                match self.phase {
                    FramePhase::Acquiring => {},
                    _ => {
                        return RenderAction::Dropped;
                    },
                }
                let frame = self.image_acquired(image_idx, suboptimal);
                let mut commands = self.begin_render_pass(frame.cmd_buffer);
                let ghost wanted = commands@ + content@ + seq![Command::EndRenderPass];
                let mut rest = content;
                commands.append(&mut rest);
                commands.push(self.end_render_pass(frame.cmd_buffer));
                assert(commands@ =~= wanted);
                let submission = self.close_frame(frame.cmd_buffer);
                RenderAction::Frame(FrameScript { frame, commands, submission })
            },
        }
    }

    /// Answers an event for a frame that draws `scene`.
    pub fn render_scene(&mut self, scene: &DockScene, event: RenderEvent) -> (r: RenderAction)
        requires
            old(self).wf(),
            scene.recordable(),
            event matches RenderEvent::Acquired { image_idx, .. } ==> image_idx < old(
                self,
            ).swapchain.frame_bundles@.len(),
        ensures
            final(self).wf(),
            old(self).answers(*final(self), scene.recording(), event, r),
    {
        proof {
            lemma_model_commands_len(
                scene.model_infos@,
                scene.vrt_buffer.vk_buffer,
                scene.idx_buffer.vk_buffer,
            );
        }
        self.render(scene.record_cmd_buffer(), event)
    }
}

/// Each model takes three commands.
pub proof fn lemma_model_commands_len(models: Seq<KewModel>, vrt_buffer: u64, idx_buffer: u64)
    ensures
        model_commands(models, vrt_buffer, idx_buffer).len() == 3 * models.len(),
    decreases models.len(),
{
    if models.len() > 0 {
        lemma_model_commands_len(models.drop_last(), vrt_buffer, idx_buffer);
    }
}

/// Frames visit the slots round robin: of the frames that open from an
/// idle renderer on the first slot, the one at position `k` uses slot
/// `k` modulo the number of frames in flight, whatever requests were
/// dropped in between.
pub proof fn lemma_round_robin(fences: Seq<bool>, k: int)
    requires
        0 <= k < opened_slots(0, fences).len(),
    ensures
        opened_slots(0, fences)[k] == k % (MAX_IN_FLIGHT_FRAMES as int),
{
    lemma_round_robin_from(0, fences, k);
}

/// From any slot on, frames visit the slots round robin.
pub proof fn lemma_round_robin_from(slot: usize, fences: Seq<bool>, k: int)
    requires
        slot < MAX_IN_FLIGHT_FRAMES,
        0 <= k < opened_slots(slot, fences).len(),
    ensures
        opened_slots(slot, fences)[k] == (slot + k) % (MAX_IN_FLIGHT_FRAMES as int),
    decreases fences.len(),
{
    if fences.len() > 0 {
        if opens(FramePhase::Idle, fences[0]) {
            if k > 0 {
                lemma_round_robin_from(next_slot(slot), fences.drop_first(), k - 1);
            }
        } else {
            lemma_round_robin_from(slot, fences.drop_first(), k);
        }
    }
}

/// A request that finds the slot's fence unsignaled is dropped and leaves
/// the renderer as it was, and a dropped request opens no frame.
pub proof fn lemma_unsignaled_drops(renderer: DockRenderer, fences: Seq<bool>)
    ensures
        renderer.opening(false) == Err::<AcquireRequest, DockErr>(DockErr::SOFT),
        renderer.after_open(false) == renderer,
        opened_slots(renderer.current_frame_idx, seq![false] + fences) == opened_slots(
            renderer.current_frame_idx,
            fences,
        ),
{
    assert((seq![false] + fences).drop_first() =~= fences);
}

/// Frames in flight: the slot in turn, and for each slot how many of its
/// submissions the device has not finished. A slot's fence is signaled
/// exactly when that number is zero.
pub struct Flight {
    pub slot: usize,
    pub pending: Seq<nat>,
}

/// What changes the frames in flight.
pub enum FlightEvent {
    /// A redraw is requested; a frame that opens is recorded and closed.
    Redraw,
    /// The device finishes a submission of `slot`.
    Finished { slot: usize },
}

/// The frames in flight after `event`.
pub open spec fn flight_step(flight: Flight, event: FlightEvent) -> Flight {
    match event {
        FlightEvent::Redraw => if opens(FramePhase::Idle, flight.pending[flight.slot as int] == 0) {
            Flight {
                slot: next_slot(flight.slot),
                pending: flight.pending.update(
                    flight.slot as int,
                    flight.pending[flight.slot as int] + 1,
                ),
            }
        } else {
            flight
        },
        FlightEvent::Finished { slot } => if slot < flight.pending.len() && flight.pending[slot as int]
            > 0 {
            Flight {
                slot: flight.slot,
                pending: flight.pending.update(
                    slot as int,
                    (flight.pending[slot as int] - 1) as nat,
                ),
            }
        } else {
            flight
        },
    }
}

/// The frames in flight after `events`, from a start on the first slot
/// with nothing pending.
pub open spec fn flight_after(events: Seq<FlightEvent>) -> Flight
    decreases events.len(),
{
    if events.len() == 0 {
        Flight { slot: 0, pending: Seq::new(MAX_IN_FLIGHT_FRAMES as nat, |i: int| 0nat) }
    } else {
        flight_step(flight_after(events.drop_last()), events.last())
    }
}

/// How many submissions are pending in all.
pub open spec fn in_flight(pending: Seq<nat>) -> nat
    decreases pending.len(),
{
    if pending.len() == 0 {
        0
    } else {
        in_flight(pending.drop_last()) + pending.last()
    }
}

/// Pacing holds submissions back: whatever is requested and whenever the
/// device finishes, each slot has at most one submission pending, and so
/// there are never more pending than there are frame slots.
pub proof fn lemma_backpressure(events: Seq<FlightEvent>)
    ensures
        flight_after(events).slot < MAX_IN_FLIGHT_FRAMES,
        flight_after(events).pending.len() == MAX_IN_FLIGHT_FRAMES,
        forall|i: int|
            0 <= i < MAX_IN_FLIGHT_FRAMES ==> #[trigger] flight_after(events).pending[i] <= 1,
        in_flight(flight_after(events).pending) <= MAX_IN_FLIGHT_FRAMES,
    decreases events.len(),
{
    if events.len() > 0 {
        lemma_backpressure(events.drop_last());
    }
    let pending = flight_after(events).pending;
    assert(pending.drop_last().drop_last() =~= Seq::<nat>::empty());
    assert(in_flight(pending) == pending[0] + pending[1]) by {
        reveal_with_fuel(in_flight, 3);
        assert(pending.last() == pending[1]);
        assert(pending.drop_last().last() == pending[0]);
    }
}

/// The scene: the models within the shared vertex and index buffers, and
/// the pipeline that draws them.
pub struct DockScene<'a> {
    pub vrt_buffer: &'a KewBuffer,
    pub idx_buffer: &'a KewBuffer,
    pub model_infos: Vec<KewModel>,
    pub pipeline: KewGfxPipeline,
}

/// The commands that bind and draw `models`, one after the other.
pub open spec fn model_commands(models: Seq<KewModel>, vrt_buffer: u64, idx_buffer: u64) -> Seq<
    Command,
>
    decreases models.len(),
{
    if models.len() == 0 {
        Seq::<Command>::empty()
    } else {
        model_commands(models.drop_last(), vrt_buffer, idx_buffer) + models.last().binding_of(
            vrt_buffer,
            idx_buffer,
        ) + seq![models.last().drawing_of()]
    }
}

impl<'a> DockScene<'a> {
    /// The commands that draw the scene: the pipeline is bound, then each
    /// model is bound and drawn in the order in which it was added.
    pub open spec fn recording(&self) -> Seq<Command> {
        seq![
            Command::BindPipeline {
                bind_point: BIND_POINT_GRAPHICS,
                pipeline: self.pipeline.pipeline,
            },
        ] + model_commands(
            self.model_infos@,
            self.vrt_buffer.vk_buffer,
            self.idx_buffer.vk_buffer,
        )
    }

    /// The scene's commands can be counted.
    pub open spec fn recordable(&self) -> bool {
        3 * self.model_infos@.len() + 5 <= usize::MAX
    }

    /// A scene without models, drawn by `pipeline`.
    pub fn dummy(vrt_buffer: &'a KewBuffer, idx_buffer: &'a KewBuffer, pipeline: KewGfxPipeline) -> (r:
        Self)
        ensures
            r.vrt_buffer == vrt_buffer,
            r.idx_buffer == idx_buffer,
            r.pipeline == pipeline,
            r.model_infos@ == Seq::<KewModel>::empty(),
            r.recordable(),
    {
        Self { vrt_buffer, idx_buffer, model_infos: Vec::new(), pipeline }
    }

    /// The commands that draw the scene.
    pub fn record_cmd_buffer(&self) -> (r: Vec<Command>)
        ensures
            r@ == self.recording(),
    {
        let mut commands: Vec<Command> = Vec::new();
        commands.push(self.pipeline.bind());
        let ghost head = commands@;
        let mut i: usize = 0;
        while i < self.model_infos.len()
            invariant
                i <= self.model_infos@.len(),
                commands@ == head + model_commands(
                    self.model_infos@.subrange(0, i as int),
                    self.vrt_buffer.vk_buffer,
                    self.idx_buffer.vk_buffer,
                ),
            decreases self.model_infos@.len() - i,
        {
            let model = &self.model_infos[i];
            let mut binding = model.bind(self.vrt_buffer, self.idx_buffer);
            let ghost before = commands@;
            commands.append(&mut binding);
            commands.push(model.draw());
            proof {
                let next = self.model_infos@.subrange(0, i + 1);
                assert(next.drop_last() =~= self.model_infos@.subrange(0, i as int));
                assert(next.last() == self.model_infos@[i as int]);
                assert(commands@ =~= head + model_commands(
                    next,
                    self.vrt_buffer.vk_buffer,
                    self.idx_buffer.vk_buffer,
                ));
            }
            i += 1;
        }
        assert(self.model_infos@.subrange(0, i as int) =~= self.model_infos@);
        commands
    }

    /// Adds `model` after the models of the scene.
    pub fn add_model(&mut self, model: KewModel)
        ensures
            final(self).model_infos@ == old(self).model_infos@.push(model),
            final(self).vrt_buffer == old(self).vrt_buffer,
            final(self).idx_buffer == old(self).idx_buffer,
            final(self).pipeline == old(self).pipeline,
    {
        self.model_infos.push(model);
    }
}

/// Records the buffer created under `vk_buffer` and finds the memory type
/// that serves it: the first that the buffer accepts and that has every
/// property in `memory_flags`. Without such a type there is nothing to
/// return.
pub fn create_buffer(
    kew_device: &KewDevice,
    vk_buffer: u64,
    memory_reqs: &MemoryRequirements,
    memory_flags: u32,
    b_size: u64,
) -> (r: Option<(KewBuffer, u32)>)
    requires
        kew_device.context.mem_properties@.len() <= MAX_MEMORY_TYPES,
    ensures
        selects(
            memory_marks(
                kew_device.context.mem_properties@,
                memory_reqs.memory_type_bits,
                memory_flags,
            ),
            match r {
                Some(found) => Some(found.1),
                None => None,
            },
        ),
        r matches Some(found) ==> found.0.vk_buffer == vk_buffer && found.0.b_size == b_size
            && found.0.m_bind.is_none(),
{
    match kew_device.find_memory_type(memory_reqs, memory_flags) {
        Some(memory_type) => Some((KewBuffer::new(vk_buffer, b_size), memory_type)),
        None => None,
    }
}

/// The one arena for vertex and index data, where both buffers are served
/// by the same memory type.
pub fn model_allocation(vrt_mem_type: u32, idx_mem_type: u32) -> (r: Option<MemoryAllocateInfo>)
    ensures
        r == (if vrt_mem_type == idx_mem_type {
            Some(
                MemoryAllocateInfo {
                    allocation_size: (2 * MODEL_MEM_SIZE) as u64,
                    memory_type_index: vrt_mem_type,
                },
            )
        } else {
            None
        }),
{
    if vrt_mem_type == idx_mem_type {
        Some(KewMemory::allocate_info(MODEL_MEM_SIZE * 2, vrt_mem_type))
    } else {
        None
    }
}

/// The model that draws the square from the front of both buffers.
pub open spec fn square_model() -> KewModel {
    KewModel { vertex_offset: 0, index_amount: 6, index_offset: 0 }
}

/// What comes of loading the square into the front of the buffers bound by
/// `vrt_bind` and `idx_bind`.
pub open spec fn load_outcome(
    arena: u64,
    arena_size: u64,
    window: Option<Seq<u8>>,
    vrt_bind: Option<KewMemoryBinding>,
    idx_bind: Option<KewMemoryBinding>,
) -> (Result<(), BufferError>, Option<Seq<u8>>) {
    write_outcome(
        words_bytes(vertex_words(square_vertices())),
        words_bytes(square_indices()),
        arena,
        arena_size,
        window,
        vrt_bind,
        idx_bind,
        0,
        0,
    )
}

/// Writes the square into the front of both buffers and returns the model
/// that draws it.
pub fn load_model(memory: &mut KewMemory, vrt_buffer: &KewBuffer, idx_buffer: &KewBuffer) -> (r:
    Result<KewModel, BufferError>)
    requires
        old(memory).wf(),
    ensures
        final(memory).wf(),
        final(memory).memory == old(memory).memory,
        final(memory).b_size == old(memory).b_size,
        final(memory).m_type == old(memory).m_type,
        ({
            let outcome = load_outcome(
                old(memory).memory,
                old(memory).b_size,
                old(memory).window(),
                vrt_buffer.m_bind,
                idx_buffer.m_bind,
            );
            &&& final(memory).window() == outcome.1
            &&& r == match outcome.0 {
                Ok(_) => Ok::<KewModel, BufferError>(square_model()),
                Err(e) => Err::<KewModel, BufferError>(e),
            }
        }),
{
    let model_data = KewModelVertexData::<FlatVertex>::square();
    assert(model_data.vertices@.len() * 4 * FlatVertex::word_count() == 80);
    match model_data.write_to_memory(memory, vrt_buffer, idx_buffer, 0, 0) {
        Ok(()) => Ok(
            KewModel {
                vertex_offset: 0,
                index_amount: model_data.indices.len() as u32,
                index_offset: 0,
            },
        ),
        Err(e) => Err(e),
    }
}

/// Sets the model arena up: maps it whole, binds the vertex buffer to its
/// front and the index buffer behind the room for vertex data, and loads
/// the square. Returns the range to map, where the arena was not mapped,
/// and the model. Bindings that the buffers had stand.
pub fn init_dock(memory: &mut KewMemory, vrt_buffer: &mut KewBuffer, idx_buffer: &mut KewBuffer) -> (r:
    Result<(Option<MapRange>, KewModel), BufferError>)
    requires
        old(memory).wf(),
        old(memory).b_size <= usize::MAX,
    ensures
        final(memory).wf(),
        final(memory).memory == old(memory).memory,
        final(memory).b_size == old(memory).b_size,
        final(memory).m_type == old(memory).m_type,
        final(vrt_buffer).vk_buffer == old(vrt_buffer).vk_buffer,
        final(vrt_buffer).b_size == old(vrt_buffer).b_size,
        final(idx_buffer).vk_buffer == old(idx_buffer).vk_buffer,
        final(idx_buffer).b_size == old(idx_buffer).b_size,
        final(vrt_buffer).m_bind == bind_once(
            old(vrt_buffer).m_bind,
            (KewMemoryBinding { memory: old(memory).memory, offset: 0 }),
        ),
        final(idx_buffer).m_bind == bind_once(
            old(idx_buffer).m_bind,
            (KewMemoryBinding { memory: old(memory).memory, offset: MODEL_MEM_SIZE }),
        ),
        ({
            let outcome = load_outcome(
                old(memory).memory,
                old(memory).b_size,
                Some(window_once_mapped(old(memory).window(), old(memory).b_size)),
                final(vrt_buffer).m_bind,
                final(idx_buffer).m_bind,
            );
            let range = if old(memory).window().is_none() {
                Some(MapRange { memory: old(memory).memory, offset: 0, b_size: WHOLE_SIZE })
            } else {
                None
            };
            &&& final(memory).window() == outcome.1
            &&& r == match outcome.0 {
                Ok(_) => Ok::<(Option<MapRange>, KewModel), BufferError>((range, square_model())),
                Err(e) => Err::<(Option<MapRange>, KewModel), BufferError>(e),
            }
        }),
{
    let range = memory.map(WHOLE_SIZE, 0);
    let _ = vrt_buffer.bind_memory(memory, 0);
    let _ = idx_buffer.bind_memory(memory, MODEL_MEM_SIZE);
    match load_model(memory, vrt_buffer, idx_buffer) {
        Ok(model) => Ok((range, model)),
        Err(e) => Err(e),
    }
}

} // verus!
