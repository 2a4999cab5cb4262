use kew::dock::dock::{
    create_buffer, init_dock, load_model, model_allocation, DockRenderer, DockScene, FramePhase,
    OpenedFrame, RenderAction, RenderEvent, MODEL_MEM_SIZE,
};
use kew::dock::render::{draw, handle_render_update, RenderUpdate};
use kew::dock::{DockErr, DockMessage};
use kew::gpu::buffer::{BufferError, KewBuffer};
use kew::gpu::command::{ClearColor, Command, KewCommandPool, RenderPassBegin, SubmitStep};
use kew::gpu::context::{KewContext, MemoryType};
use kew::gpu::descriptor::{KewDescriptorPool, KewDescriptorPoolBuilder};
use kew::gpu::device::KewDevice;
use kew::gpu::memory::{KewMemory, KewMemoryBinding, MapRange, MemoryError, WHOLE_SIZE};
use kew::gpu::model::KewModel;
use kew::gpu::pipeline::KewGfxPipeline;
use kew::gpu::swapchain::{
    AcquireRequest, KewFrameBundle, KewSwapchain, SurfaceCapabilities, SurfaceFormat,
    TeardownStep, CLEAR_COMPONENT, MAX_IN_FLIGHT_FRAMES,
};
use kew::gpu::vk::{Extent2D, MemoryRequirements};

const EXTENT: Extent2D = Extent2D { width: 640, height: 480 };

fn swapchain(images: u64) -> KewSwapchain {
    let handles: Vec<u64> = (0..images).collect();
    let image_handles: Vec<u64> = handles.iter().map(|i| 100 + i).collect();
    let views: Vec<u64> = handles.iter().map(|i| 200 + i).collect();
    let framebuffers: Vec<u64> = handles.iter().map(|i| 300 + i).collect();
    let bundles = KewSwapchain::create_frame_bundles(&image_handles, &views, &framebuffers);
    KewSwapchain::new(9, 10, EXTENT, bundles, [21, 22], [31, 32], [41, 42], 37, 50)
}

fn renderer(images: u64) -> DockRenderer {
    DockRenderer::new(
        swapchain(images),
        KewCommandPool::new(60, 61),
        [71, 72],
        KewDescriptorPool::new(80),
    )
}

#[test]
fn two_frames_are_in_flight() {
    assert_eq!(MAX_IN_FLIGHT_FRAMES, 2);
}

#[test]
fn the_preferred_format_is_picked() {
    let other = SurfaceFormat { format: 44, color_space: 0 };
    let wrong_space = SurfaceFormat { format: 37, color_space: 5 };
    let preferred = SurfaceFormat { format: 37, color_space: 0 };
    assert_eq!(
        KewSwapchain::pick_surface_format(&[other, wrong_space, preferred]),
        Some(preferred)
    );
    assert_eq!(KewSwapchain::pick_surface_format(&[preferred, other]), Some(preferred));
    assert_eq!(KewSwapchain::pick_surface_format(&[other, wrong_space]), Some(other));
    assert_eq!(KewSwapchain::pick_surface_format(&[wrong_space]), Some(wrong_space));
    assert_eq!(KewSwapchain::pick_surface_format(&[]), None);
}

#[test]
fn the_surface_extent_wins_unless_left_open() {
    let window = Extent2D { width: 800, height: 600 };
    let fixed = SurfaceCapabilities {
        min_image_count: 2,
        current_extent: EXTENT,
        current_transform: 1,
    };
    let open = SurfaceCapabilities {
        min_image_count: 2,
        current_extent: Extent2D { width: u32::MAX, height: u32::MAX },
        current_transform: 1,
    };
    assert_eq!(KewSwapchain::pick_extent(&fixed, window), EXTENT);
    assert_eq!(KewSwapchain::pick_extent(&open, window), window);
    let half_open = SurfaceCapabilities {
        min_image_count: 2,
        current_extent: Extent2D { width: 5, height: u32::MAX },
        current_transform: 1,
    };
    assert_eq!(
        KewSwapchain::pick_extent(&half_open, window),
        Extent2D { width: 5, height: u32::MAX }
    );
}

#[test]
fn immediate_presentation_is_preferred() {
    assert_eq!(KewSwapchain::pick_present_mode(&[2, 1, 0]), 0);
    assert_eq!(KewSwapchain::pick_present_mode(&[0]), 0);
    assert_eq!(KewSwapchain::pick_present_mode(&[1, 3]), 2);
    assert_eq!(KewSwapchain::pick_present_mode(&[2]), 2);
    assert_eq!(KewSwapchain::pick_present_mode(&[]), 2);
}

#[test]
fn the_swapchain_is_described() {
    let capabilities = SurfaceCapabilities {
        min_image_count: 2,
        current_extent: EXTENT,
        current_transform: 8,
    };
    let info = KewSwapchain::create_info(
        5,
        &capabilities,
        SurfaceFormat { format: 37, color_space: 0 },
        &[2, 0],
        Extent2D { width: 1, height: 1 },
    );
    assert_eq!(info.surface, 5);
    assert_eq!(info.min_image_count, 3);
    assert_eq!(info.image_format, 37);
    assert_eq!(info.image_color_space, 0);
    assert_eq!(info.image_extent, EXTENT);
    assert_eq!(info.image_usage, 0x10);
    assert_eq!(info.image_sharing_mode, 0);
    assert_eq!(info.pre_transform, 8);
    assert_eq!(info.composite_alpha, 1);
    assert_eq!(info.present_mode, 0);
    assert!(info.clipped);
    assert_eq!(info.image_array_layers, 1);
}

#[test]
fn the_render_pass_is_described() {
    let info = KewSwapchain::create_render_pass(37);
    assert_eq!(info.format, 37);
    assert_eq!(info.samples, 1);
    assert_eq!(info.load_op, 1);
    assert_eq!(info.store_op, 0);
    assert_eq!(info.stencil_load_op, 2);
    assert_eq!(info.stencil_store_op, 1);
    assert_eq!(info.initial_layout, 0);
    assert_eq!(info.final_layout, 1_000_001_002);
    assert_eq!(info.subpass_attachment, 0);
    assert_eq!(info.subpass_layout, 2);
    assert_eq!(info.subpass_bind_point, 0);
}

#[test]
fn fences_start_signaled() {
    assert_eq!(KewSwapchain::fence_create_flags(), 1);
}

#[test]
fn frame_parts_are_described() {
    let view = KewSwapchain::frame_view_info(100, 37);
    assert_eq!(view.image, 100);
    assert_eq!(view.view_type, 1);
    assert_eq!(view.format, 37);
    assert_eq!(view.subresource_range.aspect_mask, 1);
    assert_eq!(view.subresource_range.level_count, 1);
    assert_eq!(view.subresource_range.layer_count, 1);
    let framebuffer = KewSwapchain::framebuffer_info(50, 200, EXTENT);
    assert_eq!(framebuffer.render_pass, 50);
    assert_eq!(framebuffer.attachment, 200);
    assert_eq!((framebuffer.width, framebuffer.height, framebuffer.layers), (640, 480, 1));
}

#[test]
fn bundles_follow_the_images() {
    let sc = swapchain(3);
    assert_eq!(sc.image_count(), 3);
    assert_eq!(
        sc.frame_bundles,
        vec![
            KewFrameBundle { framebuffer: 300, image: 100, view: 200 },
            KewFrameBundle { framebuffer: 301, image: 101, view: 201 },
            KewFrameBundle { framebuffer: 302, image: 102, view: 202 },
        ]
    );
    assert_eq!(KewSwapchain::create_frame_bundles(&[], &[], &[]), vec![]);
}

#[test]
fn the_render_pass_begins_on_the_acquired_image() {
    let sc = swapchain(3);
    let commands = sc.begin_render_pass(2);
    assert_eq!(
        commands,
        vec![
            Command::BeginRenderPass(RenderPassBegin {
                render_pass: 50,
                framebuffer: 302,
                render_area: EXTENT,
                clear_color: ClearColor {
                    r: CLEAR_COMPONENT,
                    g: CLEAR_COMPONENT,
                    b: CLEAR_COMPONENT,
                    a: CLEAR_COMPONENT
                },
                contents: 0,
            }),
            Command::SetViewport { extent: EXTENT },
            Command::SetScissor { extent: EXTENT },
        ]
    );
    assert_eq!(f32::from_bits(CLEAR_COMPONENT), 0.01);
    assert_eq!(sc.end_render_pass(), Command::EndRenderPass);
}

#[test]
fn a_frame_is_submitted_on_its_slot_and_presented_by_its_image() {
    let sc = swapchain(3);
    let s = sc.submit_and_present(71, 2, 1, 61);
    assert_eq!(s.reset_fence, 42);
    assert_eq!(s.submit_queue, 61);
    assert_eq!(s.wait_semaphore, 22);
    assert_eq!(s.wait_stage, 0x400);
    assert_eq!(s.cmd_buffer, 71);
    assert_eq!(s.signal_semaphore, 32);
    assert_eq!(s.signal_fence, 42);
    assert_eq!(s.present_queue, 9);
    assert_eq!(s.present_wait_semaphore, 32);
    assert_eq!(s.swapchain, 10);
    assert_eq!(s.image_index, 2);
    let first = sc.submit_and_present(72, 0, 0, 61);
    assert_eq!((first.wait_semaphore, first.signal_semaphore, first.signal_fence), (21, 31, 41));
    assert_eq!(first.image_index, 0);
}

#[test]
fn a_slot_is_in_use_until_its_fence_signals() {
    let sc = swapchain(2);
    assert_eq!(sc.frame_fence(0), 41);
    assert_eq!(sc.frame_fence(1), 42);
    assert!(sc.frame_in_use(0, false));
    assert!(!sc.frame_in_use(0, true));
    assert!(sc.frame_in_use(1, false));
}

#[test]
fn the_next_image_is_asked_for_without_time_limit() {
    let sc = swapchain(2);
    assert_eq!(
        sc.next_image_idx(1),
        AcquireRequest { swapchain: 10, timeout: u64::MAX, semaphore: 22, fence: 0 }
    );
    assert_eq!(sc.next_image_idx(0).semaphore, 21);
}

#[test]
fn teardown_waits_for_every_fence_first() {
    let sc = swapchain(2);
    let steps = sc.teardown();
    assert_eq!(
        steps,
        vec![
            TeardownStep::WaitForFences { fences: [41, 42], wait_all: true, timeout: u64::MAX },
            TeardownStep::DestroyFence(41),
            TeardownStep::DestroyFence(42),
            TeardownStep::DestroySwapchain(10),
            TeardownStep::DestroyRenderPass(50),
            TeardownStep::DestroySemaphore(21),
            TeardownStep::DestroySemaphore(22),
            TeardownStep::DestroySemaphore(31),
            TeardownStep::DestroySemaphore(32),
            TeardownStep::DestroyImageView(200),
            TeardownStep::DestroyFramebuffer(300),
            TeardownStep::DestroyImageView(201),
            TeardownStep::DestroyFramebuffer(301),
        ]
    );
    for step in &steps[1..] {
        assert!(!matches!(step, TeardownStep::WaitForFences { .. }));
    }
}

#[test]
fn teardown_without_images_still_waits() {
    let steps = swapchain(0).teardown();
    assert_eq!(steps.len(), 9);
    assert_eq!(
        steps[0],
        TeardownStep::WaitForFences { fences: [41, 42], wait_all: true, timeout: u64::MAX }
    );
}

#[test]
fn a_new_renderer_is_idle_on_the_first_slot() {
    let r = renderer(3);
    assert_eq!(r.current_frame_idx, 0);
    assert_eq!(r.current_image_idx, 0);
    assert_eq!(r.phase, FramePhase::Idle);
    assert!(!r.frame_opened());
    assert_eq!(r.current_fence(), 41);
    let pool = DockRenderer::descriptor_pool_info();
    assert_eq!(pool.max_sets, 2);
    assert_eq!(pool.flags, 0);
    assert_eq!(pool.pool_sizes.len(), 1);
    assert_eq!((pool.pool_sizes[0].ty, pool.pool_sizes[0].descriptor_count), (6, 2));
}

#[test]
fn an_unsignaled_fence_drops_the_frame() {
    let mut r = renderer(3);
    assert_eq!(r.open_frame(false), Err(DockErr::SOFT));
    assert_eq!(r.phase, FramePhase::Idle);
    assert_eq!(r.current_frame_idx, 0);
    assert_eq!(r.open_frame(false), Err(DockErr::SOFT));
    assert!(r.open_frame(true).is_ok());
}

#[test]
fn an_open_frame_drops_the_next_request() {
    let mut r = renderer(3);
    assert_eq!(
        r.open_frame(true),
        Ok(AcquireRequest { swapchain: 10, timeout: u64::MAX, semaphore: 21, fence: 0 })
    );
    assert!(r.frame_opened());
    assert_eq!(r.phase, FramePhase::Acquiring);
    assert_eq!(r.open_frame(true), Err(DockErr::SOFT));
    assert_eq!(r.phase, FramePhase::Acquiring);
    assert_eq!(r.image_acquired(2, false), OpenedFrame { cmd_buffer: 71, suboptimal: false });
    assert_eq!(r.phase, FramePhase::Open);
    assert_eq!(r.current_image_idx, 2);
    assert_eq!(r.open_frame(true), Err(DockErr::SOFT));
    assert_eq!(r.phase, FramePhase::Open);
    assert_eq!(r.current_image_idx, 2);
    assert_eq!(r.current_cmd_buffer(), 71);
}

#[test]
fn closing_submits_and_moves_to_the_next_slot() {
    let mut r = renderer(3);
    r.open_frame(true).unwrap();
    let frame = r.image_acquired(2, true);
    assert!(frame.suboptimal);
    let s = r.close_frame(frame.cmd_buffer);
    assert_eq!(s, r.swapchain.submit_and_present(71, 2, 0, 61));
    assert_eq!(s.signal_fence, 41);
    assert_eq!(s.image_index, 2);
    assert_eq!(r.phase, FramePhase::Idle);
    assert_eq!(r.current_frame_idx, 1);
    assert_eq!(r.current_fence(), 42);
}

#[test]
fn successful_opens_visit_the_slots_round_robin() {
    let mut r = renderer(3);
    let fences = [
        true, false, true, true, false, false, true, true, true, false, true,
    ];
    let mut visited = Vec::new();
    for (n, signaled) in fences.iter().enumerate() {
        let slot = r.current_frame_idx;
        match r.open_frame(*signaled) {
            Ok(request) => {
                assert!(*signaled);
                assert_eq!(request.semaphore, [21, 22][slot]);
                visited.push(slot);
                let frame = r.image_acquired((n % 3) as u32, false);
                assert_eq!(frame.cmd_buffer, [71, 72][slot]);
                let s = r.close_frame(frame.cmd_buffer);
                assert_eq!(s.signal_fence, [41, 42][slot]);
                assert_eq!(s.image_index, (n % 3) as u32);
            }
            Err(DockErr::SOFT) => {
                assert!(!*signaled);
                assert_eq!(r.current_frame_idx, slot);
            }
        }
    }
    assert_eq!(visited, vec![0, 1, 0, 1, 0, 1, 0]);
}

#[test]
fn slot_and_image_are_indexed_apart() {
    let mut r = renderer(5);
    r.open_frame(true).unwrap();
    r.image_acquired(4, false);
    let s = r.close_frame(71);
    assert_eq!(s.image_index, 4);
    assert_eq!(s.wait_semaphore, 21);
    r.open_frame(true).unwrap();
    r.image_acquired(4, false);
    let s = r.close_frame(72);
    assert_eq!(s.image_index, 4);
    assert_eq!(s.wait_semaphore, 22);
    assert_eq!(r.current_frame_idx, 0);
}

fn scene_parts() -> (KewBuffer, KewBuffer) {
    (KewBuffer::new(91, 1024), KewBuffer::new(92, 1024))
}

#[test]
fn a_scene_binds_its_pipeline_then_draws_its_models() {
    let (vrt, idx) = scene_parts();
    let mut scene = DockScene::dummy(&vrt, &idx, KewGfxPipeline::new(95, 96));
    assert_eq!(
        scene.record_cmd_buffer(),
        vec![Command::BindPipeline { bind_point: 0, pipeline: 95 }]
    );
    scene.add_model(KewModel { vertex_offset: 0, index_amount: 6, index_offset: 0 });
    scene.add_model(KewModel { vertex_offset: 80, index_amount: 3, index_offset: 24 });
    assert_eq!(
        scene.record_cmd_buffer(),
        vec![
            Command::BindPipeline { bind_point: 0, pipeline: 95 },
            Command::BindVertexBuffer { first_binding: 0, buffer: 91, offset: 0 },
            Command::BindIndexBuffer { buffer: 92, offset: 0, index_type: 1 },
            Command::DrawIndexed {
                index_count: 6,
                instance_count: 1,
                first_index: 0,
                vertex_offset: 0,
                first_instance: 0
            },
            Command::BindVertexBuffer { first_binding: 0, buffer: 91, offset: 80 },
            Command::BindIndexBuffer { buffer: 92, offset: 24, index_type: 1 },
            Command::DrawIndexed {
                index_count: 3,
                instance_count: 1,
                first_index: 0,
                vertex_offset: 0,
                first_instance: 0
            },
        ]
    );
}

#[test]
fn rendering_a_scene_takes_two_events() {
    let (vrt, idx) = scene_parts();
    let mut scene = DockScene::dummy(&vrt, &idx, KewGfxPipeline::new(95, 96));
    scene.add_model(KewModel { vertex_offset: 0, index_amount: 6, index_offset: 0 });
    let mut r = renderer(3);
    match r.render_scene(&scene, RenderEvent::Redraw { fence_signaled: false }) {
        RenderAction::Dropped => {}
        _ => panic!("the fence was not signaled"),
    }
    match r.render_scene(&scene, RenderEvent::Acquired { image_idx: 1, suboptimal: false }) {
        RenderAction::Dropped => {}
        _ => panic!("no image was asked for"),
    }
    assert_eq!(r.phase, FramePhase::Idle);
    match r.render_scene(&scene, RenderEvent::Redraw { fence_signaled: true }) {
        RenderAction::Acquire(request) => assert_eq!(request.semaphore, 21),
        _ => panic!("the slot was free"),
    }
    match r.render_scene(&scene, RenderEvent::Redraw { fence_signaled: true }) {
        RenderAction::Dropped => {}
        _ => panic!("a frame was under way"),
    }
    match r.render_scene(&scene, RenderEvent::Acquired { image_idx: 1, suboptimal: true }) {
        RenderAction::Frame(script) => {
            assert_eq!(script.frame, OpenedFrame { cmd_buffer: 71, suboptimal: true });
            let mut expected = r.swapchain.begin_render_pass(1);
            expected.extend(scene.record_cmd_buffer());
            expected.push(Command::EndRenderPass);
            assert_eq!(script.commands, expected);
            assert_eq!(script.commands.len(), 8);
            assert_eq!(script.submission, r.swapchain.submit_and_present(71, 1, 0, 61));
        }
        _ => panic!("an image was awaited"),
    }
    assert_eq!(r.phase, FramePhase::Idle);
    assert_eq!(r.current_frame_idx, 1);
    assert_eq!(r.current_image_idx, 1);
}

#[test]
fn a_redraw_update_draws_a_triangle() {
    let mut r = renderer(2);
    let pipeline = KewGfxPipeline::new(95, 96);
    let redraw = |signaled| RenderEvent::Redraw { fence_signaled: signaled };
    match handle_render_update(&mut r, &pipeline, RenderUpdate::REDRAW, redraw(false)) {
        RenderAction::Dropped => {}
        _ => panic!("the fence was not signaled"),
    }
    match handle_render_update(&mut r, &pipeline, RenderUpdate::REDRAW, redraw(true)) {
        RenderAction::Acquire(request) => assert_eq!(
            request,
            AcquireRequest { swapchain: 10, timeout: u64::MAX, semaphore: 21, fence: 0 }
        ),
        _ => panic!("the slot was free"),
    }
    match handle_render_update(&mut r, &pipeline, RenderUpdate::REDRAW, redraw(true)) {
        RenderAction::Dropped => {}
        _ => panic!("a frame was under way"),
    }
    let arrived = RenderEvent::Acquired { image_idx: 1, suboptimal: false };
    match handle_render_update(&mut r, &pipeline, RenderUpdate::REDRAW, arrived) {
        RenderAction::Frame(script) => {
            let mut expected = r.swapchain.begin_render_pass(1);
            expected.push(Command::BindPipeline { bind_point: 0, pipeline: 95 });
            expected.push(draw());
            expected.push(Command::EndRenderPass);
            assert_eq!(script.commands, expected);
            assert_eq!(script.submission, r.swapchain.submit_and_present(71, 1, 0, 61));
        }
        _ => panic!("an image was awaited"),
    }
    assert_eq!(r.current_frame_idx, 1);
    assert_eq!(
        draw(),
        Command::Draw { vertex_count: 3, instance_count: 1, first_vertex: 0, first_instance: 0 }
    );
    assert_eq!(DockMessage::TEST, DockMessage::TEST);
}

#[test]
fn any_content_is_wrapped_in_the_render_pass() {
    let mut r = renderer(2);
    match r.render(vec![], RenderEvent::Redraw { fence_signaled: true }) {
        RenderAction::Acquire(_) => {}
        _ => panic!("the slot was free"),
    }
    let content = vec![Command::Dispatch { x: 1, y: 2, z: 3 }];
    match r.render(content, RenderEvent::Acquired { image_idx: 0, suboptimal: false }) {
        RenderAction::Frame(script) => {
            assert_eq!(script.commands.len(), 5);
            assert_eq!(script.commands[3], Command::Dispatch { x: 1, y: 2, z: 3 });
            assert_eq!(script.commands[4], Command::EndRenderPass);
        }
        _ => panic!("an image was awaited"),
    }
}

fn device() -> KewDevice {
    KewDevice::new(
        KewContext::new(
            1,
            vec![
                MemoryType { property_flags: 1, heap_index: 0 },
                MemoryType { property_flags: 6, heap_index: 1 },
            ],
        ),
        2,
    )
}

#[test]
fn a_buffer_comes_with_its_memory_type() {
    let reqs = MemoryRequirements { size: 1024, alignment: 16, memory_type_bits: 0b11 };
    let (buffer, memory_type) = create_buffer(&device(), 91, &reqs, 6, 1024).unwrap();
    assert_eq!(memory_type, 1);
    assert_eq!((buffer.vk_buffer, buffer.b_size, buffer.m_bind), (91, 1024, None));
    assert!(create_buffer(&device(), 91, &reqs, 8, 1024).is_none());
    let narrow = MemoryRequirements { size: 1024, alignment: 16, memory_type_bits: 0b01 };
    assert!(create_buffer(&device(), 91, &narrow, 6, 1024).is_none());
}

#[test]
fn the_model_arena_holds_both_buffers() {
    let info = model_allocation(1, 1).unwrap();
    assert_eq!(info.allocation_size, 2048);
    assert_eq!(info.memory_type_index, 1);
    assert_eq!(model_allocation(1, 2), None);
    assert_eq!(MODEL_MEM_SIZE, 1024);
}

fn square_bytes() -> (Vec<u8>, Vec<u8>) {
    let vertices: [[f32; 5]; 4] = [
        [-0.8, 0.8, 1.0, 0.0, 0.0],
        [-0.8, -0.8, 0.0, 0.0, 1.0],
        [0.8, 0.8, 1.0, 0.0, 0.0],
        [0.8, -0.8, 0.0, 0.0, 1.0],
    ];
    let mut vertex_bytes = Vec::new();
    for v in vertices {
        for c in v {
            vertex_bytes.extend_from_slice(&c.to_le_bytes());
        }
    }
    let mut index_bytes = Vec::new();
    for i in [0u32, 1, 2, 2, 1, 3] {
        index_bytes.extend_from_slice(&i.to_le_bytes());
    }
    (vertex_bytes, index_bytes)
}

#[test]
fn the_dock_is_set_up_in_one_arena() {
    let mut memory = KewMemory::new(7, 2048, 1);
    let (mut vrt, mut idx) = scene_parts();
    let (range, model) = init_dock(&mut memory, &mut vrt, &mut idx).unwrap();
    assert_eq!(range, Some(MapRange { memory: 7, offset: 0, b_size: WHOLE_SIZE }));
    assert_eq!(model, KewModel { vertex_offset: 0, index_amount: 6, index_offset: 0 });
    assert_eq!(vrt.m_bind, Some(KewMemoryBinding { memory: 7, offset: 0 }));
    assert_eq!(idx.m_bind, Some(KewMemoryBinding { memory: 7, offset: 1024 }));
    let (vertex_bytes, index_bytes) = square_bytes();
    let window = memory.mapped.as_ref().unwrap();
    assert_eq!(window.len(), 2048);
    assert_eq!(&window[..80], &vertex_bytes[..]);
    assert!(window[80..1024].iter().all(|b| *b == 0));
    assert_eq!(&window[1024..1048], &index_bytes[..]);
    assert!(window[1048..].iter().all(|b| *b == 0));
}

#[test]
fn a_small_arena_refuses_the_model() {
    let mut memory = KewMemory::new(7, 1040, 1);
    let (mut vrt, mut idx) = scene_parts();
    assert_eq!(
        init_dock(&mut memory, &mut vrt, &mut idx),
        Err(BufferError::Memory(MemoryError::OutOfBounds))
    );
    let (vertex_bytes, _) = square_bytes();
    let window = memory.mapped.as_ref().unwrap();
    assert_eq!(&window[..80], &vertex_bytes[..]);
    assert!(window[80..].iter().all(|b| *b == 0));
    let mut tiny = KewMemory::new(8, 64, 1);
    let (mut vrt, mut idx) = scene_parts();
    assert_eq!(
        init_dock(&mut tiny, &mut vrt, &mut idx),
        Err(BufferError::Memory(MemoryError::OutOfBounds))
    );
    assert_eq!(tiny.mapped, Some(vec![0u8; 64]));
}

#[test]
fn loading_needs_bound_buffers_and_a_window() {
    let mut memory = KewMemory::new(7, 2048, 1);
    let (mut vrt, mut idx) = scene_parts();
    assert_eq!(load_model(&mut memory, &vrt, &idx), Err(BufferError::Unbound));
    vrt.bind_memory(&memory, 0);
    idx.bind_memory(&memory, 1024);
    assert_eq!(
        load_model(&mut memory, &vrt, &idx),
        Err(BufferError::Memory(MemoryError::Unmapped))
    );
    memory.map(WHOLE_SIZE, 0);
    assert_eq!(
        load_model(&mut memory, &vrt, &idx),
        Ok(KewModel { vertex_offset: 0, index_amount: 6, index_offset: 0 })
    );
}

#[test]
fn one_shot_buffers_are_submitted_and_waited_for() {
    let pool = KewCommandPool::new(60, 61);
    let begin = pool.begin_one_shot();
    assert_eq!(begin.allocate.command_pool, 60);
    assert_eq!(begin.allocate.level, 0);
    assert_eq!(begin.allocate.count, 1);
    assert_eq!(begin.begin_flags, 1);
    assert_eq!(
        pool.submit_and_wait(&[5, 6]),
        vec![
            SubmitStep::End { cmd_buffer: 5 },
            SubmitStep::End { cmd_buffer: 6 },
            SubmitStep::Submit { queue: 61, count: 2 },
            SubmitStep::WaitIdle { queue: 61 },
            SubmitStep::Free { command_pool: 60, count: 2 },
        ]
    );
    assert_eq!(
        pool.submit_and_wait(&[]),
        vec![
            SubmitStep::Submit { queue: 61, count: 0 },
            SubmitStep::WaitIdle { queue: 61 },
            SubmitStep::Free { command_pool: 60, count: 0 },
        ]
    );
}

#[test]
fn command_pools_and_their_buffers() {
    let info = KewCommandPool::create_info(3);
    assert_eq!(info.queue_family_index, 3);
    assert_eq!(info.flags, 3);
    let pool = KewCommandPool::new(60, 61);
    let request = pool.allocate_command_buffers::<2>(0);
    assert_eq!((request.command_pool, request.level, request.count), (60, 0, 2));
    assert_eq!(KewCommandPool::take_command_buffers::<2>(&[7, 8, 9]), [7, 8]);
    assert_eq!(KewCommandPool::take_command_buffers::<0>(&[7]), [0u64; 0]);
}

#[test]
fn descriptor_pools_are_built_up() {
    let info = KewDescriptorPoolBuilder::new(4).add_pool_size(7, 2).add_pool_size(3, 1).build();
    assert_eq!(info.max_sets, 4);
    assert_eq!(info.flags, 0);
    assert_eq!(info.pool_sizes.len(), 2);
    assert_eq!((info.pool_sizes[0].ty, info.pool_sizes[0].descriptor_count), (7, 2));
    assert_eq!((info.pool_sizes[1].ty, info.pool_sizes[1].descriptor_count), (3, 1));
    let pool = KewDescriptorPool::new(80);
    let request = pool.allocate_descriptor_set(81);
    assert_eq!((request.descriptor_pool, request.set_layout), (80, 81));
    let direct = KewDescriptorPool::create_info(Vec::new(), 2, 9);
    assert_eq!((direct.flags, direct.max_sets, direct.pool_sizes.len()), (2, 9, 0));
}

#[test]
fn the_open_frame_draws_to_its_image() {
    let mut r = renderer(3);
    r.open_frame(true).unwrap();
    let frame = r.image_acquired(2, false);
    assert_eq!(r.begin_render_pass(frame.cmd_buffer), r.swapchain.begin_render_pass(2));
    assert_eq!(r.end_render_pass(frame.cmd_buffer), Command::EndRenderPass);
}

#[test]
fn no_more_frames_are_pending_than_there_are_slots() {
    let mut r = renderer(3);
    let mut pending = [0u32; MAX_IN_FLIGHT_FRAMES];
    let mut opened = 0;
    let mut dropped = 0;
    for step in 0..200u32 {
        if step % 7 == 3 || step % 11 == 5 {
            let slot = (step as usize / 3) % MAX_IN_FLIGHT_FRAMES;
            if pending[slot] > 0 {
                pending[slot] -= 1;
            }
            continue;
        }
        let slot = r.current_frame_idx;
        match r.open_frame(pending[slot] == 0) {
            Ok(_) => {
                let frame = r.image_acquired(step % 3, false);
                r.close_frame(frame.cmd_buffer);
                pending[slot] += 1;
                opened += 1;
            }
            Err(DockErr::SOFT) => dropped += 1,
        }
        assert!(pending.iter().all(|p| *p <= 1));
        assert!(pending.iter().sum::<u32>() as usize <= MAX_IN_FLIGHT_FRAMES);
    }
    assert!(opened > 10);
    assert!(dropped > 10);
}
