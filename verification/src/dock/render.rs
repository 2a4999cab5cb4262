//! The renderer of a single triangle that the vertex stage makes up.

use crate::dock::dock::{DockRenderer, RenderAction, RenderEvent};
use crate::gpu::command::Command;
use crate::gpu::pipeline::KewGfxPipeline;
use crate::gpu::vk::BIND_POINT_GRAPHICS;
use vstd::prelude::*;

verus! {

/// An update that the render thread is told of.
#[derive(Clone, Copy, Debug, PartialEq, Eq, Structural)]
pub enum RenderUpdate {
    REDRAW,
}

/// The content of a frame: the pipeline is bound and three vertices are
/// drawn once, without vertex buffers.
pub open spec fn triangle_frame(gfx_pipeline: KewGfxPipeline) -> Seq<Command> {
    seq![
        Command::BindPipeline { bind_point: BIND_POINT_GRAPHICS, pipeline: gfx_pipeline.pipeline },
        Command::Draw { vertex_count: 3, instance_count: 1, first_vertex: 0, first_instance: 0 },
    ]
}

/// The command that draws three vertices once.
pub fn draw() -> (r: Command)
    ensures
        r == (Command::Draw {
            vertex_count: 3,
            instance_count: 1,
            first_vertex: 0,
            first_instance: 0,
        }),
{
    Command::Draw { vertex_count: 3, instance_count: 1, first_vertex: 0, first_instance: 0 }
}

/// Handles a redraw update as far as `event` tells: the request opens a
/// frame where the slot is free, and the image that then arrives gets the
/// frame that draws the triangle.
pub fn handle_render_update(
    renderer: &mut DockRenderer,
    gfx_pipeline: &KewGfxPipeline,
    update: RenderUpdate,
    event: RenderEvent,
) -> (r: RenderAction)
    requires
        old(renderer).wf(),
        event matches RenderEvent::Acquired { image_idx, .. } ==> image_idx < old(
            renderer,
        ).swapchain.frame_bundles@.len(),
    ensures
        final(renderer).wf(),
        old(renderer).answers(*final(renderer), triangle_frame(*gfx_pipeline), event, r),
{
    match update {
        RenderUpdate::REDRAW => {
            let mut content: Vec<Command> = Vec::with_capacity(2);
            content.push(gfx_pipeline.bind());
            content.push(draw());
            assert(content@ =~= triangle_frame(*gfx_pipeline));
            renderer.render(content, event)
        },
    }
}

} // verus!
