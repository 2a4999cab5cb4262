//! The shader stages and pipeline configurations of the renderer.

use crate::gpu::model::VertexType;
use crate::gpu::pipeline::{ColorTarget, GfxPipelineConfig, PrimitiveState};
use crate::gpu::shader::ShaderStageConfig;
use crate::gpu::vk::{
    COLOR_COMPONENT_RGBA, CULL_MODE_NONE, FRONT_FACE_CLOCKWISE, POLYGON_MODE_FILL,
    SHADER_STAGE_FRAGMENT, SHADER_STAGE_VERTEX, TOPOLOGY_TRIANGLE_LIST,
};
use vstd::prelude::*;

verus! {

/// The index of the configuration without vertex buffers.
pub const NULL_VERT_CONFIG: usize = 0;

/// The index of the configuration for flat vertices.
pub const FLAT_VERT_CONFIG: usize = 1;

/// The primitive state of both configurations: filled triangles from a
/// list, nothing culled, clockwise front faces.
pub open spec fn filled_triangles() -> PrimitiveState {
    PrimitiveState {
        topology: TOPOLOGY_TRIANGLE_LIST,
        restart: false,
        polygon_mode: POLYGON_MODE_FILL,
        depth_clamp: false,
        cull_mode: CULL_MODE_NONE,
        front_face: FRONT_FACE_CLOCKWISE,
    }
}

/// The one colour target of both configurations: all components written,
/// nothing blended.
pub open spec fn opaque_target() -> ColorTarget {
    ColorTarget { color_blend: None, alpha_blend: None, write_mask: COLOR_COMPONENT_RGBA }
}

/// The vertex stage of the renderer.
pub fn vert_shader_config() -> (r: ShaderStageConfig<0>)
    ensures
        r.entry_name@ == "main"@,
        r.path@ == "./shader/kew.vert.spv"@,
        r.stage == SHADER_STAGE_VERTEX,
        r.create_flags == 0,
{
    ShaderStageConfig {
        entry_name: "main",
        path: "./shader/kew.vert.spv",
        bindings: [],
        stage: SHADER_STAGE_VERTEX,
        create_flags: 0,
    }
}

/// The fragment stage of the renderer.
pub fn frag_shader_config() -> (r: ShaderStageConfig<0>)
    ensures
        r.entry_name@ == "main"@,
        r.path@ == "./shader/kew.frag.spv"@,
        r.stage == SHADER_STAGE_FRAGMENT,
        r.create_flags == 0,
{
    ShaderStageConfig {
        entry_name: "main",
        path: "./shader/kew.frag.spv",
        bindings: [],
        stage: SHADER_STAGE_FRAGMENT,
        create_flags: 0,
    }
}

/// The pipeline configuration at `index`, where there is one: at
/// `NULL_VERT_CONFIG` the one without vertex buffers, at
/// `FLAT_VERT_CONFIG` the one for flat vertices.
pub fn pipeline_config(index: usize) -> (r: Option<GfxPipelineConfig>)
    ensures
        r.is_some() == (index == NULL_VERT_CONFIG || index == FLAT_VERT_CONFIG),
        r.is_some() ==> {
            &&& r.unwrap().primitive == filled_triangles()
            &&& r.unwrap().color_targets@ == seq![opaque_target()]
            &&& r.unwrap().vertex_type == (if index == NULL_VERT_CONFIG {
                VertexType::NULL
            } else {
                VertexType::FLAT
            })
        },
{
    if index > FLAT_VERT_CONFIG {
        return None;
    }
    let mut color_targets: Vec<ColorTarget> = Vec::with_capacity(1);
    color_targets.push(
        ColorTarget { color_blend: None, alpha_blend: None, write_mask: COLOR_COMPONENT_RGBA },
    );
    assert(color_targets@ =~= seq![opaque_target()]);
    Some(
        GfxPipelineConfig {
            primitive: PrimitiveState {
                topology: TOPOLOGY_TRIANGLE_LIST,
                restart: false,
                polygon_mode: POLYGON_MODE_FILL,
                depth_clamp: false,
                cull_mode: CULL_MODE_NONE,
                front_face: FRONT_FACE_CLOCKWISE,
            },
            color_targets,
            vertex_type: if index == NULL_VERT_CONFIG {
                VertexType::NULL
            } else {
                VertexType::FLAT
            },
        },
    )
}

} // verus!
