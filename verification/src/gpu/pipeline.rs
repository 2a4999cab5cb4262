//! Compute and graphics pipelines: what they are created from and the
//! commands that bind them.

use crate::gpu::command::Command;
use crate::gpu::model::{
    flat_attributes, flat_bindings, VertexInputAttributeDescription,
    VertexInputBindingDescription, VertexType,
};
use crate::gpu::shader::{KewShader, ShaderStageInfo};
use crate::gpu::vk::{
    BIND_POINT_COMPUTE, BIND_POINT_GRAPHICS, BLEND_FACTOR_ZERO, BLEND_OP_ADD,
    DYNAMIC_STATE_SCISSOR, DYNAMIC_STATE_VIEWPORT, SAMPLE_COUNT_1,
};
use vstd::prelude::*;

verus! {

/// The bit pattern of the line width, 1.0.
pub const LINE_WIDTH: u32 = 0x3f80_0000;

/// What a compute pipeline is created from.
#[derive(Clone, Copy, Debug, PartialEq, Eq)]
pub struct ComputePipelineCreateInfo {
    pub flags: u32,
    pub stage: ShaderStageInfo,
    pub layout: u64,
}

/// What the layout of a compute pipeline is created from: the one
/// descriptor set layout of its shader.
#[derive(Clone, Copy, Debug, PartialEq, Eq, Structural)]
pub struct PipelineLayoutCreateInfo {
    pub set_layout: Option<u64>,
}

/// A compute pipeline and its layout, named by their handles.
#[derive(Clone, Copy, Debug, PartialEq, Eq, Structural)]
pub struct KewCmpPipeline {
    pub layout: u64,
    pub pipeline: u64,
}

impl KewCmpPipeline {
    /// The commands that bind the pipeline and `descriptor_set` as its
    /// first set.
    pub open spec fn binding_of(&self, descriptor_set: u64) -> Seq<Command> {
        seq![
            Command::BindPipeline { bind_point: BIND_POINT_COMPUTE, pipeline: self.pipeline },
            Command::BindDescriptorSet {
                bind_point: BIND_POINT_COMPUTE,
                layout: self.layout,
                first_set: 0,
                descriptor_set,
            },
        ]
    }

    /// The description of the pipeline layout for `shader`.
    pub fn layout_info(shader: &KewShader) -> (r: PipelineLayoutCreateInfo)
        ensures
            r.set_layout == Some(shader.descriptor_set_layout),
    {
        PipelineLayoutCreateInfo { set_layout: Some(shader.descriptor_set_layout) }
    }

    /// The description of the pipeline that runs `comp_shader_stage` under
    /// `layout`.
    pub fn create_pipeline(layout: u64, comp_shader_stage: ShaderStageInfo) -> (r:
        ComputePipelineCreateInfo)
        ensures
            r.flags == 0,
            r.stage == comp_shader_stage,
            r.layout == layout,
    {
        ComputePipelineCreateInfo { flags: 0, stage: comp_shader_stage, layout }
    }

    /// Records a pipeline created under the handle `pipeline` with the
    /// layout `layout`.
    pub fn new(layout: u64, pipeline: u64) -> (r: Self)
        ensures
            r == (KewCmpPipeline { layout, pipeline }),
    {
        KewCmpPipeline { layout, pipeline }
    }

    /// The commands that bind the pipeline and its descriptor set for
    /// compute work.
    pub fn bind(&self, descriptor_set: u64) -> (r: Vec<Command>)
        ensures
            r@ == self.binding_of(descriptor_set),
    {
        let mut commands: Vec<Command> = Vec::with_capacity(2);
        commands.push(
            Command::BindPipeline { bind_point: BIND_POINT_COMPUTE, pipeline: self.pipeline },
        );
        commands.push(
            Command::BindDescriptorSet {
                bind_point: BIND_POINT_COMPUTE,
                layout: self.layout,
                first_set: 0,
                descriptor_set,
            },
        );
        assert(commands@ =~= self.binding_of(descriptor_set));
        commands
    }
}

/// How source and destination are blended.
#[derive(Clone, Copy, Debug, PartialEq, Eq, Structural)]
pub struct BlendInfo {
    pub src_factor: i32,
    pub dst_factor: i32,
    pub operation: i32,
}

/// One colour target of a pipeline.
#[derive(Clone, Copy, Debug, PartialEq, Eq, Structural)]
pub struct ColorTarget {
    pub color_blend: Option<BlendInfo>,
    pub alpha_blend: Option<BlendInfo>,
    pub write_mask: u32,
}

/// How primitives are assembled and rasterised.
#[derive(Clone, Copy, Debug, PartialEq, Eq, Structural)]
pub struct PrimitiveState {
    pub topology: i32,
    pub restart: bool,
    pub polygon_mode: i32,
    pub depth_clamp: bool,
    pub cull_mode: u32,
    pub front_face: i32,
}

/// What can be chosen of a graphics pipeline: its primitive state, its
/// colour targets and its vertex format.
pub struct GfxPipelineConfig {
    pub primitive: PrimitiveState,
    pub color_targets: Vec<ColorTarget>,
    pub vertex_type: VertexType,
}

/// The blend state of one colour attachment.
#[derive(Clone, Copy, Debug, PartialEq, Eq, Structural)]
pub struct BlendAttachment {
    pub blend_enable: bool,
    pub src_color_blend_factor: i32,
    pub dst_color_blend_factor: i32,
    pub color_blend_op: i32,
    pub src_alpha_blend_factor: i32,
    pub dst_alpha_blend_factor: i32,
    pub alpha_blend_op: i32,
    pub color_write_mask: u32,
}

/// What a graphics pipeline is created from. Viewport and scissor are
/// dynamic, one of each.
pub struct GraphicsPipelineCreateInfo {
    pub layout: u64,
    pub vertex_stage: ShaderStageInfo,
    pub fragment_stage: ShaderStageInfo,
    pub vertex_bindings: Option<Vec<VertexInputBindingDescription>>,
    pub vertex_attributes: Option<Vec<VertexInputAttributeDescription>>,
    pub primitive: PrimitiveState,
    pub viewport_count: u32,
    pub scissor_count: u32,
    pub line_width: u32,
    pub depth_bias: bool,
    pub rasterization_samples: u32,
    pub sample_shading: bool,
    pub blend_attachments: Vec<BlendAttachment>,
    pub dynamic_states: Vec<i32>,
    pub render_pass: u64,
}

/// A graphics pipeline and its layout, named by their handles.
#[derive(Clone, Copy, Debug, PartialEq, Eq, Structural)]
pub struct KewGfxPipeline {
    pub pipeline: u64,
    pub pipeline_layout: u64,
}

/// The factors and operation of `blend`, or those of no blending.
pub open spec fn blend_or_none(blend: Option<BlendInfo>) -> BlendInfo {
    match blend {
        Some(b) => b,
        None => BlendInfo {
            src_factor: BLEND_FACTOR_ZERO,
            dst_factor: BLEND_FACTOR_ZERO,
            operation: BLEND_OP_ADD,
        },
    }
}

/// The blend state of `target`: blending is on where the target blends
/// colour or alpha, and each of the two that it does not blend keeps the
/// factors and operation of no blending.
pub open spec fn blend_attachment_of(target: ColorTarget) -> BlendAttachment {
    BlendAttachment {
        blend_enable: target.color_blend.is_some() || target.alpha_blend.is_some(),
        src_color_blend_factor: blend_or_none(target.color_blend).src_factor,
        dst_color_blend_factor: blend_or_none(target.color_blend).dst_factor,
        color_blend_op: blend_or_none(target.color_blend).operation,
        src_alpha_blend_factor: blend_or_none(target.alpha_blend).src_factor,
        dst_alpha_blend_factor: blend_or_none(target.alpha_blend).dst_factor,
        alpha_blend_op: blend_or_none(target.alpha_blend).operation,
        color_write_mask: target.write_mask,
    }
}

/// The vertex bindings of a vertex format, if it has vertex buffers.
pub open spec fn bindings_of(vertex_type: VertexType) -> Option<
    Seq<VertexInputBindingDescription>,
> {
    match vertex_type {
        VertexType::NULL => None,
        VertexType::FLAT => Some(flat_bindings()),
    }
}

/// The vertex attributes of a vertex format, if it has vertex buffers.
pub open spec fn attributes_of(vertex_type: VertexType) -> Option<
    Seq<VertexInputAttributeDescription>,
> {
    match vertex_type {
        VertexType::NULL => None,
        VertexType::FLAT => Some(flat_attributes()),
    }
}

/// The sequence behind an optional vector.
pub open spec fn seq_of<T>(v: Option<Vec<T>>) -> Option<Seq<T>> {
    match v {
        Some(items) => Some(items@),
        None => None,
    }
}

impl KewGfxPipeline {
    /// The blend state of one colour target.
    pub fn blend_attachment(target: &ColorTarget) -> (r: BlendAttachment)
        ensures
            r == blend_attachment_of(*target),
    {
        let mut attachment = BlendAttachment {
            blend_enable: false,
            src_color_blend_factor: BLEND_FACTOR_ZERO,
            dst_color_blend_factor: BLEND_FACTOR_ZERO,
            color_blend_op: BLEND_OP_ADD,
            src_alpha_blend_factor: BLEND_FACTOR_ZERO,
            dst_alpha_blend_factor: BLEND_FACTOR_ZERO,
            alpha_blend_op: BLEND_OP_ADD,
            color_write_mask: target.write_mask,
        };
        if target.color_blend.is_some() || target.alpha_blend.is_some() {
            attachment.blend_enable = true;
            if let Some(blend_info) = target.color_blend {
                attachment.src_color_blend_factor = blend_info.src_factor;
                attachment.dst_color_blend_factor = blend_info.dst_factor;
                attachment.color_blend_op = blend_info.operation;
            }
            if let Some(blend_info) = target.alpha_blend {
                attachment.src_alpha_blend_factor = blend_info.src_factor;
                attachment.dst_alpha_blend_factor = blend_info.dst_factor;
                attachment.alpha_blend_op = blend_info.operation;
            }
        }
        attachment
    }

    /// The description of the pipeline that `config` asks for: its two
    /// stages, the vertex input of its vertex format, its primitive state,
    /// one sample without sample shading or depth bias, one blend
    /// attachment for each colour target in their order, and a dynamic
    /// viewport and scissor.
    pub fn create_info(
        config: &GfxPipelineConfig,
        layout: u64,
        vert_shader: &KewShader,
        frag_shader: &KewShader,
        render_pass: u64,
    ) -> (r: GraphicsPipelineCreateInfo)
        ensures
            r.layout == layout,
            r.vertex_stage == vert_shader.shader_stage_info,
            r.fragment_stage == frag_shader.shader_stage_info,
            seq_of(r.vertex_bindings) == bindings_of(config.vertex_type),
            seq_of(r.vertex_attributes) == attributes_of(config.vertex_type),
            r.primitive == config.primitive,
            r.viewport_count == 1,
            r.scissor_count == 1,
            r.line_width == LINE_WIDTH,
            !r.depth_bias,
            r.rasterization_samples == SAMPLE_COUNT_1,
            !r.sample_shading,
            r.blend_attachments@ == config.color_targets@.map_values(
                |t: ColorTarget| blend_attachment_of(t),
            ),
            r.dynamic_states@ == seq![DYNAMIC_STATE_VIEWPORT, DYNAMIC_STATE_SCISSOR],
            r.render_pass == render_pass,
    {
        let mut blend_attachments: Vec<BlendAttachment> = Vec::with_capacity(
            config.color_targets.len(),
        );
        let mut i: usize = 0;
        while i < config.color_targets.len()
            invariant
                i <= config.color_targets@.len(),
                blend_attachments@.len() == i,
                forall|k: int|
                    0 <= k < i ==> blend_attachments@[k] == blend_attachment_of(
                        config.color_targets@[k],
                    ),
            decreases config.color_targets@.len() - i,
        {
            blend_attachments.push(Self::blend_attachment(&config.color_targets[i]));
            i += 1;
        }
        assert(blend_attachments@ =~= config.color_targets@.map_values(
            |t: ColorTarget| blend_attachment_of(t),
        ));
        let mut dynamic_states: Vec<i32> = Vec::with_capacity(2);
        dynamic_states.push(DYNAMIC_STATE_VIEWPORT);
        dynamic_states.push(DYNAMIC_STATE_SCISSOR);
        assert(dynamic_states@ =~= seq![DYNAMIC_STATE_VIEWPORT, DYNAMIC_STATE_SCISSOR]);
        GraphicsPipelineCreateInfo {
            layout,
            vertex_stage: vert_shader.shader_stage_info,
            fragment_stage: frag_shader.shader_stage_info,
            vertex_bindings: config.vertex_type.bind_descriptions(),
            vertex_attributes: config.vertex_type.attr_descriptions(),
            primitive: config.primitive,
            viewport_count: 1,
            scissor_count: 1,
            line_width: LINE_WIDTH,
            depth_bias: false,
            rasterization_samples: SAMPLE_COUNT_1,
            sample_shading: false,
            blend_attachments,
            dynamic_states,
            render_pass,
        }
    }

    /// Records a pipeline created under the handle `pipeline` with the
    /// layout `layout`.
    pub fn new(pipeline: u64, layout: u64) -> (r: Self)
        ensures
            r == (KewGfxPipeline { pipeline, pipeline_layout: layout }),
    {
        KewGfxPipeline { pipeline, pipeline_layout: layout }
    }

    /// The command that binds the pipeline for graphics work.
    pub fn bind(&self) -> (r: Command)
        ensures
            r == (Command::BindPipeline {
                bind_point: BIND_POINT_GRAPHICS,
                pipeline: self.pipeline,
            }),
    {
        Command::BindPipeline { bind_point: BIND_POINT_GRAPHICS, pipeline: self.pipeline }
    }
}

} // verus!
