//! Graphics pipelines.

use vstd::prelude::*;
use vstd::slice::slice_index_get;
use crate::api::directx::device::DirectXDevice;
use crate::api::directx::constants::{
    DirectXBlendFactors, DirectXBlendOps, DirectXColorComponentConstants, DirectXCullModes,
    DirectXPolygonModes,
};
use crate::api::directx::native::{
    D3D12_COMPARISON_FUNC_NEVER, D3D12_CONSERVATIVE_RASTERIZATION_MODE_OFF,
    D3D12_DEFAULT_DEPTH_BIAS, D3D12_DEPTH_WRITE_MASK_ZERO,
    D3D12_INDEX_BUFFER_STRIP_CUT_VALUE_DISABLED, D3D12_LOGIC_OP_NOOP,
    D3D12_PIPELINE_STATE_FLAG_NONE, D3D12_PRIMITIVE_TOPOLOGY_TYPE_LINE,
    D3D12_PRIMITIVE_TOPOLOGY_TYPE_PATCH, D3D12_PRIMITIVE_TOPOLOGY_TYPE_POINT,
    D3D12_PRIMITIVE_TOPOLOGY_TYPE_TRIANGLE, D3D12_STENCIL_OP_KEEP,
};
use crate::api::directx::pipeline::layout::DirectXPipelineLayout;
use crate::api::directx::pipeline::render_pass::DirectXRenderPass;
use crate::api::directx::pipeline::shader::{DirectXShader, DirectXShaderDescription};
use crate::api::directx::{windows_result, DirectXDeviceObject, DirectXObject};
use crate::api::traits::{GraphicsPipeline, Object};
use crate::datatypes::{FrontFace, PrimitiveTopology};
use crate::error::Error;
use crate::info::{BlendAttachmentState, GraphicsPipelineCreateInfo, RasterizationState};
use crate::ownership::{ObjectId, ObjectKind, Objects};

verus! {

/// The blending of one render target.
#[derive(Debug, Copy, Clone, PartialEq, Eq, Structural)]
pub struct DirectXRenderTargetBlendDescription {
    pub blend_enable: bool,
    pub logic_op_enable: bool,
    pub src_blend: i32,
    pub dest_blend: i32,
    pub blend_op: i32,
    pub src_blend_alpha: i32,
    pub dest_blend_alpha: i32,
    pub blend_op_alpha: i32,
    pub logic_op: i32,
    pub render_target_write_mask: i32,
}

/// The blending of a pipeline, render target by render target.
#[derive(Debug, Clone, PartialEq, Eq)]
pub struct DirectXBlendDescription {
    pub alpha_to_coverage_enable: bool,
    /// Each render target is blended in its own way.
    pub independent_blend_enable: bool,
    pub render_targets: Vec<DirectXRenderTargetBlendDescription>,
}

/// The rasterisation of a pipeline.  The depth bias is neither clamped nor
/// scaled.
#[derive(Debug, Copy, Clone, PartialEq, Eq, Structural)]
pub struct DirectXRasterizerDescription {
    pub fill_mode: i32,
    pub cull_mode: i32,
    pub front_counter_clockwise: bool,
    pub depth_bias: i32,
    pub depth_clip_enable: bool,
    pub multisample_enable: bool,
    pub antialiased_line_enable: bool,
    pub forced_sample_count: u32,
    pub conservative_raster: i32,
}

/// What the stencil test does to one face.
#[derive(Debug, Copy, Clone, PartialEq, Eq, Structural)]
pub struct DirectXStencilDescription {
    pub stencil_fail_op: i32,
    pub stencil_depth_fail_op: i32,
    pub stencil_pass_op: i32,
    pub stencil_func: i32,
}

/// The depth and stencil tests of a pipeline.
#[derive(Debug, Copy, Clone, PartialEq, Eq, Structural)]
pub struct DirectXDepthStencilDescription {
    pub depth_enable: bool,
    pub depth_write_mask: i32,
    pub depth_func: i32,
    pub stencil_enable: bool,
    pub stencil_read_mask: u8,
    pub stencil_write_mask: u8,
    pub front_face: DirectXStencilDescription,
    pub back_face: DirectXStencilDescription,
}

/// What `ID3D12Device::CreateGraphicsPipelineState` is given.  The pipeline
/// has no root signature, no stream output and no input layout.
#[derive(Debug, Clone, PartialEq, Eq)]
pub struct DirectXGraphicsPipelineDescription {
    pub vs: DirectXShaderDescription,
    pub ps: DirectXShaderDescription,
    pub ds: DirectXShaderDescription,
    pub hs: DirectXShaderDescription,
    pub gs: DirectXShaderDescription,
    pub blend_state: DirectXBlendDescription,
    pub sample_mask: u32,
    pub rasterizer_state: DirectXRasterizerDescription,
    pub depth_stencil_state: DirectXDepthStencilDescription,
    pub input_element_count: u32,
    pub ib_strip_cut_value: i32,
    pub primitive_topology_type: i32,
    pub num_render_targets: u32,
    pub node_mask: u32,
    pub flags: i32,
}

/// The kind of primitive that a topology assembles, as Direct3D numbers the
/// kinds.
pub open spec fn topology_type(topology: PrimitiveTopology) -> i32 {
    match topology {
        PrimitiveTopology::PointList => D3D12_PRIMITIVE_TOPOLOGY_TYPE_POINT,
        PrimitiveTopology::LineList => D3D12_PRIMITIVE_TOPOLOGY_TYPE_LINE,
        PrimitiveTopology::LineStrip => D3D12_PRIMITIVE_TOPOLOGY_TYPE_LINE,
        PrimitiveTopology::TriangleList => D3D12_PRIMITIVE_TOPOLOGY_TYPE_TRIANGLE,
        PrimitiveTopology::TriangleStrip => D3D12_PRIMITIVE_TOPOLOGY_TYPE_TRIANGLE,
        PrimitiveTopology::TriangleFan => D3D12_PRIMITIVE_TOPOLOGY_TYPE_TRIANGLE,
        PrimitiveTopology::LineListWithAdjacency => D3D12_PRIMITIVE_TOPOLOGY_TYPE_LINE,
        PrimitiveTopology::LineStripWithAdjacency => D3D12_PRIMITIVE_TOPOLOGY_TYPE_LINE,
        PrimitiveTopology::TriangleListWithAdjacency => D3D12_PRIMITIVE_TOPOLOGY_TYPE_TRIANGLE,
        PrimitiveTopology::TriangleStripWithAdjacency => D3D12_PRIMITIVE_TOPOLOGY_TYPE_TRIANGLE,
        PrimitiveTopology::PatchList => D3D12_PRIMITIVE_TOPOLOGY_TYPE_PATCH,
    }
}

/// The kind of primitive that a topology assembles.
pub fn to_topology_type(topology: PrimitiveTopology) -> (kind: i32)
    ensures
        kind == topology_type(topology),
{
    match topology {
        PrimitiveTopology::PointList => D3D12_PRIMITIVE_TOPOLOGY_TYPE_POINT,
        PrimitiveTopology::LineList => D3D12_PRIMITIVE_TOPOLOGY_TYPE_LINE,
        PrimitiveTopology::LineStrip => D3D12_PRIMITIVE_TOPOLOGY_TYPE_LINE,
        PrimitiveTopology::TriangleList => D3D12_PRIMITIVE_TOPOLOGY_TYPE_TRIANGLE,
        PrimitiveTopology::TriangleStrip => D3D12_PRIMITIVE_TOPOLOGY_TYPE_TRIANGLE,
        PrimitiveTopology::TriangleFan => D3D12_PRIMITIVE_TOPOLOGY_TYPE_TRIANGLE,
        PrimitiveTopology::LineListWithAdjacency => D3D12_PRIMITIVE_TOPOLOGY_TYPE_LINE,
        PrimitiveTopology::LineStripWithAdjacency => D3D12_PRIMITIVE_TOPOLOGY_TYPE_LINE,
        PrimitiveTopology::TriangleListWithAdjacency => D3D12_PRIMITIVE_TOPOLOGY_TYPE_TRIANGLE,
        PrimitiveTopology::TriangleStripWithAdjacency => D3D12_PRIMITIVE_TOPOLOGY_TYPE_TRIANGLE,
        PrimitiveTopology::PatchList => D3D12_PRIMITIVE_TOPOLOGY_TYPE_PATCH,
    }
}

/// What a pipeline is told of a stage: of its shader if it has one, and of no
/// byte code otherwise.
pub open spec fn stage(shader: Option<&DirectXShader>) -> DirectXShaderDescription {
    DirectXShaderDescription {
        bytecode_length: match shader {
            Some(s) => s.bytecode().len() as usize,
            None => 0,
        },
    }
}

/// What a pipeline is told of a stage.
fn describe_stage(shader: Option<&DirectXShader>) -> (description: DirectXShaderDescription)
    ensures
        description == stage(shader),
{
    match shader {
        Some(s) => s.to_bytecode(),
        None => DirectXShaderDescription { bytecode_length: 0 },
    }
}

/// How many render targets a pipeline of Direct3D can draw to.
pub const MAX_RENDER_TARGETS: usize = 8;

impl DirectXRenderTargetBlendDescription {
    /// The blending of a render target that `state` asks for.  No logic
    /// operation is applied.
    pub open spec fn of(state: BlendAttachmentState) -> DirectXRenderTargetBlendDescription {
        DirectXRenderTargetBlendDescription {
            blend_enable: state.blend_enable,
            logic_op_enable: false,
            src_blend: state.src_color_blend_factor.native::<DirectXBlendFactors>(),
            dest_blend: state.dst_color_blend_factor.native::<DirectXBlendFactors>(),
            blend_op: state.color_blend_op.native::<DirectXBlendOps>(),
            src_blend_alpha: state.src_alpha_blend_factor.native::<DirectXBlendFactors>(),
            dest_blend_alpha: state.dst_alpha_blend_factor.native::<DirectXBlendFactors>(),
            blend_op_alpha: state.alpha_blend_op.native::<DirectXBlendOps>(),
            logic_op: D3D12_LOGIC_OP_NOOP,
            render_target_write_mask: state.color_write_mask.native::<
                DirectXColorComponentConstants,
            >(),
        }
    }

    /// The blending that each of `states` asks for, in order.
    pub open spec fn of_each(states: Seq<BlendAttachmentState>) -> Seq<
        DirectXRenderTargetBlendDescription,
    > {
        states.map_values(|s: BlendAttachmentState| Self::of(s))
    }

    /// Converts the blending of one render target.
    pub fn from_state(state: &BlendAttachmentState) -> (native: DirectXRenderTargetBlendDescription)
        ensures
            native == Self::of(*state),
    {
        DirectXRenderTargetBlendDescription {
            blend_enable: state.blend_enable,
            logic_op_enable: false,
            src_blend: state.src_color_blend_factor.to_native::<DirectXBlendFactors>(),
            dest_blend: state.dst_color_blend_factor.to_native::<DirectXBlendFactors>(),
            blend_op: state.color_blend_op.to_native::<DirectXBlendOps>(),
            src_blend_alpha: state.src_alpha_blend_factor.to_native::<DirectXBlendFactors>(),
            dest_blend_alpha: state.dst_alpha_blend_factor.to_native::<DirectXBlendFactors>(),
            blend_op_alpha: state.alpha_blend_op.to_native::<DirectXBlendOps>(),
            logic_op: D3D12_LOGIC_OP_NOOP,
            render_target_write_mask: state.color_write_mask.to_native::<
                DirectXColorComponentConstants,
            >(),
        }
    }
}

impl DirectXRasterizerDescription {
    /// The rasterisation that `state` asks for: polygons are filled, culled
    /// and wound as asked, depth is clipped and not biased, and nothing is
    /// smoothed.
    pub open spec fn of(state: RasterizationState) -> DirectXRasterizerDescription {
        DirectXRasterizerDescription {
            fill_mode: state.polygon_mode.native::<DirectXPolygonModes>(),
            cull_mode: state.cull_mode.native::<DirectXCullModes>(),
            front_counter_clockwise: state.front_face is CounterClockwise,
            depth_bias: D3D12_DEFAULT_DEPTH_BIAS,
            depth_clip_enable: true,
            multisample_enable: false,
            antialiased_line_enable: false,
            forced_sample_count: 0,
            conservative_raster: D3D12_CONSERVATIVE_RASTERIZATION_MODE_OFF,
        }
    }

    /// Converts the rasterisation that is asked for.
    pub fn from_state(state: &RasterizationState) -> (native: DirectXRasterizerDescription)
        ensures
            native == Self::of(*state),
    {
        DirectXRasterizerDescription {
            fill_mode: state.polygon_mode.to_native::<DirectXPolygonModes>(),
            cull_mode: state.cull_mode.to_native::<DirectXCullModes>(),
            front_counter_clockwise: match state.front_face {
                FrontFace::CounterClockwise => true,
                FrontFace::Clockwise => false,
            },
            depth_bias: D3D12_DEFAULT_DEPTH_BIAS,
            depth_clip_enable: true,
            multisample_enable: false,
            antialiased_line_enable: false,
            forced_sample_count: 0,
            conservative_raster: D3D12_CONSERVATIVE_RASTERIZATION_MODE_OFF,
        }
    }
}

/// The depth and stencil tests of every pipeline: none.
pub open spec fn fixed_depth_stencil() -> DirectXDepthStencilDescription {
    let face = DirectXStencilDescription {
        stencil_fail_op: D3D12_STENCIL_OP_KEEP,
        stencil_depth_fail_op: D3D12_STENCIL_OP_KEEP,
        stencil_pass_op: D3D12_STENCIL_OP_KEEP,
        stencil_func: D3D12_COMPARISON_FUNC_NEVER,
    };
    DirectXDepthStencilDescription {
        depth_enable: false,
        depth_write_mask: D3D12_DEPTH_WRITE_MASK_ZERO,
        depth_func: D3D12_COMPARISON_FUNC_NEVER,
        stencil_enable: false,
        stencil_read_mask: 0,
        stencil_write_mask: 0,
        front_face: face,
        back_face: face,
    }
}

/// A DirectX graphics pipeline.  It keeps its device alive.
#[derive(Debug)]
pub struct DirectXGraphicsPipeline {
    handle: u64,
    ownership: ObjectId,
    device: ObjectId,
}

impl Object for DirectXGraphicsPipeline {
    closed spec fn native(&self) -> u64 {
        self.handle
    }

    closed spec fn record(&self) -> ObjectId {
        self.ownership
    }

    open spec fn failure(code: i32) -> Error {
        Error::WindowsError(code)
    }

    fn handle(&self) -> (handle: u64) {
        self.handle
    }

    fn ownership(&self) -> (id: ObjectId) {
        self.ownership
    }

    fn share(&self, objects: &mut Objects) -> (twin: Result<Self, Error>)
        ensures
            twin matches Ok(other) ==> other.device_record() == self.device_record(),
    {
        match objects.share(self.ownership) {
            Ok(()) => Ok(
                DirectXGraphicsPipeline {
                    handle: self.handle,
                    ownership: self.ownership,
                    device: self.device,
                },
            ),
            Err(e) => Err(e),
        }
    }
}

impl DirectXObject for DirectXGraphicsPipeline {
    proof fn windows_error(code: i32) {
    }
}

impl DirectXDeviceObject for DirectXGraphicsPipeline {
    closed spec fn device_record(&self) -> ObjectId {
        self.device
    }

    fn device(&self) -> (id: ObjectId) {
        self.device
    }
}

impl GraphicsPipeline for DirectXGraphicsPipeline {
    type Context = DirectXDevice;

    type Shader = DirectXShader;

    type PipelineLayout = DirectXPipelineLayout;

    type RenderPass = DirectXRenderPass;

    type Description = DirectXGraphicsPipelineDescription;

    /// A pipeline of Direct3D draws to no more than eight render targets.  It
    /// has no layout and no render pass, and heeds none.
    open spec fn describable(
        create_info: &GraphicsPipelineCreateInfo<
            DirectXShader,
            DirectXPipelineLayout,
            DirectXRenderPass,
        >,
    ) -> bool {
        create_info.blend.attachments@.len() <= MAX_RENDER_TARGETS
    }

    fn is_describable(
        create_info: &GraphicsPipelineCreateInfo<
            DirectXShader,
            DirectXPipelineLayout,
            DirectXRenderPass,
        >,
    ) -> (yes: bool) {
        create_info.blend.attachments.len() <= MAX_RENDER_TARGETS
    }

    /// The pipeline runs the shaders that are given on primitives of the
    /// topology that is asked for, rasterises them as asked, and blends what
    /// it draws to each render target as asked of that target.  Depth and
    /// stencil are not tested.
    fn describe(
        create_info: &GraphicsPipelineCreateInfo<
            DirectXShader,
            DirectXPipelineLayout,
            DirectXRenderPass,
        >,
    ) -> (description: DirectXGraphicsPipelineDescription)
        ensures
            description.vs == stage(create_info.shaders.vertex),
            description.ps == stage(create_info.shaders.fragment),
            description.ds == stage(create_info.shaders.tess_eval),
            description.hs == stage(create_info.shaders.tess_ctrl),
            description.gs == stage(create_info.shaders.geometry),
            description.blend_state.alpha_to_coverage_enable == false,
            description.blend_state.independent_blend_enable == (
            create_info.blend.attachments@.len() > 1),
            description.blend_state.render_targets@ == DirectXRenderTargetBlendDescription::of_each(
                create_info.blend.attachments@,
            ),
            description.sample_mask == 0,
            description.rasterizer_state == DirectXRasterizerDescription::of(
                create_info.rasterization,
            ),
            description.depth_stencil_state == fixed_depth_stencil(),
            description.input_element_count == 0,
            description.ib_strip_cut_value == D3D12_INDEX_BUFFER_STRIP_CUT_VALUE_DISABLED,
            description.primitive_topology_type == topology_type(create_info.topology),
            description.num_render_targets == create_info.blend.attachments@.len(),
            description.node_mask == 0,
            description.flags == D3D12_PIPELINE_STATE_FLAG_NONE,
    {
        let states = create_info.blend.attachments;
        let mut render_targets: Vec<DirectXRenderTargetBlendDescription> = Vec::new();
        let mut i: usize = 0;
        while i < states.len()
            invariant
                i <= states@.len(),
                render_targets@ == DirectXRenderTargetBlendDescription::of_each(
                    states@.take(i as int),
                ),
            decreases states@.len() - i,
        {
            render_targets.push(
                DirectXRenderTargetBlendDescription::from_state(slice_index_get(states, i)),
            );
            assert(DirectXRenderTargetBlendDescription::of_each(states@.take(i as int + 1))
                =~= DirectXRenderTargetBlendDescription::of_each(states@.take(i as int)).push(
                DirectXRenderTargetBlendDescription::of(states@[i as int]),
            ));
            i = i + 1;
        }
        assert(states@.take(states@.len() as int) =~= states@);
        let face = DirectXStencilDescription {
            stencil_fail_op: D3D12_STENCIL_OP_KEEP,
            stencil_depth_fail_op: D3D12_STENCIL_OP_KEEP,
            stencil_pass_op: D3D12_STENCIL_OP_KEEP,
            stencil_func: D3D12_COMPARISON_FUNC_NEVER,
        };
        DirectXGraphicsPipelineDescription {
            vs: describe_stage(create_info.shaders.vertex),
            ps: describe_stage(create_info.shaders.fragment),
            ds: describe_stage(create_info.shaders.tess_eval),
            hs: describe_stage(create_info.shaders.tess_ctrl),
            gs: describe_stage(create_info.shaders.geometry),
            blend_state: DirectXBlendDescription {
                alpha_to_coverage_enable: false,
                independent_blend_enable: states.len() > 1,
                render_targets,
            },
            sample_mask: 0,
            rasterizer_state: DirectXRasterizerDescription::from_state(&create_info.rasterization),
            depth_stencil_state: DirectXDepthStencilDescription {
                depth_enable: false,
                depth_write_mask: D3D12_DEPTH_WRITE_MASK_ZERO,
                depth_func: D3D12_COMPARISON_FUNC_NEVER,
                stencil_enable: false,
                stencil_read_mask: 0,
                stencil_write_mask: 0,
                front_face: face,
                back_face: face,
            },
            input_element_count: 0,
            ib_strip_cut_value: D3D12_INDEX_BUFFER_STRIP_CUT_VALUE_DISABLED,
            primitive_topology_type: to_topology_type(create_info.topology),
            num_render_targets: states.len() as u32,
            node_mask: 0,
            flags: D3D12_PIPELINE_STATE_FLAG_NONE,
        }
    }

    fn new(
        objects: &mut Objects,
        context: &Self::Context,
        native: Result<u64, i32>,
    ) -> (pipeline: Result<Self, Error>)
        ensures
            pipeline matches Ok(p) ==> p.device_record() == context.record(),
    {
        let retains = vec![context.ownership()];
        assert(retains@ =~= seq![context.record()]);
        match objects.enter(ObjectKind::GraphicsPipeline, retains, windows_result(native)) {
            Ok((handle, ownership)) => Ok(
                DirectXGraphicsPipeline {
                    handle,
                    ownership,
                    device: context.ownership(),
                },
            ),
            Err(e) => Err(e),
        }
    }
}

} // verus!
