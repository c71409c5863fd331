//! Graphics pipelines.

use vstd::prelude::*;
use vstd::slice::slice_index_get;
use crate::api::traits::{belongs, GraphicsPipeline, Object};
use crate::api::vulkan::constants::{
    VulkanBlendFactorConstants, VulkanBlendOpConstants, VulkanColorComponentConstants,
};
use crate::api::vulkan::device::VulkanDevice;
use crate::api::vulkan::native::{
    VK_COMPARE_OP_NEVER, VK_DYNAMIC_STATE_SCISSOR, VK_DYNAMIC_STATE_VIEWPORT, VK_FALSE,
    VK_LOGIC_OP_CLEAR, VK_SAMPLE_COUNT_1_BIT, VK_SHADER_STAGE_FRAGMENT_BIT,
    VK_SHADER_STAGE_GEOMETRY_BIT, VK_SHADER_STAGE_TESSELLATION_CONTROL_BIT,
    VK_SHADER_STAGE_TESSELLATION_EVALUATION_BIT, VK_SHADER_STAGE_VERTEX_BIT,
    VK_STRUCTURE_TYPE_GRAPHICS_PIPELINE_CREATE_INFO,
    VK_STRUCTURE_TYPE_PIPELINE_COLOR_BLEND_STATE_CREATE_INFO,
    VK_STRUCTURE_TYPE_PIPELINE_DEPTH_STENCIL_STATE_CREATE_INFO,
    VK_STRUCTURE_TYPE_PIPELINE_DYNAMIC_STATE_CREATE_INFO,
    VK_STRUCTURE_TYPE_PIPELINE_MULTISAMPLE_STATE_CREATE_INFO,
    VK_STRUCTURE_TYPE_PIPELINE_SHADER_STAGE_CREATE_INFO,
    VK_STRUCTURE_TYPE_PIPELINE_VIEWPORT_STATE_CREATE_INFO, VK_TRUE,
};
use crate::api::vulkan::pipeline::input_assembly::VulkanPipelineInputAssemblyStateCreateInfo;
use crate::api::vulkan::pipeline::input_state::VulkanPipelineVertexInputStateCreateInfo;
use crate::api::vulkan::pipeline::layout::VulkanPipelineLayout;
use crate::api::vulkan::pipeline::rasterization::VulkanPipelineRasterizationStateCreateInfo;
use crate::api::vulkan::pipeline::render_pass::VulkanRenderPass;
use crate::api::vulkan::shader::VulkanShaderModule;
use crate::api::vulkan::{api_result, VulkanDeviceObject, VulkanObject};
use crate::error::Error;
use crate::info::{BlendAttachmentState, GraphicsPipelineCreateInfo, ShaderStages};
use crate::ownership::{
    adopt_each, alive, can_adopt_each, grown, ObjectId, ObjectKind, Objects,
};

verus! {

/// One programmable stage, as `vkCreateGraphicsPipelines` is told of it.  Every
/// stage is entered at `main`, and none is specialised.
#[derive(Debug, Copy, Clone, PartialEq, Eq, Structural)]
pub struct VulkanPipelineShaderStageCreateInfo {
    pub s_type: i32,
    pub flags: u32,
    pub stage: i32,
    pub module: u64,
}

/// The viewports and scissors of a pipeline.  Their number is fixed; what they
/// are is set while drawing.
#[derive(Debug, Copy, Clone, PartialEq, Eq, Structural)]
pub struct VulkanPipelineViewportStateCreateInfo {
    pub s_type: i32,
    pub flags: u32,
    pub viewport_count: u32,
    pub scissor_count: u32,
}

/// The multisampling of a pipeline.
#[derive(Debug, Copy, Clone, PartialEq, Eq, Structural)]
pub struct VulkanPipelineMultisampleStateCreateInfo {
    pub s_type: i32,
    pub flags: u32,
    pub rasterization_samples: i32,
    pub sample_shading_enable: u32,
    pub alpha_to_coverage_enable: u32,
    pub alpha_to_one_enable: u32,
}

/// What the stencil test does to one face.
#[derive(Debug, Copy, Clone, PartialEq, Eq, Structural)]
pub struct VulkanStencilOpState {
    pub fail_op: i32,
    pub pass_op: i32,
    pub depth_fail_op: i32,
    pub compare_op: i32,
    pub compare_mask: u32,
    pub write_mask: u32,
    pub reference: u32,
}

/// The depth and stencil tests of a pipeline.
#[derive(Debug, Copy, Clone, PartialEq, Eq, Structural)]
pub struct VulkanPipelineDepthStencilStateCreateInfo {
    pub s_type: i32,
    pub flags: u32,
    pub depth_test_enable: u32,
    pub depth_write_enable: u32,
    pub depth_compare_op: i32,
    pub depth_bounds_test_enable: u32,
    pub stencil_test_enable: u32,
    pub front: VulkanStencilOpState,
    pub back: VulkanStencilOpState,
}

/// The blending of one colour attachment, as `vkCreateGraphicsPipelines` is
/// told of it.
#[derive(Debug, Copy, Clone, PartialEq, Eq, Structural)]
pub struct VulkanPipelineColorBlendAttachmentState {
    pub blend_enable: u32,
    pub src_color_blend_factor: i32,
    pub dst_color_blend_factor: i32,
    pub color_blend_op: i32,
    pub src_alpha_blend_factor: i32,
    pub dst_alpha_blend_factor: i32,
    pub alpha_blend_op: i32,
    pub color_write_mask: i32,
}

/// The blending of a pipeline.  Every blend constant is one.
#[derive(Debug)]
pub struct VulkanPipelineColorBlendStateCreateInfo {
    pub s_type: i32,
    pub flags: u32,
    pub logic_op_enable: u32,
    pub logic_op: i32,
    pub attachments: Vec<VulkanPipelineColorBlendAttachmentState>,
}

/// The state of a pipeline that is set while drawing.
#[derive(Debug)]
pub struct VulkanPipelineDynamicStateCreateInfo {
    pub s_type: i32,
    pub flags: u32,
    pub dynamic_states: Vec<i32>,
}

/// What `vkCreateGraphicsPipelines` is given for one pipeline.  The pipeline
/// has no tessellation state and derives from no other pipeline.
#[derive(Debug)]
pub struct VulkanGraphicsPipelineCreateInfo {
    pub s_type: i32,
    pub flags: u32,
    pub stages: Vec<VulkanPipelineShaderStageCreateInfo>,
    pub vertex_input_state: VulkanPipelineVertexInputStateCreateInfo,
    pub input_assembly_state: VulkanPipelineInputAssemblyStateCreateInfo,
    pub viewport_state: VulkanPipelineViewportStateCreateInfo,
    pub rasterization_state: VulkanPipelineRasterizationStateCreateInfo,
    pub multisample_state: VulkanPipelineMultisampleStateCreateInfo,
    pub depth_stencil_state: VulkanPipelineDepthStencilStateCreateInfo,
    pub color_blend_state: VulkanPipelineColorBlendStateCreateInfo,
    pub dynamic_state: VulkanPipelineDynamicStateCreateInfo,
    pub layout: u64,
    pub render_pass: u64,
    pub subpass: u32,
    pub base_pipeline_handle: u64,
    pub base_pipeline_index: i32,
}

/// The name of the function at which every stage is entered.
pub fn entry_point() -> (name: &'static str)
    ensures
        name@ == "main"@,
{
    "main"
}

impl VulkanPipelineShaderStageCreateInfo {
    /// The stage `stage` run by the module `module`.
    pub open spec fn of(stage: i32, module: u64) -> VulkanPipelineShaderStageCreateInfo {
        VulkanPipelineShaderStageCreateInfo {
            s_type: VK_STRUCTURE_TYPE_PIPELINE_SHADER_STAGE_CREATE_INFO,
            flags: 0,
            stage,
            module,
        }
    }

    /// The stage `stage` if `shader` is there to run it, and nothing
    /// otherwise.
    pub open spec fn of_optional(stage: i32, shader: Option<&VulkanShaderModule>) -> Seq<
        VulkanPipelineShaderStageCreateInfo,
    > {
        match shader {
            Some(module) => seq![Self::of(stage, module.native())],
            None => Seq::empty(),
        }
    }

    /// The stages that `shaders` fills, in the order in which a pipeline runs
    /// them.
    pub open spec fn of_each(shaders: ShaderStages<VulkanShaderModule>) -> Seq<
        VulkanPipelineShaderStageCreateInfo,
    > {
        Self::of_optional(VK_SHADER_STAGE_VERTEX_BIT, shaders.vertex) + Self::of_optional(
            VK_SHADER_STAGE_TESSELLATION_CONTROL_BIT,
            shaders.tess_ctrl,
        ) + Self::of_optional(VK_SHADER_STAGE_TESSELLATION_EVALUATION_BIT, shaders.tess_eval)
            + Self::of_optional(VK_SHADER_STAGE_GEOMETRY_BIT, shaders.geometry) + Self::of_optional(
            VK_SHADER_STAGE_FRAGMENT_BIT,
            shaders.fragment,
        )
    }
}

/// Describes the stage `stage` run by `shader`.
pub fn create_shader_stage(stage: i32, shader: &VulkanShaderModule) -> (description:
    VulkanPipelineShaderStageCreateInfo)
    ensures
        description == VulkanPipelineShaderStageCreateInfo::of(stage, shader.native()),
{
    VulkanPipelineShaderStageCreateInfo {
        s_type: VK_STRUCTURE_TYPE_PIPELINE_SHADER_STAGE_CREATE_INFO,
        flags: 0,
        stage,
        module: shader.handle(),
    }
}

/// Adds the stage `stage` to `stages` if `shader` is there to run it.
fn push_shader_stage(
    stages: &mut Vec<VulkanPipelineShaderStageCreateInfo>,
    stage: i32,
    shader: Option<&VulkanShaderModule>,
)
    ensures
        final(stages)@ == old(stages)@ + VulkanPipelineShaderStageCreateInfo::of_optional(stage, shader),
{
    match shader {
        Some(module) => {
            stages.push(create_shader_stage(stage, module));
            assert(stages@ =~= old(stages)@ + VulkanPipelineShaderStageCreateInfo::of_optional(
                stage,
                shader,
            ));
        },
        None => {
            assert(stages@ =~= old(stages)@ + VulkanPipelineShaderStageCreateInfo::of_optional(
                stage,
                shader,
            ));
        },
    }
}

/// Describes the stages that `shaders` fills, in the order in which a pipeline
/// runs them.
pub fn collect_shader_stages(shaders: &ShaderStages<VulkanShaderModule>) -> (stages: Vec<
    VulkanPipelineShaderStageCreateInfo,
>)
    ensures
        stages@ == VulkanPipelineShaderStageCreateInfo::of_each(*shaders),
{
    let mut stages: Vec<VulkanPipelineShaderStageCreateInfo> = Vec::new();
    push_shader_stage(&mut stages, VK_SHADER_STAGE_VERTEX_BIT, shaders.vertex);
    push_shader_stage(&mut stages, VK_SHADER_STAGE_TESSELLATION_CONTROL_BIT, shaders.tess_ctrl);
    push_shader_stage(&mut stages, VK_SHADER_STAGE_TESSELLATION_EVALUATION_BIT, shaders.tess_eval);
    push_shader_stage(&mut stages, VK_SHADER_STAGE_GEOMETRY_BIT, shaders.geometry);
    push_shader_stage(&mut stages, VK_SHADER_STAGE_FRAGMENT_BIT, shaders.fragment);
    assert(stages@ =~= VulkanPipelineShaderStageCreateInfo::of_each(*shaders));
    stages
}

impl VulkanPipelineColorBlendAttachmentState {
    /// The blending that `state` asks for.
    pub open spec fn of(state: BlendAttachmentState) -> VulkanPipelineColorBlendAttachmentState {
        VulkanPipelineColorBlendAttachmentState {
            blend_enable: if state.blend_enable {
                VK_TRUE
            } else {
                VK_FALSE
            },
            src_color_blend_factor: state.src_color_blend_factor.native::<VulkanBlendFactorConstants>(),
            dst_color_blend_factor: state.dst_color_blend_factor.native::<VulkanBlendFactorConstants>(),
            color_blend_op: state.color_blend_op.native::<VulkanBlendOpConstants>(),
            src_alpha_blend_factor: state.src_alpha_blend_factor.native::<VulkanBlendFactorConstants>(),
            dst_alpha_blend_factor: state.dst_alpha_blend_factor.native::<VulkanBlendFactorConstants>(),
            alpha_blend_op: state.alpha_blend_op.native::<VulkanBlendOpConstants>(),
            color_write_mask: state.color_write_mask.native::<VulkanColorComponentConstants>(),
        }
    }

    /// The blending that each of `states` asks for, in order.
    pub open spec fn of_each(states: Seq<BlendAttachmentState>) -> Seq<
        VulkanPipelineColorBlendAttachmentState,
    > {
        states.map_values(|s: BlendAttachmentState| Self::of(s))
    }

    /// Converts the blending of one attachment.
    pub fn from_state(state: &BlendAttachmentState) -> (native:
        VulkanPipelineColorBlendAttachmentState)
        ensures
            native == Self::of(*state),
    {
        VulkanPipelineColorBlendAttachmentState {
            blend_enable: if state.blend_enable {
                VK_TRUE
            } else {
                VK_FALSE
            },
            src_color_blend_factor: state.src_color_blend_factor.to_native::<
                VulkanBlendFactorConstants,
            >(),
            dst_color_blend_factor: state.dst_color_blend_factor.to_native::<
                VulkanBlendFactorConstants,
            >(),
            color_blend_op: state.color_blend_op.to_native::<VulkanBlendOpConstants>(),
            src_alpha_blend_factor: state.src_alpha_blend_factor.to_native::<
                VulkanBlendFactorConstants,
            >(),
            dst_alpha_blend_factor: state.dst_alpha_blend_factor.to_native::<
                VulkanBlendFactorConstants,
            >(),
            alpha_blend_op: state.alpha_blend_op.to_native::<VulkanBlendOpConstants>(),
            color_write_mask: state.color_write_mask.to_native::<VulkanColorComponentConstants>(),
        }
    }
}

/// A stencil test that does nothing.
pub open spec fn no_stencil() -> VulkanStencilOpState {
    VulkanStencilOpState {
        fail_op: 0,
        pass_op: 0,
        depth_fail_op: 0,
        compare_op: 0,
        compare_mask: 0,
        write_mask: 0,
        reference: 0,
    }
}

/// A Vulkan graphics pipeline.  It keeps its device alive.
#[derive(Debug)]
pub struct VulkanGraphicsPipeline {
    handle: u64,
    ownership: ObjectId,
    device: ObjectId,
}

/// What the Vulkan pipeline can do beyond what every pipeline can.
pub trait VulkanGraphicsPipelineExt: Object {
    /// Takes in the pipelines that one call created on `device`, or reports
    /// why there are none.  Either all are taken in or none is.
    fn create_pipelines(
        objects: &mut Objects,
        device: &VulkanDevice,
        native: Result<Vec<u64>, i32>,
    ) -> (pipelines: Result<Vec<Self>, Error>)
        requires
            old(objects).wf(),
            belongs(device, old(objects)@),
        ensures
            final(objects).wf(),
            grown(old(objects)@, final(objects)@),
            pipelines is Err ==> final(objects)@ == old(objects)@,
            pipelines matches Ok(list) ==> forall|i: int|
                0 <= i < list@.len() ==> belongs(#[trigger] &list@[i], final(objects)@),
    ;
}

impl Object for VulkanGraphicsPipeline {
    closed spec fn native(&self) -> u64 {
        self.handle
    }

    closed spec fn record(&self) -> ObjectId {
        self.ownership
    }

    open spec fn failure(code: i32) -> Error {
        Error::ApiError(code)
    }

    fn handle(&self) -> (handle: u64) {
        self.handle
    }

    fn ownership(&self) -> (id: ObjectId) {
        self.ownership
    }

    fn share(&self, objects: &mut Objects) -> (twin: Result<Self, Error>)
        ensures
            twin matches Ok(other) ==> other.device_record() == self.device_record(),
    {
        match objects.share(self.ownership) {
            Ok(()) => Ok(
                VulkanGraphicsPipeline {
                    handle: self.handle,
                    ownership: self.ownership,
                    device: self.device,
                },
            ),
            Err(e) => Err(e),
        }
    }
}

impl VulkanObject for VulkanGraphicsPipeline {
    proof fn api_error(code: i32) {
    }
}

impl VulkanDeviceObject for VulkanGraphicsPipeline {
    closed spec fn device_record(&self) -> ObjectId {
        self.device
    }

    fn device(&self) -> (id: ObjectId) {
        self.device
    }
}

impl VulkanGraphicsPipelineExt for VulkanGraphicsPipeline {
    fn create_pipelines(
        objects: &mut Objects,
        device: &VulkanDevice,
        native: Result<Vec<u64>, i32>,
    ) -> (pipelines: Result<Vec<Self>, Error>)
        ensures
            match native {
                Err(code) => pipelines matches Err(e) && e == Error::ApiError(code),
                Ok(handles) => if can_adopt_each(old(objects)@, device.record(), handles@.len() as int) {
                    &&& pipelines matches Ok(list)
                    &&& list@.len() == handles@.len()
                    &&& forall|i: int|
                        0 <= i < handles@.len() ==> (#[trigger] list@[i]).native() == handles@[i]
                            && list@[i].record()@ == old(objects)@.len() + i && list@[i].device_record()
                            == device.record()
                    &&& final(objects)@ == adopt_each(
                        old(objects)@,
                        ObjectKind::GraphicsPipeline,
                        handles@,
                        device.record(),
                    )
                } else {
                    pipelines matches Err(e) && e == if device.record()@ < old(objects)@.len() && alive(
                        old(objects)@[device.record()@],
                    ) {
                        Error::Exhausted
                    } else {
                        Error::Released
                    }
                },
            },
    {
        let handles = match native {
            Ok(handles) => handles,
            Err(code) => {
                return Err(Error::ApiError(code));
            },
        };
        match objects.adopt_each(ObjectKind::GraphicsPipeline, &handles, device.ownership()) {
            Err(e) => Err(e),
            Ok(ids) => {
                let mut list: Vec<VulkanGraphicsPipeline> = Vec::new();
                let mut i: usize = 0;
                while i < handles.len()
                    invariant
                        i <= handles@.len(),
                        ids@.len() == handles@.len(),
                        list@.len() == i,
                        forall|j: int|
                            0 <= j < i ==> (#[trigger] list@[j]).native() == handles@[j]
                                && list@[j].record() == ids@[j] && list@[j].device_record()
                                == device.record(),
                    decreases handles@.len() - i,
                {
                    list.push(
                        VulkanGraphicsPipeline {
                            handle: handles[i],
                            ownership: ids[i],
                            device: device.ownership(),
                        },
                    );
                    i = i + 1;
                }
                Ok(list)
            },
        }
    }
}

impl GraphicsPipeline for VulkanGraphicsPipeline {
    type Context = VulkanDevice;

    type Shader = VulkanShaderModule;

    type PipelineLayout = VulkanPipelineLayout;

    type RenderPass = VulkanRenderPass;

    type Description = VulkanGraphicsPipelineCreateInfo;

    /// A Vulkan pipeline needs a layout and a render pass.
    open spec fn describable(
        create_info: &GraphicsPipelineCreateInfo<
            VulkanShaderModule,
            VulkanPipelineLayout,
            VulkanRenderPass,
        >,
    ) -> bool {
        create_info.layout is Some && create_info.render_pass is Some
    }

    fn is_describable(
        create_info: &GraphicsPipelineCreateInfo<
            VulkanShaderModule,
            VulkanPipelineLayout,
            VulkanRenderPass,
        >,
    ) -> (yes: bool) {
        create_info.layout.is_some() && create_info.render_pass.is_some()
    }

    fn describe(
        create_info: &GraphicsPipelineCreateInfo<
            VulkanShaderModule,
            VulkanPipelineLayout,
            VulkanRenderPass,
        >,
    ) -> (description: VulkanGraphicsPipelineCreateInfo)
        ensures
            description.s_type == VK_STRUCTURE_TYPE_GRAPHICS_PIPELINE_CREATE_INFO,
            description.flags == 0,
            description.stages@ == VulkanPipelineShaderStageCreateInfo::of_each(create_info.shaders),
            description.vertex_input_state == VulkanPipelineVertexInputStateCreateInfo::nothing(),
            description.input_assembly_state == VulkanPipelineInputAssemblyStateCreateInfo::of(
                create_info.topology,
            ),
            description.viewport_state == (VulkanPipelineViewportStateCreateInfo {
                s_type: VK_STRUCTURE_TYPE_PIPELINE_VIEWPORT_STATE_CREATE_INFO,
                flags: 0,
                viewport_count: 1,
                scissor_count: 1,
            }),
            description.rasterization_state == VulkanPipelineRasterizationStateCreateInfo::of(
                create_info.rasterization,
            ),
            description.multisample_state == (VulkanPipelineMultisampleStateCreateInfo {
                s_type: VK_STRUCTURE_TYPE_PIPELINE_MULTISAMPLE_STATE_CREATE_INFO,
                flags: 0,
                rasterization_samples: VK_SAMPLE_COUNT_1_BIT,
                sample_shading_enable: VK_FALSE,
                alpha_to_coverage_enable: VK_FALSE,
                alpha_to_one_enable: VK_FALSE,
            }),
            description.depth_stencil_state == (VulkanPipelineDepthStencilStateCreateInfo {
                s_type: VK_STRUCTURE_TYPE_PIPELINE_DEPTH_STENCIL_STATE_CREATE_INFO,
                flags: 0,
                depth_test_enable: VK_FALSE,
                depth_write_enable: VK_FALSE,
                depth_compare_op: VK_COMPARE_OP_NEVER,
                depth_bounds_test_enable: VK_FALSE,
                stencil_test_enable: VK_FALSE,
                front: no_stencil(),
                back: no_stencil(),
            }),
            description.color_blend_state.s_type
                == VK_STRUCTURE_TYPE_PIPELINE_COLOR_BLEND_STATE_CREATE_INFO,
            description.color_blend_state.flags == 0,
            description.color_blend_state.logic_op_enable == VK_FALSE,
            description.color_blend_state.logic_op == VK_LOGIC_OP_CLEAR,
            description.color_blend_state.attachments@ == VulkanPipelineColorBlendAttachmentState::of_each(
                create_info.blend.attachments@,
            ),
            description.dynamic_state.s_type == VK_STRUCTURE_TYPE_PIPELINE_DYNAMIC_STATE_CREATE_INFO,
            description.dynamic_state.flags == 0,
            description.dynamic_state.dynamic_states@ == seq![
                VK_DYNAMIC_STATE_VIEWPORT,
                VK_DYNAMIC_STATE_SCISSOR,
            ],
            description.layout == create_info.layout->0.native(),
            description.render_pass == create_info.render_pass->0.native(),
            description.subpass == create_info.subpass,
            description.base_pipeline_handle == 0,
            description.base_pipeline_index == 0,
    {
        let stages = collect_shader_stages(&create_info.shaders);
        let stencil = VulkanStencilOpState {
            fail_op: 0,
            pass_op: 0,
            depth_fail_op: 0,
            compare_op: 0,
            compare_mask: 0,
            write_mask: 0,
            reference: 0,
        };
        let states = create_info.blend.attachments;
        let mut attachments: Vec<VulkanPipelineColorBlendAttachmentState> = Vec::new();
        let mut i: usize = 0;
        while i < states.len()
            invariant
                i <= states@.len(),
                attachments@ == VulkanPipelineColorBlendAttachmentState::of_each(states@.take(i as int)),
            decreases states@.len() - i,
        {
            attachments.push(
                VulkanPipelineColorBlendAttachmentState::from_state(slice_index_get(states, i)),
            );
            assert(VulkanPipelineColorBlendAttachmentState::of_each(states@.take(i as int + 1))
                =~= VulkanPipelineColorBlendAttachmentState::of_each(states@.take(i as int)).push(
                VulkanPipelineColorBlendAttachmentState::of(states@[i as int]),
            ));
            i = i + 1;
        }
        assert(states@.take(states@.len() as int) =~= states@);
        let mut dynamic_states: Vec<i32> = Vec::new();
        dynamic_states.push(VK_DYNAMIC_STATE_VIEWPORT);
        dynamic_states.push(VK_DYNAMIC_STATE_SCISSOR);
        assert(dynamic_states@ =~= seq![VK_DYNAMIC_STATE_VIEWPORT, VK_DYNAMIC_STATE_SCISSOR]);
        VulkanGraphicsPipelineCreateInfo {
            s_type: VK_STRUCTURE_TYPE_GRAPHICS_PIPELINE_CREATE_INFO,
            flags: 0,
            stages,
            vertex_input_state: VulkanPipelineVertexInputStateCreateInfo::default(),
            input_assembly_state: VulkanPipelineInputAssemblyStateCreateInfo::from_topology(
                create_info.topology,
            ),
            viewport_state: VulkanPipelineViewportStateCreateInfo {
                s_type: VK_STRUCTURE_TYPE_PIPELINE_VIEWPORT_STATE_CREATE_INFO,
                flags: 0,
                viewport_count: 1,
                scissor_count: 1,
            },
            rasterization_state: VulkanPipelineRasterizationStateCreateInfo::from_state(
                &create_info.rasterization,
            ),
            multisample_state: VulkanPipelineMultisampleStateCreateInfo {
                s_type: VK_STRUCTURE_TYPE_PIPELINE_MULTISAMPLE_STATE_CREATE_INFO,
                flags: 0,
                rasterization_samples: VK_SAMPLE_COUNT_1_BIT,
                sample_shading_enable: VK_FALSE,
                alpha_to_coverage_enable: VK_FALSE,
                alpha_to_one_enable: VK_FALSE,
            },
            depth_stencil_state: VulkanPipelineDepthStencilStateCreateInfo {
                s_type: VK_STRUCTURE_TYPE_PIPELINE_DEPTH_STENCIL_STATE_CREATE_INFO,
                flags: 0,
                depth_test_enable: VK_FALSE,
                depth_write_enable: VK_FALSE,
                depth_compare_op: VK_COMPARE_OP_NEVER,
                depth_bounds_test_enable: VK_FALSE,
                stencil_test_enable: VK_FALSE,
                front: stencil,
                back: stencil,
            },
            color_blend_state: VulkanPipelineColorBlendStateCreateInfo {
                s_type: VK_STRUCTURE_TYPE_PIPELINE_COLOR_BLEND_STATE_CREATE_INFO,
                flags: 0,
                logic_op_enable: VK_FALSE,
                logic_op: VK_LOGIC_OP_CLEAR,
                attachments,
            },
            dynamic_state: VulkanPipelineDynamicStateCreateInfo {
                s_type: VK_STRUCTURE_TYPE_PIPELINE_DYNAMIC_STATE_CREATE_INFO,
                flags: 0,
                dynamic_states,
            },
            layout: create_info.layout.unwrap().handle(),
            render_pass: create_info.render_pass.unwrap().handle(),
            subpass: create_info.subpass,
            base_pipeline_handle: 0,
            base_pipeline_index: 0,
        }
    }

    fn new(
        objects: &mut Objects,
        context: &Self::Context,
        native: Result<u64, i32>,
    ) -> (pipeline: Result<Self, Error>)
        ensures
            pipeline matches Ok(p) ==> p.device_record() == context.record(),
    {
        let retains = vec![context.ownership()];
        assert(retains@ =~= seq![context.record()]);
        match objects.enter(ObjectKind::GraphicsPipeline, retains, api_result(native)) {
            Ok((handle, ownership)) => Ok(
                VulkanGraphicsPipeline {
                    handle,
                    ownership,
                    device: context.ownership(),
                },
            ),
            Err(e) => Err(e),
        }
    }
}

} // verus!
