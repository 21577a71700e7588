//! The access types this crate understands, and how each maps onto Vulkan.
use crate::access_flags;
use crate::image_layouts;
use crate::stage_flags;
use vstd::prelude::*;

verus! {

/// Defines all potential resource usages
#[derive(Debug, Copy, Clone, PartialEq, Eq, Structural)]
pub enum AccessType {
    /// No access. Useful primarily for initialization
    Nothing,

    /// Command buffer read operation as defined by `NVX_device_generated_commands`
    CommandBufferReadNVX,

    /// Read as an indirect buffer for drawing or dispatch
    IndirectBuffer,

    /// Read as an index buffer for drawing
    IndexBuffer,

    /// Read as a vertex buffer for drawing
    VertexBuffer,

    /// Read as a uniform buffer in a vertex shader
    VertexShaderReadUniformBuffer,

    /// Read as a sampled image/uniform texel buffer in a vertex shader
    VertexShaderReadSampledImageOrUniformTexelBuffer,

    /// Read as any other resource in a vertex shader
    VertexShaderReadOther,

    /// Read as a uniform buffer in a mesh shader
    MeshShaderReadUniformBuffer,

    /// Read as a sampled image/uniform texel buffer in a mesh shader
    MeshShaderReadSampledImageOrUniformTexelBuffer,

    /// Read as any other resource in a mesh shader
    MeshShaderReadOther,

    /// Read as a uniform buffer in a task shader
    TaskShaderReadUniformBuffer,

    /// Read as a sampled image/uniform texel buffer in a task shader
    TaskShaderReadSampledImageOrUniformTexelBuffer,

    /// Read as any other resource in a task shader
    TaskShaderReadOther,

    /// Read as a uniform buffer in a tessellation control shader
    TessellationControlShaderReadUniformBuffer,

    /// Read as a sampled image/uniform texel buffer in a tessellation control shader
    TessellationControlShaderReadSampledImageOrUniformTexelBuffer,

    /// Read as any other resource in a tessellation control shader
    TessellationControlShaderReadOther,

    /// Read as a uniform buffer in a tessellation evaluation shader
    TessellationEvaluationShaderReadUniformBuffer,

    /// Read as a sampled image/uniform texel buffer in a tessellation evaluation shader
    TessellationEvaluationShaderReadSampledImageOrUniformTexelBuffer,

    /// Read as any other resource in a tessellation evaluation shader
    TessellationEvaluationShaderReadOther,

    /// Read as a uniform buffer in a geometry shader
    GeometryShaderReadUniformBuffer,

    /// Read as a sampled image/uniform texel buffer in a geometry shader
    GeometryShaderReadSampledImageOrUniformTexelBuffer,

    /// Read as any other resource in a geometry shader
    GeometryShaderReadOther,

    /// Read as a uniform buffer in a fragment shader
    FragmentShaderReadUniformBuffer,

    /// Read as a sampled image/uniform texel buffer in a fragment shader
    FragmentShaderReadSampledImageOrUniformTexelBuffer,

    /// Read as an input attachment with a color format in a fragment shader
    FragmentShaderReadColorInputAttachment,

    /// Read as an input attachment with a depth/stencil format in a fragment shader
    FragmentShaderReadDepthStencilInputAttachment,

    /// Read as any other resource in a fragment shader
    FragmentShaderReadOther,

    /// Read by blending/logic operations or subpass load operations
    ColorAttachmentRead,

    /// Read by depth/stencil tests or subpass load operations
    DepthStencilAttachmentRead,

    /// Read or written as a depth/stencil attachment during rendering, or via a subpass store op
    DepthStencilAttachmentReadWrite,

    /// Read as a uniform buffer in a compute shader
    ComputeShaderReadUniformBuffer,

    /// Read as a sampled image/uniform texel buffer in a compute shader
    ComputeShaderReadSampledImageOrUniformTexelBuffer,

    /// Read as any other resource in a compute shader
    ComputeShaderReadOther,

    /// Read or written as any resource in a compute shader
    ComputeShaderReadWrite,

    /// Read as a uniform buffer in any shader
    AnyShaderReadUniformBuffer,

    /// Read as a uniform buffer in any shader, or a vertex buffer
    AnyShaderReadUniformBufferOrVertexBuffer,

    /// Read as a sampled image in any shader
    AnyShaderReadSampledImageOrUniformTexelBuffer,

    /// Read as any other resource (excluding attachments) in any shader
    AnyShaderReadOther,

    /// Read as the source of a transfer operation
    TransferRead,

    /// Read on the host
    HostRead,

    /// Read by the presentation engine (i.e. `vkQueuePresentKHR`)
    Present,

    /// Command buffer write operation as defined by `NVX_device_generated_commands`
    CommandBufferWriteNVX,

    /// Written as any resource in a vertex shader
    VertexShaderWrite,

    /// Written as any resource in a mesh shader
    MeshShaderWrite,

    /// Written as any resource in a task shader
    TaskShaderWrite,

    /// Written as any resource in a tessellation control shader
    TessellationControlShaderWrite,

    /// Written as any resource in a tessellation evaluation shader
    TessellationEvaluationShaderWrite,

    /// Written as any resource in a geometry shader
    GeometryShaderWrite,

    /// Written as any resource in a fragment shader
    FragmentShaderWrite,

    /// Written as a color attachment during rendering, or via a subpass store op
    ColorAttachmentWrite,

    /// Written as a depth/stencil attachment during rendering, or via a subpass store op
    DepthStencilAttachmentWrite,

    /// Written as a depth aspect of a depth/stencil attachment during rendering, whilst the
    /// stencil aspect is read-only. Requires `VK_KHR_maintenance2` to be enabled.
    DepthAttachmentWriteStencilReadOnly,

    /// Written as a stencil aspect of a depth/stencil attachment during rendering, whilst the
    /// depth aspect is read-only. Requires `VK_KHR_maintenance2` to be enabled.
    StencilAttachmentWriteDepthReadOnly,

    /// Written as any resource in a compute shader
    ComputeShaderWrite,

    /// Written as any resource in any shader
    AnyShaderWrite,

    /// Written as the destination of a transfer operation
    TransferWrite,

    /// Written on the host
    HostWrite,

    /// Read or written as a color attachment during rendering
    ColorAttachmentReadWrite,

    /// Covers any access - useful for debug, generally avoid for performance reasons
    General,

    /// Read as a sampled image/uniform texel buffer in a ray tracing shader
    RayTracingShaderReadSampledImageOrUniformTexelBuffer,

    /// Read as an input attachment with a color format in a ray tracing shader
    RayTracingShaderReadColorInputAttachment,

    /// Read as an input attachment with a depth/stencil format in a ray tracing shader
    RayTracingShaderReadDepthStencilInputAttachment,

    /// Read as an acceleration structure in a ray tracing shader
    RayTracingShaderReadAccelerationStructure,

    /// Read as any other resource in a ray tracing shader
    RayTracingShaderReadOther,

    /// Written as an acceleration structure during acceleration structure building
    AccelerationStructureBuildWrite,

    /// Read as an acceleration structure during acceleration structure building (e.g. a BLAS when building a TLAS)
    AccelerationStructureBuildRead,

    /// Written as a buffer during acceleration structure building (e.g. a staging buffer)
    AccelerationStructureBufferWrite,

    /// Read as the shader binding table during ray tracing
    ShaderBindingTableRead,

    /// Read as a micromap during micromap building or ray tracing
    MicromapRead,

    /// Written as a micromap during micromap building
    MicromapWrite,

    /// Read or written as a micromap during micromap building
    MicromapReadWrite,

    /// Read as a descriptor buffer in any shader
    DescriptorBufferRead,

    /// Read as a fragment shading rate attachment
    FragmentShadingRateAttachmentRead,

    /// Read as a fragment density map attachment
    FragmentDensityMapRead,

    /// Read as a color attachment with non-coherent access (advanced blending)
    ColorAttachmentReadNoncoherent,

    /// Read as the predicate buffer for conditional rendering
    ConditionalRenderingRead,

    /// Written by transform feedback
    TransformFeedbackWrite,

    /// Read as a transform feedback counter buffer (e.g. by indirect draws)
    TransformFeedbackCounterRead,

    /// Written as a transform feedback counter buffer
    TransformFeedbackCounterWrite,

    /// Read as the invocation mask image (HUAWEI)
    InvocationMaskRead,

    /// Read as the source for video decode operations
    VideoDecodeRead,

    /// Written as the destination of video decode operations
    VideoDecodeWrite,

    /// Read or written by video decode operations
    VideoDecodeReadWrite,

    /// Read as the source for video encode operations
    VideoEncodeRead,

    /// Written as the destination of video encode operations
    VideoEncodeWrite,

    /// Read or written by video encode operations
    VideoEncodeReadWrite,

    /// Read by optical flow operations
    OpticalFlowRead,

    /// Written by optical flow operations
    OpticalFlowWrite,

    /// Read or written by optical flow operations
    OpticalFlowReadWrite,

    /// Read or written as any resource in a vertex shader
    VertexShaderReadWrite,

    /// Read or written as any resource in a tessellation control shader
    TessellationControlShaderReadWrite,

    /// Read or written as any resource in a tessellation evaluation shader
    TessellationEvaluationShaderReadWrite,

    /// Read or written as any resource in a geometry shader
    GeometryShaderReadWrite,

    /// Read or written as any resource in a fragment shader
    FragmentShaderReadWrite,

    /// Read or written as any resource in a mesh shader
    MeshShaderReadWrite,

    /// Read or written as any resource in a task shader
    TaskShaderReadWrite,

    /// Read or written as any resource in any shader
    AnyShaderReadWrite,
}

impl Default for AccessType {
    /// No access.
    fn default() -> (r: Self)
        ensures
            r == AccessType::Nothing,
    {
        AccessType::Nothing
    }
}

impl AccessType {
    /// The access types that write to the resource they are applied to.
    pub open spec fn spec_is_write_access(self) -> bool {
        match self {
            AccessType::CommandBufferWriteNVX => true,
            AccessType::VertexShaderWrite => true,
            AccessType::MeshShaderWrite => true,
            AccessType::TaskShaderWrite => true,
            AccessType::TessellationControlShaderWrite => true,
            AccessType::TessellationEvaluationShaderWrite => true,
            AccessType::GeometryShaderWrite => true,
            AccessType::FragmentShaderWrite => true,
            AccessType::ColorAttachmentWrite => true,
            AccessType::DepthStencilAttachmentWrite => true,
            AccessType::DepthAttachmentWriteStencilReadOnly => true,
            AccessType::DepthStencilAttachmentReadWrite => true,
            AccessType::StencilAttachmentWriteDepthReadOnly => true,
            AccessType::ComputeShaderWrite => true,
            AccessType::ComputeShaderReadWrite => true,
            AccessType::AnyShaderWrite => true,
            AccessType::TransferWrite => true,
            AccessType::HostWrite => true,
            AccessType::ColorAttachmentReadWrite => true,
            AccessType::General => true,
            AccessType::AccelerationStructureBuildWrite => true,
            AccessType::AccelerationStructureBufferWrite => true,
            AccessType::MicromapWrite => true,
            AccessType::MicromapReadWrite => true,
            AccessType::TransformFeedbackWrite => true,
            AccessType::TransformFeedbackCounterWrite => true,
            AccessType::VideoDecodeWrite => true,
            AccessType::VideoDecodeReadWrite => true,
            AccessType::VideoEncodeWrite => true,
            AccessType::VideoEncodeReadWrite => true,
            AccessType::OpticalFlowWrite => true,
            AccessType::OpticalFlowReadWrite => true,
            AccessType::VertexShaderReadWrite => true,
            AccessType::TessellationControlShaderReadWrite => true,
            AccessType::TessellationEvaluationShaderReadWrite => true,
            AccessType::GeometryShaderReadWrite => true,
            AccessType::FragmentShaderReadWrite => true,
            AccessType::MeshShaderReadWrite => true,
            AccessType::TaskShaderReadWrite => true,
            AccessType::AnyShaderReadWrite => true,
            _ => false,
        }
    }

    /// Whether this access writes to the resource, so that a later access needs the write
    /// made available to it.
    pub fn is_write_access(&self) -> (r: bool)
        ensures
            r == self.spec_is_write_access(),
    {
        match self {
            AccessType::CommandBufferWriteNVX => true,
            AccessType::VertexShaderWrite => true,
            AccessType::MeshShaderWrite => true,
            AccessType::TaskShaderWrite => true,
            AccessType::TessellationControlShaderWrite => true,
            AccessType::TessellationEvaluationShaderWrite => true,
            AccessType::GeometryShaderWrite => true,
            AccessType::FragmentShaderWrite => true,
            AccessType::ColorAttachmentWrite => true,
            AccessType::DepthStencilAttachmentWrite => true,
            AccessType::DepthAttachmentWriteStencilReadOnly => true,
            AccessType::DepthStencilAttachmentReadWrite => true,
            AccessType::StencilAttachmentWriteDepthReadOnly => true,
            AccessType::ComputeShaderWrite => true,
            AccessType::ComputeShaderReadWrite => true,
            AccessType::AnyShaderWrite => true,
            AccessType::TransferWrite => true,
            AccessType::HostWrite => true,
            AccessType::ColorAttachmentReadWrite => true,
            AccessType::General => true,
            AccessType::AccelerationStructureBuildWrite => true,
            AccessType::AccelerationStructureBufferWrite => true,
            AccessType::MicromapWrite => true,
            AccessType::MicromapReadWrite => true,
            AccessType::TransformFeedbackWrite => true,
            AccessType::TransformFeedbackCounterWrite => true,
            AccessType::VideoDecodeWrite => true,
            AccessType::VideoDecodeReadWrite => true,
            AccessType::VideoEncodeWrite => true,
            AccessType::VideoEncodeReadWrite => true,
            AccessType::OpticalFlowWrite => true,
            AccessType::OpticalFlowReadWrite => true,
            AccessType::VertexShaderReadWrite => true,
            AccessType::TessellationControlShaderReadWrite => true,
            AccessType::TessellationEvaluationShaderReadWrite => true,
            AccessType::GeometryShaderReadWrite => true,
            AccessType::FragmentShaderReadWrite => true,
            AccessType::MeshShaderReadWrite => true,
            AccessType::TaskShaderReadWrite => true,
            AccessType::AnyShaderReadWrite => true,
            _ => false,
        }
    }
}

/// How one access type maps onto Vulkan: the pipeline stages it runs in, the memory accesses
/// it performs there, and the image layout it wants (`UNDEFINED` when it implies none).
#[derive(Debug, Copy, Clone, PartialEq, Eq, Structural)]
pub struct AccessInfo {
    pub stage_mask: u64,
    pub access_mask: u64,
    pub image_layout: i32,
}

/// The Vulkan stages, accesses and image layout of each access type.
pub open spec fn access_info(access_type: AccessType) -> AccessInfo {
    match access_type {
        AccessType::Nothing => AccessInfo { stage_mask: stage_flags::NONE, access_mask: access_flags::NONE, image_layout: image_layouts::UNDEFINED },
        AccessType::CommandBufferReadNVX => AccessInfo { stage_mask: stage_flags::COMMAND_PREPROCESS_NV, access_mask: access_flags::COMMAND_PREPROCESS_READ_NV, image_layout: image_layouts::UNDEFINED },
        AccessType::IndirectBuffer => AccessInfo { stage_mask: stage_flags::DRAW_INDIRECT, access_mask: access_flags::INDIRECT_COMMAND_READ, image_layout: image_layouts::UNDEFINED },
        AccessType::IndexBuffer => AccessInfo { stage_mask: stage_flags::INDEX_INPUT, access_mask: access_flags::INDEX_READ, image_layout: image_layouts::UNDEFINED },
        AccessType::VertexBuffer => AccessInfo { stage_mask: stage_flags::VERTEX_ATTRIBUTE_INPUT, access_mask: access_flags::VERTEX_ATTRIBUTE_READ, image_layout: image_layouts::UNDEFINED },
        AccessType::VertexShaderReadUniformBuffer => AccessInfo { stage_mask: stage_flags::VERTEX_SHADER, access_mask: access_flags::UNIFORM_READ, image_layout: image_layouts::UNDEFINED },
        AccessType::VertexShaderReadSampledImageOrUniformTexelBuffer => AccessInfo { stage_mask: stage_flags::VERTEX_SHADER, access_mask: access_flags::SHADER_SAMPLED_READ, image_layout: image_layouts::SHADER_READ_ONLY_OPTIMAL },
        AccessType::VertexShaderReadOther => AccessInfo { stage_mask: stage_flags::VERTEX_SHADER, access_mask: access_flags::SHADER_READ, image_layout: image_layouts::GENERAL },
        AccessType::MeshShaderReadUniformBuffer => AccessInfo { stage_mask: stage_flags::MESH_SHADER_EXT, access_mask: access_flags::UNIFORM_READ, image_layout: image_layouts::UNDEFINED },
        AccessType::MeshShaderReadSampledImageOrUniformTexelBuffer => AccessInfo { stage_mask: stage_flags::MESH_SHADER_EXT, access_mask: access_flags::SHADER_SAMPLED_READ, image_layout: image_layouts::SHADER_READ_ONLY_OPTIMAL },
        AccessType::MeshShaderReadOther => AccessInfo { stage_mask: stage_flags::MESH_SHADER_EXT, access_mask: access_flags::SHADER_READ, image_layout: image_layouts::GENERAL },
        AccessType::TaskShaderReadUniformBuffer => AccessInfo { stage_mask: stage_flags::TASK_SHADER_EXT, access_mask: access_flags::UNIFORM_READ, image_layout: image_layouts::UNDEFINED },
        AccessType::TaskShaderReadSampledImageOrUniformTexelBuffer => AccessInfo { stage_mask: stage_flags::TASK_SHADER_EXT, access_mask: access_flags::SHADER_SAMPLED_READ, image_layout: image_layouts::SHADER_READ_ONLY_OPTIMAL },
        AccessType::TaskShaderReadOther => AccessInfo { stage_mask: stage_flags::TASK_SHADER_EXT, access_mask: access_flags::SHADER_READ, image_layout: image_layouts::GENERAL },
        AccessType::TessellationControlShaderReadUniformBuffer => AccessInfo { stage_mask: stage_flags::TESSELLATION_CONTROL_SHADER, access_mask: access_flags::UNIFORM_READ, image_layout: image_layouts::UNDEFINED },
        AccessType::TessellationControlShaderReadSampledImageOrUniformTexelBuffer => AccessInfo { stage_mask: stage_flags::TESSELLATION_CONTROL_SHADER, access_mask: access_flags::SHADER_SAMPLED_READ, image_layout: image_layouts::SHADER_READ_ONLY_OPTIMAL },
        AccessType::TessellationControlShaderReadOther => AccessInfo { stage_mask: stage_flags::TESSELLATION_CONTROL_SHADER, access_mask: access_flags::SHADER_READ, image_layout: image_layouts::GENERAL },
        AccessType::TessellationEvaluationShaderReadUniformBuffer => AccessInfo { stage_mask: stage_flags::TESSELLATION_EVALUATION_SHADER, access_mask: access_flags::UNIFORM_READ, image_layout: image_layouts::UNDEFINED },
        AccessType::TessellationEvaluationShaderReadSampledImageOrUniformTexelBuffer => AccessInfo { stage_mask: stage_flags::TESSELLATION_EVALUATION_SHADER, access_mask: access_flags::SHADER_SAMPLED_READ, image_layout: image_layouts::SHADER_READ_ONLY_OPTIMAL },
        AccessType::TessellationEvaluationShaderReadOther => AccessInfo { stage_mask: stage_flags::TESSELLATION_EVALUATION_SHADER, access_mask: access_flags::SHADER_READ, image_layout: image_layouts::GENERAL },
        AccessType::GeometryShaderReadUniformBuffer => AccessInfo { stage_mask: stage_flags::GEOMETRY_SHADER, access_mask: access_flags::UNIFORM_READ, image_layout: image_layouts::UNDEFINED },
        AccessType::GeometryShaderReadSampledImageOrUniformTexelBuffer => AccessInfo { stage_mask: stage_flags::GEOMETRY_SHADER, access_mask: access_flags::SHADER_SAMPLED_READ, image_layout: image_layouts::SHADER_READ_ONLY_OPTIMAL },
        AccessType::GeometryShaderReadOther => AccessInfo { stage_mask: stage_flags::GEOMETRY_SHADER, access_mask: access_flags::SHADER_READ, image_layout: image_layouts::GENERAL },
        AccessType::FragmentShaderReadUniformBuffer => AccessInfo { stage_mask: stage_flags::FRAGMENT_SHADER, access_mask: access_flags::UNIFORM_READ, image_layout: image_layouts::UNDEFINED },
        AccessType::FragmentShaderReadSampledImageOrUniformTexelBuffer => AccessInfo { stage_mask: stage_flags::FRAGMENT_SHADER, access_mask: access_flags::SHADER_SAMPLED_READ, image_layout: image_layouts::SHADER_READ_ONLY_OPTIMAL },
        AccessType::FragmentShaderReadColorInputAttachment => AccessInfo { stage_mask: stage_flags::FRAGMENT_SHADER, access_mask: access_flags::INPUT_ATTACHMENT_READ, image_layout: image_layouts::SHADER_READ_ONLY_OPTIMAL },
        AccessType::FragmentShaderReadDepthStencilInputAttachment => AccessInfo { stage_mask: stage_flags::FRAGMENT_SHADER, access_mask: access_flags::INPUT_ATTACHMENT_READ, image_layout: image_layouts::DEPTH_STENCIL_READ_ONLY_OPTIMAL },
        AccessType::FragmentShaderReadOther => AccessInfo { stage_mask: stage_flags::FRAGMENT_SHADER, access_mask: access_flags::SHADER_READ, image_layout: image_layouts::GENERAL },
        AccessType::ColorAttachmentRead => AccessInfo { stage_mask: stage_flags::COLOR_ATTACHMENT_OUTPUT, access_mask: access_flags::COLOR_ATTACHMENT_READ, image_layout: image_layouts::COLOR_ATTACHMENT_OPTIMAL },
        AccessType::DepthStencilAttachmentRead => AccessInfo { stage_mask: stage_flags::EARLY_FRAGMENT_TESTS | stage_flags::LATE_FRAGMENT_TESTS, access_mask: access_flags::DEPTH_STENCIL_ATTACHMENT_READ, image_layout: image_layouts::DEPTH_STENCIL_READ_ONLY_OPTIMAL },
        AccessType::DepthStencilAttachmentReadWrite => AccessInfo { stage_mask: stage_flags::EARLY_FRAGMENT_TESTS | stage_flags::LATE_FRAGMENT_TESTS, access_mask: access_flags::DEPTH_STENCIL_ATTACHMENT_READ | access_flags::DEPTH_STENCIL_ATTACHMENT_WRITE, image_layout: image_layouts::DEPTH_STENCIL_ATTACHMENT_OPTIMAL },
        AccessType::ComputeShaderReadUniformBuffer => AccessInfo { stage_mask: stage_flags::COMPUTE_SHADER, access_mask: access_flags::UNIFORM_READ, image_layout: image_layouts::UNDEFINED },
        AccessType::ComputeShaderReadSampledImageOrUniformTexelBuffer => AccessInfo { stage_mask: stage_flags::COMPUTE_SHADER, access_mask: access_flags::SHADER_SAMPLED_READ, image_layout: image_layouts::SHADER_READ_ONLY_OPTIMAL },
        AccessType::ComputeShaderReadOther => AccessInfo { stage_mask: stage_flags::COMPUTE_SHADER, access_mask: access_flags::SHADER_READ, image_layout: image_layouts::GENERAL },
        AccessType::AnyShaderReadUniformBuffer => AccessInfo { stage_mask: stage_flags::ALL_COMMANDS, access_mask: access_flags::UNIFORM_READ, image_layout: image_layouts::UNDEFINED },
        AccessType::AnyShaderReadUniformBufferOrVertexBuffer => AccessInfo { stage_mask: stage_flags::ALL_COMMANDS, access_mask: access_flags::UNIFORM_READ | access_flags::VERTEX_ATTRIBUTE_READ, image_layout: image_layouts::UNDEFINED },
        AccessType::AnyShaderReadSampledImageOrUniformTexelBuffer => AccessInfo { stage_mask: stage_flags::ALL_COMMANDS, access_mask: access_flags::SHADER_SAMPLED_READ, image_layout: image_layouts::SHADER_READ_ONLY_OPTIMAL },
        AccessType::AnyShaderReadOther => AccessInfo { stage_mask: stage_flags::ALL_COMMANDS, access_mask: access_flags::SHADER_READ, image_layout: image_layouts::GENERAL },
        AccessType::TransferRead => AccessInfo { stage_mask: stage_flags::ALL_TRANSFER, access_mask: access_flags::TRANSFER_READ, image_layout: image_layouts::TRANSFER_SRC_OPTIMAL },
        AccessType::HostRead => AccessInfo { stage_mask: stage_flags::HOST, access_mask: access_flags::HOST_READ, image_layout: image_layouts::GENERAL },
        AccessType::Present => AccessInfo { stage_mask: stage_flags::NONE, access_mask: access_flags::NONE, image_layout: image_layouts::PRESENT_SRC_KHR },
        AccessType::CommandBufferWriteNVX => AccessInfo { stage_mask: stage_flags::COMMAND_PREPROCESS_NV, access_mask: access_flags::COMMAND_PREPROCESS_WRITE_NV, image_layout: image_layouts::UNDEFINED },
        AccessType::VertexShaderWrite => AccessInfo { stage_mask: stage_flags::VERTEX_SHADER, access_mask: access_flags::SHADER_STORAGE_WRITE, image_layout: image_layouts::GENERAL },
        AccessType::MeshShaderWrite => AccessInfo { stage_mask: stage_flags::MESH_SHADER_EXT, access_mask: access_flags::SHADER_STORAGE_WRITE, image_layout: image_layouts::GENERAL },
        AccessType::TaskShaderWrite => AccessInfo { stage_mask: stage_flags::TASK_SHADER_EXT, access_mask: access_flags::SHADER_STORAGE_WRITE, image_layout: image_layouts::GENERAL },
        AccessType::TessellationControlShaderWrite => AccessInfo { stage_mask: stage_flags::TESSELLATION_CONTROL_SHADER, access_mask: access_flags::SHADER_STORAGE_WRITE, image_layout: image_layouts::GENERAL },
        AccessType::TessellationEvaluationShaderWrite => AccessInfo { stage_mask: stage_flags::TESSELLATION_EVALUATION_SHADER, access_mask: access_flags::SHADER_STORAGE_WRITE, image_layout: image_layouts::GENERAL },
        AccessType::GeometryShaderWrite => AccessInfo { stage_mask: stage_flags::GEOMETRY_SHADER, access_mask: access_flags::SHADER_STORAGE_WRITE, image_layout: image_layouts::GENERAL },
        AccessType::FragmentShaderWrite => AccessInfo { stage_mask: stage_flags::FRAGMENT_SHADER, access_mask: access_flags::SHADER_STORAGE_WRITE, image_layout: image_layouts::GENERAL },
        AccessType::ColorAttachmentWrite => AccessInfo { stage_mask: stage_flags::COLOR_ATTACHMENT_OUTPUT, access_mask: access_flags::COLOR_ATTACHMENT_WRITE, image_layout: image_layouts::COLOR_ATTACHMENT_OPTIMAL },
        AccessType::DepthStencilAttachmentWrite => AccessInfo { stage_mask: stage_flags::EARLY_FRAGMENT_TESTS | stage_flags::LATE_FRAGMENT_TESTS, access_mask: access_flags::DEPTH_STENCIL_ATTACHMENT_WRITE, image_layout: image_layouts::DEPTH_STENCIL_ATTACHMENT_OPTIMAL },
        AccessType::DepthAttachmentWriteStencilReadOnly => AccessInfo { stage_mask: stage_flags::EARLY_FRAGMENT_TESTS | stage_flags::LATE_FRAGMENT_TESTS, access_mask: access_flags::DEPTH_STENCIL_ATTACHMENT_WRITE | access_flags::DEPTH_STENCIL_ATTACHMENT_READ, image_layout: image_layouts::DEPTH_ATTACHMENT_STENCIL_READ_ONLY_OPTIMAL },
        AccessType::StencilAttachmentWriteDepthReadOnly => AccessInfo { stage_mask: stage_flags::EARLY_FRAGMENT_TESTS | stage_flags::LATE_FRAGMENT_TESTS, access_mask: access_flags::DEPTH_STENCIL_ATTACHMENT_WRITE | access_flags::DEPTH_STENCIL_ATTACHMENT_READ, image_layout: image_layouts::DEPTH_READ_ONLY_STENCIL_ATTACHMENT_OPTIMAL },
        AccessType::ComputeShaderWrite => AccessInfo { stage_mask: stage_flags::COMPUTE_SHADER, access_mask: access_flags::SHADER_STORAGE_WRITE, image_layout: image_layouts::GENERAL },
        AccessType::ComputeShaderReadWrite => AccessInfo { stage_mask: stage_flags::COMPUTE_SHADER, access_mask: access_flags::SHADER_STORAGE_READ | access_flags::SHADER_STORAGE_WRITE, image_layout: image_layouts::GENERAL },
        AccessType::AnyShaderWrite => AccessInfo { stage_mask: stage_flags::ALL_COMMANDS, access_mask: access_flags::SHADER_STORAGE_WRITE, image_layout: image_layouts::GENERAL },
        AccessType::TransferWrite => AccessInfo { stage_mask: stage_flags::ALL_TRANSFER, access_mask: access_flags::TRANSFER_WRITE, image_layout: image_layouts::TRANSFER_DST_OPTIMAL },
        AccessType::HostWrite => AccessInfo { stage_mask: stage_flags::HOST, access_mask: access_flags::HOST_WRITE, image_layout: image_layouts::GENERAL },
        AccessType::ColorAttachmentReadWrite => AccessInfo { stage_mask: stage_flags::COLOR_ATTACHMENT_OUTPUT, access_mask: access_flags::COLOR_ATTACHMENT_READ | access_flags::COLOR_ATTACHMENT_WRITE, image_layout: image_layouts::COLOR_ATTACHMENT_OPTIMAL },
        AccessType::General => AccessInfo { stage_mask: stage_flags::ALL_COMMANDS, access_mask: access_flags::MEMORY_READ | access_flags::MEMORY_WRITE, image_layout: image_layouts::GENERAL },
        AccessType::RayTracingShaderReadSampledImageOrUniformTexelBuffer => AccessInfo { stage_mask: stage_flags::RAY_TRACING_SHADER_KHR, access_mask: access_flags::SHADER_SAMPLED_READ, image_layout: image_layouts::SHADER_READ_ONLY_OPTIMAL },
        AccessType::RayTracingShaderReadColorInputAttachment => AccessInfo { stage_mask: stage_flags::RAY_TRACING_SHADER_KHR, access_mask: access_flags::INPUT_ATTACHMENT_READ, image_layout: image_layouts::SHADER_READ_ONLY_OPTIMAL },
        AccessType::RayTracingShaderReadDepthStencilInputAttachment => AccessInfo { stage_mask: stage_flags::RAY_TRACING_SHADER_KHR, access_mask: access_flags::INPUT_ATTACHMENT_READ, image_layout: image_layouts::DEPTH_STENCIL_READ_ONLY_OPTIMAL },
        AccessType::RayTracingShaderReadAccelerationStructure => AccessInfo { stage_mask: stage_flags::RAY_TRACING_SHADER_KHR, access_mask: access_flags::ACCELERATION_STRUCTURE_READ_KHR, image_layout: image_layouts::UNDEFINED },
        AccessType::RayTracingShaderReadOther => AccessInfo { stage_mask: stage_flags::RAY_TRACING_SHADER_KHR, access_mask: access_flags::SHADER_READ, image_layout: image_layouts::GENERAL },
        AccessType::AccelerationStructureBuildWrite => AccessInfo { stage_mask: stage_flags::ACCELERATION_STRUCTURE_BUILD_KHR, access_mask: access_flags::ACCELERATION_STRUCTURE_WRITE_KHR, image_layout: image_layouts::UNDEFINED },
        AccessType::AccelerationStructureBuildRead => AccessInfo { stage_mask: stage_flags::ACCELERATION_STRUCTURE_BUILD_KHR, access_mask: access_flags::ACCELERATION_STRUCTURE_READ_KHR, image_layout: image_layouts::UNDEFINED },
        AccessType::AccelerationStructureBufferWrite => AccessInfo { stage_mask: stage_flags::ACCELERATION_STRUCTURE_BUILD_KHR, access_mask: access_flags::TRANSFER_WRITE, image_layout: image_layouts::UNDEFINED },
        AccessType::ShaderBindingTableRead => AccessInfo { stage_mask: stage_flags::RAY_TRACING_SHADER_KHR, access_mask: access_flags::SHADER_BINDING_TABLE_READ_KHR, image_layout: image_layouts::UNDEFINED },
        AccessType::MicromapRead => AccessInfo { stage_mask: stage_flags::MICROMAP_BUILD_EXT | stage_flags::ACCELERATION_STRUCTURE_BUILD_KHR, access_mask: access_flags::MICROMAP_READ_EXT, image_layout: image_layouts::UNDEFINED },
        AccessType::MicromapWrite => AccessInfo { stage_mask: stage_flags::MICROMAP_BUILD_EXT, access_mask: access_flags::MICROMAP_WRITE_EXT, image_layout: image_layouts::UNDEFINED },
        AccessType::MicromapReadWrite => AccessInfo { stage_mask: stage_flags::MICROMAP_BUILD_EXT, access_mask: access_flags::MICROMAP_READ_EXT | access_flags::MICROMAP_WRITE_EXT, image_layout: image_layouts::UNDEFINED },
        AccessType::DescriptorBufferRead => AccessInfo { stage_mask: stage_flags::ALL_COMMANDS, access_mask: access_flags::DESCRIPTOR_BUFFER_READ_EXT, image_layout: image_layouts::UNDEFINED },
        AccessType::FragmentShadingRateAttachmentRead => AccessInfo { stage_mask: stage_flags::FRAGMENT_SHADING_RATE_ATTACHMENT_KHR, access_mask: access_flags::FRAGMENT_SHADING_RATE_ATTACHMENT_READ_KHR, image_layout: image_layouts::FRAGMENT_SHADING_RATE_ATTACHMENT_OPTIMAL_KHR },
        AccessType::FragmentDensityMapRead => AccessInfo { stage_mask: stage_flags::FRAGMENT_DENSITY_PROCESS_EXT, access_mask: access_flags::FRAGMENT_DENSITY_MAP_READ_EXT, image_layout: image_layouts::FRAGMENT_DENSITY_MAP_OPTIMAL_EXT },
        AccessType::ColorAttachmentReadNoncoherent => AccessInfo { stage_mask: stage_flags::COLOR_ATTACHMENT_OUTPUT, access_mask: access_flags::COLOR_ATTACHMENT_READ_NONCOHERENT_EXT, image_layout: image_layouts::COLOR_ATTACHMENT_OPTIMAL },
        AccessType::ConditionalRenderingRead => AccessInfo { stage_mask: stage_flags::CONDITIONAL_RENDERING_EXT, access_mask: access_flags::CONDITIONAL_RENDERING_READ_EXT, image_layout: image_layouts::UNDEFINED },
        AccessType::TransformFeedbackWrite => AccessInfo { stage_mask: stage_flags::TRANSFORM_FEEDBACK_EXT, access_mask: access_flags::TRANSFORM_FEEDBACK_WRITE_EXT, image_layout: image_layouts::UNDEFINED },
        AccessType::TransformFeedbackCounterRead => AccessInfo { stage_mask: stage_flags::DRAW_INDIRECT | stage_flags::TRANSFORM_FEEDBACK_EXT, access_mask: access_flags::TRANSFORM_FEEDBACK_COUNTER_READ_EXT, image_layout: image_layouts::UNDEFINED },
        AccessType::TransformFeedbackCounterWrite => AccessInfo { stage_mask: stage_flags::TRANSFORM_FEEDBACK_EXT, access_mask: access_flags::TRANSFORM_FEEDBACK_COUNTER_WRITE_EXT, image_layout: image_layouts::UNDEFINED },
        AccessType::InvocationMaskRead => AccessInfo { stage_mask: stage_flags::INVOCATION_MASK_HUAWEI, access_mask: access_flags::INVOCATION_MASK_READ_HUAWEI, image_layout: image_layouts::GENERAL },
        AccessType::VideoDecodeRead => AccessInfo { stage_mask: stage_flags::VIDEO_DECODE_KHR, access_mask: access_flags::VIDEO_DECODE_READ_KHR, image_layout: image_layouts::VIDEO_DECODE_SRC_KHR },
        AccessType::VideoDecodeWrite => AccessInfo { stage_mask: stage_flags::VIDEO_DECODE_KHR, access_mask: access_flags::VIDEO_DECODE_WRITE_KHR, image_layout: image_layouts::VIDEO_DECODE_DST_KHR },
        AccessType::VideoDecodeReadWrite => AccessInfo { stage_mask: stage_flags::VIDEO_DECODE_KHR, access_mask: access_flags::VIDEO_DECODE_READ_KHR | access_flags::VIDEO_DECODE_WRITE_KHR, image_layout: image_layouts::VIDEO_DECODE_DPB_KHR },
        AccessType::VideoEncodeRead => AccessInfo { stage_mask: stage_flags::VIDEO_ENCODE_KHR, access_mask: access_flags::VIDEO_ENCODE_READ_KHR, image_layout: image_layouts::VIDEO_ENCODE_SRC_KHR },
        AccessType::VideoEncodeWrite => AccessInfo { stage_mask: stage_flags::VIDEO_ENCODE_KHR, access_mask: access_flags::VIDEO_ENCODE_WRITE_KHR, image_layout: image_layouts::VIDEO_ENCODE_DST_KHR },
        AccessType::VideoEncodeReadWrite => AccessInfo { stage_mask: stage_flags::VIDEO_ENCODE_KHR, access_mask: access_flags::VIDEO_ENCODE_READ_KHR | access_flags::VIDEO_ENCODE_WRITE_KHR, image_layout: image_layouts::VIDEO_ENCODE_DPB_KHR },
        AccessType::OpticalFlowRead => AccessInfo { stage_mask: stage_flags::OPTICAL_FLOW_NV, access_mask: access_flags::OPTICAL_FLOW_READ_NV, image_layout: image_layouts::GENERAL },
        AccessType::OpticalFlowWrite => AccessInfo { stage_mask: stage_flags::OPTICAL_FLOW_NV, access_mask: access_flags::OPTICAL_FLOW_WRITE_NV, image_layout: image_layouts::GENERAL },
        AccessType::OpticalFlowReadWrite => AccessInfo { stage_mask: stage_flags::OPTICAL_FLOW_NV, access_mask: access_flags::OPTICAL_FLOW_READ_NV | access_flags::OPTICAL_FLOW_WRITE_NV, image_layout: image_layouts::GENERAL },
        AccessType::VertexShaderReadWrite => AccessInfo { stage_mask: stage_flags::VERTEX_SHADER, access_mask: access_flags::SHADER_STORAGE_READ | access_flags::SHADER_STORAGE_WRITE, image_layout: image_layouts::GENERAL },
        AccessType::TessellationControlShaderReadWrite => AccessInfo { stage_mask: stage_flags::TESSELLATION_CONTROL_SHADER, access_mask: access_flags::SHADER_STORAGE_READ | access_flags::SHADER_STORAGE_WRITE, image_layout: image_layouts::GENERAL },
        AccessType::TessellationEvaluationShaderReadWrite => AccessInfo { stage_mask: stage_flags::TESSELLATION_EVALUATION_SHADER, access_mask: access_flags::SHADER_STORAGE_READ | access_flags::SHADER_STORAGE_WRITE, image_layout: image_layouts::GENERAL },
        AccessType::GeometryShaderReadWrite => AccessInfo { stage_mask: stage_flags::GEOMETRY_SHADER, access_mask: access_flags::SHADER_STORAGE_READ | access_flags::SHADER_STORAGE_WRITE, image_layout: image_layouts::GENERAL },
        AccessType::FragmentShaderReadWrite => AccessInfo { stage_mask: stage_flags::FRAGMENT_SHADER, access_mask: access_flags::SHADER_STORAGE_READ | access_flags::SHADER_STORAGE_WRITE, image_layout: image_layouts::GENERAL },
        AccessType::MeshShaderReadWrite => AccessInfo { stage_mask: stage_flags::MESH_SHADER_EXT, access_mask: access_flags::SHADER_STORAGE_READ | access_flags::SHADER_STORAGE_WRITE, image_layout: image_layouts::GENERAL },
        AccessType::TaskShaderReadWrite => AccessInfo { stage_mask: stage_flags::TASK_SHADER_EXT, access_mask: access_flags::SHADER_STORAGE_READ | access_flags::SHADER_STORAGE_WRITE, image_layout: image_layouts::GENERAL },
        AccessType::AnyShaderReadWrite => AccessInfo { stage_mask: stage_flags::ALL_COMMANDS, access_mask: access_flags::SHADER_STORAGE_READ | access_flags::SHADER_STORAGE_WRITE, image_layout: image_layouts::GENERAL },
    }
}

/// Looks up how `access_type` maps onto Vulkan.
pub fn get_access_info(access_type: &AccessType) -> (info: AccessInfo)
    ensures
        info == access_info(*access_type),
{
    match access_type {
        AccessType::Nothing => AccessInfo { stage_mask: stage_flags::NONE, access_mask: access_flags::NONE, image_layout: image_layouts::UNDEFINED },
        AccessType::CommandBufferReadNVX => AccessInfo { stage_mask: stage_flags::COMMAND_PREPROCESS_NV, access_mask: access_flags::COMMAND_PREPROCESS_READ_NV, image_layout: image_layouts::UNDEFINED },
        AccessType::IndirectBuffer => AccessInfo { stage_mask: stage_flags::DRAW_INDIRECT, access_mask: access_flags::INDIRECT_COMMAND_READ, image_layout: image_layouts::UNDEFINED },
        AccessType::IndexBuffer => AccessInfo { stage_mask: stage_flags::INDEX_INPUT, access_mask: access_flags::INDEX_READ, image_layout: image_layouts::UNDEFINED },
        AccessType::VertexBuffer => AccessInfo { stage_mask: stage_flags::VERTEX_ATTRIBUTE_INPUT, access_mask: access_flags::VERTEX_ATTRIBUTE_READ, image_layout: image_layouts::UNDEFINED },
        AccessType::VertexShaderReadUniformBuffer => AccessInfo { stage_mask: stage_flags::VERTEX_SHADER, access_mask: access_flags::UNIFORM_READ, image_layout: image_layouts::UNDEFINED },
        AccessType::VertexShaderReadSampledImageOrUniformTexelBuffer => AccessInfo { stage_mask: stage_flags::VERTEX_SHADER, access_mask: access_flags::SHADER_SAMPLED_READ, image_layout: image_layouts::SHADER_READ_ONLY_OPTIMAL },
        AccessType::VertexShaderReadOther => AccessInfo { stage_mask: stage_flags::VERTEX_SHADER, access_mask: access_flags::SHADER_READ, image_layout: image_layouts::GENERAL },
        AccessType::MeshShaderReadUniformBuffer => AccessInfo { stage_mask: stage_flags::MESH_SHADER_EXT, access_mask: access_flags::UNIFORM_READ, image_layout: image_layouts::UNDEFINED },
        AccessType::MeshShaderReadSampledImageOrUniformTexelBuffer => AccessInfo { stage_mask: stage_flags::MESH_SHADER_EXT, access_mask: access_flags::SHADER_SAMPLED_READ, image_layout: image_layouts::SHADER_READ_ONLY_OPTIMAL },
        AccessType::MeshShaderReadOther => AccessInfo { stage_mask: stage_flags::MESH_SHADER_EXT, access_mask: access_flags::SHADER_READ, image_layout: image_layouts::GENERAL },
        AccessType::TaskShaderReadUniformBuffer => AccessInfo { stage_mask: stage_flags::TASK_SHADER_EXT, access_mask: access_flags::UNIFORM_READ, image_layout: image_layouts::UNDEFINED },
        AccessType::TaskShaderReadSampledImageOrUniformTexelBuffer => AccessInfo { stage_mask: stage_flags::TASK_SHADER_EXT, access_mask: access_flags::SHADER_SAMPLED_READ, image_layout: image_layouts::SHADER_READ_ONLY_OPTIMAL },
        AccessType::TaskShaderReadOther => AccessInfo { stage_mask: stage_flags::TASK_SHADER_EXT, access_mask: access_flags::SHADER_READ, image_layout: image_layouts::GENERAL },
        AccessType::TessellationControlShaderReadUniformBuffer => AccessInfo { stage_mask: stage_flags::TESSELLATION_CONTROL_SHADER, access_mask: access_flags::UNIFORM_READ, image_layout: image_layouts::UNDEFINED },
        AccessType::TessellationControlShaderReadSampledImageOrUniformTexelBuffer => AccessInfo { stage_mask: stage_flags::TESSELLATION_CONTROL_SHADER, access_mask: access_flags::SHADER_SAMPLED_READ, image_layout: image_layouts::SHADER_READ_ONLY_OPTIMAL },
        AccessType::TessellationControlShaderReadOther => AccessInfo { stage_mask: stage_flags::TESSELLATION_CONTROL_SHADER, access_mask: access_flags::SHADER_READ, image_layout: image_layouts::GENERAL },
        AccessType::TessellationEvaluationShaderReadUniformBuffer => AccessInfo { stage_mask: stage_flags::TESSELLATION_EVALUATION_SHADER, access_mask: access_flags::UNIFORM_READ, image_layout: image_layouts::UNDEFINED },
        AccessType::TessellationEvaluationShaderReadSampledImageOrUniformTexelBuffer => AccessInfo { stage_mask: stage_flags::TESSELLATION_EVALUATION_SHADER, access_mask: access_flags::SHADER_SAMPLED_READ, image_layout: image_layouts::SHADER_READ_ONLY_OPTIMAL },
        AccessType::TessellationEvaluationShaderReadOther => AccessInfo { stage_mask: stage_flags::TESSELLATION_EVALUATION_SHADER, access_mask: access_flags::SHADER_READ, image_layout: image_layouts::GENERAL },
        AccessType::GeometryShaderReadUniformBuffer => AccessInfo { stage_mask: stage_flags::GEOMETRY_SHADER, access_mask: access_flags::UNIFORM_READ, image_layout: image_layouts::UNDEFINED },
        AccessType::GeometryShaderReadSampledImageOrUniformTexelBuffer => AccessInfo { stage_mask: stage_flags::GEOMETRY_SHADER, access_mask: access_flags::SHADER_SAMPLED_READ, image_layout: image_layouts::SHADER_READ_ONLY_OPTIMAL },
        AccessType::GeometryShaderReadOther => AccessInfo { stage_mask: stage_flags::GEOMETRY_SHADER, access_mask: access_flags::SHADER_READ, image_layout: image_layouts::GENERAL },
        AccessType::FragmentShaderReadUniformBuffer => AccessInfo { stage_mask: stage_flags::FRAGMENT_SHADER, access_mask: access_flags::UNIFORM_READ, image_layout: image_layouts::UNDEFINED },
        AccessType::FragmentShaderReadSampledImageOrUniformTexelBuffer => AccessInfo { stage_mask: stage_flags::FRAGMENT_SHADER, access_mask: access_flags::SHADER_SAMPLED_READ, image_layout: image_layouts::SHADER_READ_ONLY_OPTIMAL },
        AccessType::FragmentShaderReadColorInputAttachment => AccessInfo { stage_mask: stage_flags::FRAGMENT_SHADER, access_mask: access_flags::INPUT_ATTACHMENT_READ, image_layout: image_layouts::SHADER_READ_ONLY_OPTIMAL },
        AccessType::FragmentShaderReadDepthStencilInputAttachment => AccessInfo { stage_mask: stage_flags::FRAGMENT_SHADER, access_mask: access_flags::INPUT_ATTACHMENT_READ, image_layout: image_layouts::DEPTH_STENCIL_READ_ONLY_OPTIMAL },
        AccessType::FragmentShaderReadOther => AccessInfo { stage_mask: stage_flags::FRAGMENT_SHADER, access_mask: access_flags::SHADER_READ, image_layout: image_layouts::GENERAL },
        AccessType::ColorAttachmentRead => AccessInfo { stage_mask: stage_flags::COLOR_ATTACHMENT_OUTPUT, access_mask: access_flags::COLOR_ATTACHMENT_READ, image_layout: image_layouts::COLOR_ATTACHMENT_OPTIMAL },
        AccessType::DepthStencilAttachmentRead => AccessInfo { stage_mask: stage_flags::EARLY_FRAGMENT_TESTS | stage_flags::LATE_FRAGMENT_TESTS, access_mask: access_flags::DEPTH_STENCIL_ATTACHMENT_READ, image_layout: image_layouts::DEPTH_STENCIL_READ_ONLY_OPTIMAL },
        AccessType::DepthStencilAttachmentReadWrite => AccessInfo { stage_mask: stage_flags::EARLY_FRAGMENT_TESTS | stage_flags::LATE_FRAGMENT_TESTS, access_mask: access_flags::DEPTH_STENCIL_ATTACHMENT_READ | access_flags::DEPTH_STENCIL_ATTACHMENT_WRITE, image_layout: image_layouts::DEPTH_STENCIL_ATTACHMENT_OPTIMAL },
        AccessType::ComputeShaderReadUniformBuffer => AccessInfo { stage_mask: stage_flags::COMPUTE_SHADER, access_mask: access_flags::UNIFORM_READ, image_layout: image_layouts::UNDEFINED },
        AccessType::ComputeShaderReadSampledImageOrUniformTexelBuffer => AccessInfo { stage_mask: stage_flags::COMPUTE_SHADER, access_mask: access_flags::SHADER_SAMPLED_READ, image_layout: image_layouts::SHADER_READ_ONLY_OPTIMAL },
        AccessType::ComputeShaderReadOther => AccessInfo { stage_mask: stage_flags::COMPUTE_SHADER, access_mask: access_flags::SHADER_READ, image_layout: image_layouts::GENERAL },
        AccessType::AnyShaderReadUniformBuffer => AccessInfo { stage_mask: stage_flags::ALL_COMMANDS, access_mask: access_flags::UNIFORM_READ, image_layout: image_layouts::UNDEFINED },
        AccessType::AnyShaderReadUniformBufferOrVertexBuffer => AccessInfo { stage_mask: stage_flags::ALL_COMMANDS, access_mask: access_flags::UNIFORM_READ | access_flags::VERTEX_ATTRIBUTE_READ, image_layout: image_layouts::UNDEFINED },
        AccessType::AnyShaderReadSampledImageOrUniformTexelBuffer => AccessInfo { stage_mask: stage_flags::ALL_COMMANDS, access_mask: access_flags::SHADER_SAMPLED_READ, image_layout: image_layouts::SHADER_READ_ONLY_OPTIMAL },
        AccessType::AnyShaderReadOther => AccessInfo { stage_mask: stage_flags::ALL_COMMANDS, access_mask: access_flags::SHADER_READ, image_layout: image_layouts::GENERAL },
        AccessType::TransferRead => AccessInfo { stage_mask: stage_flags::ALL_TRANSFER, access_mask: access_flags::TRANSFER_READ, image_layout: image_layouts::TRANSFER_SRC_OPTIMAL },
        AccessType::HostRead => AccessInfo { stage_mask: stage_flags::HOST, access_mask: access_flags::HOST_READ, image_layout: image_layouts::GENERAL },
        AccessType::Present => AccessInfo { stage_mask: stage_flags::NONE, access_mask: access_flags::NONE, image_layout: image_layouts::PRESENT_SRC_KHR },
        AccessType::CommandBufferWriteNVX => AccessInfo { stage_mask: stage_flags::COMMAND_PREPROCESS_NV, access_mask: access_flags::COMMAND_PREPROCESS_WRITE_NV, image_layout: image_layouts::UNDEFINED },
        AccessType::VertexShaderWrite => AccessInfo { stage_mask: stage_flags::VERTEX_SHADER, access_mask: access_flags::SHADER_STORAGE_WRITE, image_layout: image_layouts::GENERAL },
        AccessType::MeshShaderWrite => AccessInfo { stage_mask: stage_flags::MESH_SHADER_EXT, access_mask: access_flags::SHADER_STORAGE_WRITE, image_layout: image_layouts::GENERAL },
        AccessType::TaskShaderWrite => AccessInfo { stage_mask: stage_flags::TASK_SHADER_EXT, access_mask: access_flags::SHADER_STORAGE_WRITE, image_layout: image_layouts::GENERAL },
        AccessType::TessellationControlShaderWrite => AccessInfo { stage_mask: stage_flags::TESSELLATION_CONTROL_SHADER, access_mask: access_flags::SHADER_STORAGE_WRITE, image_layout: image_layouts::GENERAL },
        AccessType::TessellationEvaluationShaderWrite => AccessInfo { stage_mask: stage_flags::TESSELLATION_EVALUATION_SHADER, access_mask: access_flags::SHADER_STORAGE_WRITE, image_layout: image_layouts::GENERAL },
        AccessType::GeometryShaderWrite => AccessInfo { stage_mask: stage_flags::GEOMETRY_SHADER, access_mask: access_flags::SHADER_STORAGE_WRITE, image_layout: image_layouts::GENERAL },
        AccessType::FragmentShaderWrite => AccessInfo { stage_mask: stage_flags::FRAGMENT_SHADER, access_mask: access_flags::SHADER_STORAGE_WRITE, image_layout: image_layouts::GENERAL },
        AccessType::ColorAttachmentWrite => AccessInfo { stage_mask: stage_flags::COLOR_ATTACHMENT_OUTPUT, access_mask: access_flags::COLOR_ATTACHMENT_WRITE, image_layout: image_layouts::COLOR_ATTACHMENT_OPTIMAL },
        AccessType::DepthStencilAttachmentWrite => AccessInfo { stage_mask: stage_flags::EARLY_FRAGMENT_TESTS | stage_flags::LATE_FRAGMENT_TESTS, access_mask: access_flags::DEPTH_STENCIL_ATTACHMENT_WRITE, image_layout: image_layouts::DEPTH_STENCIL_ATTACHMENT_OPTIMAL },
        AccessType::DepthAttachmentWriteStencilReadOnly => AccessInfo { stage_mask: stage_flags::EARLY_FRAGMENT_TESTS | stage_flags::LATE_FRAGMENT_TESTS, access_mask: access_flags::DEPTH_STENCIL_ATTACHMENT_WRITE | access_flags::DEPTH_STENCIL_ATTACHMENT_READ, image_layout: image_layouts::DEPTH_ATTACHMENT_STENCIL_READ_ONLY_OPTIMAL },
        AccessType::StencilAttachmentWriteDepthReadOnly => AccessInfo { stage_mask: stage_flags::EARLY_FRAGMENT_TESTS | stage_flags::LATE_FRAGMENT_TESTS, access_mask: access_flags::DEPTH_STENCIL_ATTACHMENT_WRITE | access_flags::DEPTH_STENCIL_ATTACHMENT_READ, image_layout: image_layouts::DEPTH_READ_ONLY_STENCIL_ATTACHMENT_OPTIMAL },
        AccessType::ComputeShaderWrite => AccessInfo { stage_mask: stage_flags::COMPUTE_SHADER, access_mask: access_flags::SHADER_STORAGE_WRITE, image_layout: image_layouts::GENERAL },
        AccessType::ComputeShaderReadWrite => AccessInfo { stage_mask: stage_flags::COMPUTE_SHADER, access_mask: access_flags::SHADER_STORAGE_READ | access_flags::SHADER_STORAGE_WRITE, image_layout: image_layouts::GENERAL },
        AccessType::AnyShaderWrite => AccessInfo { stage_mask: stage_flags::ALL_COMMANDS, access_mask: access_flags::SHADER_STORAGE_WRITE, image_layout: image_layouts::GENERAL },
        AccessType::TransferWrite => AccessInfo { stage_mask: stage_flags::ALL_TRANSFER, access_mask: access_flags::TRANSFER_WRITE, image_layout: image_layouts::TRANSFER_DST_OPTIMAL },
        AccessType::HostWrite => AccessInfo { stage_mask: stage_flags::HOST, access_mask: access_flags::HOST_WRITE, image_layout: image_layouts::GENERAL },
        AccessType::ColorAttachmentReadWrite => AccessInfo { stage_mask: stage_flags::COLOR_ATTACHMENT_OUTPUT, access_mask: access_flags::COLOR_ATTACHMENT_READ | access_flags::COLOR_ATTACHMENT_WRITE, image_layout: image_layouts::COLOR_ATTACHMENT_OPTIMAL },
        AccessType::General => AccessInfo { stage_mask: stage_flags::ALL_COMMANDS, access_mask: access_flags::MEMORY_READ | access_flags::MEMORY_WRITE, image_layout: image_layouts::GENERAL },
        AccessType::RayTracingShaderReadSampledImageOrUniformTexelBuffer => AccessInfo { stage_mask: stage_flags::RAY_TRACING_SHADER_KHR, access_mask: access_flags::SHADER_SAMPLED_READ, image_layout: image_layouts::SHADER_READ_ONLY_OPTIMAL },
        AccessType::RayTracingShaderReadColorInputAttachment => AccessInfo { stage_mask: stage_flags::RAY_TRACING_SHADER_KHR, access_mask: access_flags::INPUT_ATTACHMENT_READ, image_layout: image_layouts::SHADER_READ_ONLY_OPTIMAL },
        AccessType::RayTracingShaderReadDepthStencilInputAttachment => AccessInfo { stage_mask: stage_flags::RAY_TRACING_SHADER_KHR, access_mask: access_flags::INPUT_ATTACHMENT_READ, image_layout: image_layouts::DEPTH_STENCIL_READ_ONLY_OPTIMAL },
        AccessType::RayTracingShaderReadAccelerationStructure => AccessInfo { stage_mask: stage_flags::RAY_TRACING_SHADER_KHR, access_mask: access_flags::ACCELERATION_STRUCTURE_READ_KHR, image_layout: image_layouts::UNDEFINED },
        AccessType::RayTracingShaderReadOther => AccessInfo { stage_mask: stage_flags::RAY_TRACING_SHADER_KHR, access_mask: access_flags::SHADER_READ, image_layout: image_layouts::GENERAL },
        AccessType::AccelerationStructureBuildWrite => AccessInfo { stage_mask: stage_flags::ACCELERATION_STRUCTURE_BUILD_KHR, access_mask: access_flags::ACCELERATION_STRUCTURE_WRITE_KHR, image_layout: image_layouts::UNDEFINED },
        AccessType::AccelerationStructureBuildRead => AccessInfo { stage_mask: stage_flags::ACCELERATION_STRUCTURE_BUILD_KHR, access_mask: access_flags::ACCELERATION_STRUCTURE_READ_KHR, image_layout: image_layouts::UNDEFINED },
        AccessType::AccelerationStructureBufferWrite => AccessInfo { stage_mask: stage_flags::ACCELERATION_STRUCTURE_BUILD_KHR, access_mask: access_flags::TRANSFER_WRITE, image_layout: image_layouts::UNDEFINED },
        AccessType::ShaderBindingTableRead => AccessInfo { stage_mask: stage_flags::RAY_TRACING_SHADER_KHR, access_mask: access_flags::SHADER_BINDING_TABLE_READ_KHR, image_layout: image_layouts::UNDEFINED },
        AccessType::MicromapRead => AccessInfo { stage_mask: stage_flags::MICROMAP_BUILD_EXT | stage_flags::ACCELERATION_STRUCTURE_BUILD_KHR, access_mask: access_flags::MICROMAP_READ_EXT, image_layout: image_layouts::UNDEFINED },
        AccessType::MicromapWrite => AccessInfo { stage_mask: stage_flags::MICROMAP_BUILD_EXT, access_mask: access_flags::MICROMAP_WRITE_EXT, image_layout: image_layouts::UNDEFINED },
        AccessType::MicromapReadWrite => AccessInfo { stage_mask: stage_flags::MICROMAP_BUILD_EXT, access_mask: access_flags::MICROMAP_READ_EXT | access_flags::MICROMAP_WRITE_EXT, image_layout: image_layouts::UNDEFINED },
        AccessType::DescriptorBufferRead => AccessInfo { stage_mask: stage_flags::ALL_COMMANDS, access_mask: access_flags::DESCRIPTOR_BUFFER_READ_EXT, image_layout: image_layouts::UNDEFINED },
        AccessType::FragmentShadingRateAttachmentRead => AccessInfo { stage_mask: stage_flags::FRAGMENT_SHADING_RATE_ATTACHMENT_KHR, access_mask: access_flags::FRAGMENT_SHADING_RATE_ATTACHMENT_READ_KHR, image_layout: image_layouts::FRAGMENT_SHADING_RATE_ATTACHMENT_OPTIMAL_KHR },
        AccessType::FragmentDensityMapRead => AccessInfo { stage_mask: stage_flags::FRAGMENT_DENSITY_PROCESS_EXT, access_mask: access_flags::FRAGMENT_DENSITY_MAP_READ_EXT, image_layout: image_layouts::FRAGMENT_DENSITY_MAP_OPTIMAL_EXT },
        AccessType::ColorAttachmentReadNoncoherent => AccessInfo { stage_mask: stage_flags::COLOR_ATTACHMENT_OUTPUT, access_mask: access_flags::COLOR_ATTACHMENT_READ_NONCOHERENT_EXT, image_layout: image_layouts::COLOR_ATTACHMENT_OPTIMAL },
        AccessType::ConditionalRenderingRead => AccessInfo { stage_mask: stage_flags::CONDITIONAL_RENDERING_EXT, access_mask: access_flags::CONDITIONAL_RENDERING_READ_EXT, image_layout: image_layouts::UNDEFINED },
        AccessType::TransformFeedbackWrite => AccessInfo { stage_mask: stage_flags::TRANSFORM_FEEDBACK_EXT, access_mask: access_flags::TRANSFORM_FEEDBACK_WRITE_EXT, image_layout: image_layouts::UNDEFINED },
        AccessType::TransformFeedbackCounterRead => AccessInfo { stage_mask: stage_flags::DRAW_INDIRECT | stage_flags::TRANSFORM_FEEDBACK_EXT, access_mask: access_flags::TRANSFORM_FEEDBACK_COUNTER_READ_EXT, image_layout: image_layouts::UNDEFINED },
        AccessType::TransformFeedbackCounterWrite => AccessInfo { stage_mask: stage_flags::TRANSFORM_FEEDBACK_EXT, access_mask: access_flags::TRANSFORM_FEEDBACK_COUNTER_WRITE_EXT, image_layout: image_layouts::UNDEFINED },
        AccessType::InvocationMaskRead => AccessInfo { stage_mask: stage_flags::INVOCATION_MASK_HUAWEI, access_mask: access_flags::INVOCATION_MASK_READ_HUAWEI, image_layout: image_layouts::GENERAL },
        AccessType::VideoDecodeRead => AccessInfo { stage_mask: stage_flags::VIDEO_DECODE_KHR, access_mask: access_flags::VIDEO_DECODE_READ_KHR, image_layout: image_layouts::VIDEO_DECODE_SRC_KHR },
        AccessType::VideoDecodeWrite => AccessInfo { stage_mask: stage_flags::VIDEO_DECODE_KHR, access_mask: access_flags::VIDEO_DECODE_WRITE_KHR, image_layout: image_layouts::VIDEO_DECODE_DST_KHR },
        AccessType::VideoDecodeReadWrite => AccessInfo { stage_mask: stage_flags::VIDEO_DECODE_KHR, access_mask: access_flags::VIDEO_DECODE_READ_KHR | access_flags::VIDEO_DECODE_WRITE_KHR, image_layout: image_layouts::VIDEO_DECODE_DPB_KHR },
        AccessType::VideoEncodeRead => AccessInfo { stage_mask: stage_flags::VIDEO_ENCODE_KHR, access_mask: access_flags::VIDEO_ENCODE_READ_KHR, image_layout: image_layouts::VIDEO_ENCODE_SRC_KHR },
        AccessType::VideoEncodeWrite => AccessInfo { stage_mask: stage_flags::VIDEO_ENCODE_KHR, access_mask: access_flags::VIDEO_ENCODE_WRITE_KHR, image_layout: image_layouts::VIDEO_ENCODE_DST_KHR },
        AccessType::VideoEncodeReadWrite => AccessInfo { stage_mask: stage_flags::VIDEO_ENCODE_KHR, access_mask: access_flags::VIDEO_ENCODE_READ_KHR | access_flags::VIDEO_ENCODE_WRITE_KHR, image_layout: image_layouts::VIDEO_ENCODE_DPB_KHR },
        AccessType::OpticalFlowRead => AccessInfo { stage_mask: stage_flags::OPTICAL_FLOW_NV, access_mask: access_flags::OPTICAL_FLOW_READ_NV, image_layout: image_layouts::GENERAL },
        AccessType::OpticalFlowWrite => AccessInfo { stage_mask: stage_flags::OPTICAL_FLOW_NV, access_mask: access_flags::OPTICAL_FLOW_WRITE_NV, image_layout: image_layouts::GENERAL },
        AccessType::OpticalFlowReadWrite => AccessInfo { stage_mask: stage_flags::OPTICAL_FLOW_NV, access_mask: access_flags::OPTICAL_FLOW_READ_NV | access_flags::OPTICAL_FLOW_WRITE_NV, image_layout: image_layouts::GENERAL },
        AccessType::VertexShaderReadWrite => AccessInfo { stage_mask: stage_flags::VERTEX_SHADER, access_mask: access_flags::SHADER_STORAGE_READ | access_flags::SHADER_STORAGE_WRITE, image_layout: image_layouts::GENERAL },
        AccessType::TessellationControlShaderReadWrite => AccessInfo { stage_mask: stage_flags::TESSELLATION_CONTROL_SHADER, access_mask: access_flags::SHADER_STORAGE_READ | access_flags::SHADER_STORAGE_WRITE, image_layout: image_layouts::GENERAL },
        AccessType::TessellationEvaluationShaderReadWrite => AccessInfo { stage_mask: stage_flags::TESSELLATION_EVALUATION_SHADER, access_mask: access_flags::SHADER_STORAGE_READ | access_flags::SHADER_STORAGE_WRITE, image_layout: image_layouts::GENERAL },
        AccessType::GeometryShaderReadWrite => AccessInfo { stage_mask: stage_flags::GEOMETRY_SHADER, access_mask: access_flags::SHADER_STORAGE_READ | access_flags::SHADER_STORAGE_WRITE, image_layout: image_layouts::GENERAL },
        AccessType::FragmentShaderReadWrite => AccessInfo { stage_mask: stage_flags::FRAGMENT_SHADER, access_mask: access_flags::SHADER_STORAGE_READ | access_flags::SHADER_STORAGE_WRITE, image_layout: image_layouts::GENERAL },
        AccessType::MeshShaderReadWrite => AccessInfo { stage_mask: stage_flags::MESH_SHADER_EXT, access_mask: access_flags::SHADER_STORAGE_READ | access_flags::SHADER_STORAGE_WRITE, image_layout: image_layouts::GENERAL },
        AccessType::TaskShaderReadWrite => AccessInfo { stage_mask: stage_flags::TASK_SHADER_EXT, access_mask: access_flags::SHADER_STORAGE_READ | access_flags::SHADER_STORAGE_WRITE, image_layout: image_layouts::GENERAL },
        AccessType::AnyShaderReadWrite => AccessInfo { stage_mask: stage_flags::ALL_COMMANDS, access_mask: access_flags::SHADER_STORAGE_READ | access_flags::SHADER_STORAGE_WRITE, image_layout: image_layouts::GENERAL },
    }
}

proof fn lemma_write_bits_of_access_masks()
    by (bit_vector)
    ensures
        (access_flags::ACCELERATION_STRUCTURE_READ_KHR) & access_flags::ALL_WRITES == 0,
        (access_flags::ACCELERATION_STRUCTURE_WRITE_KHR) & access_flags::ALL_WRITES != 0,
        (access_flags::COLOR_ATTACHMENT_READ) & access_flags::ALL_WRITES == 0,
        (access_flags::COLOR_ATTACHMENT_READ | access_flags::COLOR_ATTACHMENT_WRITE) & access_flags::ALL_WRITES != 0,
        (access_flags::COLOR_ATTACHMENT_READ_NONCOHERENT_EXT) & access_flags::ALL_WRITES == 0,
        (access_flags::COLOR_ATTACHMENT_WRITE) & access_flags::ALL_WRITES != 0,
        (access_flags::COMMAND_PREPROCESS_READ_NV) & access_flags::ALL_WRITES == 0,
        (access_flags::COMMAND_PREPROCESS_WRITE_NV) & access_flags::ALL_WRITES != 0,
        (access_flags::CONDITIONAL_RENDERING_READ_EXT) & access_flags::ALL_WRITES == 0,
        (access_flags::DEPTH_STENCIL_ATTACHMENT_READ) & access_flags::ALL_WRITES == 0,
        (access_flags::DEPTH_STENCIL_ATTACHMENT_READ | access_flags::DEPTH_STENCIL_ATTACHMENT_WRITE) & access_flags::ALL_WRITES != 0,
        (access_flags::DEPTH_STENCIL_ATTACHMENT_WRITE) & access_flags::ALL_WRITES != 0,
        (access_flags::DEPTH_STENCIL_ATTACHMENT_WRITE | access_flags::DEPTH_STENCIL_ATTACHMENT_READ) & access_flags::ALL_WRITES != 0,
        (access_flags::DESCRIPTOR_BUFFER_READ_EXT) & access_flags::ALL_WRITES == 0,
        (access_flags::FRAGMENT_DENSITY_MAP_READ_EXT) & access_flags::ALL_WRITES == 0,
        (access_flags::FRAGMENT_SHADING_RATE_ATTACHMENT_READ_KHR) & access_flags::ALL_WRITES == 0,
        (access_flags::HOST_READ) & access_flags::ALL_WRITES == 0,
        (access_flags::HOST_WRITE) & access_flags::ALL_WRITES != 0,
        (access_flags::INDEX_READ) & access_flags::ALL_WRITES == 0,
        (access_flags::INDIRECT_COMMAND_READ) & access_flags::ALL_WRITES == 0,
        (access_flags::INPUT_ATTACHMENT_READ) & access_flags::ALL_WRITES == 0,
        (access_flags::INVOCATION_MASK_READ_HUAWEI) & access_flags::ALL_WRITES == 0,
        (access_flags::MEMORY_READ | access_flags::MEMORY_WRITE) & access_flags::ALL_WRITES != 0,
        (access_flags::MICROMAP_READ_EXT) & access_flags::ALL_WRITES == 0,
        (access_flags::MICROMAP_READ_EXT | access_flags::MICROMAP_WRITE_EXT) & access_flags::ALL_WRITES != 0,
        (access_flags::MICROMAP_WRITE_EXT) & access_flags::ALL_WRITES != 0,
        (access_flags::NONE) & access_flags::ALL_WRITES == 0,
        (access_flags::OPTICAL_FLOW_READ_NV) & access_flags::ALL_WRITES == 0,
        (access_flags::OPTICAL_FLOW_READ_NV | access_flags::OPTICAL_FLOW_WRITE_NV) & access_flags::ALL_WRITES != 0,
        (access_flags::OPTICAL_FLOW_WRITE_NV) & access_flags::ALL_WRITES != 0,
        (access_flags::SHADER_BINDING_TABLE_READ_KHR) & access_flags::ALL_WRITES == 0,
        (access_flags::SHADER_READ) & access_flags::ALL_WRITES == 0,
        (access_flags::SHADER_SAMPLED_READ) & access_flags::ALL_WRITES == 0,
        (access_flags::SHADER_STORAGE_READ | access_flags::SHADER_STORAGE_WRITE) & access_flags::ALL_WRITES != 0,
        (access_flags::SHADER_STORAGE_WRITE) & access_flags::ALL_WRITES != 0,
        (access_flags::TRANSFER_READ) & access_flags::ALL_WRITES == 0,
        (access_flags::TRANSFER_WRITE) & access_flags::ALL_WRITES != 0,
        (access_flags::TRANSFORM_FEEDBACK_COUNTER_READ_EXT) & access_flags::ALL_WRITES == 0,
        (access_flags::TRANSFORM_FEEDBACK_COUNTER_WRITE_EXT) & access_flags::ALL_WRITES != 0,
        (access_flags::TRANSFORM_FEEDBACK_WRITE_EXT) & access_flags::ALL_WRITES != 0,
        (access_flags::UNIFORM_READ) & access_flags::ALL_WRITES == 0,
        (access_flags::UNIFORM_READ | access_flags::VERTEX_ATTRIBUTE_READ) & access_flags::ALL_WRITES == 0,
        (access_flags::VERTEX_ATTRIBUTE_READ) & access_flags::ALL_WRITES == 0,
        (access_flags::VIDEO_DECODE_READ_KHR) & access_flags::ALL_WRITES == 0,
        (access_flags::VIDEO_DECODE_READ_KHR | access_flags::VIDEO_DECODE_WRITE_KHR) & access_flags::ALL_WRITES != 0,
        (access_flags::VIDEO_DECODE_WRITE_KHR) & access_flags::ALL_WRITES != 0,
        (access_flags::VIDEO_ENCODE_READ_KHR) & access_flags::ALL_WRITES == 0,
        (access_flags::VIDEO_ENCODE_READ_KHR | access_flags::VIDEO_ENCODE_WRITE_KHR) & access_flags::ALL_WRITES != 0,
        (access_flags::VIDEO_ENCODE_WRITE_KHR) & access_flags::ALL_WRITES != 0,
{
}

/// An access type counts as a write exactly when the memory accesses it performs include a
/// write: `is_write_access` agrees with the write bits of its access mask.
pub proof fn lemma_write_access_iff_write_bits(access_type: AccessType)
    ensures
        access_type.spec_is_write_access() <==> (access_info(access_type).access_mask
            & access_flags::ALL_WRITES) != 0,
{
    lemma_write_bits_of_access_masks();
}

} // verus!
