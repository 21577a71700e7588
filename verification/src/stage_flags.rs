//! Bits of `VkPipelineStageFlags2`, as the raw 64-bit values that Vulkan defines for them.
use vstd::prelude::*;

verus! {

pub const NONE: u64 = 0x0;
pub const DRAW_INDIRECT: u64 = 0x2;
pub const VERTEX_SHADER: u64 = 0x8;
pub const TESSELLATION_CONTROL_SHADER: u64 = 0x10;
pub const TESSELLATION_EVALUATION_SHADER: u64 = 0x20;
pub const GEOMETRY_SHADER: u64 = 0x40;
pub const FRAGMENT_SHADER: u64 = 0x80;
pub const EARLY_FRAGMENT_TESTS: u64 = 0x100;
pub const LATE_FRAGMENT_TESTS: u64 = 0x200;
pub const COLOR_ATTACHMENT_OUTPUT: u64 = 0x400;
pub const COMPUTE_SHADER: u64 = 0x800;
pub const ALL_TRANSFER: u64 = 0x1000;
pub const HOST: u64 = 0x4000;
pub const ALL_COMMANDS: u64 = 0x10000;
pub const COMMAND_PREPROCESS_NV: u64 = 0x20000;
pub const CONDITIONAL_RENDERING_EXT: u64 = 0x40000;
pub const TASK_SHADER_EXT: u64 = 0x80000;
pub const MESH_SHADER_EXT: u64 = 0x100000;
pub const RAY_TRACING_SHADER_KHR: u64 = 0x200000;
pub const FRAGMENT_SHADING_RATE_ATTACHMENT_KHR: u64 = 0x400000;
pub const FRAGMENT_DENSITY_PROCESS_EXT: u64 = 0x800000;
pub const TRANSFORM_FEEDBACK_EXT: u64 = 0x1000000;
pub const ACCELERATION_STRUCTURE_BUILD_KHR: u64 = 0x2000000;
pub const VIDEO_DECODE_KHR: u64 = 0x4000000;
pub const VIDEO_ENCODE_KHR: u64 = 0x8000000;
pub const OPTICAL_FLOW_NV: u64 = 0x20000000;
pub const MICROMAP_BUILD_EXT: u64 = 0x40000000;
pub const INDEX_INPUT: u64 = 0x1000000000;
pub const VERTEX_ATTRIBUTE_INPUT: u64 = 0x2000000000;
pub const INVOCATION_MASK_HUAWEI: u64 = 0x10000000000;

} // verus!
