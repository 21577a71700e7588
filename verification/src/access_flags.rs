//! Bits of `VkAccessFlags2`, as the raw 64-bit values that Vulkan defines for them.
use vstd::prelude::*;

verus! {

pub const NONE: u64 = 0x0;
pub const INDIRECT_COMMAND_READ: u64 = 0x1;
pub const INDEX_READ: u64 = 0x2;
pub const VERTEX_ATTRIBUTE_READ: u64 = 0x4;
pub const UNIFORM_READ: u64 = 0x8;
pub const INPUT_ATTACHMENT_READ: u64 = 0x10;
pub const SHADER_READ: u64 = 0x20;
pub const SHADER_WRITE: u64 = 0x40;
pub const COLOR_ATTACHMENT_READ: u64 = 0x80;
pub const COLOR_ATTACHMENT_WRITE: u64 = 0x100;
pub const DEPTH_STENCIL_ATTACHMENT_READ: u64 = 0x200;
pub const DEPTH_STENCIL_ATTACHMENT_WRITE: u64 = 0x400;
pub const TRANSFER_READ: u64 = 0x800;
pub const TRANSFER_WRITE: u64 = 0x1000;
pub const HOST_READ: u64 = 0x2000;
pub const HOST_WRITE: u64 = 0x4000;
pub const MEMORY_READ: u64 = 0x8000;
pub const MEMORY_WRITE: u64 = 0x10000;
pub const COMMAND_PREPROCESS_READ_NV: u64 = 0x20000;
pub const COMMAND_PREPROCESS_WRITE_NV: u64 = 0x40000;
pub const COLOR_ATTACHMENT_READ_NONCOHERENT_EXT: u64 = 0x80000;
pub const CONDITIONAL_RENDERING_READ_EXT: u64 = 0x100000;
pub const ACCELERATION_STRUCTURE_READ_KHR: u64 = 0x200000;
pub const ACCELERATION_STRUCTURE_WRITE_KHR: u64 = 0x400000;
pub const FRAGMENT_SHADING_RATE_ATTACHMENT_READ_KHR: u64 = 0x800000;
pub const FRAGMENT_DENSITY_MAP_READ_EXT: u64 = 0x1000000;
pub const TRANSFORM_FEEDBACK_WRITE_EXT: u64 = 0x2000000;
pub const TRANSFORM_FEEDBACK_COUNTER_READ_EXT: u64 = 0x4000000;
pub const TRANSFORM_FEEDBACK_COUNTER_WRITE_EXT: u64 = 0x8000000;
pub const SHADER_SAMPLED_READ: u64 = 0x100000000;
pub const SHADER_STORAGE_READ: u64 = 0x200000000;
pub const SHADER_STORAGE_WRITE: u64 = 0x400000000;
pub const VIDEO_DECODE_READ_KHR: u64 = 0x800000000;
pub const VIDEO_DECODE_WRITE_KHR: u64 = 0x1000000000;
pub const VIDEO_ENCODE_READ_KHR: u64 = 0x2000000000;
pub const VIDEO_ENCODE_WRITE_KHR: u64 = 0x4000000000;
pub const INVOCATION_MASK_READ_HUAWEI: u64 = 0x8000000000;
pub const SHADER_BINDING_TABLE_READ_KHR: u64 = 0x10000000000;
pub const DESCRIPTOR_BUFFER_READ_EXT: u64 = 0x20000000000;
pub const OPTICAL_FLOW_READ_NV: u64 = 0x40000000000;
pub const OPTICAL_FLOW_WRITE_NV: u64 = 0x80000000000;
pub const MICROMAP_READ_EXT: u64 = 0x100000000000;
pub const MICROMAP_WRITE_EXT: u64 = 0x200000000000;

/// Every bit above that grants write access to memory.
pub const ALL_WRITES: u64 = 0x28540a455540;

} // verus!
