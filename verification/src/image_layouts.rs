//! Values of `VkImageLayout` that barriers produced by this crate can carry.
use vstd::prelude::*;

verus! {

pub const UNDEFINED: i32 = 0;
pub const GENERAL: i32 = 1;
pub const COLOR_ATTACHMENT_OPTIMAL: i32 = 2;
pub const DEPTH_STENCIL_ATTACHMENT_OPTIMAL: i32 = 3;
pub const DEPTH_STENCIL_READ_ONLY_OPTIMAL: i32 = 4;
pub const SHADER_READ_ONLY_OPTIMAL: i32 = 5;
pub const TRANSFER_SRC_OPTIMAL: i32 = 6;
pub const TRANSFER_DST_OPTIMAL: i32 = 7;
pub const PRESENT_SRC_KHR: i32 = 1000001002;
pub const VIDEO_DECODE_DST_KHR: i32 = 1000024000;
pub const VIDEO_DECODE_SRC_KHR: i32 = 1000024001;
pub const VIDEO_DECODE_DPB_KHR: i32 = 1000024002;
pub const SHARED_PRESENT_KHR: i32 = 1000111000;
pub const DEPTH_READ_ONLY_STENCIL_ATTACHMENT_OPTIMAL: i32 = 1000117000;
pub const DEPTH_ATTACHMENT_STENCIL_READ_ONLY_OPTIMAL: i32 = 1000117001;
pub const FRAGMENT_SHADING_RATE_ATTACHMENT_OPTIMAL_KHR: i32 = 1000164003;
pub const FRAGMENT_DENSITY_MAP_OPTIMAL_EXT: i32 = 1000218000;
pub const VIDEO_ENCODE_DST_KHR: i32 = 1000299000;
pub const VIDEO_ENCODE_SRC_KHR: i32 = 1000299001;
pub const VIDEO_ENCODE_DPB_KHR: i32 = 1000299002;
pub const READ_ONLY_OPTIMAL: i32 = 1000314000;
pub const ATTACHMENT_OPTIMAL: i32 = 1000314001;

} // verus!
