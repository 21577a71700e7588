//! In an effort to make Vulkan synchronization more accessible, this library
//! provides a simplification of core synchronization mechanisms such as
//! pipeline barriers and events.
//!
//! Rather than the complex maze of enums and bit flags in Vulkan - many
//! combinations of which are invalid or nonsensical - this library collapses
//! this to a shorter list of distinct usage types, and a couple of options
//! for handling image layouts.
//!
//! The library targets Vulkan synchronization 2 (`VK_KHR_synchronization2`,
//! promoted in Vulkan 1.3). Its mapping functions produce the contents of
//! `VkMemoryBarrier2`, `VkBufferMemoryBarrier2` and `VkImageMemoryBarrier2`
//! as plain values: stage and access masks as the raw `u64` bits of
//! `VkPipelineStageFlags2` / `VkAccessFlags2`, image layouts as the raw
//! `VkImageLayout` value. Buffer and image handles and subresource ranges are
//! `ash` values that are carried through unchanged.

pub mod access_flags;
pub mod access_type;
pub mod barrier;
pub mod cmd;
pub mod image_layouts;
pub mod layout;
pub mod masks;
pub mod stage_flags;
pub mod vk_handles;

pub use access_type::{access_info, get_access_info, AccessInfo, AccessType};
pub use layout::{BarrierDirection, ImageLayout, LayoutError};
pub use barrier::{
    get_buffer_memory_barrier, get_image_memory_barrier, get_memory_barrier,
    try_get_image_memory_barrier, BufferBarrier, BufferMemoryBarrier, GlobalBarrier, ImageBarrier,
    ImageMemoryBarrier, MemoryBarrier,
};
pub use cmd::{get_event_stage_mask, try_get_dependency_info, DependencyInfo};
