# vk-sync-fork

Simplified Vulkan synchronization 2: describe a barrier by the kinds of access before and after it
(`AccessType`) and get the stage masks, access masks and image layouts of the matching
`VkMemoryBarrier2`, `VkBufferMemoryBarrier2` or `VkImageMemoryBarrier2`.

The library (`src/`) is written in Verus, and every mapping function is proved against its
contract:

* `access_type` - the access types and their Vulkan stages, accesses and layouts;
* `masks` - combining the masks of an access list;
* `layout` - resolving the image layout an access list needs, widening read-only layouts to
  `READ_ONLY_OPTIMAL`, attachment layouts to `ATTACHMENT_OPTIMAL` and other mixes to `GENERAL`,
  and reporting lists that no layout serves;
* `barrier` - the barrier descriptions and their mapping, with the laws they obey (order
  independence, agreement of successive barriers, ...);
* `cmd` - what the command-buffer helpers record;
* `stage_flags`, `access_flags`, `image_layouts` - the raw Vulkan values used;
* `vk_handles` - the `ash` handles and ranges that barriers carry through.

`app/` holds the command-buffer helpers (`pipeline_barrier`, `set_event`, `reset_event`,
`wait_events`), which convert the computed barriers into `ash` structures and record them on an
`ash::Device`.
