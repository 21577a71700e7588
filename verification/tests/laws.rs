//! Concrete instances of the library's laws, and its edge cases and error variants.

use ash::vk;
use ash::vk::Handle;
use vk_sync_fork as vk_sync;

use vk_sync::layout::{combine, resolve_image_layout};
use vk_sync::{
    get_buffer_memory_barrier, get_event_stage_mask, get_memory_barrier,
    try_get_dependency_info, try_get_image_memory_barrier, AccessType, BarrierDirection,
    BufferBarrier, GlobalBarrier, ImageBarrier, ImageLayout, LayoutError,
};
use vk_sync::{image_layouts, stage_flags};

fn image_barrier<'a>(
    previous: &'a [AccessType],
    next: &'a [AccessType],
    previous_layout: ImageLayout,
    next_layout: ImageLayout,
    discard_contents: bool,
) -> ImageBarrier<'a> {
    ImageBarrier {
        previous_accesses: previous,
        next_accesses: next,
        previous_layout,
        next_layout,
        discard_contents,
        src_queue_family_index: 3,
        dst_queue_family_index: 4,
        image: vk::Image::from_raw(77),
        range: vk::ImageSubresourceRange {
            aspect_mask: vk::ImageAspectFlags::COLOR,
            base_mip_level: 1,
            level_count: 2,
            base_array_layer: 3,
            layer_count: 4,
        },
    }
}

fn buffer_barrier<'a>(previous: &'a [AccessType], next: &'a [AccessType]) -> BufferBarrier<'a> {
    BufferBarrier {
        previous_accesses: previous,
        next_accesses: next,
        src_queue_family_index: 5,
        dst_queue_family_index: 6,
        buffer: vk::Buffer::from_raw(42),
        offset: 16,
        size: 256,
    }
}

#[test]
fn memory_barrier_ignores_order_and_repetition() {
    let a = get_memory_barrier(&GlobalBarrier {
        previous_accesses: &[AccessType::TransferWrite, AccessType::ComputeShaderWrite],
        next_accesses: &[AccessType::VertexBuffer, AccessType::IndexBuffer],
    });
    let b = get_memory_barrier(&GlobalBarrier {
        previous_accesses: &[
            AccessType::ComputeShaderWrite,
            AccessType::TransferWrite,
            AccessType::ComputeShaderWrite,
        ],
        next_accesses: &[AccessType::IndexBuffer, AccessType::VertexBuffer, AccessType::IndexBuffer],
    });
    assert_eq!(a, b);
    assert_eq!(
        a.src_stage_mask,
        (vk::PipelineStageFlags2::ALL_TRANSFER | vk::PipelineStageFlags2::COMPUTE_SHADER).as_raw()
    );
    assert_eq!(
        a.src_access_mask,
        (vk::AccessFlags2::TRANSFER_WRITE | vk::AccessFlags2::SHADER_STORAGE_WRITE).as_raw()
    );
    assert_eq!(
        a.dst_stage_mask,
        (vk::PipelineStageFlags2::VERTEX_ATTRIBUTE_INPUT | vk::PipelineStageFlags2::INDEX_INPUT)
            .as_raw()
    );
    assert_eq!(
        a.dst_access_mask,
        (vk::AccessFlags2::VERTEX_ATTRIBUTE_READ | vk::AccessFlags2::INDEX_READ).as_raw()
    );
}

#[test]
fn empty_global_barrier_is_all_zero() {
    let barrier = get_memory_barrier(&GlobalBarrier::default());
    assert_eq!(barrier.src_stage_mask, 0);
    assert_eq!(barrier.src_access_mask, 0);
    assert_eq!(barrier.dst_stage_mask, 0);
    assert_eq!(barrier.dst_access_mask, 0);
}

#[test]
fn buffer_barrier_after_reads_is_an_execution_dependency_only() {
    let barrier = get_buffer_memory_barrier(&buffer_barrier(
        &[AccessType::VertexBuffer, AccessType::TransferRead],
        &[AccessType::TransferWrite],
    ));
    assert_eq!(barrier.src_access_mask, 0);
    assert_eq!(barrier.dst_access_mask, 0);
    assert_eq!(
        barrier.src_stage_mask,
        (vk::PipelineStageFlags2::VERTEX_ATTRIBUTE_INPUT | vk::PipelineStageFlags2::ALL_TRANSFER)
            .as_raw()
    );
    assert_eq!(barrier.dst_stage_mask, vk::PipelineStageFlags2::ALL_TRANSFER.as_raw());
}

#[test]
fn buffer_barrier_passes_its_resource_through() {
    let original = buffer_barrier(&[AccessType::HostWrite], &[AccessType::IndirectBuffer]);
    let barrier = get_buffer_memory_barrier(&original.clone());
    assert_eq!(barrier.buffer.as_raw(), 42);
    assert_eq!(barrier.src_queue_family_index, 5);
    assert_eq!(barrier.dst_queue_family_index, 6);
    assert_eq!(barrier.offset, 16);
    assert_eq!(barrier.size, 256);
    assert_eq!(barrier.src_access_mask, vk::AccessFlags2::HOST_WRITE.as_raw());
    assert_eq!(barrier.dst_access_mask, vk::AccessFlags2::INDIRECT_COMMAND_READ.as_raw());
}

#[test]
fn image_barrier_passes_its_resource_through() {
    let original = image_barrier(
        &[AccessType::TransferWrite],
        &[AccessType::FragmentShaderReadSampledImageOrUniformTexelBuffer],
        ImageLayout::Optimal,
        ImageLayout::Optimal,
        false,
    );
    let barrier = try_get_image_memory_barrier(&original.clone()).unwrap();
    assert_eq!(barrier.image.as_raw(), 77);
    assert_eq!(barrier.src_queue_family_index, 3);
    assert_eq!(barrier.dst_queue_family_index, 4);
    assert_eq!(barrier.subresource_range.aspect_mask, vk::ImageAspectFlags::COLOR);
    assert_eq!(barrier.subresource_range.base_mip_level, 1);
    assert_eq!(barrier.subresource_range.level_count, 2);
    assert_eq!(barrier.subresource_range.base_array_layer, 3);
    assert_eq!(barrier.subresource_range.layer_count, 4);
    assert_eq!(barrier.old_layout, image_layouts::TRANSFER_DST_OPTIMAL);
    assert_eq!(barrier.new_layout, image_layouts::SHADER_READ_ONLY_OPTIMAL);
}

#[test]
fn image_barrier_ignores_order_and_repetition() {
    let a = try_get_image_memory_barrier(&image_barrier(
        &[AccessType::ColorAttachmentWrite, AccessType::Nothing],
        &[
            AccessType::TransferRead,
            AccessType::FragmentShaderReadSampledImageOrUniformTexelBuffer,
        ],
        ImageLayout::Optimal,
        ImageLayout::Optimal,
        false,
    ))
    .unwrap();
    let b = try_get_image_memory_barrier(&image_barrier(
        &[AccessType::Nothing, AccessType::ColorAttachmentWrite, AccessType::Nothing],
        &[
            AccessType::FragmentShaderReadSampledImageOrUniformTexelBuffer,
            AccessType::TransferRead,
            AccessType::TransferRead,
        ],
        ImageLayout::Optimal,
        ImageLayout::Optimal,
        false,
    ))
    .unwrap();
    assert_eq!(a.old_layout, b.old_layout);
    assert_eq!(a.new_layout, b.new_layout);
    assert_eq!(a.src_stage_mask, b.src_stage_mask);
    assert_eq!(a.src_access_mask, b.src_access_mask);
    assert_eq!(a.dst_stage_mask, b.dst_stage_mask);
    assert_eq!(a.dst_access_mask, b.dst_access_mask);
    assert_eq!(a.old_layout, image_layouts::COLOR_ATTACHMENT_OPTIMAL);
    assert_eq!(a.new_layout, image_layouts::GENERAL);
}

#[test]
fn successive_barriers_agree_on_the_widened_layout() {
    let set = [
        AccessType::TransferRead,
        AccessType::FragmentShaderReadSampledImageOrUniformTexelBuffer,
    ];
    let same_set_reordered = [
        AccessType::FragmentShaderReadSampledImageOrUniformTexelBuffer,
        AccessType::TransferRead,
        AccessType::Nothing,
    ];
    let first = try_get_image_memory_barrier(&image_barrier(
        &[AccessType::TransferWrite],
        &set,
        ImageLayout::Optimal,
        ImageLayout::Optimal,
        false,
    ))
    .unwrap();
    let second = try_get_image_memory_barrier(&image_barrier(
        &same_set_reordered,
        &[AccessType::ColorAttachmentWrite],
        ImageLayout::Optimal,
        ImageLayout::Optimal,
        false,
    ))
    .unwrap();
    assert_eq!(first.new_layout, image_layouts::GENERAL);
    assert_eq!(second.old_layout, first.new_layout);
}

#[test]
fn image_barrier_always_makes_next_accesses_visible() {
    let barrier = try_get_image_memory_barrier(&image_barrier(
        &[AccessType::FragmentShaderReadSampledImageOrUniformTexelBuffer],
        &[AccessType::ColorAttachmentWrite],
        ImageLayout::Optimal,
        ImageLayout::Optimal,
        false,
    ))
    .unwrap();
    assert_eq!(barrier.src_access_mask, 0);
    assert_eq!(barrier.dst_access_mask, vk::AccessFlags2::COLOR_ATTACHMENT_WRITE.as_raw());
    assert_eq!(barrier.old_layout, image_layouts::SHADER_READ_ONLY_OPTIMAL);
    assert_eq!(barrier.new_layout, image_layouts::COLOR_ATTACHMENT_OPTIMAL);
}

#[test]
fn general_layout_keeps_present_apart() {
    let barrier = try_get_image_memory_barrier(&image_barrier(
        &[AccessType::ComputeShaderWrite, AccessType::TransferRead],
        &[AccessType::Present],
        ImageLayout::General,
        ImageLayout::General,
        false,
    ))
    .unwrap();
    assert_eq!(barrier.old_layout, image_layouts::GENERAL);
    assert_eq!(barrier.new_layout, image_layouts::PRESENT_SRC_KHR);
}

#[test]
fn shared_present_never_conflicts() {
    let barrier = try_get_image_memory_barrier(&image_barrier(
        &[AccessType::Present, AccessType::TransferWrite, AccessType::FragmentDensityMapRead],
        &[AccessType::VideoDecodeWrite, AccessType::ColorAttachmentWrite, AccessType::Present],
        ImageLayout::GeneralAndPresentation,
        ImageLayout::GeneralAndPresentation,
        false,
    ))
    .unwrap();
    assert_eq!(barrier.old_layout, image_layouts::SHARED_PRESENT_KHR);
    assert_eq!(barrier.new_layout, image_layouts::SHARED_PRESENT_KHR);
}

#[test]
fn layoutless_accesses_are_neutral() {
    let plain = resolve_image_layout(
        &[AccessType::DepthStencilAttachmentRead],
        ImageLayout::Optimal,
        BarrierDirection::Next,
    );
    let padded = resolve_image_layout(
        &[
            AccessType::Nothing,
            AccessType::DepthStencilAttachmentRead,
            AccessType::IndexBuffer,
            AccessType::ConditionalRenderingRead,
        ],
        ImageLayout::Optimal,
        BarrierDirection::Next,
    );
    assert_eq!(plain, Ok(Some(image_layouts::DEPTH_STENCIL_READ_ONLY_OPTIMAL)));
    assert_eq!(padded, plain);
}

#[test]
fn layouts_that_need_no_layout_resolve_to_none() {
    assert_eq!(
        resolve_image_layout(&[], ImageLayout::Optimal, BarrierDirection::Previous),
        Ok(None)
    );
    assert_eq!(
        resolve_image_layout(
            &[AccessType::Nothing, AccessType::AnyShaderReadUniformBuffer],
            ImageLayout::General,
            BarrierDirection::Previous
        ),
        Ok(None)
    );
}

#[test]
fn combining_layouts_widens_by_category() {
    assert_eq!(
        combine(image_layouts::SHADER_READ_ONLY_OPTIMAL, image_layouts::SHADER_READ_ONLY_OPTIMAL),
        Some(image_layouts::SHADER_READ_ONLY_OPTIMAL)
    );
    assert_eq!(
        combine(
            image_layouts::SHADER_READ_ONLY_OPTIMAL,
            image_layouts::DEPTH_STENCIL_READ_ONLY_OPTIMAL
        ),
        Some(image_layouts::READ_ONLY_OPTIMAL)
    );
    assert_eq!(
        combine(
            image_layouts::COLOR_ATTACHMENT_OPTIMAL,
            image_layouts::DEPTH_READ_ONLY_STENCIL_ATTACHMENT_OPTIMAL
        ),
        Some(image_layouts::ATTACHMENT_OPTIMAL)
    );
    assert_eq!(
        combine(image_layouts::TRANSFER_SRC_OPTIMAL, image_layouts::TRANSFER_DST_OPTIMAL),
        Some(image_layouts::GENERAL)
    );
    assert_eq!(
        combine(image_layouts::READ_ONLY_OPTIMAL, image_layouts::COLOR_ATTACHMENT_OPTIMAL),
        Some(image_layouts::GENERAL)
    );
    assert_eq!(
        combine(image_layouts::FRAGMENT_DENSITY_MAP_OPTIMAL_EXT, image_layouts::GENERAL),
        None
    );
    assert_eq!(combine(image_layouts::GENERAL, image_layouts::VIDEO_ENCODE_DPB_KHR), None);
    assert_eq!(
        combine(image_layouts::VIDEO_DECODE_DST_KHR, image_layouts::VIDEO_DECODE_DST_KHR),
        Some(image_layouts::VIDEO_DECODE_DST_KHR)
    );
}

#[test]
fn video_and_density_map_layouts_conflict_with_others() {
    let result = try_get_image_memory_barrier(&image_barrier(
        &[AccessType::Nothing],
        &[AccessType::FragmentShaderReadSampledImageOrUniformTexelBuffer, AccessType::VideoDecodeRead],
        ImageLayout::Optimal,
        ImageLayout::Optimal,
        false,
    ));
    assert_eq!(
        result.unwrap_err(),
        LayoutError::Conflict {
            direction: BarrierDirection::Next,
            resolved: image_layouts::SHADER_READ_ONLY_OPTIMAL,
            access: AccessType::VideoDecodeRead,
            required: image_layouts::VIDEO_DECODE_SRC_KHR,
        }
    );
    let result = try_get_image_memory_barrier(&image_barrier(
        &[AccessType::FragmentDensityMapRead, AccessType::TransferWrite],
        &[AccessType::Present],
        ImageLayout::Optimal,
        ImageLayout::Optimal,
        false,
    ));
    assert_eq!(
        result.unwrap_err(),
        LayoutError::Conflict {
            direction: BarrierDirection::Previous,
            resolved: image_layouts::FRAGMENT_DENSITY_MAP_OPTIMAL_EXT,
            access: AccessType::TransferWrite,
            required: image_layouts::TRANSFER_DST_OPTIMAL,
        }
    );
}

#[test]
fn previous_conflict_is_reported_before_next_conflict() {
    let result = try_get_image_memory_barrier(&image_barrier(
        &[AccessType::Present, AccessType::HostWrite],
        &[AccessType::Present, AccessType::TransferRead],
        ImageLayout::Optimal,
        ImageLayout::Optimal,
        false,
    ));
    assert!(matches!(
        result,
        Err(LayoutError::Conflict { direction: BarrierDirection::Previous, .. })
    ));
}

#[test]
fn buffer_only_accesses_on_both_sides_have_no_new_layout() {
    let result = try_get_image_memory_barrier(&image_barrier(
        &[AccessType::Nothing, AccessType::TransferWrite],
        &[AccessType::IndexBuffer],
        ImageLayout::Optimal,
        ImageLayout::Optimal,
        false,
    ));
    assert!(result.is_ok());
    let result = try_get_image_memory_barrier(&image_barrier(
        &[AccessType::Nothing, AccessType::HostRead],
        &[AccessType::IndexBuffer],
        ImageLayout::Optimal,
        ImageLayout::Optimal,
        true,
    ))
    .unwrap();
    assert_eq!(result.old_layout, image_layouts::UNDEFINED);
    assert_eq!(result.new_layout, image_layouts::GENERAL);
    let result = try_get_image_memory_barrier(&image_barrier(
        &[AccessType::Nothing],
        &[AccessType::IndexBuffer, AccessType::AnyShaderReadUniformBuffer],
        ImageLayout::Optimal,
        ImageLayout::Optimal,
        true,
    ));
    assert_eq!(result.unwrap_err(), LayoutError::UndefinedNewLayout);
}

#[test]
fn error_messages_name_the_failing_side() {
    let previous = LayoutError::Conflict {
        direction: BarrierDirection::Previous,
        resolved: image_layouts::PRESENT_SRC_KHR,
        access: AccessType::TransferWrite,
        required: image_layouts::TRANSFER_DST_OPTIMAL,
    };
    let next = LayoutError::Conflict {
        direction: BarrierDirection::Next,
        resolved: image_layouts::PRESENT_SRC_KHR,
        access: AccessType::TransferWrite,
        required: image_layouts::TRANSFER_DST_OPTIMAL,
    };
    assert_eq!(previous.message(), "conflicting image layouts in previous_accesses");
    assert_eq!(next.message(), "conflicting image layouts in next_accesses");
    assert_eq!(
        LayoutError::UndefinedNewLayout.message(),
        "image barrier has no layout to transition to: new_layout would be UNDEFINED"
    );
}

#[test]
fn event_stage_mask_covers_every_previous_stage() {
    assert_eq!(get_event_stage_mask(&[]), 0);
    assert_eq!(
        get_event_stage_mask(&[
            AccessType::ComputeShaderWrite,
            AccessType::TransferRead,
            AccessType::DepthStencilAttachmentWrite,
        ]),
        stage_flags::COMPUTE_SHADER
            | stage_flags::ALL_TRANSFER
            | stage_flags::EARLY_FRAGMENT_TESTS
            | stage_flags::LATE_FRAGMENT_TESTS
    );
    assert_eq!(get_event_stage_mask(&[AccessType::Present, AccessType::Nothing]), 0);
}

#[test]
fn dependency_info_maps_every_barrier_in_order() {
    let buffers = [
        buffer_barrier(&[AccessType::ComputeShaderWrite], &[AccessType::VertexBuffer]),
        buffer_barrier(&[AccessType::TransferWrite], &[AccessType::HostRead]),
    ];
    let images = [image_barrier(
        &[AccessType::Nothing],
        &[AccessType::ColorAttachmentWrite],
        ImageLayout::Optimal,
        ImageLayout::Optimal,
        true,
    )];
    let global = GlobalBarrier {
        previous_accesses: &[AccessType::HostWrite],
        next_accesses: &[AccessType::TransferRead],
    };
    let info = try_get_dependency_info(Some(global.clone()), &buffers, &images).unwrap();
    assert_eq!(info.memory_barrier, Some(get_memory_barrier(&global)));
    assert_eq!(info.buffer_memory_barriers.len(), 2);
    assert_eq!(
        info.buffer_memory_barriers[0].dst_stage_mask,
        vk::PipelineStageFlags2::VERTEX_ATTRIBUTE_INPUT.as_raw()
    );
    assert_eq!(
        info.buffer_memory_barriers[1].dst_stage_mask,
        vk::PipelineStageFlags2::HOST.as_raw()
    );
    assert_eq!(info.image_memory_barriers.len(), 1);
    assert_eq!(info.image_memory_barriers[0].new_layout, image_layouts::COLOR_ATTACHMENT_OPTIMAL);

    let empty = try_get_dependency_info(None, &[], &[]).unwrap();
    assert_eq!(empty.memory_barrier, None);
    assert!(empty.buffer_memory_barriers.is_empty());
    assert!(empty.image_memory_barriers.is_empty());
}

#[test]
fn dependency_info_reports_the_first_failing_image_barrier() {
    let images = [
        image_barrier(
            &[AccessType::Nothing],
            &[AccessType::ColorAttachmentWrite],
            ImageLayout::Optimal,
            ImageLayout::Optimal,
            false,
        ),
        image_barrier(&[], &[], ImageLayout::Optimal, ImageLayout::Optimal, false),
        image_barrier(
            &[AccessType::Nothing],
            &[AccessType::Present, AccessType::ColorAttachmentWrite],
            ImageLayout::Optimal,
            ImageLayout::Optimal,
            false,
        ),
    ];
    let result = try_get_dependency_info(None, &[], &images);
    assert_eq!(result.unwrap_err(), LayoutError::UndefinedNewLayout);
}

#[test]
fn defaults() {
    assert_eq!(AccessType::default(), AccessType::Nothing);
    assert_eq!(ImageLayout::default(), ImageLayout::Optimal);
    let global = GlobalBarrier::default();
    assert!(global.previous_accesses.is_empty() && global.next_accesses.is_empty());
    let buffer = BufferBarrier::default();
    assert!(buffer.previous_accesses.is_empty() && buffer.next_accesses.is_empty());
    assert_eq!(buffer.buffer, vk::Buffer::null());
    assert_eq!((buffer.offset, buffer.size), (0, 0));
    let image = ImageBarrier::default();
    assert!(image.previous_accesses.is_empty() && image.next_accesses.is_empty());
    assert_eq!(image.image, vk::Image::null());
    assert_eq!(image.previous_layout, ImageLayout::Optimal);
    assert!(!image.discard_contents);
}

#[test]
fn buffer_barrier_ignores_order_and_repetition() {
    let a = get_buffer_memory_barrier(&buffer_barrier(
        &[AccessType::ComputeShaderWrite, AccessType::TransferRead],
        &[AccessType::IndirectBuffer, AccessType::FragmentShaderReadUniformBuffer],
    ));
    let b = get_buffer_memory_barrier(&buffer_barrier(
        &[AccessType::TransferRead, AccessType::TransferRead, AccessType::ComputeShaderWrite],
        &[AccessType::FragmentShaderReadUniformBuffer, AccessType::IndirectBuffer],
    ));
    assert_eq!(a.src_stage_mask, b.src_stage_mask);
    assert_eq!(a.src_access_mask, b.src_access_mask);
    assert_eq!(a.dst_stage_mask, b.dst_stage_mask);
    assert_eq!(a.dst_access_mask, b.dst_access_mask);
    assert_eq!(a.src_access_mask, vk::AccessFlags2::SHADER_STORAGE_WRITE.as_raw());
    assert_eq!(
        a.dst_access_mask,
        (vk::AccessFlags2::INDIRECT_COMMAND_READ | vk::AccessFlags2::UNIFORM_READ).as_raw()
    );
}
