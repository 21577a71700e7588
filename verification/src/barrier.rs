//! The barrier descriptions users write, and the Vulkan barriers they map to.
use crate::access_type::AccessType;
use crate::image_layouts;
use crate::access_type::access_info;
use crate::layout::{
    is_least_serving_layout, lemma_resolution_is_least_serving_layout, needs_layout, serves_all,
    lemma_resolution_is_order_independent, lemma_resolution_widens, combine_layouts,
    lemma_resolved_layout_is_defined, required_layout, required_layouts, resolve_image_layout,
    resolve_layouts, widen, BarrierDirection, ImageLayout, LayoutError,
};
use crate::masks::{
    is_least_cover, lemma_mask_union_is_least_cover, mask_union,
    access_union, combine_masks, lemma_mask_union_is_order_independent,
    lemma_reads_make_nothing_available, stage_union, write_access_union,
};
use ash::vk;
use vstd::prelude::*;

verus! {

/// Global barriers define a set of accesses on multiple resources at once.
/// If a buffer or image doesn't require a queue ownership transfer, or an image
/// doesn't require a layout transition (e.g. you're using one of the
/// `ImageLayout::General*` layouts) then a global barrier should be preferred.
///
/// Simply define the previous and next access types of resources affected.
#[derive(Debug, Clone)]
pub struct GlobalBarrier<'a> {
    pub previous_accesses: &'a [AccessType],
    pub next_accesses: &'a [AccessType],
}

impl<'a> Default for GlobalBarrier<'a> {
    /// A barrier with no accesses on either side.
    fn default() -> (r: Self)
        ensures
            r.previous_accesses@.len() == 0,
            r.next_accesses@.len() == 0,
    {
        GlobalBarrier { previous_accesses: &[], next_accesses: &[] }
    }
}

/// Buffer barriers should only be used when a queue family ownership transfer
/// is required - prefer global barriers at all other times.
///
/// Access types are defined in the same way as for a global memory barrier, but
/// they only affect the buffer range identified by `buffer`, `offset` and `size`,
/// rather than all resources.
///
/// `src_queue_family_index` and `dst_queue_family_index` will be passed unmodified
/// into a buffer memory barrier.
///
/// A buffer barrier defining a queue ownership transfer needs to be executed
/// twice - once by a queue in the source queue family, and then once again by a
/// queue in the destination queue family, with a semaphore guaranteeing
/// execution order between them.
#[derive(Debug, Clone)]
pub struct BufferBarrier<'a> {
    pub previous_accesses: &'a [AccessType],
    pub next_accesses: &'a [AccessType],
    pub src_queue_family_index: u32,
    pub dst_queue_family_index: u32,
    pub buffer: vk::Buffer,
    pub offset: usize,
    pub size: usize,
}

impl<'a> Default for BufferBarrier<'a> {
    /// A barrier with no accesses, over no range of the null buffer.
    fn default() -> (r: Self)
        ensures
            r.previous_accesses@.len() == 0,
            r.next_accesses@.len() == 0,
            r.src_queue_family_index == 0,
            r.dst_queue_family_index == 0,
            r.offset == 0,
            r.size == 0,
    {
        BufferBarrier {
            previous_accesses: &[],
            next_accesses: &[],
            src_queue_family_index: 0,
            dst_queue_family_index: 0,
            buffer: vk::Buffer::null(),
            offset: 0,
            size: 0,
        }
    }
}

/// Image barriers should only be used when a queue family ownership transfer
/// or an image layout transition is required - prefer global barriers at all
/// other times.
///
/// In general it is better to use image barriers with `ImageLayout::Optimal`
/// than it is to use global barriers with images using either of the
/// `ImageLayout::General*` layouts.
///
/// Access types are defined in the same way as for a global memory barrier, but
/// they only affect the image subresource range identified by `image` and
/// `range`, rather than all resources.
///
/// `src_queue_family_index`, `dst_queue_family_index`, `image`, and `range` will
/// be passed unmodified into an image memory barrier.
///
/// An image barrier defining a queue ownership transfer needs to be executed
/// twice - once by a queue in the source queue family, and then once again by a
/// queue in the destination queue family, with a semaphore guaranteeing
/// execution order between them.
///
/// If `discard_contents` is set to true, the contents of the image become
/// undefined after the barrier is executed, which can result in a performance
/// boost over attempting to preserve the contents. This is particularly useful
/// for transient images where the contents are going to be immediately overwritten.
/// A good example of when to use this is when an application re-uses a presented
/// image after acquiring the next swap chain image.
///
/// When the accesses of one list want different image layouts, they are served by one wider
/// layout (see the `layout` module). `previous_accesses` must therefore name the same set of
/// accesses as the `next_accesses` of the barrier that last transitioned the subresource, so that
/// the old layout computed here is the layout that barrier left the image in.
#[derive(Debug, Clone)]
pub struct ImageBarrier<'a> {
    pub previous_accesses: &'a [AccessType],
    pub next_accesses: &'a [AccessType],
    pub previous_layout: ImageLayout,
    pub next_layout: ImageLayout,
    pub discard_contents: bool,
    pub src_queue_family_index: u32,
    pub dst_queue_family_index: u32,
    pub image: vk::Image,
    pub range: vk::ImageSubresourceRange,
}

impl<'a> Default for ImageBarrier<'a> {
    /// A barrier with no accesses, keeping optimal layouts, over the default range of the null
    /// image.
    fn default() -> (r: Self)
        ensures
            r.previous_accesses@.len() == 0,
            r.next_accesses@.len() == 0,
            r.previous_layout == ImageLayout::Optimal,
            r.next_layout == ImageLayout::Optimal,
            !r.discard_contents,
            r.src_queue_family_index == 0,
            r.dst_queue_family_index == 0,
    {
        ImageBarrier {
            previous_accesses: &[],
            next_accesses: &[],
            previous_layout: ImageLayout::Optimal,
            next_layout: ImageLayout::Optimal,
            discard_contents: false,
            src_queue_family_index: 0,
            dst_queue_family_index: 0,
            image: vk::Image::null(),
            range: vk::ImageSubresourceRange::default(),
        }
    }
}

/// The contents of a `VkMemoryBarrier2`.
#[derive(Debug, Copy, Clone, PartialEq, Eq, Structural)]
pub struct MemoryBarrier {
    pub src_stage_mask: u64,
    pub src_access_mask: u64,
    pub dst_stage_mask: u64,
    pub dst_access_mask: u64,
}

/// The contents of a `VkBufferMemoryBarrier2`.
#[derive(Debug, Copy, Clone)]
pub struct BufferMemoryBarrier {
    pub src_stage_mask: u64,
    pub src_access_mask: u64,
    pub dst_stage_mask: u64,
    pub dst_access_mask: u64,
    pub src_queue_family_index: u32,
    pub dst_queue_family_index: u32,
    pub buffer: vk::Buffer,
    pub offset: u64,
    pub size: u64,
}

/// The contents of a `VkImageMemoryBarrier2`.
#[derive(Debug, Copy, Clone)]
pub struct ImageMemoryBarrier {
    pub src_stage_mask: u64,
    pub src_access_mask: u64,
    pub dst_stage_mask: u64,
    pub dst_access_mask: u64,
    pub old_layout: i32,
    pub new_layout: i32,
    pub src_queue_family_index: u32,
    pub dst_queue_family_index: u32,
    pub image: vk::Image,
    pub subresource_range: vk::ImageSubresourceRange,
}

/// The memory barrier for a global barrier: the source side waits for every stage of the previous
/// accesses and makes their writes available; the destination side covers every stage of the next
/// accesses, and makes the writes visible to them. When nothing was written (a write-after-read
/// hazard, or a read-after-read) only the execution dependency is needed, so both access masks are
/// empty.
pub open spec fn memory_barrier_of<'a>(barrier: GlobalBarrier<'a>) -> MemoryBarrier {
    let src_access_mask = write_access_union(barrier.previous_accesses@);
    MemoryBarrier {
        src_stage_mask: stage_union(barrier.previous_accesses@),
        src_access_mask,
        dst_stage_mask: stage_union(barrier.next_accesses@),
        dst_access_mask: if src_access_mask != 0 {
            access_union(barrier.next_accesses@)
        } else {
            0
        },
    }
}

/// The buffer memory barrier for a buffer barrier: masks as for a global barrier, the rest passed
/// through.
pub open spec fn buffer_memory_barrier_of<'a>(barrier: BufferBarrier<'a>) -> BufferMemoryBarrier {
    let src_access_mask = write_access_union(barrier.previous_accesses@);
    BufferMemoryBarrier {
        src_stage_mask: stage_union(barrier.previous_accesses@),
        src_access_mask,
        dst_stage_mask: stage_union(barrier.next_accesses@),
        dst_access_mask: if src_access_mask != 0 {
            access_union(barrier.next_accesses@)
        } else {
            0
        },
        src_queue_family_index: barrier.src_queue_family_index,
        dst_queue_family_index: barrier.dst_queue_family_index,
        buffer: barrier.buffer,
        offset: barrier.offset as u64,
        size: barrier.size as u64,
    }
}

/// The old and new layouts of an image barrier. The old layout is `UNDEFINED` when the contents
/// are discarded, and otherwise the layout resolved for the previous accesses (`UNDEFINED` when
/// they imply none). The new layout is the layout resolved for the next accesses, or, when they
/// imply none, the layout the image is already in - the one resolved for the previous accesses,
/// before any discard. A conflict in the previous accesses is reported before one in the next
/// accesses; when neither side implies a layout, the barrier has no new layout to give.
pub open spec fn layout_transition_of<'a>(barrier: ImageBarrier<'a>) -> Result<(i32, i32), LayoutError> {
    match resolve_layouts(barrier.previous_layout, barrier.previous_accesses@, BarrierDirection::Previous) {
        Err(e) => Err(e),
        Ok(previous) => match resolve_layouts(barrier.next_layout, barrier.next_accesses@, BarrierDirection::Next) {
            Err(e) => Err(e),
            Ok(next) => {
                let old_layout = if barrier.discard_contents {
                    image_layouts::UNDEFINED
                } else {
                    match previous {
                        Some(l) => l,
                        None => image_layouts::UNDEFINED,
                    }
                };
                match next {
                    Some(l) => Ok((old_layout, l)),
                    None => match previous {
                        Some(l) => Ok((old_layout, l)),
                        None => Err(LayoutError::UndefinedNewLayout),
                    },
                }
            },
        },
    }
}

/// The image memory barrier for an image barrier. The source side is as for a global barrier;
/// the destination side always makes the writes visible to the next accesses, since a layout
/// transition is itself a write. The layouts are those of `layout_transition_of`; the rest is
/// passed through.
pub open spec fn image_memory_barrier_of<'a>(barrier: ImageBarrier<'a>) -> Result<ImageMemoryBarrier, LayoutError> {
    match layout_transition_of(barrier) {
        Err(e) => Err(e),
        Ok((old_layout, new_layout)) => Ok(
            ImageMemoryBarrier {
                src_stage_mask: stage_union(barrier.previous_accesses@),
                src_access_mask: write_access_union(barrier.previous_accesses@),
                dst_stage_mask: stage_union(barrier.next_accesses@),
                dst_access_mask: access_union(barrier.next_accesses@),
                old_layout,
                new_layout,
                src_queue_family_index: barrier.src_queue_family_index,
                dst_queue_family_index: barrier.dst_queue_family_index,
                image: barrier.image,
                subresource_range: barrier.range,
            },
        ),
    }
}

/// Mapping function that translates a global barrier into the contents of a synchronization 2
/// `VkMemoryBarrier2` (with stage and access masks populated) for use with
/// `vkCmdPipelineBarrier2` / `vkCmdWaitEvents2`.
pub fn get_memory_barrier<'a>(barrier: &GlobalBarrier<'a>) -> (r: MemoryBarrier)
    ensures
        r == memory_barrier_of(*barrier),
{
    let previous = combine_masks(barrier.previous_accesses);
    let next = combine_masks(barrier.next_accesses);
    // Without a write to make available, this is a WAR hazard (or a "RAR"): no visibility
    // operation is needed either.
    let dst_access_mask = if previous.write_access_mask != 0 {
        next.access_mask
    } else {
        0
    };
    MemoryBarrier {
        src_stage_mask: previous.stage_mask,
        src_access_mask: previous.write_access_mask,
        dst_stage_mask: next.stage_mask,
        dst_access_mask,
    }
}

/// Mapping function that translates a buffer barrier into the contents of a synchronization 2
/// `VkBufferMemoryBarrier2` for use with `vkCmdPipelineBarrier2` / `vkCmdWaitEvents2`.
pub fn get_buffer_memory_barrier<'a>(barrier: &BufferBarrier<'a>) -> (r: BufferMemoryBarrier)
    ensures
        r == buffer_memory_barrier_of(*barrier),
{
    let previous = combine_masks(barrier.previous_accesses);
    let next = combine_masks(barrier.next_accesses);
    let dst_access_mask = if previous.write_access_mask != 0 {
        next.access_mask
    } else {
        0
    };
    BufferMemoryBarrier {
        src_stage_mask: previous.stage_mask,
        src_access_mask: previous.write_access_mask,
        dst_stage_mask: next.stage_mask,
        dst_access_mask,
        src_queue_family_index: barrier.src_queue_family_index,
        dst_queue_family_index: barrier.dst_queue_family_index,
        buffer: barrier.buffer,
        offset: barrier.offset as u64,
        size: barrier.size as u64,
    }
}

fn get_layout_transition<'a>(barrier: &ImageBarrier<'a>) -> (r: Result<(i32, i32), LayoutError>)
    ensures
        r == layout_transition_of(*barrier),
{
    let previous = resolve_image_layout(
        barrier.previous_accesses,
        barrier.previous_layout,
        BarrierDirection::Previous,
    );
    let previous = match previous {
        Err(e) => {
            return Err(e);
        },
        Ok(previous) => previous,
    };
    let next = resolve_image_layout(
        barrier.next_accesses,
        barrier.next_layout,
        BarrierDirection::Next,
    );
    let next = match next {
        Err(e) => {
            return Err(e);
        },
        Ok(next) => next,
    };
    let old_layout = if barrier.discard_contents {
        image_layouts::UNDEFINED
    } else {
        match previous {
            Some(l) => l,
            None => image_layouts::UNDEFINED,
        }
    };
    // Without a layout of its own, the new layout keeps the one the image is already in - as
    // resolved for the previous accesses, not the discarded one.
    match next {
        Some(l) => Ok((old_layout, l)),
        None => match previous {
            Some(l) => Ok((old_layout, l)),
            None => Err(LayoutError::UndefinedNewLayout),
        },
    }
}

/// Mapping function that translates an image barrier into the contents of a synchronization 2
/// `VkImageMemoryBarrier2` for use with `vkCmdPipelineBarrier2` / `vkCmdWaitEvents2`, or reports
/// why the barrier admits no image layouts.
pub fn try_get_image_memory_barrier<'a>(barrier: &ImageBarrier<'a>) -> (r: Result<
    ImageMemoryBarrier,
    LayoutError,
>)
    ensures
        r == image_memory_barrier_of(*barrier),
        r matches Ok(b) ==> b.new_layout != image_layouts::UNDEFINED,
        r matches Ok(b) ==> (barrier.discard_contents ==> b.old_layout == image_layouts::UNDEFINED),
{
    proof {
        lemma_resolved_layout_is_defined(
            barrier.previous_layout,
            barrier.previous_accesses@,
            BarrierDirection::Previous,
        );
        lemma_resolved_layout_is_defined(
            barrier.next_layout,
            barrier.next_accesses@,
            BarrierDirection::Next,
        );
    }
    let (old_layout, new_layout) = match get_layout_transition(barrier) {
        Err(e) => {
            return Err(e);
        },
        Ok(layouts) => layouts,
    };
    let previous = combine_masks(barrier.previous_accesses);
    let next = combine_masks(barrier.next_accesses);
    Ok(
        ImageMemoryBarrier {
            src_stage_mask: previous.stage_mask,
            src_access_mask: previous.write_access_mask,
            dst_stage_mask: next.stage_mask,
            // Visibility in all cases, since otherwise we get WAW and RAW hazards.
            dst_access_mask: next.access_mask,
            old_layout,
            new_layout,
            src_queue_family_index: barrier.src_queue_family_index,
            dst_queue_family_index: barrier.dst_queue_family_index,
            image: barrier.image,
            subresource_range: barrier.range,
        },
    )
}

/// Mapping function that translates an image barrier into the contents of a synchronization 2
/// `VkImageMemoryBarrier2`, for a barrier whose accesses admit image layouts (see
/// `try_get_image_memory_barrier` for the barriers that do not).
pub fn get_image_memory_barrier<'a>(barrier: &ImageBarrier<'a>) -> (r: ImageMemoryBarrier)
    requires
        image_memory_barrier_of(*barrier) is Ok,
    ensures
        image_memory_barrier_of(*barrier) == Ok::<ImageMemoryBarrier, LayoutError>(r),
{
    match try_get_image_memory_barrier(barrier) {
        Ok(b) => b,
        Err(_) => {
            proof {
                assert(false);
            }
            ImageMemoryBarrier {
                src_stage_mask: 0,
                src_access_mask: 0,
                dst_stage_mask: 0,
                dst_access_mask: 0,
                old_layout: image_layouts::UNDEFINED,
                new_layout: image_layouts::UNDEFINED,
                src_queue_family_index: barrier.src_queue_family_index,
                dst_queue_family_index: barrier.dst_queue_family_index,
                image: barrier.image,
                subresource_range: barrier.range,
            }
        },
    }
}

/// Two lists hold the same accesses, whatever their order and repetitions.
pub open spec fn same_accesses(accesses1: Seq<AccessType>, accesses2: Seq<AccessType>) -> bool {
    forall|a: AccessType| accesses1.contains(a) <==> accesses2.contains(a)
}

/// The memory barrier of a global barrier depends only on which accesses each side lists, not
/// on their order nor on repetitions.
pub proof fn lemma_memory_barrier_is_order_independent<'a, 'b>(
    barrier1: GlobalBarrier<'a>,
    barrier2: GlobalBarrier<'b>,
)
    requires
        same_accesses(barrier1.previous_accesses@, barrier2.previous_accesses@),
        same_accesses(barrier1.next_accesses@, barrier2.next_accesses@),
    ensures
        memory_barrier_of(barrier1) == memory_barrier_of(barrier2),
{
    lemma_mask_union_is_order_independent(barrier1.previous_accesses@, barrier2.previous_accesses@, |a: AccessType| crate::masks::stage_mask_of(a));
    lemma_mask_union_is_order_independent(barrier1.previous_accesses@, barrier2.previous_accesses@, |a: AccessType| crate::masks::write_access_mask_of(a));
    lemma_mask_union_is_order_independent(barrier1.next_accesses@, barrier2.next_accesses@, |a: AccessType| crate::masks::stage_mask_of(a));
    lemma_mask_union_is_order_independent(barrier1.next_accesses@, barrier2.next_accesses@, |a: AccessType| crate::masks::access_mask_of(a));
}

/// A global barrier after accesses that only read (a write-after-read or read-after-read hazard)
/// is a pure execution dependency: neither access mask is set.
pub proof fn lemma_read_only_previous_accesses_need_no_memory_dependency<'a>(
    barrier: GlobalBarrier<'a>,
)
    requires
        forall|i: int|
            0 <= i < barrier.previous_accesses@.len()
                ==> !(#[trigger] barrier.previous_accesses@[i]).spec_is_write_access(),
    ensures
        memory_barrier_of(barrier).src_access_mask == 0,
        memory_barrier_of(barrier).dst_access_mask == 0,
{
    lemma_reads_make_nothing_available(barrier.previous_accesses@);
}

/// The same holds of buffer barriers: after accesses that only read, neither access mask is set.
pub proof fn lemma_read_only_previous_accesses_need_no_buffer_memory_dependency<'a>(
    barrier: BufferBarrier<'a>,
)
    requires
        forall|i: int|
            0 <= i < barrier.previous_accesses@.len()
                ==> !(#[trigger] barrier.previous_accesses@[i]).spec_is_write_access(),
    ensures
        buffer_memory_barrier_of(barrier).src_access_mask == 0,
        buffer_memory_barrier_of(barrier).dst_access_mask == 0,
{
    lemma_reads_make_nothing_available(barrier.previous_accesses@);
}

/// The image memory barrier of an image barrier depends only on which accesses each side lists,
/// not on their order nor on repetitions: either both barriers map, to the same result, or
/// neither does.
pub proof fn lemma_image_memory_barrier_is_order_independent<'a, 'b>(
    barrier1: ImageBarrier<'a>,
    barrier2: ImageBarrier<'b>,
)
    requires
        same_accesses(barrier1.previous_accesses@, barrier2.previous_accesses@),
        same_accesses(barrier1.next_accesses@, barrier2.next_accesses@),
        barrier1.previous_layout == barrier2.previous_layout,
        barrier1.next_layout == barrier2.next_layout,
        barrier1.discard_contents == barrier2.discard_contents,
        barrier1.src_queue_family_index == barrier2.src_queue_family_index,
        barrier1.dst_queue_family_index == barrier2.dst_queue_family_index,
        barrier1.image == barrier2.image,
        barrier1.range == barrier2.range,
    ensures
        image_memory_barrier_of(barrier1) is Ok <==> image_memory_barrier_of(barrier2) is Ok,
        image_memory_barrier_of(barrier1) is Ok ==> image_memory_barrier_of(barrier1)
            == image_memory_barrier_of(barrier2),
{
    lemma_mask_union_is_order_independent(barrier1.previous_accesses@, barrier2.previous_accesses@, |a: AccessType| crate::masks::stage_mask_of(a));
    lemma_mask_union_is_order_independent(barrier1.previous_accesses@, barrier2.previous_accesses@, |a: AccessType| crate::masks::write_access_mask_of(a));
    lemma_mask_union_is_order_independent(barrier1.next_accesses@, barrier2.next_accesses@, |a: AccessType| crate::masks::stage_mask_of(a));
    lemma_mask_union_is_order_independent(barrier1.next_accesses@, barrier2.next_accesses@, |a: AccessType| crate::masks::access_mask_of(a));
    lemma_resolution_is_order_independent(
        barrier1.previous_layout,
        barrier1.previous_accesses@,
        barrier2.previous_accesses@,
        BarrierDirection::Previous,
        BarrierDirection::Previous,
    );
    lemma_resolution_is_order_independent(
        barrier1.next_layout,
        barrier1.next_accesses@,
        barrier2.next_accesses@,
        BarrierDirection::Next,
        BarrierDirection::Next,
    );
}

/// Successive barriers over the same access set agree: when the next accesses of one image
/// barrier and the previous accesses of the following one hold the same accesses under the same
/// layout option, and some of them imply an image layout, the old layout of the second barrier is
/// the new layout of the first (unless the second discards the contents).
pub proof fn lemma_successive_barriers_agree<'a, 'b>(
    first: ImageBarrier<'a>,
    second: ImageBarrier<'b>,
)
    requires
        same_accesses(first.next_accesses@, second.previous_accesses@),
        first.next_layout == second.previous_layout,
        exists|i: int|
            0 <= i < first.next_accesses@.len() && (#[trigger] required_layout(
                first.next_layout,
                first.next_accesses@[i],
            )) is Some,
        !second.discard_contents,
        image_memory_barrier_of(first) is Ok,
        image_memory_barrier_of(second) is Ok,
    ensures
        image_memory_barrier_of(second)->Ok_0.old_layout == image_memory_barrier_of(
            first,
        )->Ok_0.new_layout,
{
    lemma_resolution_is_order_independent(
        first.next_layout,
        first.next_accesses@,
        second.previous_accesses@,
        BarrierDirection::Next,
        BarrierDirection::Previous,
    );
    lemma_resolution_widens(first.next_layout, first.next_accesses@, BarrierDirection::Next);
    let i = choose|i: int|
        0 <= i < first.next_accesses@.len() && (#[trigger] required_layout(
            first.next_layout,
            first.next_accesses@[i],
        )) is Some;
    let l = required_layout(first.next_layout, first.next_accesses@[i])->Some_0;
    assert(required_layouts(first.next_layout, first.next_accesses@).contains(l));
}

/// The buffer memory barrier of a buffer barrier depends only on which accesses each side lists,
/// not on their order nor on repetitions.
pub proof fn lemma_buffer_memory_barrier_is_order_independent<'a, 'b>(
    barrier1: BufferBarrier<'a>,
    barrier2: BufferBarrier<'b>,
)
    requires
        same_accesses(barrier1.previous_accesses@, barrier2.previous_accesses@),
        same_accesses(barrier1.next_accesses@, barrier2.next_accesses@),
        barrier1.src_queue_family_index == barrier2.src_queue_family_index,
        barrier1.dst_queue_family_index == barrier2.dst_queue_family_index,
        barrier1.buffer == barrier2.buffer,
        barrier1.offset == barrier2.offset,
        barrier1.size == barrier2.size,
    ensures
        buffer_memory_barrier_of(barrier1) == buffer_memory_barrier_of(barrier2),
{
    lemma_mask_union_is_order_independent(barrier1.previous_accesses@, barrier2.previous_accesses@, |a: AccessType| crate::masks::stage_mask_of(a));
    lemma_mask_union_is_order_independent(barrier1.previous_accesses@, barrier2.previous_accesses@, |a: AccessType| crate::masks::write_access_mask_of(a));
    lemma_mask_union_is_order_independent(barrier1.next_accesses@, barrier2.next_accesses@, |a: AccessType| crate::masks::stage_mask_of(a));
    lemma_mask_union_is_order_independent(barrier1.next_accesses@, barrier2.next_accesses@, |a: AccessType| crate::masks::access_mask_of(a));
}

/// An image barrier maps exactly when neither access list mixes an exclusive layout (presentation,
/// shared presentation, fragment density map, video) with another layout, and at least one access
/// of either list implies an image layout.
pub proof fn lemma_when_image_barriers_map<'a>(barrier: ImageBarrier<'a>)
    ensures
        image_memory_barrier_of(barrier) is Ok <==> {
            &&& !(widen(required_layouts(barrier.previous_layout, barrier.previous_accesses@)) is Conflict)
            &&& !(widen(required_layouts(barrier.next_layout, barrier.next_accesses@)) is Conflict)
            &&& exists|l: i32|
                required_layouts(barrier.previous_layout, barrier.previous_accesses@).contains(l)
                    || required_layouts(barrier.next_layout, barrier.next_accesses@).contains(l)
        },
{
    lemma_resolution_widens(barrier.previous_layout, barrier.previous_accesses@, BarrierDirection::Previous);
    lemma_resolution_widens(barrier.next_layout, barrier.next_accesses@, BarrierDirection::Next);
}

/// Every pipeline stage of an access.
pub open spec fn stages(a: AccessType) -> u64 {
    access_info(a).stage_mask
}

/// Every memory access of an access.
pub open spec fn memory_accesses(a: AccessType) -> u64 {
    access_info(a).access_mask
}

/// The memory accesses of an access that writes; nothing for one that only reads.
pub open spec fn memory_writes(a: AccessType) -> u64 {
    if a.spec_is_write_access() {
        access_info(a).access_mask
    } else {
        0
    }
}

proof fn lemma_unions_are_least_covers(accesses: Seq<AccessType>)
    ensures
        is_least_cover(stage_union(accesses), accesses, |a: AccessType| stages(a)),
        is_least_cover(access_union(accesses), accesses, |a: AccessType| memory_accesses(a)),
        is_least_cover(write_access_union(accesses), accesses, |a: AccessType| memory_writes(a)),
{
    let f1 = |a: AccessType| crate::masks::stage_mask_of(a);
    let g1 = |a: AccessType| stages(a);
    assert(f1 =~= g1);
    lemma_mask_union_is_least_cover(accesses, g1);
    let f2 = |a: AccessType| crate::masks::access_mask_of(a);
    let g2 = |a: AccessType| memory_accesses(a);
    assert(f2 =~= g2);
    lemma_mask_union_is_least_cover(accesses, g2);
    let f3 = |a: AccessType| crate::masks::write_access_mask_of(a);
    let g3 = |a: AccessType| memory_writes(a);
    assert(f3 =~= g3);
    lemma_mask_union_is_least_cover(accesses, g3);
}

/// What a global barrier maps to, mask by mask: the source stages are exactly the stages of the
/// previous accesses, and the source access mask exactly the memory accesses of those previous
/// accesses that write, whatever the next accesses are; the destination stages are exactly the
/// stages of the next accesses; the destination access mask is exactly the memory accesses of the
/// next accesses when some write was made available, and empty otherwise. ("Exactly" meaning the
/// least mask holding every bit of each of them.)
pub proof fn lemma_memory_barrier_masks<'a>(barrier: GlobalBarrier<'a>)
    ensures
        is_least_cover(memory_barrier_of(barrier).src_stage_mask, barrier.previous_accesses@, |a: AccessType| stages(a)),
        is_least_cover(memory_barrier_of(barrier).src_access_mask, barrier.previous_accesses@, |a: AccessType| memory_writes(a)),
        is_least_cover(memory_barrier_of(barrier).dst_stage_mask, barrier.next_accesses@, |a: AccessType| stages(a)),
        memory_barrier_of(barrier).src_access_mask != 0 ==> is_least_cover(memory_barrier_of(barrier).dst_access_mask, barrier.next_accesses@, |a: AccessType| memory_accesses(a)),
        memory_barrier_of(barrier).src_access_mask == 0 ==> memory_barrier_of(barrier).dst_access_mask == 0,
{
    lemma_unions_are_least_covers(barrier.previous_accesses@);
    lemma_unions_are_least_covers(barrier.next_accesses@);
}

/// What a buffer barrier maps to: masks exactly as for a global barrier over the same accesses,
/// and the queue families, buffer, offset and size passed through unchanged.
pub proof fn lemma_buffer_memory_barrier_contents<'a>(barrier: BufferBarrier<'a>)
    ensures
        is_least_cover(buffer_memory_barrier_of(barrier).src_stage_mask, barrier.previous_accesses@, |a: AccessType| stages(a)),
        is_least_cover(buffer_memory_barrier_of(barrier).src_access_mask, barrier.previous_accesses@, |a: AccessType| memory_writes(a)),
        is_least_cover(buffer_memory_barrier_of(barrier).dst_stage_mask, barrier.next_accesses@, |a: AccessType| stages(a)),
        buffer_memory_barrier_of(barrier).src_access_mask != 0 ==> is_least_cover(buffer_memory_barrier_of(barrier).dst_access_mask, barrier.next_accesses@, |a: AccessType| memory_accesses(a)),
        buffer_memory_barrier_of(barrier).src_access_mask == 0 ==> buffer_memory_barrier_of(barrier).dst_access_mask == 0,
        buffer_memory_barrier_of(barrier).src_queue_family_index == barrier.src_queue_family_index,
        buffer_memory_barrier_of(barrier).dst_queue_family_index == barrier.dst_queue_family_index,
        buffer_memory_barrier_of(barrier).buffer == barrier.buffer,
        buffer_memory_barrier_of(barrier).offset == barrier.offset,
        buffer_memory_barrier_of(barrier).size == barrier.size,
{
    lemma_unions_are_least_covers(barrier.previous_accesses@);
    lemma_unions_are_least_covers(barrier.next_accesses@);
}

/// What an image barrier maps to, when it maps. Masks: the source side as for a global barrier;
/// the destination access mask is exactly the memory accesses of the next accesses, in all cases.
/// Layouts: the old layout is `UNDEFINED` when the contents are discarded or when no previous
/// access requires a layout, and otherwise the least layout serving every previous access -
/// whatever the next accesses are. The new layout is the least layout serving every next access,
/// or, when no next access requires one, the least layout serving every previous access (the
/// layout the image is already in, discarded or not). Queue families, image and range are passed
/// through unchanged.
pub proof fn lemma_image_memory_barrier_contents<'a>(barrier: ImageBarrier<'a>)
    ensures
        image_memory_barrier_of(barrier) matches Ok(r) ==> (is_least_cover(r.src_stage_mask, barrier.previous_accesses@, |a: AccessType| stages(a))),
        image_memory_barrier_of(barrier) matches Ok(r) ==> (is_least_cover(r.src_access_mask, barrier.previous_accesses@, |a: AccessType| memory_writes(a))),
        image_memory_barrier_of(barrier) matches Ok(r) ==> (is_least_cover(r.dst_stage_mask, barrier.next_accesses@, |a: AccessType| stages(a))),
        image_memory_barrier_of(barrier) matches Ok(r) ==> (is_least_cover(r.dst_access_mask, barrier.next_accesses@, |a: AccessType| memory_accesses(a))),
        image_memory_barrier_of(barrier) matches Ok(r) ==> (barrier.discard_contents ==> r.old_layout == image_layouts::UNDEFINED),
        image_memory_barrier_of(barrier) matches Ok(r) ==> (!needs_layout(barrier.previous_layout, barrier.previous_accesses@) ==> r.old_layout == image_layouts::UNDEFINED),
        image_memory_barrier_of(barrier) matches Ok(r) ==> (!barrier.discard_contents && needs_layout(barrier.previous_layout, barrier.previous_accesses@) ==> is_least_serving_layout(r.old_layout, barrier.previous_layout, barrier.previous_accesses@)),
        image_memory_barrier_of(barrier) matches Ok(r) ==> (needs_layout(barrier.next_layout, barrier.next_accesses@) ==> is_least_serving_layout(r.new_layout, barrier.next_layout, barrier.next_accesses@)),
        image_memory_barrier_of(barrier) matches Ok(r) ==> (!needs_layout(barrier.next_layout, barrier.next_accesses@) ==> needs_layout(barrier.previous_layout, barrier.previous_accesses@) && is_least_serving_layout(r.new_layout, barrier.previous_layout, barrier.previous_accesses@)),
        image_memory_barrier_of(barrier) matches Ok(r) ==> (r.src_queue_family_index == barrier.src_queue_family_index),
        image_memory_barrier_of(barrier) matches Ok(r) ==> (r.dst_queue_family_index == barrier.dst_queue_family_index),
        image_memory_barrier_of(barrier) matches Ok(r) ==> (r.image == barrier.image),
        image_memory_barrier_of(barrier) matches Ok(r) ==> (r.subresource_range == barrier.range),
{
    lemma_unions_are_least_covers(barrier.previous_accesses@);
    lemma_unions_are_least_covers(barrier.next_accesses@);
    lemma_resolution_is_least_serving_layout(barrier.previous_layout, barrier.previous_accesses@, BarrierDirection::Previous);
    lemma_resolution_is_least_serving_layout(barrier.next_layout, barrier.next_accesses@, BarrierDirection::Next);
    let previous = resolve_layouts(barrier.previous_layout, barrier.previous_accesses@, BarrierDirection::Previous);
    let next = resolve_layouts(barrier.next_layout, barrier.next_accesses@, BarrierDirection::Next);
    if previous is Ok && next is Ok {
        if let (Ok(p), Ok(n)) = (previous, next) {
            if n is None && p is None {
                assert(layout_transition_of(barrier) == Err::<(i32, i32), LayoutError>(LayoutError::UndefinedNewLayout));
            } else {
                assert(layout_transition_of(barrier) is Ok);
            }
        }
    }
}

/// When an image barrier maps, and how it fails otherwise. It fails for its previous accesses
/// exactly when some of them require layouts and no layout serves them all; for its next accesses
/// exactly when the previous accesses are served (or need no layout) but the next accesses require
/// layouts that no layout serves; and with `UndefinedNewLayout` exactly when no access on either
/// side requires a layout. A conflict names an access of the failing list, the layout that access
/// requires, and a layout resolved before it that cannot be combined with it.
pub proof fn lemma_image_memory_barrier_errors<'a>(barrier: ImageBarrier<'a>)
    ensures
        ({
            let previous_served = !needs_layout(barrier.previous_layout, barrier.previous_accesses@)
                || exists|c: i32| serves_all(c, barrier.previous_layout, barrier.previous_accesses@);
            let next_served = !needs_layout(barrier.next_layout, barrier.next_accesses@)
                || exists|c: i32| serves_all(c, barrier.next_layout, barrier.next_accesses@);
            &&& image_memory_barrier_of(barrier) is Ok <==> previous_served && next_served && (needs_layout(
                barrier.previous_layout,
                barrier.previous_accesses@,
            ) || needs_layout(barrier.next_layout, barrier.next_accesses@))
            &&& (image_memory_barrier_of(barrier) matches Err(LayoutError::Conflict { direction: BarrierDirection::Previous, .. }))
                <==> !previous_served
            &&& (image_memory_barrier_of(barrier) matches Err(LayoutError::Conflict { direction: BarrierDirection::Next, .. }))
                <==> previous_served && !next_served
            &&& image_memory_barrier_of(barrier) == Err::<ImageMemoryBarrier, LayoutError>(LayoutError::UndefinedNewLayout)
                <==> !needs_layout(barrier.previous_layout, barrier.previous_accesses@) && !needs_layout(
                barrier.next_layout,
                barrier.next_accesses@,
            )
        }),
        image_memory_barrier_of(barrier) matches Err(LayoutError::Conflict { direction: BarrierDirection::Previous, resolved, access, required })
            ==> barrier.previous_accesses@.contains(access) && required_layout(barrier.previous_layout, access) == Some(required)
                && combine_layouts(resolved, required) is None,
        image_memory_barrier_of(barrier) matches Err(LayoutError::Conflict { direction: BarrierDirection::Next, resolved, access, required })
            ==> barrier.next_accesses@.contains(access) && required_layout(barrier.next_layout, access) == Some(required)
                && combine_layouts(resolved, required) is None,
{
    lemma_resolution_is_least_serving_layout(barrier.previous_layout, barrier.previous_accesses@, BarrierDirection::Previous);
    lemma_resolution_is_least_serving_layout(barrier.next_layout, barrier.next_accesses@, BarrierDirection::Next);
    let previous = resolve_layouts(barrier.previous_layout, barrier.previous_accesses@, BarrierDirection::Previous);
    let next = resolve_layouts(barrier.next_layout, barrier.next_accesses@, BarrierDirection::Next);
    if previous is Ok && next is Ok {
        if let (Ok(p), Ok(n)) = (previous, next) {
            if n is None && p is None {
                assert(layout_transition_of(barrier) == Err::<(i32, i32), LayoutError>(LayoutError::UndefinedNewLayout));
            } else {
                assert(layout_transition_of(barrier) is Ok);
            }
        }
    }
}

} // verus!
