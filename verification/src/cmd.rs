//! What the command-buffer helpers record: the barrier contents of a `VkDependencyInfo` for
//! `vkCmdPipelineBarrier2` / `vkCmdWaitEvents2`, and the stage mask that `vkCmdSetEvent2` /
//! `vkCmdResetEvent2` wait for.
use crate::access_type::AccessType;
use crate::barrier::{
    stages,
    buffer_memory_barrier_of, get_buffer_memory_barrier, get_memory_barrier,
    image_memory_barrier_of, memory_barrier_of, try_get_image_memory_barrier, BufferBarrier,
    BufferMemoryBarrier, GlobalBarrier, ImageBarrier, ImageMemoryBarrier, MemoryBarrier,
};
use crate::layout::LayoutError;
use crate::masks::{combine_masks, is_least_cover, lemma_mask_union_is_least_cover, stage_union};
use vstd::prelude::*;

verus! {

/// The barriers of one `VkDependencyInfo`.
#[derive(Debug, Clone)]
pub struct DependencyInfo {
    /// The global memory barrier, if one was given.
    pub memory_barrier: Option<MemoryBarrier>,
    /// One buffer memory barrier per buffer barrier, in the same order.
    pub buffer_memory_barriers: Vec<BufferMemoryBarrier>,
    /// One image memory barrier per image barrier, in the same order.
    pub image_memory_barriers: Vec<ImageMemoryBarrier>,
}

/// The image memory barriers of a list of image barriers, in order, or the error of the first
/// image barrier that admits no image layouts.
pub open spec fn image_memory_barriers_of<'a>(barriers: Seq<ImageBarrier<'a>>) -> Result<
    Seq<ImageMemoryBarrier>,
    LayoutError,
>
    decreases barriers.len(),
{
    if barriers.len() == 0 {
        Ok(Seq::empty())
    } else {
        match image_memory_barriers_of(barriers.drop_last()) {
            Err(e) => Err(e),
            Ok(mapped) => match image_memory_barrier_of(barriers.last()) {
                Err(e) => Err(e),
                Ok(b) => Ok(mapped.push(b)),
            },
        }
    }
}

/// The memory barrier of an optional global barrier.
pub open spec fn optional_memory_barrier_of<'a>(barrier: Option<GlobalBarrier<'a>>) -> Option<
    MemoryBarrier,
> {
    match barrier {
        Some(b) => Some(memory_barrier_of(b)),
        None => None,
    }
}

fn get_image_memory_barriers<'a>(barriers: &[ImageBarrier<'a>]) -> (r: Result<
    Vec<ImageMemoryBarrier>,
    LayoutError,
>)
    ensures
        match image_memory_barriers_of(barriers@) {
            Ok(mapped) => r matches Ok(v) && v@ == mapped,
            Err(e) => r == Err::<Vec<ImageMemoryBarrier>, LayoutError>(e),
        },
{
    let mut mapped: Vec<ImageMemoryBarrier> = Vec::new();
    let mut i: usize = 0;
    while i < barriers.len()
        invariant
            i <= barriers.len(),
            image_memory_barriers_of(barriers@.subrange(0, i as int)) == Ok::<
                Seq<ImageMemoryBarrier>,
                LayoutError,
            >(mapped@),
        decreases barriers.len() - i,
    {
        let ghost next = barriers@.subrange(0, i + 1);
        proof {
            assert(next.drop_last() =~= barriers@.subrange(0, i as int));
        }
        match try_get_image_memory_barrier(&barriers[i]) {
            Ok(b) => {
                mapped.push(b);
            },
            Err(e) => {
                proof {
                    lemma_image_error_persists(barriers@, i + 1);
                }
                return Err(e);
            },
        }
        i += 1;
    }
    proof {
        assert(barriers@.subrange(0, barriers.len() as int) =~= barriers@);
    }
    Ok(mapped)
}

proof fn lemma_image_error_persists<'a>(barriers: Seq<ImageBarrier<'a>>, n: int)
    requires
        0 <= n <= barriers.len(),
        image_memory_barriers_of(barriers.subrange(0, n)) is Err,
    ensures
        image_memory_barriers_of(barriers) == image_memory_barriers_of(barriers.subrange(0, n)),
    decreases barriers.len() - n,
{
    if n < barriers.len() {
        assert(barriers.subrange(0, n + 1).drop_last() =~= barriers.subrange(0, n));
        lemma_image_error_persists(barriers, n + 1);
    } else {
        assert(barriers.subrange(0, n) =~= barriers);
    }
}

/// Translates the barrier definitions of a pipeline barrier or of an event wait into the
/// barriers of one `VkDependencyInfo`: the global barrier (if any) into a memory barrier, each
/// buffer barrier into a buffer memory barrier and each image barrier into an image memory
/// barrier. Fails with the error of the first image barrier that admits no image layouts.
pub fn try_get_dependency_info<'a>(
    global_barrier: Option<GlobalBarrier<'a>>,
    buffer_barriers: &[BufferBarrier<'a>],
    image_barriers: &[ImageBarrier<'a>],
) -> (r: Result<DependencyInfo, LayoutError>)
    ensures
        match image_memory_barriers_of(image_barriers@) {
            Ok(images) => r matches Ok(info) && {
                &&& info.memory_barrier == optional_memory_barrier_of(global_barrier)
                &&& info.buffer_memory_barriers@ == buffer_barriers@.map_values(
                    |b: BufferBarrier<'a>| buffer_memory_barrier_of(b),
                )
                &&& info.image_memory_barriers@ == images
            },
            Err(e) => r == Err::<DependencyInfo, LayoutError>(e),
        },
        r matches Ok(info) ==> (global_barrier matches Some(g) ==> info.memory_barrier == Some(
            memory_barrier_of(g),
        )),
        r matches Ok(info) ==> (global_barrier is None ==> info.memory_barrier is None),
        r matches Ok(info) ==> info.buffer_memory_barriers@.len() == buffer_barriers@.len()
            && forall|i: int|
            0 <= i < buffer_barriers@.len() ==> info.buffer_memory_barriers@[i]
                == buffer_memory_barrier_of(#[trigger] buffer_barriers@[i]),
        r matches Ok(info) ==> info.image_memory_barriers@.len() == image_barriers@.len()
            && forall|i: int|
            0 <= i < image_barriers@.len() ==> image_memory_barrier_of(#[trigger] image_barriers@[i])
                == Ok::<ImageMemoryBarrier, LayoutError>(info.image_memory_barriers@[i]),
        r is Ok <==> forall|i: int|
            0 <= i < image_barriers@.len() ==> (image_memory_barrier_of(#[trigger] image_barriers@[i])) is Ok,
        r matches Err(e) ==> exists|i: int|
            0 <= i < image_barriers@.len() && image_memory_barrier_of(#[trigger] image_barriers@[i])
                == Err::<ImageMemoryBarrier, LayoutError>(e) && forall|j: int|
                0 <= j < i ==> (image_memory_barrier_of(#[trigger] image_barriers@[j])) is Ok,
{
    proof {
        lemma_image_memory_barriers_map_each(image_barriers@);
    }
    let memory_barrier = match &global_barrier {
        Some(b) => Some(get_memory_barrier(b)),
        None => None,
    };
    let mut buffer_memory_barriers: Vec<BufferMemoryBarrier> = Vec::new();
    let mut i: usize = 0;
    while i < buffer_barriers.len()
        invariant
            i <= buffer_barriers.len(),
            buffer_memory_barriers@ == buffer_barriers@.subrange(0, i as int).map_values(
                |b: BufferBarrier<'a>| buffer_memory_barrier_of(b),
            ),
        decreases buffer_barriers.len() - i,
    {
        let b = get_buffer_memory_barrier(&buffer_barriers[i]);
        buffer_memory_barriers.push(b);
        i += 1;
        proof {
            assert(buffer_memory_barriers@ =~= buffer_barriers@.subrange(0, i as int).map_values(
                |b: BufferBarrier<'a>| buffer_memory_barrier_of(b),
            ));
        }
    }
    proof {
        assert(buffer_barriers@.subrange(0, buffer_barriers.len() as int) =~= buffer_barriers@);
    }
    let image_memory_barriers = match get_image_memory_barriers(image_barriers) {
        Ok(v) => v,
        Err(e) => {
            return Err(e);
        },
    };
    Ok(DependencyInfo { memory_barrier, buffer_memory_barriers, image_memory_barriers })
}

/// The pipeline stages that an event set or reset after `previous_accesses` waits for: every
/// stage those accesses run in.
pub fn get_event_stage_mask(previous_accesses: &[AccessType]) -> (r: u64)
    ensures
        r == stage_union(previous_accesses@),
        is_least_cover(r, previous_accesses@, |a: AccessType| stages(a)),
{
    proof {
        lemma_event_stages_are_the_previous_stages(previous_accesses@);
    }
    combine_masks(previous_accesses).stage_mask
}

/// The stage mask an event waits for is exactly the stages of the previous accesses: the least
/// mask holding every stage bit of each of them.
pub proof fn lemma_event_stages_are_the_previous_stages(previous_accesses: Seq<AccessType>)
    ensures
        is_least_cover(stage_union(previous_accesses), previous_accesses, |a: AccessType| stages(a)),
{
    let f = |a: AccessType| crate::masks::stage_mask_of(a);
    let g = |a: AccessType| stages(a);
    assert(f =~= g);
    lemma_mask_union_is_least_cover(previous_accesses, g);
}

/// Mapping a list of image barriers maps each one, in order: it succeeds exactly when every
/// barrier maps, giving one image memory barrier per image barrier with the i-th the mapping of
/// the i-th; otherwise it fails with the error of the first barrier that does not map.
pub proof fn lemma_image_memory_barriers_map_each<'a>(barriers: Seq<ImageBarrier<'a>>)
    ensures
        image_memory_barriers_of(barriers) is Ok <==> forall|i: int|
            0 <= i < barriers.len() ==> (#[trigger] image_memory_barrier_of(barriers[i])) is Ok,
        image_memory_barriers_of(barriers) matches Ok(mapped) ==> mapped.len() == barriers.len()
            && forall|i: int|
            0 <= i < barriers.len() ==> #[trigger] image_memory_barrier_of(barriers[i]) == Ok::<
                ImageMemoryBarrier,
                LayoutError,
            >(mapped[i]),
        image_memory_barriers_of(barriers) matches Err(e) ==> exists|i: int|
            0 <= i < barriers.len() && #[trigger] image_memory_barrier_of(barriers[i]) == Err::<
                ImageMemoryBarrier,
                LayoutError,
            >(e) && forall|j: int| 0 <= j < i ==> (#[trigger] image_memory_barrier_of(barriers[j])) is Ok,
    decreases barriers.len(),
{
    if barriers.len() > 0 {
        let prefix = barriers.drop_last();
        let last = barriers.len() - 1;
        lemma_image_memory_barriers_map_each(prefix);
        assert forall|i: int| 0 <= i < prefix.len() implies prefix[i] == barriers[i] by {}
        assert(barriers[last] == barriers.last());
        match image_memory_barriers_of(prefix) {
            Ok(mapped) => {
                assert(forall|i: int| 0 <= i < prefix.len() ==> (#[trigger] image_memory_barrier_of(barriers[i])) is Ok);
                if let Err(e) = image_memory_barrier_of(barriers.last()) {
                    assert(image_memory_barrier_of(barriers[last]) == Err::<ImageMemoryBarrier, LayoutError>(e));
                }
            },
            Err(e) => {
                let i = choose|i: int|
                    0 <= i < prefix.len() && #[trigger] image_memory_barrier_of(prefix[i]) == Err::<
                        ImageMemoryBarrier,
                        LayoutError,
                    >(e) && forall|j: int| 0 <= j < i ==> (#[trigger] image_memory_barrier_of(prefix[j])) is Ok;
                assert(image_memory_barrier_of(barriers[i]) == Err::<ImageMemoryBarrier, LayoutError>(e));
                assert forall|j: int| 0 <= j < i implies (#[trigger] image_memory_barrier_of(barriers[j])) is Ok by {
                    assert(prefix[j] == barriers[j]);
                }
            },
        }
    }
}

/// A given global barrier is always recorded, as its memory barrier, whatever its masks are;
/// without one, no memory barrier is recorded.
pub proof fn lemma_given_global_barrier_is_recorded<'a>(global_barrier: Option<GlobalBarrier<'a>>)
    ensures
        global_barrier matches Some(g) ==> optional_memory_barrier_of(global_barrier) == Some(
            memory_barrier_of(g),
        ),
        global_barrier is None ==> optional_memory_barrier_of(global_barrier) is None,
{
}

} // verus!
