//! Choosing the Vulkan image layout that a list of accesses needs.
//!
//! Each access of a barrier's access list may want its own image layout. Accesses that want no
//! layout at all (`Nothing`, and the accesses that only ever touch buffers) are ignored. The
//! layouts wanted by the others are combined: equal layouts stay as they are, read-only layouts
//! widen to `READ_ONLY_OPTIMAL`, attachment layouts to `ATTACHMENT_OPTIMAL`, and anything else to
//! `GENERAL` - except that the presentation, shared presentation, fragment density map and video
//! layouts admit no other layout beside them, which is reported as a conflict.
use crate::access_type::{access_info, get_access_info, AccessType};
use crate::image_layouts;
use vstd::prelude::*;

verus! {

/// Defines a handful of layout options for images.
/// Rather than a list of all possible image layouts, this reduced list is
/// correlated with the access types to map to the correct Vulkan layouts.
/// `Optimal` is usually preferred.
#[derive(Debug, Copy, Clone, PartialEq, Eq, Structural)]
pub enum ImageLayout {
    /// Choose the most optimal layout for each usage. Performs layout transitions as appropriate for the access.
    Optimal,
    /// Layout accessible by all Vulkan access types on a device - no layout transitions except for presentation
    General,
    /// Similar to `General`, but also allows presentation engines to access it - no layout transitions.
    /// Requires `VK_KHR_shared_presentable_image` to be enabled, and this can only be used for shared presentable
    /// images (i.e. single-buffered swap chains).
    GeneralAndPresentation,
}

impl Default for ImageLayout {
    /// `Optimal`.
    fn default() -> (r: Self)
        ensures
            r == ImageLayout::Optimal,
    {
        ImageLayout::Optimal
    }
}

/// Which access list of an image barrier a layout problem was found in.
#[derive(Debug, Copy, Clone, PartialEq, Eq, Structural)]
pub enum BarrierDirection {
    /// `previous_accesses`, which decides the old layout.
    Previous,
    /// `next_accesses`, which decides the new layout.
    Next,
}

/// Why an image barrier could not be given its layouts.
#[derive(Debug, Copy, Clone, PartialEq, Eq, Structural)]
pub enum LayoutError {
    /// The access list of `direction` holds accesses that no single image layout serves:
    /// the accesses before `access` resolved to the layout `resolved`, and `access` requires
    /// `required`, which cannot be combined with it.
    Conflict { direction: BarrierDirection, resolved: i32, access: AccessType, required: i32 },
    /// Neither access list implies any image layout, so the new layout would be `UNDEFINED`,
    /// which Vulkan forbids.
    UndefinedNewLayout,
}

impl LayoutError {
    /// The message this error is reported with.
    pub open spec fn spec_message(self) -> Seq<char> {
        match self {
            LayoutError::Conflict { direction: BarrierDirection::Previous, .. } =>
                "conflicting image layouts in previous_accesses"@,
            LayoutError::Conflict { direction: BarrierDirection::Next, .. } =>
                "conflicting image layouts in next_accesses"@,
            LayoutError::UndefinedNewLayout =>
                "image barrier has no layout to transition to: new_layout would be UNDEFINED"@,
        }
    }

    /// A description of the error, for reporting it.
    pub fn message(&self) -> (s: String)
        ensures
            s@ == self.spec_message(),
    {
        match self {
            LayoutError::Conflict { direction: BarrierDirection::Previous, .. } => String::from_str(
                "conflicting image layouts in previous_accesses",
            ),
            LayoutError::Conflict { direction: BarrierDirection::Next, .. } => String::from_str(
                "conflicting image layouts in next_accesses",
            ),
            LayoutError::UndefinedNewLayout => String::from_str(
                "image barrier has no layout to transition to: new_layout would be UNDEFINED",
            ),
        }
    }
}

/// The image layout that `access` needs when the image is kept in `mode`, or `None` when the
/// access implies no image layout at all.
pub open spec fn required_layout(mode: ImageLayout, access: AccessType) -> Option<i32> {
    if access_info(access).image_layout == image_layouts::UNDEFINED {
        None
    } else {
        Some(
            match mode {
                ImageLayout::Optimal => access_info(access).image_layout,
                ImageLayout::General => if access == AccessType::Present {
                    image_layouts::PRESENT_SRC_KHR
                } else {
                    image_layouts::GENERAL
                },
                ImageLayout::GeneralAndPresentation => image_layouts::SHARED_PRESENT_KHR,
            },
        )
    }
}

/// Layouts that only permit reads, and that `READ_ONLY_OPTIMAL` can stand in for.
pub open spec fn is_read_only_layout(layout: i32) -> bool {
    ||| layout == image_layouts::SHADER_READ_ONLY_OPTIMAL
    ||| layout == image_layouts::DEPTH_STENCIL_READ_ONLY_OPTIMAL
    ||| layout == image_layouts::READ_ONLY_OPTIMAL
}

/// Attachment layouts, that `ATTACHMENT_OPTIMAL` can stand in for.
pub open spec fn is_attachment_layout(layout: i32) -> bool {
    ||| layout == image_layouts::COLOR_ATTACHMENT_OPTIMAL
    ||| layout == image_layouts::DEPTH_STENCIL_ATTACHMENT_OPTIMAL
    ||| layout == image_layouts::DEPTH_READ_ONLY_STENCIL_ATTACHMENT_OPTIMAL
    ||| layout == image_layouts::DEPTH_ATTACHMENT_STENCIL_READ_ONLY_OPTIMAL
    ||| layout == image_layouts::ATTACHMENT_OPTIMAL
}

/// Layouts that no other layout, not even `GENERAL`, can stand in for.
pub open spec fn is_exclusive_layout(layout: i32) -> bool {
    ||| layout == image_layouts::PRESENT_SRC_KHR
    ||| layout == image_layouts::SHARED_PRESENT_KHR
    ||| layout == image_layouts::FRAGMENT_DENSITY_MAP_OPTIMAL_EXT
    ||| layout == image_layouts::VIDEO_DECODE_DST_KHR
    ||| layout == image_layouts::VIDEO_DECODE_SRC_KHR
    ||| layout == image_layouts::VIDEO_DECODE_DPB_KHR
    ||| layout == image_layouts::VIDEO_ENCODE_DST_KHR
    ||| layout == image_layouts::VIDEO_ENCODE_SRC_KHR
    ||| layout == image_layouts::VIDEO_ENCODE_DPB_KHR
}

/// The layout that serves accesses wanting `a` and accesses wanting `b`, or `None` when no
/// layout serves both.
pub open spec fn combine_layouts(a: i32, b: i32) -> Option<i32> {
    if a == b {
        Some(a)
    } else if is_exclusive_layout(a) || is_exclusive_layout(b) {
        None
    } else if is_read_only_layout(a) && is_read_only_layout(b) {
        Some(image_layouts::READ_ONLY_OPTIMAL)
    } else if is_attachment_layout(a) && is_attachment_layout(b) {
        Some(image_layouts::ATTACHMENT_OPTIMAL)
    } else {
        Some(image_layouts::GENERAL)
    }
}

/// Goes through `accesses` from first to last, combining the layout resolved so far with the
/// layout that each access requires. The result is the layout that serves them all (`None` when
/// none of them requires one), or the conflict met first, reported for `direction`.
pub open spec fn resolve_layouts(
    mode: ImageLayout,
    accesses: Seq<AccessType>,
    direction: BarrierDirection,
) -> Result<Option<i32>, LayoutError>
    decreases accesses.len(),
{
    if accesses.len() == 0 {
        Ok(None)
    } else {
        let access = accesses.last();
        match resolve_layouts(mode, accesses.drop_last(), direction) {
            Err(e) => Err(e),
            Ok(current) => match required_layout(mode, access) {
                None => Ok(current),
                Some(required) => match current {
                    None => Ok(Some(required)),
                    Some(resolved) => match combine_layouts(resolved, required) {
                        Some(layout) => Ok(Some(layout)),
                        None => Err(LayoutError::Conflict { direction, resolved, access, required }),
                    },
                },
            },
        }
    }
}

/// What a set of required layouts comes to.
pub enum LayoutResolution {
    /// No layout is required.
    NoLayout,
    /// This layout serves every required layout.
    Layout(i32),
    /// No layout serves them all.
    Conflict,
}

/// The set of layouts that `accesses` require under `mode`.
pub open spec fn required_layouts(mode: ImageLayout, accesses: Seq<AccessType>) -> Set<i32> {
    Set::new(
        |layout: i32|
            exists|i: int|
                0 <= i < accesses.len() && #[trigger] required_layout(mode, accesses[i]) == Some(
                    layout,
                ),
    )
}

/// The layout that serves every layout of `layouts`: the layout itself when there is only one;
/// otherwise a conflict if one of them is exclusive, else `READ_ONLY_OPTIMAL` when all are
/// read-only, `ATTACHMENT_OPTIMAL` when all are attachment layouts, and `GENERAL` for any other mix.
pub open spec fn widen(layouts: Set<i32>) -> LayoutResolution {
    if !(exists|l: i32| layouts.contains(l)) {
        LayoutResolution::NoLayout
    } else if forall|a: i32, b: i32| layouts.contains(a) && layouts.contains(b) ==> a == b {
        LayoutResolution::Layout(choose|l: i32| layouts.contains(l))
    } else if exists|l: i32| layouts.contains(l) && is_exclusive_layout(l) {
        LayoutResolution::Conflict
    } else if forall|l: i32| layouts.contains(l) ==> is_read_only_layout(l) {
        LayoutResolution::Layout(image_layouts::READ_ONLY_OPTIMAL)
    } else if forall|l: i32| layouts.contains(l) ==> is_attachment_layout(l) {
        LayoutResolution::Layout(image_layouts::ATTACHMENT_OPTIMAL)
    } else {
        LayoutResolution::Layout(image_layouts::GENERAL)
    }
}

/// One step of `widen`: what a resolution comes to once one more layout is required.
pub open spec fn widen_step(current: LayoutResolution, layout: i32) -> LayoutResolution {
    match current {
        LayoutResolution::NoLayout => LayoutResolution::Layout(layout),
        LayoutResolution::Layout(c) => match combine_layouts(c, layout) {
            Some(l) => LayoutResolution::Layout(l),
            None => LayoutResolution::Conflict,
        },
        LayoutResolution::Conflict => LayoutResolution::Conflict,
    }
}

/// How `resolve_layouts` relates to `widen`: success with the widened layout, or an error
/// exactly when widening meets a conflict.
pub open spec fn agrees_with_widening(
    resolved: Result<Option<i32>, LayoutError>,
    widened: LayoutResolution,
) -> bool {
    match widened {
        LayoutResolution::NoLayout => resolved == Ok::<Option<i32>, LayoutError>(None),
        LayoutResolution::Layout(l) => resolved == Ok::<Option<i32>, LayoutError>(Some(l)),
        LayoutResolution::Conflict => resolved is Err,
    }
}

proof fn lemma_widen_insert(layouts: Set<i32>, layout: i32)
    ensures
        widen(layouts.insert(layout)) == widen_step(widen(layouts), layout),
{
    let bigger = layouts.insert(layout);
    assert(bigger.contains(layout));
    if !(exists|l: i32| layouts.contains(l)) {
        assert forall|a: i32, b: i32| bigger.contains(a) && bigger.contains(b) implies a == b by {
            assert(a == layout);
            assert(b == layout);
        }
        let c = choose|l: i32| bigger.contains(l);
        assert(bigger.contains(c));
        assert(c == layout);
    } else if forall|a: i32, b: i32| layouts.contains(a) && layouts.contains(b) ==> a == b {
        let x = choose|l: i32| layouts.contains(l);
        assert(layouts.contains(x));
        if layout == x {
            assert(bigger =~= layouts);
        } else {
            assert(bigger.contains(x));
            assert(!(forall|a: i32, b: i32| bigger.contains(a) && bigger.contains(b) ==> a == b));
            assert forall|l: i32| bigger.contains(l) implies l == x || l == layout by {}
            if is_exclusive_layout(x) || is_exclusive_layout(layout) {
            } else if is_read_only_layout(x) && is_read_only_layout(layout) {
            } else if is_attachment_layout(x) && is_attachment_layout(layout) {
                assert(!is_read_only_layout(x));
            } else {
                if is_read_only_layout(x) {
                    assert(!is_attachment_layout(x));
                    assert(!is_read_only_layout(layout));
                } else if is_read_only_layout(layout) {
                    assert(!is_attachment_layout(layout));
                } else {
                    assert(!(is_attachment_layout(x) && is_attachment_layout(layout)));
                }
            }
        }
    } else {
        let (a0, b0) = choose|a: i32, b: i32| layouts.contains(a) && layouts.contains(b) && a != b;
        assert(bigger.contains(a0) && bigger.contains(b0));
        assert(!(forall|a: i32, b: i32| bigger.contains(a) && bigger.contains(b) ==> a == b));
        if exists|l: i32| layouts.contains(l) && is_exclusive_layout(l) {
            let e = choose|l: i32| layouts.contains(l) && is_exclusive_layout(l);
            assert(bigger.contains(e));
        } else if forall|l: i32| layouts.contains(l) ==> is_read_only_layout(l) {
            assert(is_read_only_layout(a0));
            if is_exclusive_layout(layout) {
            } else if is_read_only_layout(layout) {
            } else {
                assert(!is_attachment_layout(a0));
            }
        } else if forall|l: i32| layouts.contains(l) ==> is_attachment_layout(l) {
            assert(is_attachment_layout(a0));
            if is_exclusive_layout(layout) {
            } else if is_attachment_layout(layout) {
            } else {
                assert(!is_read_only_layout(a0));
            }
        } else {
            let r = choose|l: i32| layouts.contains(l) && !is_read_only_layout(l);
            let t = choose|l: i32| layouts.contains(l) && !is_attachment_layout(l);
            assert(bigger.contains(r) && bigger.contains(t));
        }
    }
}

/// Resolving a list of accesses goes the way `widen` says on the set of layouts they require:
/// read-only layouts widen to `READ_ONLY_OPTIMAL`, attachment layouts to `ATTACHMENT_OPTIMAL`,
/// other mixes to `GENERAL`, and a mix holding an exclusive layout is an error.
pub proof fn lemma_resolution_widens(
    mode: ImageLayout,
    accesses: Seq<AccessType>,
    direction: BarrierDirection,
)
    ensures
        agrees_with_widening(
            resolve_layouts(mode, accesses, direction),
            widen(required_layouts(mode, accesses)),
        ),
    decreases accesses.len(),
{
    if accesses.len() == 0 {
        assert(!(exists|l: i32| required_layouts(mode, accesses).contains(l)));
    } else {
        let prefix = accesses.drop_last();
        let access = accesses.last();
        lemma_resolution_widens(mode, prefix, direction);
        let before = required_layouts(mode, prefix);
        let after = required_layouts(mode, accesses);
        match required_layout(mode, access) {
            None => {
                assert forall|l: i32| after.contains(l) implies before.contains(l) by {
                    let i = choose|i: int|
                        0 <= i < accesses.len() && #[trigger] required_layout(mode, accesses[i])
                            == Some(l);
                    assert(i != accesses.len() - 1);
                    assert(prefix[i] == accesses[i]);
                }
                assert forall|l: i32| before.contains(l) implies after.contains(l) by {
                    let i = choose|i: int|
                        0 <= i < prefix.len() && #[trigger] required_layout(mode, prefix[i])
                            == Some(l);
                    assert(prefix[i] == accesses[i]);
                }
                assert(after =~= before);
            },
            Some(required) => {
                assert forall|l: i32| after.contains(l) implies #[trigger] before.insert(
                    required,
                ).contains(l) by {
                    let i = choose|i: int|
                        0 <= i < accesses.len() && #[trigger] required_layout(mode, accesses[i])
                            == Some(l);
                    if i != accesses.len() - 1 {
                        assert(prefix[i] == accesses[i]);
                    }
                }
                assert forall|l: i32| #[trigger] before.insert(required).contains(l) implies after.contains(
                    l,
                ) by {
                    if l == required {
                        assert(required_layout(mode, accesses[accesses.len() - 1]) == Some(l));
                    } else {
                        let i = choose|i: int|
                            0 <= i < prefix.len() && #[trigger] required_layout(mode, prefix[i])
                                == Some(l);
                        assert(prefix[i] == accesses[i]);
                    }
                }
                assert(after =~= before.insert(required));
                lemma_widen_insert(before, required);
            },
        }
    }
}

/// Resolving the layout of an access list does not depend on the order of the accesses, nor on
/// how often each one is listed: two lists that hold the same accesses either both resolve, to
/// the same layout, or both fail.
pub proof fn lemma_resolution_is_order_independent(
    mode: ImageLayout,
    accesses1: Seq<AccessType>,
    accesses2: Seq<AccessType>,
    direction1: BarrierDirection,
    direction2: BarrierDirection,
)
    requires
        forall|a: AccessType| accesses1.contains(a) <==> accesses2.contains(a),
    ensures
        resolve_layouts(mode, accesses1, direction1) is Ok <==> resolve_layouts(
            mode,
            accesses2,
            direction2,
        ) is Ok,
        resolve_layouts(mode, accesses1, direction1) is Ok ==> resolve_layouts(
            mode,
            accesses1,
            direction1,
        ) == resolve_layouts(mode, accesses2, direction2),
{
    lemma_same_accesses_same_layouts(mode, accesses1, accesses2);
    lemma_same_accesses_same_layouts(mode, accesses2, accesses1);
    assert(required_layouts(mode, accesses1) =~= required_layouts(mode, accesses2));
    lemma_resolution_widens(mode, accesses1, direction1);
    lemma_resolution_widens(mode, accesses2, direction2);
}

proof fn lemma_same_accesses_same_layouts(
    mode: ImageLayout,
    accesses1: Seq<AccessType>,
    accesses2: Seq<AccessType>,
)
    requires
        forall|a: AccessType| accesses1.contains(a) ==> accesses2.contains(a),
    ensures
        forall|l: i32|
            required_layouts(mode, accesses1).contains(l) ==> required_layouts(
                mode,
                accesses2,
            ).contains(l),
{
    assert forall|l: i32| required_layouts(mode, accesses1).contains(l) implies required_layouts(
        mode,
        accesses2,
    ).contains(l) by {
        let i = choose|i: int|
            0 <= i < accesses1.len() && #[trigger] required_layout(mode, accesses1[i]) == Some(l);
        assert(accesses1.contains(accesses1[i]));
        let j = choose|j: int| 0 <= j < accesses2.len() && accesses2[j] == accesses1[i];
        assert(required_layout(mode, accesses2[j]) == Some(l));
    }
}

/// A layout that some access requires is never `UNDEFINED`, and neither is any layout that
/// resolving an access list comes to.
pub proof fn lemma_resolved_layout_is_defined(
    mode: ImageLayout,
    accesses: Seq<AccessType>,
    direction: BarrierDirection,
)
    ensures
        resolve_layouts(mode, accesses, direction) matches Ok(Some(l)) ==> l
            != image_layouts::UNDEFINED,
    decreases accesses.len(),
{
    if accesses.len() > 0 {
        lemma_resolved_layout_is_defined(mode, accesses.drop_last(), direction);
    }
}

/// An access list under `GeneralAndPresentation` never conflicts: every access that requires a
/// layout requires `SHARED_PRESENT_KHR`.
pub proof fn lemma_shared_present_never_conflicts(
    accesses: Seq<AccessType>,
    direction: BarrierDirection,
)
    ensures
        resolve_layouts(ImageLayout::GeneralAndPresentation, accesses, direction) is Ok,
        resolve_layouts(ImageLayout::GeneralAndPresentation, accesses, direction) matches Ok(
            Some(l),
        ) ==> l == image_layouts::SHARED_PRESENT_KHR,
    decreases accesses.len(),
{
    if accesses.len() > 0 {
        lemma_shared_present_never_conflicts(accesses.drop_last(), direction);
    }
}

/// An access that implies no image layout (such as `Nothing`, or a buffer-only access) leaves the
/// resolution of an access list unchanged, wherever it is added.
pub proof fn lemma_layoutless_access_is_neutral(
    mode: ImageLayout,
    accesses: Seq<AccessType>,
    position: int,
    access: AccessType,
    direction: BarrierDirection,
)
    requires
        0 <= position <= accesses.len(),
        required_layout(mode, access) is None,
    ensures
        resolve_layouts(mode, accesses.insert(position, access), direction) is Ok
            <==> resolve_layouts(mode, accesses, direction) is Ok,
        resolve_layouts(mode, accesses, direction) is Ok ==> resolve_layouts(
            mode,
            accesses.insert(position, access),
            direction,
        ) == resolve_layouts(mode, accesses, direction),
{
    let longer = accesses.insert(position, access);
    assert forall|l: i32| required_layouts(mode, longer).contains(l) implies required_layouts(
        mode,
        accesses,
    ).contains(l) by {
        let i = choose|i: int|
            0 <= i < longer.len() && #[trigger] required_layout(mode, longer[i]) == Some(l);
        if i < position {
            assert(longer[i] == accesses[i]);
        } else if i > position {
            assert(longer[i] == accesses[i - 1]);
        }
    }
    assert forall|l: i32| required_layouts(mode, accesses).contains(l) implies required_layouts(
        mode,
        longer,
    ).contains(l) by {
        let i = choose|i: int|
            0 <= i < accesses.len() && #[trigger] required_layout(mode, accesses[i]) == Some(l);
        if i < position {
            assert(longer[i] == accesses[i]);
        } else {
            assert(longer[i + 1] == accesses[i]);
        }
    }
    assert(required_layouts(mode, longer) =~= required_layouts(mode, accesses));
    lemma_resolution_widens(mode, longer, direction);
    lemma_resolution_widens(mode, accesses, direction);
}

proof fn lemma_error_persists(
    mode: ImageLayout,
    accesses: Seq<AccessType>,
    n: int,
    direction: BarrierDirection,
)
    requires
        0 <= n <= accesses.len(),
        resolve_layouts(mode, accesses.subrange(0, n), direction) is Err,
    ensures
        resolve_layouts(mode, accesses, direction) == resolve_layouts(
            mode,
            accesses.subrange(0, n),
            direction,
        ),
    decreases accesses.len() - n,
{
    if n < accesses.len() {
        let next = accesses.subrange(0, n + 1);
        assert(next.drop_last() =~= accesses.subrange(0, n));
        lemma_error_persists(mode, accesses, n + 1, direction);
    } else {
        assert(accesses.subrange(0, n) =~= accesses);
    }
}

fn get_required_layout(mode: ImageLayout, access: AccessType) -> (r: Option<i32>)
    ensures
        r == required_layout(mode, access),
{
    let info = get_access_info(&access);
    if info.image_layout == image_layouts::UNDEFINED {
        None
    } else {
        Some(
            match mode {
                ImageLayout::Optimal => info.image_layout,
                ImageLayout::General => if access == AccessType::Present {
                    image_layouts::PRESENT_SRC_KHR
                } else {
                    image_layouts::GENERAL
                },
                ImageLayout::GeneralAndPresentation => image_layouts::SHARED_PRESENT_KHR,
            },
        )
    }
}

fn is_read_only(layout: i32) -> (r: bool)
    ensures
        r == is_read_only_layout(layout),
{
    layout == image_layouts::SHADER_READ_ONLY_OPTIMAL || layout
        == image_layouts::DEPTH_STENCIL_READ_ONLY_OPTIMAL || layout
        == image_layouts::READ_ONLY_OPTIMAL
}

fn is_attachment(layout: i32) -> (r: bool)
    ensures
        r == is_attachment_layout(layout),
{
    layout == image_layouts::COLOR_ATTACHMENT_OPTIMAL || layout
        == image_layouts::DEPTH_STENCIL_ATTACHMENT_OPTIMAL || layout
        == image_layouts::DEPTH_READ_ONLY_STENCIL_ATTACHMENT_OPTIMAL || layout
        == image_layouts::DEPTH_ATTACHMENT_STENCIL_READ_ONLY_OPTIMAL || layout
        == image_layouts::ATTACHMENT_OPTIMAL
}

fn is_exclusive(layout: i32) -> (r: bool)
    ensures
        r == is_exclusive_layout(layout),
{
    layout == image_layouts::PRESENT_SRC_KHR || layout == image_layouts::SHARED_PRESENT_KHR
        || layout == image_layouts::FRAGMENT_DENSITY_MAP_OPTIMAL_EXT || layout
        == image_layouts::VIDEO_DECODE_DST_KHR || layout == image_layouts::VIDEO_DECODE_SRC_KHR
        || layout == image_layouts::VIDEO_DECODE_DPB_KHR || layout
        == image_layouts::VIDEO_ENCODE_DST_KHR || layout == image_layouts::VIDEO_ENCODE_SRC_KHR
        || layout == image_layouts::VIDEO_ENCODE_DPB_KHR
}

/// The layout that serves accesses wanting `a` and accesses wanting `b`, or `None` when no
/// layout serves both.
pub fn combine(a: i32, b: i32) -> (r: Option<i32>)
    ensures
        r == combine_layouts(a, b),
{
    if a == b {
        Some(a)
    } else if is_exclusive(a) || is_exclusive(b) {
        None
    } else if is_read_only(a) && is_read_only(b) {
        Some(image_layouts::READ_ONLY_OPTIMAL)
    } else if is_attachment(a) && is_attachment(b) {
        Some(image_layouts::ATTACHMENT_OPTIMAL)
    } else {
        Some(image_layouts::GENERAL)
    }
}

/// Resolves the one image layout that serves every access of `accesses` when the image is kept
/// in `mode`: `Ok(None)` when no access implies a layout, `Ok(Some(layout))` with the widened
/// layout, or the first conflict met, reported for `direction`.
pub fn resolve_image_layout(
    accesses: &[AccessType],
    mode: ImageLayout,
    direction: BarrierDirection,
) -> (r: Result<Option<i32>, LayoutError>)
    ensures
        r == resolve_layouts(mode, accesses@, direction),
        agrees_with_widening(r, widen(required_layouts(mode, accesses@))),
        r matches Ok(Some(l)) ==> l != image_layouts::UNDEFINED,
{
    proof {
        lemma_resolution_widens(mode, accesses@, direction);
        lemma_resolved_layout_is_defined(mode, accesses@, direction);
    }
    let mut current: Option<i32> = None;
    let mut i: usize = 0;
    while i < accesses.len()
        invariant
            i <= accesses.len(),
            agrees_with_widening(
                resolve_layouts(mode, accesses@, direction),
                widen(required_layouts(mode, accesses@)),
            ),
            resolve_layouts(mode, accesses@.subrange(0, i as int), direction) == Ok::<
                Option<i32>,
                LayoutError,
            >(current),
        decreases accesses.len() - i,
    {
        let access = accesses[i];
        let ghost next = accesses@.subrange(0, i + 1);
        proof {
            assert(next.drop_last() =~= accesses@.subrange(0, i as int));
            assert(next.last() == access);
        }
        match get_required_layout(mode, access) {
            None => {},
            Some(required) => match current {
                None => {
                    current = Some(required);
                },
                Some(resolved) => match combine(resolved, required) {
                    Some(layout) => {
                        current = Some(layout);
                    },
                    None => {
                        proof {
                            lemma_error_persists(mode, accesses@, i + 1, direction);
                        }
                        return Err(LayoutError::Conflict { direction, resolved, access, required });
                    },
                },
            },
        }
        i += 1;
    }
    proof {
        assert(accesses@.subrange(0, accesses.len() as int) =~= accesses@);
    }
    Ok(current)
}

/// Layout `c` can stand in for layout `l`: combining the two gives `c` back.
pub open spec fn serves(c: i32, l: i32) -> bool {
    combine_layouts(c, l) == Some(c)
}

/// Layout `c` can stand in for the layout of every access of `accesses` that requires one.
pub open spec fn serves_all(c: i32, mode: ImageLayout, accesses: Seq<AccessType>) -> bool {
    forall|i: int|
        0 <= i < accesses.len() ==> match #[trigger] required_layout(mode, accesses[i]) {
            Some(l) => serves(c, l),
            None => true,
        }
}

/// Some access of `accesses` requires an image layout.
pub open spec fn needs_layout(mode: ImageLayout, accesses: Seq<AccessType>) -> bool {
    exists|i: int| 0 <= i < accesses.len() && (#[trigger] required_layout(mode, accesses[i])) is Some
}

/// `l` is the least layout serving every access of `accesses`: it serves them all, and every
/// layout that serves them all also serves `l`.
pub open spec fn is_least_serving_layout(l: i32, mode: ImageLayout, accesses: Seq<AccessType>) -> bool {
    &&& serves_all(l, mode, accesses)
    &&& forall|c: i32| #[trigger] serves_all(c, mode, accesses) ==> serves(c, l)
}

/// Layout `c` can stand in for every layout of `layouts`.
pub open spec fn serves_set(c: i32, layouts: Set<i32>) -> bool {
    forall|l: i32| layouts.contains(l) ==> serves(c, l)
}

proof fn lemma_widen_is_least(layouts: Set<i32>)
    ensures
        widen(layouts) is NoLayout ==> forall|l: i32| !layouts.contains(l),
        widen(layouts) matches LayoutResolution::Layout(w) ==> {
            &&& serves_set(w, layouts)
            &&& forall|c: i32| #[trigger] serves_set(c, layouts) ==> serves(c, w)
        },
        widen(layouts) is Conflict ==> forall|c: i32| !#[trigger] serves_set(c, layouts),
{
    if !(exists|l: i32| layouts.contains(l)) {
    } else if forall|a: i32, b: i32| layouts.contains(a) && layouts.contains(b) ==> a == b {
        let x = choose|l: i32| layouts.contains(l);
        assert(layouts.contains(x));
        assert forall|l: i32| layouts.contains(l) implies serves(x, l) by {
            assert(l == x);
        }
    } else {
        let (a0, b0) = choose|a: i32, b: i32| layouts.contains(a) && layouts.contains(b) && a != b;
        assert(layouts.contains(a0) && layouts.contains(b0) && a0 != b0);
        if exists|l: i32| layouts.contains(l) && is_exclusive_layout(l) {
            let e = choose|l: i32| layouts.contains(l) && is_exclusive_layout(l);
            assert forall|c: i32| !#[trigger] serves_set(c, layouts) by {
                if serves(c, e) {
                    assert(c == e);
                    if a0 != e {
                        assert(!serves(c, a0));
                    } else {
                        assert(!serves(c, b0));
                    }
                } else {
                    assert(layouts.contains(e) && !serves(c, e));
                }
            }
        } else if forall|l: i32| layouts.contains(l) ==> is_read_only_layout(l) {
            let w = image_layouts::READ_ONLY_OPTIMAL;
            assert forall|c: i32| #[trigger] serves_set(c, layouts) implies serves(c, w) by {
                assert(serves(c, a0) && serves(c, b0));
                assert(!is_exclusive_layout(a0) && !is_exclusive_layout(b0));
                assert(is_read_only_layout(a0) && is_read_only_layout(b0));
                if c != w {
                    assert(!is_exclusive_layout(c));
                    if is_read_only_layout(c) {
                        if c != a0 {
                            assert(combine_layouts(c, a0) == Some(w));
                        } else {
                            assert(combine_layouts(c, b0) == Some(w));
                        }
                    } else {
                        assert(!is_attachment_layout(a0));
                        assert(c == image_layouts::GENERAL);
                    }
                }
            }
        } else if forall|l: i32| layouts.contains(l) ==> is_attachment_layout(l) {
            let w = image_layouts::ATTACHMENT_OPTIMAL;
            assert forall|c: i32| #[trigger] serves_set(c, layouts) implies serves(c, w) by {
                assert(serves(c, a0) && serves(c, b0));
                assert(!is_exclusive_layout(a0) && !is_exclusive_layout(b0));
                assert(is_attachment_layout(a0) && is_attachment_layout(b0));
                if c != w {
                    assert(!is_exclusive_layout(c));
                    if is_attachment_layout(c) {
                        if c != a0 {
                            assert(combine_layouts(c, a0) == Some(w));
                        } else {
                            assert(combine_layouts(c, b0) == Some(w));
                        }
                    } else {
                        assert(!is_read_only_layout(a0));
                        assert(c == image_layouts::GENERAL);
                    }
                }
            }
        } else {
            let w = image_layouts::GENERAL;
            let r = choose|l: i32| layouts.contains(l) && !is_read_only_layout(l);
            let t = choose|l: i32| layouts.contains(l) && !is_attachment_layout(l);
            assert(layouts.contains(r) && !is_read_only_layout(r));
            assert(layouts.contains(t) && !is_attachment_layout(t));
            assert forall|l: i32| layouts.contains(l) implies serves(w, l) by {
                assert(!is_exclusive_layout(l));
            }
            assert forall|c: i32| #[trigger] serves_set(c, layouts) implies serves(c, w) by {
                assert(serves(c, a0) && serves(c, b0) && serves(c, r) && serves(c, t));
                assert(!is_exclusive_layout(a0) && !is_exclusive_layout(b0));
                assert(!is_exclusive_layout(r) && !is_exclusive_layout(t));
                if c != w {
                    assert(!is_exclusive_layout(c));
                    if is_read_only_layout(c) {
                        assert(c != r);
                    } else if is_attachment_layout(c) {
                        assert(c != t);
                    } else {
                        if c != a0 {
                            assert(combine_layouts(c, a0) == Some(w));
                        } else {
                            assert(combine_layouts(c, b0) == Some(w));
                        }
                    }
                }
            }
        }
    }
}

proof fn lemma_serves_all_is_serving_the_set(c: i32, mode: ImageLayout, accesses: Seq<AccessType>)
    ensures
        serves_all(c, mode, accesses) <==> serves_set(c, required_layouts(mode, accesses)),
        needs_layout(mode, accesses) <==> exists|l: i32| required_layouts(mode, accesses).contains(l),
{
    let set = required_layouts(mode, accesses);
    if serves_all(c, mode, accesses) {
        assert forall|l: i32| set.contains(l) implies serves(c, l) by {
            let i = choose|i: int|
                0 <= i < accesses.len() && #[trigger] required_layout(mode, accesses[i]) == Some(l);
        }
    }
    if forall|l: i32| set.contains(l) ==> serves(c, l) {
        assert forall|i: int| 0 <= i < accesses.len() implies match #[trigger] required_layout(
            mode,
            accesses[i],
        ) {
            Some(l) => serves(c, l),
            None => true,
        } by {
            if let Some(l) = required_layout(mode, accesses[i]) {
                assert(set.contains(l));
            }
        }
    }
    if needs_layout(mode, accesses) {
        let i = choose|i: int|
            0 <= i < accesses.len() && (#[trigger] required_layout(mode, accesses[i])) is Some;
        assert(set.contains(required_layout(mode, accesses[i])->Some_0));
    }
    if exists|l: i32| set.contains(l) {
        let l = choose|l: i32| set.contains(l);
        let i = choose|i: int|
            0 <= i < accesses.len() && #[trigger] required_layout(mode, accesses[i]) == Some(l);
        assert((required_layout(mode, accesses[i])) is Some);
    }
}

/// Resolving an access list gives the least layout that serves all of its accesses: no layout
/// when none of them requires one, the least layout serving them all when one exists, and an
/// error exactly when no layout serves them all. A conflict is reported for the given direction,
/// names an access of the list together with the layout that access requires, and that layout
/// cannot be combined with the layout resolved before it.
pub proof fn lemma_resolution_is_least_serving_layout(
    mode: ImageLayout,
    accesses: Seq<AccessType>,
    direction: BarrierDirection,
)
    ensures
        !needs_layout(mode, accesses) <==> resolve_layouts(mode, accesses, direction) == Ok::<
            Option<i32>,
            LayoutError,
        >(None),
        resolve_layouts(mode, accesses, direction) matches Ok(Some(l)) ==> needs_layout(
            mode,
            accesses,
        ) && is_least_serving_layout(l, mode, accesses),
        needs_layout(mode, accesses) && (exists|c: i32| serves_all(c, mode, accesses))
            ==> resolve_layouts(mode, accesses, direction) matches Ok(Some(_)),
        resolve_layouts(mode, accesses, direction) is Err ==> needs_layout(mode, accesses)
            && forall|c: i32| !serves_all(c, mode, accesses),
        resolve_layouts(mode, accesses, direction) matches Err(e) ==> (e matches LayoutError::Conflict {
            direction: d,
            resolved,
            access,
            required,
        } && d == direction && accesses.contains(access) && required_layout(mode, access) == Some(
            required,
        ) && combine_layouts(resolved, required) is None),
{
    lemma_resolution_widens(mode, accesses, direction);
    let set = required_layouts(mode, accesses);
    lemma_widen_is_least(set);
    lemma_serves_all_is_serving_the_set(0, mode, accesses);
    assert forall|c: i32| #[trigger] serves_all(c, mode, accesses) <==> serves_set(c, set) by {
        lemma_serves_all_is_serving_the_set(c, mode, accesses);
    }
    if let Ok(Some(l)) = resolve_layouts(mode, accesses, direction) {
        assert(set.contains(l) || !set.contains(l));
        if !(exists|x: i32| set.contains(x)) {
            assert(widen(set) is NoLayout);
        }
    }
    if resolve_layouts(mode, accesses, direction) is Err {
        assert forall|c: i32| !serves_all(c, mode, accesses) by {
            assert(!serves_set(c, set));
        }
        if !(exists|x: i32| set.contains(x)) {
            assert(widen(set) is NoLayout);
        }
    }
    lemma_conflict_details(mode, accesses, direction);
}

proof fn lemma_conflict_details(mode: ImageLayout, accesses: Seq<AccessType>, direction: BarrierDirection)
    ensures
        resolve_layouts(mode, accesses, direction) matches Err(e) ==> (e matches LayoutError::Conflict {
            direction: d,
            resolved,
            access,
            required,
        } && d == direction && accesses.contains(access) && required_layout(mode, access) == Some(
            required,
        ) && combine_layouts(resolved, required) is None),
    decreases accesses.len(),
{
    if accesses.len() > 0 {
        let prefix = accesses.drop_last();
        lemma_conflict_details(mode, prefix, direction);
        if let Err(LayoutError::Conflict { access, .. }) = resolve_layouts(mode, prefix, direction) {
            let j = choose|j: int| 0 <= j < prefix.len() && prefix[j] == access;
            assert(accesses[j] == access);
        }
        assert(accesses[accesses.len() - 1] == accesses.last());
    }
}

/// An error's message names the access list that failed and nothing else: conflicts in the same
/// list share a message whatever layouts and access they name, conflicts in different lists have
/// different messages, and a missing new layout has a message of its own.
pub proof fn lemma_message_names_the_failing_list(e1: LayoutError, e2: LayoutError)
    ensures
        e1 is Conflict && e2 is Conflict ==> (e1.spec_message() == e2.spec_message() <==> e1->direction
            == e2->direction),
        (e1 is UndefinedNewLayout) ==> (e1.spec_message() == e2.spec_message() <==> e2 is UndefinedNewLayout),
{
    reveal_strlit("conflicting image layouts in previous_accesses");
    reveal_strlit("conflicting image layouts in next_accesses");
    reveal_strlit("image barrier has no layout to transition to: new_layout would be UNDEFINED");
    let p = "conflicting image layouts in previous_accesses"@;
    let n = "conflicting image layouts in next_accesses"@;
    let u = "image barrier has no layout to transition to: new_layout would be UNDEFINED"@;
    assert(p.len() != n.len());
    assert(p.len() != u.len());
    assert(n.len() != u.len());
}

/// Whether an access needs an image layout does not depend on the layout option: exactly the
/// accesses whose Vulkan layout is `UNDEFINED` need none. `Optimal` asks for the access's own
/// layout, `General` for `PRESENT_SRC_KHR` when presenting and `GENERAL` otherwise, and
/// `GeneralAndPresentation` for `SHARED_PRESENT_KHR` always.
pub proof fn lemma_required_layout_across_options(access: AccessType)
    ensures
        required_layout(ImageLayout::Optimal, access) is None <==> access_info(access).image_layout
            == image_layouts::UNDEFINED,
        required_layout(ImageLayout::General, access) is None <==> required_layout(
            ImageLayout::Optimal,
            access,
        ) is None,
        required_layout(ImageLayout::GeneralAndPresentation, access) is None <==> required_layout(
            ImageLayout::Optimal,
            access,
        ) is None,
        required_layout(ImageLayout::Optimal, access) matches Some(l) ==> l == access_info(
            access,
        ).image_layout,
        required_layout(ImageLayout::General, access) matches Some(l) ==> (l
            == image_layouts::PRESENT_SRC_KHR <==> access == AccessType::Present) && (l
            == image_layouts::GENERAL || l == image_layouts::PRESENT_SRC_KHR),
        required_layout(ImageLayout::GeneralAndPresentation, access) matches Some(l) ==> l
            == image_layouts::SHARED_PRESENT_KHR,
{
}

} // verus!
