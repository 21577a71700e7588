//! Combining the stage and access masks of a list of accesses.
use crate::access_type::{access_info, get_access_info, AccessType};
use vstd::prelude::*;

verus! {

/// The bitwise or of `mask(a)` over every access `a` of `accesses` (0 for an empty list).
pub open spec fn mask_union(accesses: Seq<AccessType>, mask: spec_fn(AccessType) -> u64) -> u64
    decreases accesses.len(),
{
    if accesses.len() == 0 {
        0
    } else {
        mask_union(accesses.drop_last(), mask) | mask(accesses.last())
    }
}

/// The pipeline stages that an access runs in.
pub open spec fn stage_mask_of(access: AccessType) -> u64 {
    access_info(access).stage_mask
}

/// The memory accesses that an access performs.
pub open spec fn access_mask_of(access: AccessType) -> u64 {
    access_info(access).access_mask
}

/// The memory accesses that an access performs if it writes, and nothing if it only reads.
pub open spec fn write_access_mask_of(access: AccessType) -> u64 {
    if access.spec_is_write_access() {
        access_info(access).access_mask
    } else {
        0
    }
}

/// Every pipeline stage that some access of `accesses` runs in.
pub open spec fn stage_union(accesses: Seq<AccessType>) -> u64 {
    mask_union(accesses, |a: AccessType| stage_mask_of(a))
}

/// Every memory access that some access of `accesses` performs.
pub open spec fn access_union(accesses: Seq<AccessType>) -> u64 {
    mask_union(accesses, |a: AccessType| access_mask_of(a))
}

/// Every memory access that some writing access of `accesses` performs.
pub open spec fn write_access_union(accesses: Seq<AccessType>) -> u64 {
    mask_union(accesses, |a: AccessType| write_access_mask_of(a))
}

proof fn lemma_or_facts(y: u64, u: u64, m: u64, x: u64)
    by (bit_vector)
    ensures
        (y | u == u) ==> (y | (u | m) == (u | m)),
        m | (u | m) == (u | m),
        (u | x == x && m | x == x) ==> ((u | m) | x == x),
        0u64 | x == x,
        (u | x == x && x | u == u) ==> u == x,
        0u64 | 0u64 == 0u64,
        u | 0u64 == u,
{
}

/// `x` has every bit of `mask(a)` for each access `a` of `accesses`.
pub open spec fn covers(x: u64, accesses: Seq<AccessType>, mask: spec_fn(AccessType) -> u64) -> bool {
    forall|i: int| 0 <= i < accesses.len() ==> #[trigger] mask(accesses[i]) | x == x
}

proof fn lemma_union_covers(accesses: Seq<AccessType>, mask: spec_fn(AccessType) -> u64)
    ensures
        covers(mask_union(accesses, mask), accesses, mask),
    decreases accesses.len(),
{
    if accesses.len() > 0 {
        let prefix = accesses.drop_last();
        lemma_union_covers(prefix, mask);
        let u = mask_union(prefix, mask);
        let m = mask(accesses.last());
        assert forall|i: int| 0 <= i < accesses.len() implies #[trigger] mask(accesses[i]) | (u
            | m) == (u | m) by {
            lemma_or_facts(mask(accesses[i]), u, m, 0);
            if i < accesses.len() - 1 {
                assert(prefix[i] == accesses[i]);
            }
        }
    }
}

proof fn lemma_union_is_least(
    accesses: Seq<AccessType>,
    mask: spec_fn(AccessType) -> u64,
    x: u64,
)
    requires
        covers(x, accesses, mask),
    ensures
        mask_union(accesses, mask) | x == x,
    decreases accesses.len(),
{
    if accesses.len() == 0 {
        lemma_or_facts(0, 0, 0, x);
    } else {
        let prefix = accesses.drop_last();
        assert forall|i: int| 0 <= i < prefix.len() implies #[trigger] mask(prefix[i]) | x == x by {
            assert(prefix[i] == accesses[i]);
        }
        lemma_union_is_least(prefix, mask, x);
        let last = accesses.len() - 1;
        assert(mask(accesses[last]) | x == x);
        lemma_or_facts(0, mask_union(prefix, mask), mask(accesses.last()), x);
    }
}

/// `x` is the least mask covering `mask(a)` for every access `a` of `accesses`: it has each of
/// their bits, and every mask that has all of their bits has all of the bits of `x`.
pub open spec fn is_least_cover(x: u64, accesses: Seq<AccessType>, mask: spec_fn(AccessType) -> u64) -> bool {
    &&& covers(x, accesses, mask)
    &&& forall|y: u64| #[trigger] covers(y, accesses, mask) ==> x | y == y
}

/// The union of `mask(a)` over the accesses is exactly the bits that some access's mask has:
/// the least mask covering every one of them.
pub proof fn lemma_mask_union_is_least_cover(
    accesses: Seq<AccessType>,
    mask: spec_fn(AccessType) -> u64,
)
    ensures
        is_least_cover(mask_union(accesses, mask), accesses, mask),
{
    lemma_union_covers(accesses, mask);
    assert forall|y: u64| #[trigger] covers(y, accesses, mask) implies mask_union(accesses, mask)
        | y == y by {
        lemma_union_is_least(accesses, mask, y);
    }
}

/// A list of accesses has only one least cover.
pub proof fn lemma_least_cover_is_unique(
    x: u64,
    z: u64,
    accesses: Seq<AccessType>,
    mask: spec_fn(AccessType) -> u64,
)
    requires
        is_least_cover(x, accesses, mask),
        is_least_cover(z, accesses, mask),
    ensures
        x == z,
{
    assert(covers(z, accesses, mask));
    assert(covers(x, accesses, mask));
    lemma_or_facts(0, x, 0, z);
    lemma_or_facts(0, z, 0, x);
}

/// The union of masks over a list of accesses depends only on which accesses the list holds,
/// not on their order nor on how often each is listed.
pub proof fn lemma_mask_union_is_order_independent(
    accesses1: Seq<AccessType>,
    accesses2: Seq<AccessType>,
    mask: spec_fn(AccessType) -> u64,
)
    requires
        forall|a: AccessType| accesses1.contains(a) <==> accesses2.contains(a),
    ensures
        mask_union(accesses1, mask) == mask_union(accesses2, mask),
{
    let u1 = mask_union(accesses1, mask);
    let u2 = mask_union(accesses2, mask);
    lemma_union_covers(accesses1, mask);
    lemma_union_covers(accesses2, mask);
    assert forall|i: int| 0 <= i < accesses1.len() implies #[trigger] mask(accesses1[i]) | u2
        == u2 by {
        assert(accesses1.contains(accesses1[i]));
        let j = choose|j: int| 0 <= j < accesses2.len() && accesses2[j] == accesses1[i];
        assert(mask(accesses2[j]) | u2 == u2);
    }
    assert forall|i: int| 0 <= i < accesses2.len() implies #[trigger] mask(accesses2[i]) | u1
        == u1 by {
        assert(accesses2.contains(accesses2[i]));
        let j = choose|j: int| 0 <= j < accesses1.len() && accesses1[j] == accesses2[i];
        assert(mask(accesses1[j]) | u1 == u1);
    }
    lemma_union_is_least(accesses1, mask, u2);
    lemma_union_is_least(accesses2, mask, u1);
    lemma_or_facts(0, u1, 0, u2);
}

/// A list of accesses none of which writes makes nothing available: its write access union is
/// empty.
pub proof fn lemma_reads_make_nothing_available(accesses: Seq<AccessType>)
    requires
        forall|i: int| 0 <= i < accesses.len() ==> !(#[trigger] accesses[i]).spec_is_write_access(),
    ensures
        write_access_union(accesses) == 0,
    decreases accesses.len(),
{
    if accesses.len() > 0 {
        let prefix = accesses.drop_last();
        assert forall|i: int| 0 <= i < prefix.len() implies !(#[trigger] prefix[i]).spec_is_write_access() by {
            assert(prefix[i] == accesses[i]);
        }
        lemma_reads_make_nothing_available(prefix);
        assert(!accesses[accesses.len() - 1].spec_is_write_access());
        lemma_or_facts(0, 0, 0, 0);
    }
}

/// The stages, memory accesses and written memory accesses of a list of accesses, as computed
/// from its masks in one pass.
pub struct AccessMasks {
    pub stage_mask: u64,
    pub access_mask: u64,
    pub write_access_mask: u64,
}

/// Combines the masks of every access of `accesses`.
pub fn combine_masks(accesses: &[AccessType]) -> (r: AccessMasks)
    ensures
        r.stage_mask == stage_union(accesses@),
        r.access_mask == access_union(accesses@),
        r.write_access_mask == write_access_union(accesses@),
{
    let mut stage_mask: u64 = 0;
    let mut access_mask: u64 = 0;
    let mut write_access_mask: u64 = 0;
    let mut i: usize = 0;
    while i < accesses.len()
        invariant
            i <= accesses.len(),
            stage_mask == stage_union(accesses@.subrange(0, i as int)),
            access_mask == access_union(accesses@.subrange(0, i as int)),
            write_access_mask == write_access_union(accesses@.subrange(0, i as int)),
        decreases accesses.len() - i,
    {
        let access = accesses[i];
        let info = get_access_info(&access);
        proof {
            let next = accesses@.subrange(0, i + 1);
            assert(next.drop_last() =~= accesses@.subrange(0, i as int));
            assert(next.last() == access);
        }
        stage_mask = stage_mask | info.stage_mask;
        access_mask = access_mask | info.access_mask;
        // Availability operations are only needed for writes.
        if access.is_write_access() {
            write_access_mask = write_access_mask | info.access_mask;
        } else {
            proof {
                lemma_or_facts(0, write_access_mask, 0, 0);
            }
        }
        i += 1;
    }
    proof {
        assert(accesses@.subrange(0, accesses.len() as int) =~= accesses@);
    }
    AccessMasks { stage_mask, access_mask, write_access_mask }
}

} // verus!
