//! What a catalog has shown of sort keys.
use crate::expect;
use crate::reply::Reply;
use crate::request::{PartitionsRequestView, ScenarioView};
use crate::run;
use crate::run::{accepts, passes};
use crate::scenarios::test_partition;
use vstd::prelude::*;

verus! {

/// What step `k` asks for, where it is that a sort key be replaced.
pub open spec fn swap(h: Seq<Reply>, k: int) -> PartitionsRequestView {
    run::request(ScenarioView::Partition, h.take(k))->Partitions_0
}

/// Step `k` asks that the sort key of the partition of step `p` be replaced.
pub open spec fn swaps(h: Seq<Reply>, k: int, p: usize) -> bool {
    &&& run::request(ScenarioView::Partition, h.take(k)) is Partitions
    &&& swap(h, k) is CasSortKey
    &&& swap(h, k)->CasSortKey_id == expect::partition(h, p).id
}

/// The sort key of the partition of step `p` before step `k`: the one that was set last, or else
/// the one that it was created with.
pub open spec fn sort_key_before(h: Seq<Reply>, k: int, p: usize) -> Option<Seq<i64>>
    decreases k,
{
    if k <= p + 1 {
        expect::partition(h, p).sort_key_ids
    } else if swaps(h, k - 1, p) && h[k - 1] is Partition {
        Some(swap(h, k - 1)->new)
    } else {
        sort_key_before(h, k - 1, p)
    }
}

proof fn lemma_no_swap(h: Seq<Reply>, k: int, p: usize)
    requires
        passes(ScenarioView::Partition, h),
        p < k < h.len(),
        k < test_partition::LENGTH,
        k < 17 || 17 < k < 20 || k == 23 || k == 25 || k > 26,
    ensures
        !swaps(h, k, p),
{
}

proof fn lemma_sort_key_kept(h: Seq<Reply>, a: int, b: int, p: usize)
    requires
        p < a <= b,
        forall|k: int| a <= k < b ==> !(#[trigger] swaps(h, k, p)),
    ensures
        sort_key_before(h, b, p) == sort_key_before(h, a, p),
    decreases b - a,
{
    if a < b {
        assert(!swaps(h, b - 1, p));
        lemma_sort_key_kept(h, a, b - 1, p);
    }
}

proof fn lemma_swaps_of_skipped(h: Seq<Reply>)
    requires
        passes(ScenarioView::Partition, h),
    ensures
        swap_succeeds_iff_known(h, 17, test_partition::SKIPPED),
        swap_succeeds_iff_known(h, 20, test_partition::SKIPPED),
        swap_succeeds_iff_known(h, 21, test_partition::SKIPPED),
        swap_succeeds_iff_known(h, 22, test_partition::SKIPPED),
        swap_succeeds_iff_known(h, 24, test_partition::SKIPPED),
{
    let s = ScenarioView::Partition;
    let p = test_partition::SKIPPED;
    test_partition::lemma_known(h, h.len() as int);
    assert(h.len() >= test_partition::LENGTH);
    assert forall|k: int| p < k < 17 implies !(#[trigger] swaps(h, k, p)) by {
        lemma_no_swap(h, k, p);
    }
    lemma_sort_key_kept(h, p + 1, 17, p);
    assert(accepts(s, h.take(15)));
    assert(sort_key_before(h, 17, p) is None);
    let first = seq![2i64, 1, 3];
    let second = seq![2i64, 1, 4, 3];
    assert(swaps(h, 17, p) && swap(h, 17)->old is None && swap(h, 17)->new == first);
    assert(accepts(s, h.take(18)));
    assert(h[17] is Partition);
    assert(sort_key_before(h, 18, p) == Some(first));
    lemma_no_swap(h, 18, p);
    lemma_no_swap(h, 19, p);
    lemma_sort_key_kept(h, 18, 20, p);
    assert(swap(h, 20)->old == Some(seq![1i64]));
    assert(accepts(s, h.take(21)));
    assert(h[20] is CasMismatch && h[20]->CasMismatch_0@ == first);
    assert(first.len() != seq![1i64].len());
    assert(sort_key_before(h, 21, p) == Some(first));
    assert(swap(h, 21)->old == Some(seq![1i64, 5, 10]));
    assert(accepts(s, h.take(22)));
    assert(h[21] is CasMismatch && h[21]->CasMismatch_0@ == first);
    assert(first[0] != seq![1i64, 5, 10][0]);
    assert(sort_key_before(h, 22, p) == Some(first));
    assert(swap(h, 22)->old is None);
    assert(accepts(s, h.take(23)));
    assert(h[22] is CasMismatch && h[22]->CasMismatch_0@ == first);
    assert(sort_key_before(h, 23, p) == Some(first));
    lemma_no_swap(h, 23, p);
    assert(sort_key_before(h, 24, p) == Some(first));
    assert(swap(h, 24)->old == Some(first) && swap(h, 24)->new == second);
    assert(accepts(s, h.take(25)));
}

proof fn lemma_swap_of_skipped_too(h: Seq<Reply>)
    requires
        passes(ScenarioView::Partition, h),
        expect::partition(h, test_partition::SKIPPED).id != expect::partition(
            h,
            test_partition::SKIPPED_TOO,
        ).id,
    ensures
        swap_succeeds_iff_known(h, 26, test_partition::SKIPPED_TOO),
{
    let s = ScenarioView::Partition;
    let p = test_partition::SKIPPED_TOO;
    test_partition::lemma_known(h, h.len() as int);
    assert(h.len() >= test_partition::LENGTH);
    assert forall|k: int| p < k < 26 implies !(#[trigger] swaps(h, k, p)) by {
        if k < 17 || 17 < k < 20 || k == 23 || k == 25 {
            lemma_no_swap(h, k, p);
        } else {
            let t = h.take(k);
            assert(t[test_partition::SKIPPED as int] == h[test_partition::SKIPPED as int]);
        }
    }
    lemma_sort_key_kept(h, p + 1, 26, p);
    assert(accepts(s, h.take(26)));
    assert(sort_key_before(h, 26, p) is None);
    assert(swap(h, 26)->old is None && swap(h, 26)->new == seq![3i64, 4]);
    assert(accepts(s, h.take(27)));
}

/// What is said of the steps that replace the sort key of one partition.
pub open spec fn swap_succeeds_iff_known(h: Seq<Reply>, k: int, p: usize) -> bool {
    let before = sort_key_before(h, k, p);
    &&& h[k] is Partition <==> swap(h, k)->old == before
    &&& h[k] is Partition ==> h[k]->Partition_0@.sort_key_ids == Some(swap(h, k)->new)
    &&& h[k] !is Partition ==> h[k] is CasMismatch && before == Some(h[k]->CasMismatch_0@)
}

/// A sort key is replaced exactly where the caller knows it. Where it is, the partition has the new
/// one; where it is not, the caller is told the one that it has.
pub proof fn law_sort_key_is_compared_and_swapped(h: Seq<Reply>, k: int, p: usize)
    requires
        passes(ScenarioView::Partition, h),
        p == test_partition::SKIPPED || p == test_partition::SKIPPED_TOO,
        expect::partition(h, test_partition::SKIPPED).id != expect::partition(
            h,
            test_partition::SKIPPED_TOO,
        ).id,
        p < k < h.len(),
        k < test_partition::LENGTH,
        swaps(h, k, p),
    ensures
        swap_succeeds_iff_known(h, k, p),
{
    test_partition::lemma_known(h, h.len() as int);
    if k < 17 || 17 < k < 20 || k == 23 || k == 25 || k > 26 {
        lemma_no_swap(h, k, p);
    } else if k == 26 {
        let t = h.take(k);
        assert(t[test_partition::SKIPPED_TOO as int] == h[test_partition::SKIPPED_TOO as int]);
        lemma_swap_of_skipped_too(h);
    } else {
        let t = h.take(k);
        assert(t[test_partition::SKIPPED as int] == h[test_partition::SKIPPED as int]);
        lemma_swaps_of_skipped(h);
    }
}

} // verus!
