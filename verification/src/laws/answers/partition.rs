//! What a catalog has answered of partitions.
use crate::expect;
use crate::reply::Reply;
use crate::request::{
    HelperRequestView, NamespacesRequestView, PartitionsRequestView, RequestView, ScenarioView,
    TablesRequestView,
};
use crate::run;
use crate::run::{accepts, passes};
use crate::same::views;
use crate::scenarios::test_partition::{
    BAR, FOO, NAMESPACE, S1, S2, S3, S4, SKIPPED, SKIPPED_TOO, TABLE, TABLE_SNAPSHOT,
};
use crate::sorting::{
    ids_distinct, is_latest, latest_by_id, law_distinct_elements_are_all_kept,
    law_sorting_rearranges, law_the_latest_is_kept, sorted_by_id,
};
use crate::types::{PartitionView, SkippedCompaction};
use vstd::prelude::*;

verus! {

/// What step `k` asks for.
pub open spec fn asked(h: Seq<Reply>, k: int) -> RequestView {
    run::request(ScenarioView::Partition, h.take(k))
}

/// The partitions that are created.
pub open spec fn four(h: Seq<Reply>) -> Seq<PartitionView> {
    seq![
        expect::partition(h, FOO),
        expect::partition(h, BAR),
        expect::partition(h, SKIPPED),
        expect::partition(h, SKIPPED_TOO),
    ]
}

/// The ids of partitions.
pub open spec fn ids(list: Seq<PartitionView>) -> Seq<i64> {
    list.map_values(|p: PartitionView| p.id)
}

proof fn lemma_same_ids(a: Seq<PartitionView>, b: Seq<PartitionView>)
    requires
        a.to_multiset() == b.to_multiset(),
    ensures
        expect::ids_of(a).to_set() == ids(b).to_set(),
{
    broadcast use vstd::seq_lib::group_to_multiset_ensures;

    assert forall|id: i64| expect::ids_of(a).contains(id) <==> ids(b).contains(id) by {
        if expect::ids_of(a).contains(id) {
            let i = choose|i: int| 0 <= i < a.len() && expect::ids_of(a)[i] == id;
            assert(a.contains(a[i]));
            assert(b.to_multiset().count(a[i]) > 0);
            assert(b.contains(a[i]));
            let j = choose|j: int| 0 <= j < b.len() && b[j] == a[i];
            assert(ids(b)[j] == id);
        }
        if ids(b).contains(id) {
            let i = choose|i: int| 0 <= i < b.len() && ids(b)[i] == id;
            assert(b.contains(b[i]));
            assert(a.to_multiset().count(b[i]) > 0);
            assert(a.contains(b[i]));
            let j = choose|j: int| 0 <= j < a.len() && a[j] == b[i];
            assert(expect::ids_of(a)[j] == id);
        }
    }
    assert(expect::ids_of(a).to_set() =~= ids(b).to_set());
}

proof fn lemma_ids_twice(all: Seq<PartitionView>)
    requires
        ids_distinct(all),
    ensures
        ({
            let once = expect::ids_of(latest_by_id(all));
            &&& (once + seq![i64::MAX] + once).to_set() == ids(all).to_set().insert(i64::MAX)
            &&& (once + seq![i64::MAX] + once).len() == 2 * all.len() + 1
            &&& once.to_set() == ids(all).to_set()
        }),
{
    broadcast use vstd::seq_lib::group_to_multiset_ensures;

    law_distinct_elements_are_all_kept(all);
    law_sorting_rearranges(all);
    lemma_same_ids(latest_by_id(all), all);
    let once = expect::ids_of(latest_by_id(all));
    let given = once + seq![i64::MAX] + once;
    assert(given[once.len() as int] == i64::MAX);
    assert forall|id: i64| once.contains(id) implies given.contains(id) by {
        let i = choose|i: int| 0 <= i < once.len() && once[i] == id;
        assert(given[i] == id);
    }
    assert forall|id: i64| given.contains(id) implies id == i64::MAX || once.contains(id) by {
        let i = choose|i: int| 0 <= i < given.len() && given[i] == id;
        if i < once.len() {
            assert(once[i] == id);
        } else if i > once.len() {
            assert(once[i - once.len() - 1] == id);
        }
    }
    assert(given.to_set() =~= once.to_set().insert(i64::MAX));
}

proof fn lemma_found(found: Seq<PartitionView>, all: Seq<PartitionView>)
    requires
        ids_distinct(all),
        sorted_by_id(found) == latest_by_id(all),
        forall|i: int| 0 <= i < found.len() ==> (#[trigger] found[i]).sort_key_ids is None,
    ensures
        found.to_multiset() == all.to_multiset(),
        forall|p: PartitionView| #[trigger] all.contains(p) ==> p.sort_key_ids is None,
{
    broadcast use vstd::seq_lib::group_to_multiset_ensures;

    law_distinct_elements_are_all_kept(all);
    law_sorting_rearranges(found);
    assert forall|p: PartitionView| #[trigger] all.contains(p) implies p.sort_key_ids is None by {
        assert(found.to_multiset().count(p) > 0);
        assert(found.contains(p));
    }
}

proof fn lemma_listed(listed: Seq<PartitionView>, all: Seq<PartitionView>)
    requires
        ids_distinct(all),
        latest_by_id(listed) == latest_by_id(all),
    ensures
        forall|p: PartitionView| #[trigger] is_latest(listed, p) <==> all.contains(p),
{
    broadcast use vstd::seq_lib::group_to_multiset_ensures;

    law_distinct_elements_are_all_kept(all);
    assert forall|p: PartitionView| #[trigger] is_latest(listed, p) <==> all.contains(p) by {
        law_the_latest_is_kept(listed, p);
        assert(all.contains(p) <==> all.to_multiset().count(p) > 0);
        assert(latest_by_id(all).contains(p) <==> latest_by_id(all).to_multiset().count(p) > 0);
    }
}

/// The ids of the partitions whose compaction was skipped.
pub open spec fn skipped_partitions(list: Seq<SkippedCompaction>) -> Seq<i64> {
    list.map_values(|s: SkippedCompaction| s.partition_id)
}

/// Asking for a partition that is there gives that partition, which has no sort key yet.
pub proof fn law_a_partition_is_created_once(h: Seq<Reply>)
    requires
        passes(ScenarioView::Partition, h),
    ensures
        asked(h, 0) == RequestView::Helper(
            HelperRequestView::ArbitraryNamespace { name: "namespace_partition_test"@ },
        ),
        h[0] is Namespace,
        asked(h, 1) == RequestView::Helper(
            HelperRequestView::ArbitraryTable {
                name: "test_table"@,
                namespace: expect::namespace(h, NAMESPACE),
            },
        ),
        h[1] is Table,
        asked(h, 2) == RequestView::Partitions(
            PartitionsRequestView::CreateOrGet {
                key: "foo"@,
                table_id: expect::table(h, TABLE).id,
            },
        ),
        h[2] is Partition && expect::partition(h, FOO).sort_key_ids is None,
        asked(h, 3) == RequestView::Partitions(
            PartitionsRequestView::CreateOrGet {
                key: "foo"@,
                table_id: expect::table(h, TABLE).id,
            },
        ),
        h[3] is Partition && h[3]->Partition_0@ == expect::partition(h, FOO),
        asked(h, 4) == RequestView::Partitions(
            PartitionsRequestView::CreateOrGet {
                key: "bar"@,
                table_id: expect::table(h, TABLE).id,
            },
        ),
        h[4] is Partition,
        asked(h, 5) == RequestView::Partitions(
            PartitionsRequestView::CreateOrGet {
                key: "asdf"@,
                table_id: expect::table(h, TABLE).id,
            },
        ),
        h[5] is Partition,
        asked(h, 6) == RequestView::Partitions(
            PartitionsRequestView::CreateOrGet {
                key: "asdf too"@,
                table_id: expect::table(h, TABLE).id,
            },
        ),
        h[6] is Partition,
{
    let s = ScenarioView::Partition;
    assert(accepts(s, h.take(1)));
    assert(accepts(s, h.take(2)));
    assert(accepts(s, h.take(3)));
    assert(accepts(s, h.take(4)));
    assert(accepts(s, h.take(5)));
    assert(accepts(s, h.take(6)));
    assert(accepts(s, h.take(7)));
}

/// Answers like these are accepted.
pub proof fn law_a_partition_is_created_once_which_is_enough(h: Seq<Reply>)
    requires
        h.len() > 6,
        h[0] is Namespace,
        h[1] is Table,
        h[2] is Partition && expect::partition(h, FOO).sort_key_ids is None,
        h[3] is Partition && h[3]->Partition_0@ == expect::partition(h, FOO),
        h[4] is Partition,
        h[5] is Partition,
        h[6] is Partition,
    ensures
        accepts(ScenarioView::Partition, h.take(1)),
        accepts(ScenarioView::Partition, h.take(2)),
        accepts(ScenarioView::Partition, h.take(3)),
        accepts(ScenarioView::Partition, h.take(4)),
        accepts(ScenarioView::Partition, h.take(5)),
        accepts(ScenarioView::Partition, h.take(6)),
        accepts(ScenarioView::Partition, h.take(7)),
{
    assert(h.take(1).last() == h[0]);
    assert(h.take(2).last() == h[1]);
    assert(h.take(3).last() == h[2]);
    assert(h.take(4).last() == h[3]);
    assert(h.take(5).last() == h[4]);
    assert(h.take(6).last() == h[5]);
    assert(h.take(7).last() == h[6]);
}

/// A partition is found by its id, and none under an id that is not one.
pub proof fn law_partitions_are_found_by_id(h: Seq<Reply>)
    requires
        passes(ScenarioView::Partition, h),
    ensures
        asked(h, 7) == RequestView::Partitions(
            PartitionsRequestView::GetByIdBatch { ids: seq![expect::partition(h, SKIPPED).id] },
        ),
        h[7] is Partitions && h[7]->Partitions_0@.len() > 0,
        h[7]->Partitions_0@[0]@ == expect::partition(h, SKIPPED),
        asked(h, 8) == RequestView::Partitions(
            PartitionsRequestView::GetByIdBatch { ids: seq![i64::MAX] },
        ),
        h[8] is Partitions && h[8]->Partitions_0@.len() == 0,
{
    let s = ScenarioView::Partition;
    assert(accepts(s, h.take(8)));
    assert(accepts(s, h.take(9)));
}

/// Answers like these are accepted.
pub proof fn law_partitions_are_found_by_id_which_is_enough(h: Seq<Reply>)
    requires
        h.len() > 8,
        h[7] is Partitions && h[7]->Partitions_0@.len() > 0,
        h[7]->Partitions_0@[0]@ == expect::partition(h, SKIPPED),
        h[8] is Partitions && h[8]->Partitions_0@.len() == 0,
    ensures
        accepts(ScenarioView::Partition, h.take(8)),
        accepts(ScenarioView::Partition, h.take(9)),
{
    assert(h.take(8).last() == h[7]);
    assert(h.take(9).last() == h[8]);
}

/// Partitions are found once however often their ids are given, ids of none are passed over, and
/// all are listed: as a whole, by their ids, and in their table.
pub proof fn law_partitions_are_found_once(h: Seq<Reply>)
    requires
        passes(ScenarioView::Partition, h),
        ids_distinct(four(h)),
    ensures
        asked(h, 9) matches RequestView::Partitions(
            PartitionsRequestView::GetByIdBatch { ids: given },
        )
            && given.to_set() == ids(four(h)).to_set().insert(i64::MAX)
            && given.len() == 9,
        asked(h, 10) == RequestView::Tables(
            TablesRequestView::Snapshot { id: expect::table(h, TABLE).id },
        ),
        h[10] is TableSnapshot,
        asked(h, 11) == RequestView::Run(
            ScenarioView::ValidateTableSnapshot {
                table_snapshot: expect::table_snapshot(h, TABLE_SNAPSHOT),
            },
        ),
        h[11] is Passed,
        asked(h, 12) == RequestView::Partitions(
            PartitionsRequestView::ListByTableId { table_id: expect::table(h, TABLE).id },
        ),
        asked(h, 13) == RequestView::Partitions(PartitionsRequestView::ListIds),
        asked(h, 14) == RequestView::Partitions(PartitionsRequestView::ListOldStyle),
        h[14] is Partitions && h[14]->Partitions_0@.len() == 0,
        expect::partition(h, SKIPPED).sort_key_ids is None,
        h[9] is Partitions && views(h[9]->Partitions_0@).to_multiset() == four(h).to_multiset(),
        forall|i: int| 0 <= i < h[9]->Partitions_0@.len() ==> (
            #[trigger] h[9]->Partitions_0@[i]
        )@.sort_key_ids is None,
        h[12] is Partitions,
        forall|p: PartitionView| #[trigger] is_latest(views(h[12]->Partitions_0@), p) <==> four(
            h,
        ).contains(p),
        forall|p: PartitionView| #[trigger] four(h).contains(p) ==> p.sort_key_ids is None,
        h[13] is Ids && h[13]->Ids_0@.to_set() == ids(four(h)).to_set(),
{
    let s = ScenarioView::Partition;
    assert(accepts(s, h.take(10)));
    assert(accepts(s, h.take(11)));
    assert(accepts(s, h.take(12)));
    assert(accepts(s, h.take(13)));
    assert(accepts(s, h.take(14)));
    assert(accepts(s, h.take(15)));
    assert(
        expect::four_partitions(h.take(9), FOO, BAR, SKIPPED, SKIPPED_TOO) == latest_by_id(four(h))
    );
    assert(
        expect::four_partitions(h.take(10), FOO, BAR, SKIPPED, SKIPPED_TOO) == latest_by_id(four(h))
    );
    assert(
        expect::four_partitions(h.take(13), FOO, BAR, SKIPPED, SKIPPED_TOO) == latest_by_id(four(h))
    );
    assert(
        expect::four_partitions(h.take(14), FOO, BAR, SKIPPED, SKIPPED_TOO) == latest_by_id(four(h))
    );
    lemma_ids_twice(four(h));
    lemma_found(views(h[9]->Partitions_0@), four(h));
    lemma_listed(views(h[12]->Partitions_0@), four(h));
}

/// Answers like these are accepted.
pub proof fn law_partitions_are_found_once_which_is_enough(h: Seq<Reply>)
    requires
        h.len() > 14,
        h[10] is TableSnapshot,
        h[11] is Passed,
        h[14] is Partitions && h[14]->Partitions_0@.len() == 0,
        expect::partition(h, SKIPPED).sort_key_ids is None,
    ensures
        accepts(ScenarioView::Partition, h.take(11)),
        accepts(ScenarioView::Partition, h.take(12)),
        accepts(ScenarioView::Partition, h.take(15)),
{
    assert(h.take(11).last() == h[10]);
    assert(h.take(12).last() == h[11]);
    assert(h.take(15).last() == h[14]);
}

/// A sort key is set where it is not there or the one that is known, and otherwise the one that is
/// there is told.
pub proof fn law_swaps_of_sort_keys_are_answered(h: Seq<Reply>)
    requires
        passes(ScenarioView::Partition, h),
    ensures
        asked(h, 15) == RequestView::Partitions(
            PartitionsRequestView::Snapshot { id: expect::partition(h, SKIPPED).id },
        ),
        h[15] is PartitionSnapshot,
        asked(h, 16) == RequestView::Run(
            ScenarioView::ValidatePartitionSnapshot {
                partition_snapshot: expect::partition_snapshot(h, S1),
            },
        ),
        h[16] is Passed,
        asked(h, 17) == RequestView::Partitions(
            PartitionsRequestView::CasSortKey {
                id: expect::partition(h, SKIPPED).id,
                old: None,
                new: seq![2, 1, 3],
            },
        ),
        h[17] is Partition && h[17]->Partition_0@.sort_key_ids == Some(seq![2i64, 1, 3]),
        asked(h, 18) == RequestView::Partitions(
            PartitionsRequestView::Snapshot { id: expect::partition(h, SKIPPED).id },
        ),
        h[18] is PartitionSnapshot,
        asked(h, 19) == RequestView::Run(
            ScenarioView::ValidatePartitionSnapshot {
                partition_snapshot: expect::partition_snapshot(h, S2),
            },
        ),
        h[19] is Passed,
        asked(h, 20) == RequestView::Partitions(
            PartitionsRequestView::CasSortKey {
                id: expect::partition(h, SKIPPED).id,
                old: Some(seq![1]),
                new: seq![1, 2, 3, 4],
            },
        ),
        h[20] is CasMismatch && h[20]->CasMismatch_0@ == seq![2i64, 1, 3],
        asked(h, 21) == RequestView::Partitions(
            PartitionsRequestView::CasSortKey {
                id: expect::partition(h, SKIPPED).id,
                old: Some(seq![1, 5, 10]),
                new: seq![1, 2, 3, 4],
            },
        ),
        h[21] is CasMismatch && h[21]->CasMismatch_0@ == seq![2i64, 1, 3],
        asked(h, 22) == RequestView::Partitions(
            PartitionsRequestView::CasSortKey {
                id: expect::partition(h, SKIPPED).id,
                old: None,
                new: seq![1, 2, 3, 4],
            },
        ),
        h[22] is CasMismatch && h[22]->CasMismatch_0@ == seq![2i64, 1, 3],
        asked(h, 23) == RequestView::Partitions(
            PartitionsRequestView::GetByIdBatch { ids: seq![expect::partition(h, SKIPPED).id] },
        ),
        h[23] is Partitions && h[23]->Partitions_0@.len() > 0,
        h[23]->Partitions_0@[0]@.sort_key_ids == Some(seq![2i64, 1, 3]),
        asked(h, 24) == RequestView::Partitions(
            PartitionsRequestView::CasSortKey {
                id: expect::partition(h, SKIPPED).id,
                old: Some(seq![2, 1, 3]),
                new: seq![2, 1, 4, 3],
            },
        ),
        h[24] is Partition && h[24]->Partition_0@.sort_key_ids == Some(seq![2i64, 1, 4, 3]),
        asked(h, 25) == RequestView::Partitions(
            PartitionsRequestView::GetByIdBatch { ids: seq![expect::partition(h, SKIPPED).id] },
        ),
        h[25] is Partitions && h[25]->Partitions_0@.len() > 0,
        h[25]->Partitions_0@[0]@.sort_key_ids == Some(seq![2i64, 1, 4, 3]),
        expect::partition(h, SKIPPED_TOO).sort_key_ids is None,
        asked(h, 26) == RequestView::Partitions(
            PartitionsRequestView::CasSortKey {
                id: expect::partition(h, SKIPPED_TOO).id,
                old: None,
                new: seq![3, 4],
            },
        ),
        h[26] is Partition && h[26]->Partition_0@.sort_key_ids == Some(seq![3i64, 4]),
        asked(h, 27) == RequestView::Partitions(
            PartitionsRequestView::Snapshot { id: expect::partition(h, SKIPPED).id },
        ),
        h[27] is PartitionSnapshot,
        asked(h, 28) == RequestView::Run(
            ScenarioView::ValidatePartitionSnapshot {
                partition_snapshot: expect::partition_snapshot(h, S3),
            },
        ),
        h[28] is Passed,
{
    let s = ScenarioView::Partition;
    assert(accepts(s, h.take(16)));
    assert(accepts(s, h.take(17)));
    assert(accepts(s, h.take(18)));
    assert(accepts(s, h.take(19)));
    assert(accepts(s, h.take(20)));
    assert(accepts(s, h.take(21)));
    assert(accepts(s, h.take(22)));
    assert(accepts(s, h.take(23)));
    assert(accepts(s, h.take(24)));
    assert(accepts(s, h.take(25)));
    assert(accepts(s, h.take(26)));
    assert(accepts(s, h.take(27)));
    assert(accepts(s, h.take(28)));
    assert(accepts(s, h.take(29)));
}

/// Answers like these are accepted.
pub proof fn law_swaps_of_sort_keys_are_answered_which_is_enough(h: Seq<Reply>)
    requires
        h.len() > 28,
        h[15] is PartitionSnapshot,
        h[16] is Passed,
        h[17] is Partition && h[17]->Partition_0@.sort_key_ids == Some(seq![2i64, 1, 3]),
        h[18] is PartitionSnapshot && expect::partition_snapshot(
            h,
            S2,
        ).generation > expect::partition_snapshot(h, S1).generation,
        h[19] is Passed,
        h[20] is CasMismatch && h[20]->CasMismatch_0@ == seq![2i64, 1, 3],
        h[21] is CasMismatch && h[21]->CasMismatch_0@ == seq![2i64, 1, 3],
        h[22] is CasMismatch && h[22]->CasMismatch_0@ == seq![2i64, 1, 3],
        h[23] is Partitions && h[23]->Partitions_0@.len() > 0,
        h[23]->Partitions_0@[0]@.sort_key_ids == Some(seq![2i64, 1, 3]),
        h[24] is Partition && h[24]->Partition_0@.sort_key_ids == Some(seq![2i64, 1, 4, 3]),
        h[25] is Partitions && h[25]->Partitions_0@.len() > 0,
        h[25]->Partitions_0@[0]@.sort_key_ids == Some(seq![2i64, 1, 4, 3]),
        expect::partition(h, SKIPPED_TOO).sort_key_ids is None,
        h[26] is Partition && h[26]->Partition_0@.sort_key_ids == Some(seq![3i64, 4]),
        h[27] is PartitionSnapshot && expect::partition_snapshot(
            h,
            S3,
        ).generation > expect::partition_snapshot(h, S2).generation,
        h[28] is Passed,
    ensures
        accepts(ScenarioView::Partition, h.take(16)),
        accepts(ScenarioView::Partition, h.take(17)),
        accepts(ScenarioView::Partition, h.take(18)),
        accepts(ScenarioView::Partition, h.take(19)),
        accepts(ScenarioView::Partition, h.take(20)),
        accepts(ScenarioView::Partition, h.take(21)),
        accepts(ScenarioView::Partition, h.take(22)),
        accepts(ScenarioView::Partition, h.take(23)),
        accepts(ScenarioView::Partition, h.take(24)),
        accepts(ScenarioView::Partition, h.take(25)),
        accepts(ScenarioView::Partition, h.take(26)),
        accepts(ScenarioView::Partition, h.take(27)),
        accepts(ScenarioView::Partition, h.take(28)),
        accepts(ScenarioView::Partition, h.take(29)),
{
    assert(h.take(16).last() == h[15]);
    assert(h.take(17).last() == h[16]);
    assert(h.take(18).last() == h[17]);
    assert(h.take(19).last() == h[18]);
    assert(h.take(20).last() == h[19]);
    assert(h.take(21).last() == h[20]);
    assert(h.take(22).last() == h[21]);
    assert(h.take(23).last() == h[22]);
    assert(h.take(24).last() == h[23]);
    assert(h.take(25).last() == h[24]);
    assert(h.take(26).last() == h[25]);
    assert(h.take(27).last() == h[26]);
    assert(h.take(28).last() == h[27]);
    assert(h.take(29).last() == h[28]);
}

/// A skipped compaction is recorded with what was given, and a later one of the same partition
/// takes its place.
pub proof fn law_a_skipped_compaction_is_recorded(h: Seq<Reply>)
    requires
        passes(ScenarioView::Partition, h),
    ensures
        asked(h, 29) == RequestView::Partitions(PartitionsRequestView::ListSkippedCompactions),
        h[29] is SkippedList && h[29]->SkippedList_0@.len() == 0,
        asked(h, 30) == RequestView::Partitions(
            PartitionsRequestView::RecordSkippedCompaction {
                id: expect::partition(h, SKIPPED).id,
                reason: "I am le tired"@,
                num_files: 1,
                limit_num_files: 2,
                limit_num_files_first_in_partition: 4,
                estimated_bytes: 10,
                limit_bytes: 20,
            },
        ),
        h[30] is Done,
        asked(h, 31) == RequestView::Partitions(PartitionsRequestView::ListSkippedCompactions),
        h[31] is SkippedList && h[31]->SkippedList_0@.len() == 1,
        h[31]->SkippedList_0@[0].partition_id == expect::partition(h, SKIPPED).id,
        h[31]->SkippedList_0@[0]@.reason == "I am le tired"@,
        h[31]->SkippedList_0@[0].num_files == 1,
        h[31]->SkippedList_0@[0].limit_num_files == 2,
        h[31]->SkippedList_0@[0].estimated_bytes == 10,
        h[31]->SkippedList_0@[0].limit_bytes == 20,
        asked(h, 32) == RequestView::Partitions(
            PartitionsRequestView::GetInSkippedCompactions {
                ids: seq![
                    expect::partition(h, SKIPPED).id,
                    i64::MAX,
                    expect::partition(h, SKIPPED).id,
                ],
            },
        ),
        h[32] is SkippedList && h[32]->SkippedList_0@.len() > 0,
        h[32]->SkippedList_0@[0].partition_id == expect::partition(h, SKIPPED).id,
        h[32]->SkippedList_0@[0]@.reason == "I am le tired"@,
        asked(h, 33) == RequestView::Partitions(
            PartitionsRequestView::Snapshot { id: expect::partition(h, SKIPPED).id },
        ),
        h[33] is PartitionSnapshot,
        asked(h, 34) == RequestView::Run(
            ScenarioView::ValidatePartitionSnapshot {
                partition_snapshot: expect::partition_snapshot(h, S4),
            },
        ),
        h[34] is Passed,
        asked(h, 35) == RequestView::Partitions(
            PartitionsRequestView::RecordSkippedCompaction {
                id: expect::partition(h, SKIPPED).id,
                reason: "I'm on fire"@,
                num_files: 11,
                limit_num_files: 12,
                limit_num_files_first_in_partition: 24,
                estimated_bytes: 110,
                limit_bytes: 120,
            },
        ),
        h[35] is Done,
        asked(h, 36) == RequestView::Partitions(PartitionsRequestView::ListSkippedCompactions),
        h[36] is SkippedList && h[36]->SkippedList_0@.len() == 1,
        h[36]->SkippedList_0@[0].partition_id == expect::partition(h, SKIPPED).id,
        h[36]->SkippedList_0@[0]@.reason == "I'm on fire"@,
        h[36]->SkippedList_0@[0].num_files == 11,
        h[36]->SkippedList_0@[0].limit_num_files == 12,
        h[36]->SkippedList_0@[0].estimated_bytes == 110,
        h[36]->SkippedList_0@[0].limit_bytes == 120,
        asked(h, 37) == RequestView::Partitions(
            PartitionsRequestView::GetInSkippedCompactions {
                ids: seq![expect::partition(h, SKIPPED).id],
            },
        ),
        h[37] is SkippedList && h[37]->SkippedList_0@.len() > 0,
        h[37]->SkippedList_0@[0].partition_id == expect::partition(h, SKIPPED).id,
        h[37]->SkippedList_0@[0]@.reason == "I'm on fire"@,
{
    let s = ScenarioView::Partition;
    assert(accepts(s, h.take(30)));
    assert(accepts(s, h.take(31)));
    assert(accepts(s, h.take(32)));
    assert(accepts(s, h.take(33)));
    assert(accepts(s, h.take(34)));
    assert(accepts(s, h.take(35)));
    assert(accepts(s, h.take(36)));
    assert(accepts(s, h.take(37)));
    assert(accepts(s, h.take(38)));
}

/// Answers like these are accepted.
pub proof fn law_a_skipped_compaction_is_recorded_which_is_enough(h: Seq<Reply>)
    requires
        h.len() > 37,
        h[29] is SkippedList && h[29]->SkippedList_0@.len() == 0,
        h[30] is Done,
        h[31] is SkippedList && h[31]->SkippedList_0@.len() == 1,
        h[31]->SkippedList_0@[0].partition_id == expect::partition(h, SKIPPED).id,
        h[31]->SkippedList_0@[0]@.reason == "I am le tired"@,
        h[31]->SkippedList_0@[0].num_files == 1,
        h[31]->SkippedList_0@[0].limit_num_files == 2,
        h[31]->SkippedList_0@[0].estimated_bytes == 10,
        h[31]->SkippedList_0@[0].limit_bytes == 20,
        h[32] is SkippedList && h[32]->SkippedList_0@.len() > 0,
        h[32]->SkippedList_0@[0].partition_id == expect::partition(h, SKIPPED).id,
        h[32]->SkippedList_0@[0]@.reason == "I am le tired"@,
        h[33] is PartitionSnapshot && expect::partition_snapshot(
            h,
            S4,
        ).generation > expect::partition_snapshot(h, S3).generation,
        expect::is_partition_snapshot(h, S3),
        h[34] is Passed,
        h[35] is Done,
        h[36] is SkippedList && h[36]->SkippedList_0@.len() == 1,
        h[36]->SkippedList_0@[0].partition_id == expect::partition(h, SKIPPED).id,
        h[36]->SkippedList_0@[0]@.reason == "I'm on fire"@,
        h[36]->SkippedList_0@[0].num_files == 11,
        h[36]->SkippedList_0@[0].limit_num_files == 12,
        h[36]->SkippedList_0@[0].estimated_bytes == 110,
        h[36]->SkippedList_0@[0].limit_bytes == 120,
        h[37] is SkippedList && h[37]->SkippedList_0@.len() > 0,
        h[37]->SkippedList_0@[0].partition_id == expect::partition(h, SKIPPED).id,
        h[37]->SkippedList_0@[0]@.reason == "I'm on fire"@,
    ensures
        accepts(ScenarioView::Partition, h.take(30)),
        accepts(ScenarioView::Partition, h.take(31)),
        accepts(ScenarioView::Partition, h.take(32)),
        accepts(ScenarioView::Partition, h.take(33)),
        accepts(ScenarioView::Partition, h.take(34)),
        accepts(ScenarioView::Partition, h.take(35)),
        accepts(ScenarioView::Partition, h.take(36)),
        accepts(ScenarioView::Partition, h.take(37)),
        accepts(ScenarioView::Partition, h.take(38)),
{
    assert(h.take(30).last() == h[29]);
    assert(h.take(31).last() == h[30]);
    assert(h.take(32).last() == h[31]);
    assert(h.take(33).last() == h[32]);
    assert(h.take(34).last() == h[33]);
    assert(h.take(35).last() == h[34]);
    assert(h.take(36).last() == h[35]);
    assert(h.take(37).last() == h[36]);
    assert(h.take(38).last() == h[37]);
}

/// Skipped compactions are found for exactly the partitions that are given and have one.
pub proof fn law_skipped_compactions_are_found_by_partition(h: Seq<Reply>)
    requires
        passes(ScenarioView::Partition, h),
    ensures
        asked(h, 38) == RequestView::Partitions(
            PartitionsRequestView::RecordSkippedCompaction {
                id: expect::partition(h, SKIPPED_TOO).id,
                reason: "I am le tired too"@,
                num_files: 1,
                limit_num_files: 2,
                limit_num_files_first_in_partition: 4,
                estimated_bytes: 10,
                limit_bytes: 20,
            },
        ),
        h[38] is Done,
        asked(h, 39) == RequestView::Partitions(PartitionsRequestView::ListSkippedCompactions),
        h[39] is SkippedList && h[39]->SkippedList_0@.len() == 2,
        h[39]->SkippedList_0@[0].partition_id == expect::partition(h, SKIPPED).id,
        h[39]->SkippedList_0@[1].partition_id == expect::partition(h, SKIPPED_TOO).id,
        asked(h, 40) == RequestView::Partitions(
            PartitionsRequestView::GetInSkippedCompactions {
                ids: seq![expect::partition(h, SKIPPED).id],
            },
        ),
        h[40] is SkippedList && h[40]->SkippedList_0@.len() == 1,
        h[40]->SkippedList_0@[0].partition_id == expect::partition(h, SKIPPED).id,
        asked(h, 41) == RequestView::Partitions(
            PartitionsRequestView::GetInSkippedCompactions {
                ids: seq![expect::partition(h, SKIPPED_TOO).id],
            },
        ),
        h[41] is SkippedList && h[41]->SkippedList_0@.len() == 1,
        h[41]->SkippedList_0@[0].partition_id == expect::partition(h, SKIPPED_TOO).id,
        asked(h, 42) == RequestView::Partitions(
            PartitionsRequestView::GetInSkippedCompactions {
                ids: seq![
                    expect::partition(h, FOO).id,
                    expect::partition(h, SKIPPED).id,
                    expect::partition(h, SKIPPED_TOO).id,
                    9_999,
                ],
            },
        ),
        h[42] is SkippedList && skipped_partitions(h[42]->SkippedList_0@).to_set() == set![
            expect::partition(h, SKIPPED).id,
            expect::partition(h, SKIPPED_TOO).id,
        ],
{
    let s = ScenarioView::Partition;
    assert(accepts(s, h.take(39)));
    assert(accepts(s, h.take(40)));
    assert(accepts(s, h.take(41)));
    assert(accepts(s, h.take(42)));
    assert(accepts(s, h.take(43)));
    let a = expect::partition(h, SKIPPED).id;
    let b = expect::partition(h, SKIPPED_TOO).id;
    assert(
        skipped_partitions(h[42]->SkippedList_0@) =~= expect::skipped_ids(
            views(h[42]->SkippedList_0@),
        )
    );
    assert(seq![a, b].to_set() =~= set![a, b]) by {
        assert(seq![a, b][0] == a && seq![a, b][1] == b);
    }
}

/// Answers like these are accepted.
pub proof fn law_skipped_compactions_are_found_by_partition_which_is_enough(h: Seq<Reply>)
    requires
        h.len() > 42,
        h[38] is Done,
        h[39] is SkippedList && h[39]->SkippedList_0@.len() == 2,
        h[39]->SkippedList_0@[0].partition_id == expect::partition(h, SKIPPED).id,
        h[39]->SkippedList_0@[1].partition_id == expect::partition(h, SKIPPED_TOO).id,
        h[40] is SkippedList && h[40]->SkippedList_0@.len() == 1,
        h[40]->SkippedList_0@[0].partition_id == expect::partition(h, SKIPPED).id,
        h[41] is SkippedList && h[41]->SkippedList_0@.len() == 1,
        h[41]->SkippedList_0@[0].partition_id == expect::partition(h, SKIPPED_TOO).id,
        h[42] is SkippedList && skipped_partitions(h[42]->SkippedList_0@).to_set() == set![
            expect::partition(h, SKIPPED).id,
            expect::partition(h, SKIPPED_TOO).id,
        ],
    ensures
        accepts(ScenarioView::Partition, h.take(39)),
        accepts(ScenarioView::Partition, h.take(40)),
        accepts(ScenarioView::Partition, h.take(41)),
        accepts(ScenarioView::Partition, h.take(42)),
        accepts(ScenarioView::Partition, h.take(43)),
{
    assert(h.take(39).last() == h[38]);
    assert(h.take(40).last() == h[39]);
    assert(h.take(41).last() == h[40]);
    assert(h.take(42).last() == h[41]);
    assert(h.take(43).last() == h[42]);
    let a = expect::partition(h, SKIPPED).id;
    let b = expect::partition(h, SKIPPED_TOO).id;
    assert(
        skipped_partitions(h[42]->SkippedList_0@) =~= expect::skipped_ids(
            views(h[42]->SkippedList_0@),
        )
    );
    assert(seq![a, b].to_set() =~= set![a, b]) by {
        assert(seq![a, b][0] == a && seq![a, b][1] == b);
    }
}

/// Removing a skipped compaction gives what was recorded last, and afterwards there is none.
pub proof fn law_a_skipped_compaction_is_removed(h: Seq<Reply>)
    requires
        passes(ScenarioView::Partition, h),
    ensures
        asked(h, 43) == RequestView::Partitions(
            PartitionsRequestView::DeleteSkippedCompactions {
                id: expect::partition(h, SKIPPED).id,
            },
        ),
        h[43] is Skipped && h[43]->Skipped_0.partition_id == expect::partition(h, SKIPPED).id,
        h[43]->Skipped_0@.reason == "I'm on fire"@,
        h[43]->Skipped_0.num_files == 11,
        h[43]->Skipped_0.limit_num_files == 12,
        h[43]->Skipped_0.estimated_bytes == 110,
        h[43]->Skipped_0.limit_bytes == 120,
        asked(h, 44) == RequestView::Partitions(
            PartitionsRequestView::DeleteSkippedCompactions {
                id: expect::partition(h, SKIPPED_TOO).id,
            },
        ),
        h[44] is Skipped && h[44]->Skipped_0.partition_id == expect::partition(h, SKIPPED_TOO).id,
        h[44]->Skipped_0@.reason == "I am le tired too"@,
        asked(h, 45) == RequestView::Partitions(
            PartitionsRequestView::GetInSkippedCompactions {
                ids: seq![expect::partition(h, SKIPPED).id],
            },
        ),
        h[45] is SkippedList && h[45]->SkippedList_0@.len() == 0,
        asked(h, 46) == RequestView::Partitions(
            PartitionsRequestView::DeleteSkippedCompactions {
                id: expect::partition(h, SKIPPED).id,
            },
        ),
        h[46] is Nothing,
        asked(h, 47) == RequestView::Partitions(PartitionsRequestView::ListSkippedCompactions),
        h[47] is SkippedList && h[47]->SkippedList_0@.len() == 0,
{
    let s = ScenarioView::Partition;
    assert(accepts(s, h.take(44)));
    assert(accepts(s, h.take(45)));
    assert(accepts(s, h.take(46)));
    assert(accepts(s, h.take(47)));
    assert(accepts(s, h.take(48)));
}

/// Answers like these are accepted.
pub proof fn law_a_skipped_compaction_is_removed_which_is_enough(h: Seq<Reply>)
    requires
        h.len() > 47,
        h[43] is Skipped && h[43]->Skipped_0.partition_id == expect::partition(h, SKIPPED).id,
        h[43]->Skipped_0@.reason == "I'm on fire"@,
        h[43]->Skipped_0.num_files == 11,
        h[43]->Skipped_0.limit_num_files == 12,
        h[43]->Skipped_0.estimated_bytes == 110,
        h[43]->Skipped_0.limit_bytes == 120,
        h[44] is Skipped && h[44]->Skipped_0.partition_id == expect::partition(h, SKIPPED_TOO).id,
        h[44]->Skipped_0@.reason == "I am le tired too"@,
        h[45] is SkippedList && h[45]->SkippedList_0@.len() == 0,
        h[46] is Nothing,
        h[47] is SkippedList && h[47]->SkippedList_0@.len() == 0,
    ensures
        accepts(ScenarioView::Partition, h.take(44)),
        accepts(ScenarioView::Partition, h.take(45)),
        accepts(ScenarioView::Partition, h.take(46)),
        accepts(ScenarioView::Partition, h.take(47)),
        accepts(ScenarioView::Partition, h.take(48)),
{
    assert(h.take(44).last() == h[43]);
    assert(h.take(45).last() == h[44]);
    assert(h.take(46).last() == h[45]);
    assert(h.take(47).last() == h[46]);
    assert(h.take(48).last() == h[47]);
}

/// Of the most recent partitions the one that was created last comes first, and no more are listed
/// than were asked for or are there.
pub proof fn law_the_most_recent_partitions_come_first(h: Seq<Reply>)
    requires
        passes(ScenarioView::Partition, h),
    ensures
        asked(h, 48) == RequestView::Partitions(PartitionsRequestView::MostRecentN { n: 10 }),
        h[48] is Partitions && h[48]->Partitions_0@.len() >= 2,
        h[48]->Partitions_0@[0].id == expect::partition(h, SKIPPED_TOO).id,
        h[48]->Partitions_0@[1].id == expect::partition(h, SKIPPED).id,
        h[48]->Partitions_0@.len() == 4,
        h[48]->Partitions_0@[0]@.sort_key_ids == Some(seq![3i64, 4]),
        h[48]->Partitions_0@[1]@.sort_key_ids == Some(seq![2i64, 1, 4, 3]),
        h[48]->Partitions_0@[2]@.sort_key_ids is None,
        h[48]->Partitions_0@[3]@.sort_key_ids is None,
        asked(h, 49) == RequestView::Partitions(PartitionsRequestView::MostRecentN { n: 4 }),
        h[49] is Partitions && h[49]->Partitions_0@.len() == 4,
        asked(h, 50) == RequestView::Partitions(PartitionsRequestView::MostRecentN { n: 2 }),
        h[50] is Partitions && h[50]->Partitions_0@.len() == 2,
        asked(h, 51) == RequestView::Namespaces(
            NamespacesRequestView::SoftDelete { id: expect::namespace(h, NAMESPACE).id },
        ),
        h[51] is Id,
{
    let s = ScenarioView::Partition;
    assert(accepts(s, h.take(49)));
    assert(accepts(s, h.take(50)));
    assert(accepts(s, h.take(51)));
    assert(accepts(s, h.take(52)));
}

/// Answers like these are accepted.
pub proof fn law_the_most_recent_partitions_come_first_which_is_enough(h: Seq<Reply>)
    requires
        h.len() > 51,
        h[48] is Partitions && h[48]->Partitions_0@.len() >= 2,
        h[48]->Partitions_0@[0].id == expect::partition(h, SKIPPED_TOO).id,
        h[48]->Partitions_0@[1].id == expect::partition(h, SKIPPED).id,
        h[48]->Partitions_0@.len() == 4,
        h[48]->Partitions_0@[0]@.sort_key_ids == Some(seq![3i64, 4]),
        h[48]->Partitions_0@[1]@.sort_key_ids == Some(seq![2i64, 1, 4, 3]),
        h[48]->Partitions_0@[2]@.sort_key_ids is None,
        h[48]->Partitions_0@[3]@.sort_key_ids is None,
        h[49] is Partitions && h[49]->Partitions_0@.len() == 4,
        h[50] is Partitions && h[50]->Partitions_0@.len() == 2,
        h[51] is Id,
    ensures
        accepts(ScenarioView::Partition, h.take(49)),
        accepts(ScenarioView::Partition, h.take(50)),
        accepts(ScenarioView::Partition, h.take(51)),
        accepts(ScenarioView::Partition, h.take(52)),
{
    assert(h.take(49).last() == h[48]);
    assert(h.take(50).last() == h[49]);
    assert(h.take(51).last() == h[50]);
    assert(h.take(52).last() == h[51]);
}

} // verus!
