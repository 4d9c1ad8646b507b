//! Partitions can be created, found, sorted and skipped.
use crate::check;
use crate::expect;
use crate::reply::Reply;
use crate::request::{
    HelperRequest, HelperRequestView, NamespacesRequest, NamespacesRequestView, PartitionsRequest,
    PartitionsRequestView, Request, RequestView, Scenario, ScenarioView, TablesRequest,
    TablesRequestView,
};
use crate::run;
use crate::run::accepted;
use vstd::prelude::*;

verus! {

/// The step that gives the namespace.
pub const NAMESPACE: usize = 0;

/// The step that gives the table.
pub const TABLE: usize = 1;

/// The step that gives a partition without a sort key.
pub const FOO: usize = 2;

/// The step that gives a second partition.
pub const BAR: usize = 4;

/// The step that gives a partition that is skipped later.
pub const SKIPPED: usize = 5;

/// The step that gives another one.
pub const SKIPPED_TOO: usize = 6;

/// The step that gives a snapshot of the table.
pub const TABLE_SNAPSHOT: usize = 10;

/// The step that gives a snapshot of the partition without a sort key.
pub const S1: usize = 15;

/// The step that gives a snapshot with the sort key.
pub const S2: usize = 18;

/// The step that gives a snapshot with the second sort key.
pub const S3: usize = 27;

/// The step that gives a snapshot with the skipped compaction.
pub const S4: usize = 33;

/// How many requests there are.
pub const LENGTH: usize = 52;

/// What is asked for when the replies so far are `h`.
pub open spec fn request(h: Seq<Reply>) -> RequestView {
    let n = h.len();
    if n == NAMESPACE {
        // the namespace
        RequestView::Helper(
            HelperRequestView::ArbitraryNamespace { name: "namespace_partition_test"@ },
        )
    } else if n == TABLE {
        // the table
        RequestView::Helper(
            HelperRequestView::ArbitraryTable {
                name: "test_table"@,
                namespace: expect::namespace(h, NAMESPACE),
            },
        )
    } else if n == FOO {
        // a partition without a sort key
        RequestView::Partitions(
            PartitionsRequestView::CreateOrGet {
                key: "foo"@,
                table_id: expect::table(h, TABLE).id,
            },
        )
    } else if n == 3 {
        // it is not created twice
        RequestView::Partitions(
            PartitionsRequestView::CreateOrGet {
                key: "foo"@,
                table_id: expect::table(h, TABLE).id,
            },
        )
    } else if n == BAR {
        // a second partition
        RequestView::Partitions(
            PartitionsRequestView::CreateOrGet {
                key: "bar"@,
                table_id: expect::table(h, TABLE).id,
            },
        )
    } else if n == SKIPPED {
        // a partition that is skipped later
        RequestView::Partitions(
            PartitionsRequestView::CreateOrGet {
                key: "asdf"@,
                table_id: expect::table(h, TABLE).id,
            },
        )
    } else if n == SKIPPED_TOO {
        // another one
        RequestView::Partitions(
            PartitionsRequestView::CreateOrGet {
                key: "asdf too"@,
                table_id: expect::table(h, TABLE).id,
            },
        )
    } else if n == 7 {
        // a partition can be read by its id
        RequestView::Partitions(
            PartitionsRequestView::GetByIdBatch { ids: seq![expect::partition(h, SKIPPED).id] },
        )
    } else if n == 8 {
        // another id finds nothing
        RequestView::Partitions(PartitionsRequestView::GetByIdBatch { ids: seq![i64::MAX] })
    } else if n == 9 {
        // unknown ids and repetitions are ignored
        RequestView::Partitions(
            PartitionsRequestView::GetByIdBatch {
                ids: expect::ids_twice(h, FOO, BAR, SKIPPED, SKIPPED_TOO),
            },
        )
    } else if n == TABLE_SNAPSHOT {
        // a snapshot of the table
        RequestView::Tables(TablesRequestView::Snapshot { id: expect::table(h, TABLE).id })
    } else if n == 11 {
        RequestView::Run(
            ScenarioView::ValidateTableSnapshot {
                table_snapshot: expect::table_snapshot(h, TABLE_SNAPSHOT),
            },
        )
    } else if n == 12 {
        // the partitions of the table
        RequestView::Partitions(
            PartitionsRequestView::ListByTableId { table_id: expect::table(h, TABLE).id },
        )
    } else if n == 13 {
        // the ids of all partitions
        RequestView::Partitions(PartitionsRequestView::ListIds)
    } else if n == 14 {
        // every partition has a hash
        RequestView::Partitions(PartitionsRequestView::ListOldStyle)
    } else if n == S1 {
        // a snapshot of the partition without a sort key
        RequestView::Partitions(
            PartitionsRequestView::Snapshot { id: expect::partition(h, SKIPPED).id },
        )
    } else if n == 16 {
        RequestView::Run(
            ScenarioView::ValidatePartitionSnapshot {
                partition_snapshot: expect::partition_snapshot(h, S1),
            },
        )
    } else if n == 17 {
        // a first sort key
        RequestView::Partitions(
            PartitionsRequestView::CasSortKey {
                id: expect::partition(h, SKIPPED).id,
                old: None,
                new: seq![2, 1, 3],
            },
        )
    } else if n == S2 {
        // a snapshot with the sort key
        RequestView::Partitions(
            PartitionsRequestView::Snapshot { id: expect::partition(h, SKIPPED).id },
        )
    } else if n == 19 {
        RequestView::Run(
            ScenarioView::ValidatePartitionSnapshot {
                partition_snapshot: expect::partition_snapshot(h, S2),
            },
        )
    } else if n == 20 {
        // it is kept where the caller knows another one
        RequestView::Partitions(
            PartitionsRequestView::CasSortKey {
                id: expect::partition(h, SKIPPED).id,
                old: Some(seq![1]),
                new: seq![1, 2, 3, 4],
            },
        )
    } else if n == 21 {
        // also one of the same length
        RequestView::Partitions(
            PartitionsRequestView::CasSortKey {
                id: expect::partition(h, SKIPPED).id,
                old: Some(seq![1, 5, 10]),
                new: seq![1, 2, 3, 4],
            },
        )
    } else if n == 22 {
        // or none
        RequestView::Partitions(
            PartitionsRequestView::CasSortKey {
                id: expect::partition(h, SKIPPED).id,
                old: None,
                new: seq![1, 2, 3, 4],
            },
        )
    } else if n == 23 {
        RequestView::Partitions(
            PartitionsRequestView::GetByIdBatch { ids: seq![expect::partition(h, SKIPPED).id] },
        )
    } else if n == 24 {
        // it is replaced where the caller knows it
        RequestView::Partitions(
            PartitionsRequestView::CasSortKey {
                id: expect::partition(h, SKIPPED).id,
                old: Some(seq![2, 1, 3]),
                new: seq![2, 1, 4, 3],
            },
        )
    } else if n == 25 {
        RequestView::Partitions(
            PartitionsRequestView::GetByIdBatch { ids: seq![expect::partition(h, SKIPPED).id] },
        )
    } else if n == 26 {
        // a first sort key for the other partition
        RequestView::Partitions(
            PartitionsRequestView::CasSortKey {
                id: expect::partition(h, SKIPPED_TOO).id,
                old: None,
                new: seq![3, 4],
            },
        )
    } else if n == S3 {
        // a snapshot with the second sort key
        RequestView::Partitions(
            PartitionsRequestView::Snapshot { id: expect::partition(h, SKIPPED).id },
        )
    } else if n == 28 {
        RequestView::Run(
            ScenarioView::ValidatePartitionSnapshot {
                partition_snapshot: expect::partition_snapshot(h, S3),
            },
        )
    } else if n == 29 {
        // no compaction was skipped so far
        RequestView::Partitions(PartitionsRequestView::ListSkippedCompactions)
    } else if n == 30 {
        RequestView::Partitions(
            PartitionsRequestView::RecordSkippedCompaction {
                id: expect::partition(h, SKIPPED).id,
                reason: "I am le tired"@,
                num_files: 1,
                limit_num_files: 2,
                limit_num_files_first_in_partition: 4,
                estimated_bytes: 10,
                limit_bytes: 20,
            },
        )
    } else if n == 31 {
        // now one was
        RequestView::Partitions(PartitionsRequestView::ListSkippedCompactions)
    } else if n == 32 {
        RequestView::Partitions(
            PartitionsRequestView::GetInSkippedCompactions {
                ids: seq![
                    expect::partition(h, SKIPPED).id,
                    i64::MAX,
                    expect::partition(h, SKIPPED).id,
                ],
            },
        )
    } else if n == S4 {
        // a snapshot with the skipped compaction
        RequestView::Partitions(
            PartitionsRequestView::Snapshot { id: expect::partition(h, SKIPPED).id },
        )
    } else if n == 34 {
        RequestView::Run(
            ScenarioView::ValidatePartitionSnapshot {
                partition_snapshot: expect::partition_snapshot(h, S4),
            },
        )
    } else if n == 35 {
        // only the last reason is kept
        RequestView::Partitions(
            PartitionsRequestView::RecordSkippedCompaction {
                id: expect::partition(h, SKIPPED).id,
                reason: "I'm on fire"@,
                num_files: 11,
                limit_num_files: 12,
                limit_num_files_first_in_partition: 24,
                estimated_bytes: 110,
                limit_bytes: 120,
            },
        )
    } else if n == 36 {
        RequestView::Partitions(PartitionsRequestView::ListSkippedCompactions)
    } else if n == 37 {
        RequestView::Partitions(
            PartitionsRequestView::GetInSkippedCompactions {
                ids: seq![expect::partition(h, SKIPPED).id],
            },
        )
    } else if n == 38 {
        // both partitions are skipped
        RequestView::Partitions(
            PartitionsRequestView::RecordSkippedCompaction {
                id: expect::partition(h, SKIPPED_TOO).id,
                reason: "I am le tired too"@,
                num_files: 1,
                limit_num_files: 2,
                limit_num_files_first_in_partition: 4,
                estimated_bytes: 10,
                limit_bytes: 20,
            },
        )
    } else if n == 39 {
        RequestView::Partitions(PartitionsRequestView::ListSkippedCompactions)
    } else if n == 40 {
        // each can be asked for
        RequestView::Partitions(
            PartitionsRequestView::GetInSkippedCompactions {
                ids: seq![expect::partition(h, SKIPPED).id],
            },
        )
    } else if n == 41 {
        RequestView::Partitions(
            PartitionsRequestView::GetInSkippedCompactions {
                ids: seq![expect::partition(h, SKIPPED_TOO).id],
            },
        )
    } else if n == 42 {
        // also among others
        RequestView::Partitions(
            PartitionsRequestView::GetInSkippedCompactions {
                ids: seq![
                    expect::partition(h, FOO).id,
                    expect::partition(h, SKIPPED).id,
                    expect::partition(h, SKIPPED_TOO).id,
                    9_999,
                ],
            },
        )
    } else if n == 43 {
        // what was recorded can be removed
        RequestView::Partitions(
            PartitionsRequestView::DeleteSkippedCompactions {
                id: expect::partition(h, SKIPPED).id,
            },
        )
    } else if n == 44 {
        RequestView::Partitions(
            PartitionsRequestView::DeleteSkippedCompactions {
                id: expect::partition(h, SKIPPED_TOO).id,
            },
        )
    } else if n == 45 {
        RequestView::Partitions(
            PartitionsRequestView::GetInSkippedCompactions {
                ids: seq![expect::partition(h, SKIPPED).id],
            },
        )
    } else if n == 46 {
        // but only once
        RequestView::Partitions(
            PartitionsRequestView::DeleteSkippedCompactions {
                id: expect::partition(h, SKIPPED).id,
            },
        )
    } else if n == 47 {
        RequestView::Partitions(PartitionsRequestView::ListSkippedCompactions)
    } else if n == 48 {
        // the partitions that were created last come first
        RequestView::Partitions(PartitionsRequestView::MostRecentN { n: 10 })
    } else if n == 49 {
        RequestView::Partitions(PartitionsRequestView::MostRecentN { n: 4 })
    } else if n == 50 {
        RequestView::Partitions(PartitionsRequestView::MostRecentN { n: 2 })
    } else {
        // the namespace is deleted
        RequestView::Namespaces(
            NamespacesRequestView::SoftDelete { id: expect::namespace(h, NAMESPACE).id },
        )
    }
}

/// The last of the replies `h` is as it has to be, where the ones before it were.
pub open spec fn accepts(h: Seq<Reply>) -> bool {
    let n = h.len() - 1;
    if n == NAMESPACE {
        expect::got_namespace(h)
    } else if n == TABLE {
        expect::got_table(h)
    } else if n == FOO {
        expect::got_partition(h) && expect::unsorted(h, FOO)
    } else if n == 3 {
        expect::same_partition(h, FOO)
    } else if n == BAR {
        expect::got_partition(h)
    } else if n == SKIPPED {
        expect::got_partition(h)
    } else if n == SKIPPED_TOO {
        expect::got_partition(h)
    } else if n == 7 {
        expect::first_is_partition(h, SKIPPED)
    } else if n == 8 {
        expect::no_partitions(h)
    } else if n == 9 {
        expect::are_four_partitions(h, FOO, BAR, SKIPPED, SKIPPED_TOO) && expect::all_unsorted(h)
    } else if n == TABLE_SNAPSHOT {
        expect::got_table_snapshot(h)
    } else if n == 11 {
        expect::passed(h)
    } else if n == 12 {
        expect::all_mapped_unsorted(h) && expect::map_to_four_partitions(
            h,
            FOO,
            BAR,
            SKIPPED,
            SKIPPED_TOO,
        )
    } else if n == 13 {
        expect::ids_of_four_partitions(h, FOO, BAR, SKIPPED, SKIPPED_TOO)
    } else if n == 14 {
        expect::no_partitions(h) && expect::unsorted(h, SKIPPED)
    } else if n == S1 {
        expect::got_partition_snapshot(h)
    } else if n == 16 {
        expect::passed(h)
    } else if n == 17 {
        expect::has_sort_key(h, seq![2, 1, 3])
    } else if n == S2 {
        expect::got_partition_snapshot(h) && expect::newer(h, S2, S1)
    } else if n == 19 {
        expect::passed(h)
    } else if n == 20 {
        expect::kept_sort_key(h, seq![2, 1, 3])
    } else if n == 21 {
        expect::kept_sort_key(h, seq![2, 1, 3])
    } else if n == 22 {
        expect::kept_sort_key(h, seq![2, 1, 3])
    } else if n == 23 {
        expect::first_has_sort_key(h, seq![2, 1, 3])
    } else if n == 24 {
        expect::has_sort_key(h, seq![2, 1, 4, 3])
    } else if n == 25 {
        expect::first_has_sort_key(h, seq![2, 1, 4, 3]) && expect::unsorted(h, SKIPPED_TOO)
    } else if n == 26 {
        expect::has_sort_key(h, seq![3, 4])
    } else if n == S3 {
        expect::got_partition_snapshot(h) && expect::newer(h, S3, S2)
    } else if n == 28 {
        expect::passed(h)
    } else if n == 29 {
        expect::none_skipped(h)
    } else if n == 30 {
        expect::done(h)
    } else if n == 31 {
        expect::only_skipped(h, SKIPPED, "I am le tired"@, 1, 2, 10, 20)
    } else if n == 32 {
        expect::first_skipped(h, SKIPPED, "I am le tired"@)
    } else if n == S4 {
        expect::got_partition_snapshot(h) && expect::newer(h, S4, S3)
    } else if n == 34 {
        expect::passed(h)
    } else if n == 35 {
        expect::done(h)
    } else if n == 36 {
        expect::only_skipped(h, SKIPPED, "I'm on fire"@, 11, 12, 110, 120)
    } else if n == 37 {
        expect::first_skipped(h, SKIPPED, "I'm on fire"@)
    } else if n == 38 {
        expect::done(h)
    } else if n == 39 {
        expect::two_skipped(h, SKIPPED, SKIPPED_TOO)
    } else if n == 40 {
        expect::one_skipped_of(h, SKIPPED)
    } else if n == 41 {
        expect::one_skipped_of(h, SKIPPED_TOO)
    } else if n == 42 {
        expect::skipped_both(h, SKIPPED, SKIPPED_TOO)
    } else if n == 43 {
        expect::was_skipped(h, SKIPPED, "I'm on fire"@) && expect::was_skipped_with(
            h,
            11,
            12,
            110,
            120,
        )
    } else if n == 44 {
        expect::was_skipped(h, SKIPPED_TOO, "I am le tired too"@)
    } else if n == 45 {
        expect::none_skipped(h)
    } else if n == 46 {
        expect::nothing(h)
    } else if n == 47 {
        expect::none_skipped(h)
    } else if n == 48 {
        expect::most_recent_are(h, SKIPPED_TOO, SKIPPED) && expect::sorted_first(
            h,
            seq![3, 4],
            seq![2, 1, 4, 3],
        )
    } else if n == 49 {
        expect::partition_count(h, 4)
    } else if n == 50 {
        expect::partition_count(h, 2)
    } else if n == 51 {
        expect::got_id(h)
    } else {
        false
    }
}

/// With the replies `h` everything has been asked for.
pub open spec fn finished(h: Seq<Reply>) -> bool {
    h.len() >= LENGTH
}

/// What is known of the first `m` replies once they have been accepted.
pub proof fn lemma_known(h: Seq<Reply>, m: int)
    requires
        0 <= m <= h.len(),
        accepted(ScenarioView::Partition, h, m),
    ensures
        m > NAMESPACE ==> expect::is_namespace(h, NAMESPACE),
        m > TABLE ==> expect::is_table(h, TABLE),
        m > FOO ==> expect::is_partition(h, FOO),
        m > BAR ==> expect::is_partition(h, BAR),
        m > SKIPPED ==> expect::is_partition(h, SKIPPED),
        m > SKIPPED_TOO ==> expect::is_partition(h, SKIPPED_TOO),
        m > TABLE_SNAPSHOT ==> expect::is_table_snapshot(h, TABLE_SNAPSHOT),
        m > S1 ==> expect::is_partition_snapshot(h, S1),
        m > S2 ==> expect::is_partition_snapshot(h, S2),
        m > S3 ==> expect::is_partition_snapshot(h, S3),
        m > S4 ==> expect::is_partition_snapshot(h, S4),
{
    let s = ScenarioView::Partition;
    if m > NAMESPACE {
        assert(run::accepts(s, h.take(NAMESPACE + 1)));
    }
    if m > TABLE {
        assert(run::accepts(s, h.take(TABLE + 1)));
    }
    if m > FOO {
        assert(run::accepts(s, h.take(FOO + 1)));
    }
    if m > BAR {
        assert(run::accepts(s, h.take(BAR + 1)));
    }
    if m > SKIPPED {
        assert(run::accepts(s, h.take(SKIPPED + 1)));
    }
    if m > SKIPPED_TOO {
        assert(run::accepts(s, h.take(SKIPPED_TOO + 1)));
    }
    if m > TABLE_SNAPSHOT {
        assert(run::accepts(s, h.take(TABLE_SNAPSHOT + 1)));
    }
    if m > S1 {
        assert(run::accepts(s, h.take(S1 + 1)));
    }
    if m > S2 {
        assert(run::accepts(s, h.take(S2 + 1)));
    }
    if m > S3 {
        assert(run::accepts(s, h.take(S3 + 1)));
    }
    if m > S4 {
        assert(run::accepts(s, h.take(S4 + 1)));
    }
}

/// What is asked for when the replies so far are `h`.
pub fn next_request<'a>(h: &'a Vec<Reply>) -> (r: Request<'a>)
    requires
        accepted(ScenarioView::Partition, h@, h@.len() as int),
        !finished(h@),
    ensures
        r@ =~~= request(h@),
{
    let n: usize = h.len();
    proof {
        lemma_known(h@, n as int);
    }
    if n == NAMESPACE {
        Request::Helper(HelperRequest::ArbitraryNamespace { name: "namespace_partition_test" })
    } else if n == TABLE {
        Request::Helper(
            HelperRequest::ArbitraryTable {
                name: "test_table",
                namespace: check::namespace(h, NAMESPACE),
            },
        )
    } else if n == FOO {
        Request::Partitions(
            PartitionsRequest::CreateOrGet { key: "foo", table_id: check::table(h, TABLE).id },
        )
    } else if n == 3 {
        Request::Partitions(
            PartitionsRequest::CreateOrGet { key: "foo", table_id: check::table(h, TABLE).id },
        )
    } else if n == BAR {
        Request::Partitions(
            PartitionsRequest::CreateOrGet { key: "bar", table_id: check::table(h, TABLE).id },
        )
    } else if n == SKIPPED {
        Request::Partitions(
            PartitionsRequest::CreateOrGet { key: "asdf", table_id: check::table(h, TABLE).id },
        )
    } else if n == SKIPPED_TOO {
        Request::Partitions(
            PartitionsRequest::CreateOrGet { key: "asdf too", table_id: check::table(h, TABLE).id },
        )
    } else if n == 7 {
        Request::Partitions(
            PartitionsRequest::GetByIdBatch { ids: vec![check::partition(h, SKIPPED).id] },
        )
    } else if n == 8 {
        Request::Partitions(PartitionsRequest::GetByIdBatch { ids: vec![i64::MAX] })
    } else if n == 9 {
        Request::Partitions(
            PartitionsRequest::GetByIdBatch {
                ids: check::ids_twice(h, FOO, BAR, SKIPPED, SKIPPED_TOO),
            },
        )
    } else if n == TABLE_SNAPSHOT {
        Request::Tables(TablesRequest::Snapshot { id: check::table(h, TABLE).id })
    } else if n == 11 {
        Request::Run(
            Scenario::ValidateTableSnapshot {
                table_snapshot: check::table_snapshot(h, TABLE_SNAPSHOT),
            },
        )
    } else if n == 12 {
        Request::Partitions(
            PartitionsRequest::ListByTableId { table_id: check::table(h, TABLE).id },
        )
    } else if n == 13 {
        Request::Partitions(PartitionsRequest::ListIds)
    } else if n == 14 {
        Request::Partitions(PartitionsRequest::ListOldStyle)
    } else if n == S1 {
        Request::Partitions(PartitionsRequest::Snapshot { id: check::partition(h, SKIPPED).id })
    } else if n == 16 {
        Request::Run(
            Scenario::ValidatePartitionSnapshot {
                partition_snapshot: check::partition_snapshot(h, S1),
            },
        )
    } else if n == 17 {
        Request::Partitions(
            PartitionsRequest::CasSortKey {
                id: check::partition(h, SKIPPED).id,
                old: None,
                new: vec![2, 1, 3],
            },
        )
    } else if n == S2 {
        Request::Partitions(PartitionsRequest::Snapshot { id: check::partition(h, SKIPPED).id })
    } else if n == 19 {
        Request::Run(
            Scenario::ValidatePartitionSnapshot {
                partition_snapshot: check::partition_snapshot(h, S2),
            },
        )
    } else if n == 20 {
        Request::Partitions(
            PartitionsRequest::CasSortKey {
                id: check::partition(h, SKIPPED).id,
                old: Some(vec![1]),
                new: vec![1, 2, 3, 4],
            },
        )
    } else if n == 21 {
        Request::Partitions(
            PartitionsRequest::CasSortKey {
                id: check::partition(h, SKIPPED).id,
                old: Some(vec![1, 5, 10]),
                new: vec![1, 2, 3, 4],
            },
        )
    } else if n == 22 {
        Request::Partitions(
            PartitionsRequest::CasSortKey {
                id: check::partition(h, SKIPPED).id,
                old: None,
                new: vec![1, 2, 3, 4],
            },
        )
    } else if n == 23 {
        Request::Partitions(
            PartitionsRequest::GetByIdBatch { ids: vec![check::partition(h, SKIPPED).id] },
        )
    } else if n == 24 {
        Request::Partitions(
            PartitionsRequest::CasSortKey {
                id: check::partition(h, SKIPPED).id,
                old: Some(vec![2, 1, 3]),
                new: vec![2, 1, 4, 3],
            },
        )
    } else if n == 25 {
        Request::Partitions(
            PartitionsRequest::GetByIdBatch { ids: vec![check::partition(h, SKIPPED).id] },
        )
    } else if n == 26 {
        Request::Partitions(
            PartitionsRequest::CasSortKey {
                id: check::partition(h, SKIPPED_TOO).id,
                old: None,
                new: vec![3, 4],
            },
        )
    } else if n == S3 {
        Request::Partitions(PartitionsRequest::Snapshot { id: check::partition(h, SKIPPED).id })
    } else if n == 28 {
        Request::Run(
            Scenario::ValidatePartitionSnapshot {
                partition_snapshot: check::partition_snapshot(h, S3),
            },
        )
    } else if n == 29 {
        Request::Partitions(PartitionsRequest::ListSkippedCompactions)
    } else if n == 30 {
        Request::Partitions(
            PartitionsRequest::RecordSkippedCompaction {
                id: check::partition(h, SKIPPED).id,
                reason: "I am le tired",
                num_files: 1,
                limit_num_files: 2,
                limit_num_files_first_in_partition: 4,
                estimated_bytes: 10,
                limit_bytes: 20,
            },
        )
    } else if n == 31 {
        Request::Partitions(PartitionsRequest::ListSkippedCompactions)
    } else if n == 32 {
        Request::Partitions(
            PartitionsRequest::GetInSkippedCompactions {
                ids: vec![
                    check::partition(h, SKIPPED).id,
                    i64::MAX,
                    check::partition(h, SKIPPED).id,
                ],
            },
        )
    } else if n == S4 {
        Request::Partitions(PartitionsRequest::Snapshot { id: check::partition(h, SKIPPED).id })
    } else if n == 34 {
        Request::Run(
            Scenario::ValidatePartitionSnapshot {
                partition_snapshot: check::partition_snapshot(h, S4),
            },
        )
    } else if n == 35 {
        Request::Partitions(
            PartitionsRequest::RecordSkippedCompaction {
                id: check::partition(h, SKIPPED).id,
                reason: "I'm on fire",
                num_files: 11,
                limit_num_files: 12,
                limit_num_files_first_in_partition: 24,
                estimated_bytes: 110,
                limit_bytes: 120,
            },
        )
    } else if n == 36 {
        Request::Partitions(PartitionsRequest::ListSkippedCompactions)
    } else if n == 37 {
        Request::Partitions(
            PartitionsRequest::GetInSkippedCompactions {
                ids: vec![check::partition(h, SKIPPED).id],
            },
        )
    } else if n == 38 {
        Request::Partitions(
            PartitionsRequest::RecordSkippedCompaction {
                id: check::partition(h, SKIPPED_TOO).id,
                reason: "I am le tired too",
                num_files: 1,
                limit_num_files: 2,
                limit_num_files_first_in_partition: 4,
                estimated_bytes: 10,
                limit_bytes: 20,
            },
        )
    } else if n == 39 {
        Request::Partitions(PartitionsRequest::ListSkippedCompactions)
    } else if n == 40 {
        Request::Partitions(
            PartitionsRequest::GetInSkippedCompactions {
                ids: vec![check::partition(h, SKIPPED).id],
            },
        )
    } else if n == 41 {
        Request::Partitions(
            PartitionsRequest::GetInSkippedCompactions {
                ids: vec![check::partition(h, SKIPPED_TOO).id],
            },
        )
    } else if n == 42 {
        Request::Partitions(
            PartitionsRequest::GetInSkippedCompactions {
                ids: vec![
                    check::partition(h, FOO).id,
                    check::partition(h, SKIPPED).id,
                    check::partition(h, SKIPPED_TOO).id,
                    9_999,
                ],
            },
        )
    } else if n == 43 {
        Request::Partitions(
            PartitionsRequest::DeleteSkippedCompactions { id: check::partition(h, SKIPPED).id },
        )
    } else if n == 44 {
        Request::Partitions(
            PartitionsRequest::DeleteSkippedCompactions { id: check::partition(h, SKIPPED_TOO).id },
        )
    } else if n == 45 {
        Request::Partitions(
            PartitionsRequest::GetInSkippedCompactions {
                ids: vec![check::partition(h, SKIPPED).id],
            },
        )
    } else if n == 46 {
        Request::Partitions(
            PartitionsRequest::DeleteSkippedCompactions { id: check::partition(h, SKIPPED).id },
        )
    } else if n == 47 {
        Request::Partitions(PartitionsRequest::ListSkippedCompactions)
    } else if n == 48 {
        Request::Partitions(PartitionsRequest::MostRecentN { n: 10 })
    } else if n == 49 {
        Request::Partitions(PartitionsRequest::MostRecentN { n: 4 })
    } else if n == 50 {
        Request::Partitions(PartitionsRequest::MostRecentN { n: 2 })
    } else {
        Request::Namespaces(NamespacesRequest::SoftDelete { id: check::namespace(h, NAMESPACE).id })
    }
}

/// Whether the last of the replies `h` is as it has to be.
pub fn accepts_last(h: &Vec<Reply>) -> (b: bool)
    requires
        h.len() > 0,
        accepted(ScenarioView::Partition, h@, h@.len() - 1),
        !finished(h@.drop_last()),
    ensures
        b == accepts(h@),
{
    let n: usize = h.len() - 1;
    proof {
        lemma_known(h@, n as int);
    }
    if n == NAMESPACE {
        check::got_namespace(h)
    } else if n == TABLE {
        check::got_table(h)
    } else if n == FOO {
        check::got_partition(h) && check::unsorted(h, FOO)
    } else if n == 3 {
        check::same_partition(h, FOO)
    } else if n == BAR {
        check::got_partition(h)
    } else if n == SKIPPED {
        check::got_partition(h)
    } else if n == SKIPPED_TOO {
        check::got_partition(h)
    } else if n == 7 {
        check::first_is_partition(h, SKIPPED)
    } else if n == 8 {
        check::no_partitions(h)
    } else if n == 9 {
        check::are_four_partitions(h, FOO, BAR, SKIPPED, SKIPPED_TOO) && check::all_unsorted(h)
    } else if n == TABLE_SNAPSHOT {
        check::got_table_snapshot(h)
    } else if n == 11 {
        check::passed(h)
    } else if n == 12 {
        check::all_mapped_unsorted(h) && check::map_to_four_partitions(
            h,
            FOO,
            BAR,
            SKIPPED,
            SKIPPED_TOO,
        )
    } else if n == 13 {
        check::ids_of_four_partitions(h, FOO, BAR, SKIPPED, SKIPPED_TOO)
    } else if n == 14 {
        check::no_partitions(h) && check::unsorted(h, SKIPPED)
    } else if n == S1 {
        check::got_partition_snapshot(h)
    } else if n == 16 {
        check::passed(h)
    } else if n == 17 {
        check::has_sort_key(h, vec![2, 1, 3])
    } else if n == S2 {
        check::got_partition_snapshot(h) && check::newer(h, S2, S1)
    } else if n == 19 {
        check::passed(h)
    } else if n == 20 {
        check::kept_sort_key(h, vec![2, 1, 3])
    } else if n == 21 {
        check::kept_sort_key(h, vec![2, 1, 3])
    } else if n == 22 {
        check::kept_sort_key(h, vec![2, 1, 3])
    } else if n == 23 {
        check::first_has_sort_key(h, vec![2, 1, 3])
    } else if n == 24 {
        check::has_sort_key(h, vec![2, 1, 4, 3])
    } else if n == 25 {
        check::first_has_sort_key(h, vec![2, 1, 4, 3]) && check::unsorted(h, SKIPPED_TOO)
    } else if n == 26 {
        check::has_sort_key(h, vec![3, 4])
    } else if n == S3 {
        check::got_partition_snapshot(h) && check::newer(h, S3, S2)
    } else if n == 28 {
        check::passed(h)
    } else if n == 29 {
        check::none_skipped(h)
    } else if n == 30 {
        check::done(h)
    } else if n == 31 {
        check::only_skipped(h, SKIPPED, "I am le tired", 1, 2, 10, 20)
    } else if n == 32 {
        check::first_skipped(h, SKIPPED, "I am le tired")
    } else if n == S4 {
        check::got_partition_snapshot(h) && check::newer(h, S4, S3)
    } else if n == 34 {
        check::passed(h)
    } else if n == 35 {
        check::done(h)
    } else if n == 36 {
        check::only_skipped(h, SKIPPED, "I'm on fire", 11, 12, 110, 120)
    } else if n == 37 {
        check::first_skipped(h, SKIPPED, "I'm on fire")
    } else if n == 38 {
        check::done(h)
    } else if n == 39 {
        check::two_skipped(h, SKIPPED, SKIPPED_TOO)
    } else if n == 40 {
        check::one_skipped_of(h, SKIPPED)
    } else if n == 41 {
        check::one_skipped_of(h, SKIPPED_TOO)
    } else if n == 42 {
        check::skipped_both(h, SKIPPED, SKIPPED_TOO)
    } else if n == 43 {
        check::was_skipped(h, SKIPPED, "I'm on fire") && check::was_skipped_with(
            h,
            11,
            12,
            110,
            120,
        )
    } else if n == 44 {
        check::was_skipped(h, SKIPPED_TOO, "I am le tired too")
    } else if n == 45 {
        check::none_skipped(h)
    } else if n == 46 {
        check::nothing(h)
    } else if n == 47 {
        check::none_skipped(h)
    } else if n == 48 {
        check::most_recent_are(h, SKIPPED_TOO, SKIPPED) && check::sorted_first(
            h,
            vec![3, 4],
            vec![2, 1, 4, 3],
        )
    } else if n == 49 {
        check::partition_count(h, 4)
    } else if n == 50 {
        check::partition_count(h, 2)
    } else if n == 51 {
        check::got_id(h)
    } else {
        false
    }
}

/// Whether everything has been asked for.
pub fn is_finished(h: &Vec<Reply>) -> (b: bool)
    ensures
        b == finished(h@),
{
    h.len() >= LENGTH
}

} // verus!
