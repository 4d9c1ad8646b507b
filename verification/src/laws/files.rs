//! What a catalog has shown of its files.
use crate::expect;
use crate::nesting::{genuine, law_a_scenario_passes_only_where_those_it_runs_do, Trace};
use crate::reply::Reply;
use crate::request::{
    ParquetFilesRequestView, PartitionsRequestView, RequestView, ScenarioView, TablesRequestView,
    ValueRequestView,
};
use crate::run;
use crate::run::{accepts, finished, passes};
use crate::same::views;
use crate::scenarios::{
    list_parquet_files_by_namespace_not_to_delete, test_namespace_storage, test_parquet_file,
    test_partitions_new_file_between, test_table_storage,
};
use crate::sorting::{law_sorting_rearranges, sorted_by_id};
use crate::types::{
    CompactionLevel, ErrorKind, MaxL0CreatedAt, ParquetFileParamsView, PartitionView, TableView,
};
use vstd::prelude::*;

verus! {

/// Requests that fail change nothing: three requests to mark, raise and add files fail, and the
/// files are the same before and after.
pub proof fn law_failed_changes_change_nothing(h: Seq<Reply>, max_l0_files: u32)
    requires
        passes(ScenarioView::ParquetFile { max_l0_files }, h),
    ensures
        forall|k: int|
            test_parquet_file::BEFORE_FAILURES < k < test_parquet_file::AFTER_FAILURES ==> (
            #[trigger] h[k]) is Failed,
        expect::files(h, test_parquet_file::BEFORE_FAILURES) == expect::files(
            h,
            test_parquet_file::AFTER_FAILURES,
        ),
{
    let s = ScenarioView::ParquetFile { max_l0_files };
    assert forall|k: int|
        test_parquet_file::BEFORE_FAILURES < k < test_parquet_file::AFTER_FAILURES implies (
    #[trigger] h[k]) is Failed by {
        let t = h.take(k + 1);
        assert(accepts(s, t));
        assert(t.last() == h[k]);
    }
    assert(accepts(s, h.take(test_parquet_file::BEFORE_FAILURES + 1)));
    assert(accepts(s, h.take(test_parquet_file::AFTER_FAILURES + 1)));
}

/// A file can be upserted again, which gives it as it is, but another file under its id cannot:
/// that
/// is refused whether it is created or upserted.
pub proof fn law_conflicting_files_are_refused(h: Seq<Reply>, max_l0_files: u32)
    requires
        passes(ScenarioView::ParquetFile { max_l0_files }, h),
    ensures
        ({
            let asked = |k: int|
                run::request(ScenarioView::ParquetFile { max_l0_files }, h.take(k));
            let known = test_parquet_file::params_2(h);
            let other = test_parquet_file::conflicting_params(h);
            &&& known.object_store_id == other.object_store_id
            &&& other.row_count == 200
            &&& asked(47) == RequestView::ParquetFiles(
                ParquetFilesRequestView::Create { params: known },
            )
            &&& h[47] is Failed && h[47]->Failed_0@.kind == ErrorKind::AlreadyExists
            &&& asked(48) == RequestView::ParquetFiles(
                ParquetFilesRequestView::Upsert { params: known },
            )
            &&& h[48] is File && h[48]->File_0@ == expect::file(h, test_parquet_file::FILE_2)
            &&& asked(49) == RequestView::ParquetFiles(
                ParquetFilesRequestView::Upsert { params: other },
            )
            &&& h[49] is Failed && h[49]->Failed_0@.kind == ErrorKind::AlreadyExists
        }),
{
    let s = ScenarioView::ParquetFile { max_l0_files };
    assert(h.len() > 50);
    assert(accepts(s, h.take(48)));
    assert(accepts(s, h.take(49)));
    assert(accepts(s, h.take(50)));
    let t = h.take(47);
    let u = h.take(48);
    let v = h.take(49);
    assert forall|k: int| 0 <= k < 47 implies t[k] == h[k] && u[k] == h[k] && #[trigger] v[k]
        == h[k] by {}
    assert(v[test_parquet_file::PARAMS as int] == h[test_parquet_file::PARAMS as int]);
    assert(v[test_parquet_file::PARTITION_2 as int] == h[test_parquet_file::PARTITION_2 as int]);
    assert(v[test_parquet_file::NAMESPACE_2 as int] == h[test_parquet_file::NAMESPACE_2 as int]);
    assert(v[test_parquet_file::ID_1 as int] == h[test_parquet_file::ID_1 as int]);
    assert(v[test_parquet_file::ID_2 as int] == h[test_parquet_file::ID_2 as int]);
}

/// Files are replaced in one moment: the new file was added when the old one was marked.
pub proof fn law_files_are_replaced_in_one_moment(h: Seq<Reply>, max_l0_files: u32)
    requires
        passes(ScenarioView::ParquetFile { max_l0_files }, h),
    ensures
        expect::file(h, test_parquet_file::FILE_5_MARKED).to_delete == Some(
            expect::file(h, test_parquet_file::FILE_7).created_at,
        ),
{
    let s = ScenarioView::ParquetFile { max_l0_files };
    assert(accepts(s, h.take(test_parquet_file::FILE_5_MARKED + 1)));
    assert(accepts(s, h.take(test_parquet_file::FILE_7 + 1)));
}

/// All files whose data is too old are marked in the end, each once, and not more than a thousand
/// at a time.
pub proof fn law_old_files_are_all_marked(h: Seq<Reply>, max_l0_files: u32)
    requires
        passes(ScenarioView::ParquetFile { max_l0_files }, h),
    ensures
        ({
            let k = test_parquet_file::OLD_IDS;
            &&& h[k + 2] is Located && h[k + 3] is Located && h[k + 4] is Located
            &&& h[k + 2]->Located_0@.len() == 1_000
            &&& h[k + 2]->Located_0@.len() + h[k + 3]->Located_0@.len() == expect::uuids(h, k).len()
            &&& h[k + 4]->Located_0@.len() == 0
        }),
{
    let s = ScenarioView::ParquetFile { max_l0_files };
    let k = test_parquet_file::OLD_IDS;
    assert(accepts(s, h.take(k + 1)));
    assert(accepts(s, h.take(k + 3)));
    assert(accepts(s, h.take(k + 4)));
    assert(accepts(s, h.take(k + 5)));
}

/// Of the files that were added to a partition not more are listed than may be, and those that
/// were created first: the `i`-th that is listed has the time of the `i`-th that was added.
pub proof fn law_oldest_files_are_listed(h: Seq<Reply>, max_l0_files: u32, i: int)
    requires
        passes(ScenarioView::ParquetFile { max_l0_files }, h),
        0 <= i < max_l0_files,
    ensures
        ({
            let end = test_parquet_file::FILLING + 2 * (max_l0_files + test_parquet_file::EXCESS);
            let added = run::request(
                ScenarioView::ParquetFile { max_l0_files },
                h.take(test_parquet_file::FILLING + 2 * i + 1),
            )->ParquetFiles_0;
            &&& h[end] is Files
            &&& h[end]->Files_0@.len() == max_l0_files
            &&& added is CreateUpgradeDelete
            &&& added->create.len() == 1
            &&& added->create[0].max_l0_created_at == MaxL0CreatedAt::Computed(
                h[end]->Files_0@[i].max_l0_created_at,
            )
        }),
{
    let s = ScenarioView::ParquetFile { max_l0_files };
    let end = test_parquet_file::FILLING + 2 * (max_l0_files + test_parquet_file::EXCESS);
    assert(h.len() > end);
    let t = h.take(end + 1);
    assert(accepts(s, t));
    assert((end - test_parquet_file::FILLING) / 2 == test_parquet_file::filling(max_l0_files));
    assert(t.last() == h[end]);
    assert(h[end]->Files_0@[i].max_l0_created_at == i);
    let u = h.take(test_parquet_file::FILLING + 2 * i + 1);
    assert((u.len() - test_parquet_file::FILLING) / 2 == i);
    assert((u.len() - test_parquet_file::FILLING) % 2 == 1);
}

/// The size of a namespace is that of its files: deleting a file takes its size away.
pub proof fn law_namespace_size_is_that_of_its_files(h: Seq<Reply>)
    requires
        passes(ScenarioView::NamespaceStorage, h),
        !expect::text_is(h, test_namespace_storage::NAME, "grpc_client"@),
    ensures
        h[7] is Size && h[9] is Size,
        h[7]->Size_0 == expect::file(h, test_namespace_storage::FILE_1).file_size_bytes
            + expect::file(h, test_namespace_storage::FILE_2).file_size_bytes,
        h[9]->Size_0 == h[7]->Size_0 - expect::file(
            h,
            test_namespace_storage::FILE_1,
        ).file_size_bytes,
{
    let s = ScenarioView::NamespaceStorage;
    test_namespace_storage::lemma_known(h, h.len() as int);
    assert(h.len() >= 10);
    assert(accepts(s, h.take(8)));
    assert(accepts(s, h.take(10)));
}

/// The replies to a question for the sizes of tables tell these sizes and nothing else.
pub open spec fn tells_sizes(h: Seq<Reply>, first_size: i64, second: Option<(i64, i64)>) -> bool {
    match second {
        None => {
            &&& h.len() == 2
            &&& h[0] is Sizes && h[0]->Sizes_0@ == seq![first_size]
            &&& h[1] == Reply::Size(first_size)
        },
        Some(t) => {
            &&& h.len() == 3
            &&& h[0] is Sizes && h[0]->Sizes_0@ == seq![first_size, t.1]
            &&& h[1] == Reply::Size(first_size)
            &&& h[2] == Reply::Size(t.1)
        },
    }
}

/// Tables have the sizes given exactly where the catalog tells these sizes, of all tables of the
/// namespace and of each table alone.
pub proof fn law_sizes_are_those_given(
    h: Seq<Reply>,
    namespace_id: i64,
    first: i64,
    first_size: i64,
    second: Option<(i64, i64)>,
)
    ensures
        passes(ScenarioView::TableSize { namespace_id, first, first_size, second }, h)
            <==> tells_sizes(h, first_size, second),
        tells_sizes(h, first_size, second) ==> {
            let asked = |k: int|
                run::request(
                    ScenarioView::TableSize { namespace_id, first, first_size, second },
                    h.take(k),
                );
            &&& asked(0) == RequestView::Tables(
                TablesRequestView::ListStorageByNamespaceId { namespace_id },
            )
            &&& asked(1) == RequestView::Tables(TablesRequestView::GetStorageById { id: first })
            &&& second matches Some(t) ==> asked(2) == RequestView::Tables(
                TablesRequestView::GetStorageById { id: t.0 },
            )
        },
{
    let s = ScenarioView::TableSize { namespace_id, first, first_size, second };
    if passes(s, h) {
        if h.len() > 2 && second is None {
            assert(finished(s, h.take(2)));
        }
        if h.len() > 3 {
            assert(finished(s, h.take(3)));
        }
        assert(accepts(s, h.take(1)));
        assert(accepts(s, h.take(2)));
        if second is Some {
            assert(accepts(s, h.take(3)));
        }
    }
    if tells_sizes(h, first_size, second) {
        assert forall|n: int| 0 < n <= h.len() implies #[trigger] accepts(s, h.take(n)) by {
            assert(h.take(n).last() == h[n - 1]);
        }
    }
}

/// Step `k` asks for the sizes of tables, and the catalog told these.
pub open spec fn sizes_at(
    trace: Trace,
    k: int,
    first: TableView,
    first_size: i64,
    second: Option<(i64, i64)>,
) -> bool {
    &&& run::request(ScenarioView::TableStorage, trace.replies.take(k)) == RequestView::Run(
        ScenarioView::TableSize {
            namespace_id: first.namespace_id,
            first: first.id,
            first_size,
            second,
        },
    )
    &&& trace.replies[k] is Passed
    &&& trace.runs.contains_key(k)
    &&& tells_sizes(trace.runs[k].replies, first_size, second)
}

/// The size of a table is that of its own files: each file adds its size, a file that is deleted
/// takes its size away, and files of another table do not count.
pub proof fn law_table_size_is_that_of_its_files(trace: Trace)
    requires
        passes(ScenarioView::TableStorage, trace.replies),
        genuine(ScenarioView::TableStorage, trace),
        !expect::text_is(trace.replies, test_table_storage::NAME, "grpc_client"@),
    ensures
        ({
            let h = trace.replies;
            let first = expect::new_table(h, test_table_storage::TABLE_1);
            let second = expect::new_table(h, test_table_storage::TABLE_2);
            let a = expect::file(h, test_table_storage::FILE_1).file_size_bytes;
            let b = expect::file(h, test_table_storage::FILE_2).file_size_bytes;
            let c = expect::file(h, test_table_storage::FILE_3).file_size_bytes;
            &&& i64::MIN <= a + b <= i64::MAX
            &&& sizes_at(trace, 3, first, 0, None)
            &&& sizes_at(trace, 6, first, (a + b) as i64, None)
            &&& sizes_at(trace, 8, first, b, None)
            &&& sizes_at(trace, 11, first, b, Some((second.id, c)))
        }),
{
    let s = ScenarioView::TableStorage;
    let h = trace.replies;
    test_table_storage::lemma_known(h, h.len() as int);
    assert(h.len() >= 12);
    assert(accepts(s, h.take(4)));
    assert(accepts(s, h.take(7)));
    assert(accepts(s, h.take(9)));
    assert(accepts(s, h.take(12)));
    assert forall|k: int| k == 3 || k == 6 || k == 8 || k == 11 implies #[trigger] h[k] is Passed
        && (run::request(s, h.take(k)) matches RequestView::Run(
        ScenarioView::TableSize { namespace_id, first, first_size, second },
    ) && trace.runs.contains_key(k) && tells_sizes(trace.runs[k].replies, first_size, second)) by {
        law_a_scenario_passes_only_where_those_it_runs_do(s, trace, k);
        match run::request(s, h.take(k)) {
            RequestView::Run(
                ScenarioView::TableSize { namespace_id, first, first_size, second },
            ) => {
                law_sizes_are_those_given(
                    trace.runs[k].replies,
                    namespace_id,
                    first,
                    first_size,
                    second,
                );
            },
            _ => {},
        }
    }
    assert(h[3] is Passed && h[6] is Passed && h[8] is Passed && h[11] is Passed);
}

/// A time is strictly between two others, of which the later may be missing.
pub open spec fn is_between(time: i64, minimum: i64, maximum: Option<i64>) -> bool {
    minimum < time && match maximum {
        Some(m) => time < m,
        None => true,
    }
}

/// Partitions are found by the time of their last new file, and both bounds are exclusive: while
/// there is one partition with one file, it is found exactly where that file was added strictly
/// between the bounds.
pub proof fn law_new_files_are_found_between_exclusive_bounds(h: Seq<Reply>, k: int)
    requires
        passes(ScenarioView::PartitionsNewFileBetween, h),
        test_partitions_new_file_between::TIME_D + 1 < k
            < test_partitions_new_file_between::PARTITION_2,
        expect::time(h, test_partitions_new_file_between::TIME_B) < expect::time(
            h,
            test_partitions_new_file_between::TIME_C,
        ) < expect::file(h, test_partitions_new_file_between::ACTIVE).created_at < expect::time(
            h,
            test_partitions_new_file_between::TIME_D,
        ),
    ensures
        ({
            let asked = run::request(ScenarioView::PartitionsNewFileBetween, h.take(k));
            let created = expect::file(h, test_partitions_new_file_between::ACTIVE).created_at;
            let partition = expect::partition(h, test_partitions_new_file_between::PARTITION_1);
            &&& asked matches RequestView::Partitions(
                PartitionsRequestView::NewFileBetween { minimum_time, maximum_time },
            )
            &&& h[k] is Ids
            &&& h[k]->Ids_0@ == if is_between(created, minimum_time, maximum_time) {
                seq![partition.id]
            } else {
                Seq::<i64>::empty()
            }
        }),
{
    let s = ScenarioView::PartitionsNewFileBetween;
    test_partitions_new_file_between::lemma_known(h, h.len() as int);
    assert(accepts(s, h.take(k + 1)));
    if h[k]->Ids_0@.len() == 0 {
        assert(h[k]->Ids_0@ =~= Seq::<i64>::empty());
    }
}

/// Only files of the first level count as new: after a file of the second level a partition is not
/// found, after one of the first it is, and one whose only file is of the last level never is.
pub proof fn law_only_the_first_level_counts_as_new(h: Seq<Reply>)
    requires
        passes(ScenarioView::PartitionsNewFileBetween, h),
        expect::partition(h, test_partitions_new_file_between::PARTITION_3).id != expect::partition(
            h,
            test_partitions_new_file_between::PARTITION_1,
        ).id,
        expect::partition(h, test_partitions_new_file_between::PARTITION_3).id != expect::partition(
            h,
            test_partitions_new_file_between::PARTITION_2,
        ).id,
    ensures
        h[41] is Ids,
        h[41]->Ids_0@.len() == 0,
        h[44] is Ids,
        h[44]->Ids_0@ == seq![
            expect::partition(h, test_partitions_new_file_between::PARTITION_2).id,
        ],
        h[49] is Ids,
        !h[49]->Ids_0@.contains(
            expect::partition(h, test_partitions_new_file_between::PARTITION_3).id,
        ),
{
    broadcast use vstd::seq_lib::group_to_multiset_ensures;

    let s = ScenarioView::PartitionsNewFileBetween;
    test_partitions_new_file_between::lemma_known(h, h.len() as int);
    assert(accepts(s, h.take(42)));
    assert(accepts(s, h.take(45)));
    assert(accepts(s, h.take(50)));
    let ids = h[49]->Ids_0@;
    law_sorting_rearranges(ids);
    let third = expect::partition(h, test_partitions_new_file_between::PARTITION_3).id;
    if ids.contains(third) {
        assert(ids.to_multiset().count(third) > 0);
        assert(sorted_by_id(ids).contains(third));
    }
}

/// The ids of the partitions that reply `k` lists.
pub open spec fn partition_ids(h: Seq<Reply>, k: int) -> Seq<i64> {
    views(h[k]->Partitions_0@).map_values(|p: PartitionView| p.id)
}

proof fn lemma_all_partitions(h: Seq<Reply>, count: int, id: i64)
    requires
        0 <= count,
    ensures
        list_parquet_files_by_namespace_not_to_delete::listed_partition_ids(h, count).contains(id)
            <==> exists|k: int| 0 < k <= count && (#[trigger] partition_ids(h, k)).contains(id),
    decreases count,
{
    if count > 0 {
        lemma_all_partitions(h, count - 1, id);
        let before = list_parquet_files_by_namespace_not_to_delete::listed_partition_ids(
            h,
            count - 1,
        );
        let all = list_parquet_files_by_namespace_not_to_delete::listed_partition_ids(h, count);
        let found = partition_ids(h, count);
        assert(all == before + found);
        if all.contains(id) {
            let i = choose|i: int| 0 <= i < all.len() && all[i] == id;
            if i < before.len() {
                assert(before[i] == id);
            } else {
                assert(found[i - before.len()] == id);
                assert(partition_ids(h, count).contains(id));
            }
        }
        if before.contains(id) {
            let i = choose|i: int| 0 <= i < before.len() && before[i] == id;
            assert(all[i] == id);
        }
        if found.contains(id) {
            let i = choose|i: int| 0 <= i < found.len() && found[i] == id;
            assert(all[before.len() + i] == id);
        }
    }
}

/// The files of a namespace are those of all partitions of all its tables: each table that the
/// catalog lists is asked for its partitions, and the last request names exactly the partitions
/// that
/// some table has.
pub proof fn law_files_of_all_partitions_are_listed(h: Seq<Reply>, namespace_id: i64, id: i64)
    requires
        passes(ScenarioView::ListParquetFiles { namespace_id }, h),
    ensures
        ({
            let s = ScenarioView::ListParquetFiles { namespace_id };
            let tables = expect::tables(h, list_parquet_files_by_namespace_not_to_delete::LISTED);
            &&& h.len() == tables.len() + 2
            &&& forall|k: int|
                0 < k <= tables.len() ==> run::request(s, #[trigger] h.take(k))
                    == RequestView::Partitions(
                    PartitionsRequestView::ListByTableId { table_id: tables[k - 1].id },
                )
            &&& run::request(s, h.drop_last()) matches RequestView::ParquetFiles(
                ParquetFilesRequestView::ListByPartitionNotToDeleteBatch { partition_ids: ids },
            )
            &&& ids.contains(id) <==> exists|k: int|
                0 < k < h.len() - 1 && (#[trigger] partition_ids(h, k)).contains(id)
        }),
{
    let s = ScenarioView::ListParquetFiles { namespace_id };
    let t = h.drop_last();
    let count = h.len() - 2;
    assert(t[0] == h[0]);
    assert(!finished(s, h.take(h.len() - 1)));
    assert(h.take(h.len() - 1) =~= t);
    assert forall|k: int| 0 < k <= count implies (#[trigger] h.take(k))[0] == h[0] by {}
    lemma_all_partitions(t, count, id);
    assert forall|k: int| 0 < k <= count implies #[trigger] partition_ids(t, k) == partition_ids(
        h,
        k,
    ) by {
        assert(t[k] == h[k]);
    }
    let ids = list_parquet_files_by_namespace_not_to_delete::listed_partition_ids(t, count);
    if ids.contains(id) {
        let k = choose|k: int| 0 < k <= count && (#[trigger] partition_ids(t, k)).contains(id);
        assert(partition_ids(h, k).contains(id));
    }
    if exists|k: int| 0 < k <= count && (#[trigger] partition_ids(h, k)).contains(id) {
        let k = choose|k: int| 0 < k <= count && (#[trigger] partition_ids(h, k)).contains(id);
        assert(partition_ids(t, k).contains(id));
    }
}

/// Listing the files of a table by their level gives files of that level only: the one file that
/// was
/// created where its level is asked for, and none where another level is.
pub proof fn law_files_are_listed_by_level(
    h: Seq<Reply>,
    max_l0_files: u32,
    k: int,
    table_id: i64,
    level: CompactionLevel,
)
    requires
        passes(ScenarioView::ParquetFile { max_l0_files }, h),
        0 <= k < h.len(),
        run::request(ScenarioView::ParquetFile { max_l0_files }, h.take(k))
            == RequestView::ParquetFiles(
            ParquetFilesRequestView::ListByTableId { table_id, level: Some(level) },
        ),
    ensures
        h[k] is Files,
        forall|i: int|
            0 <= i < h[k]->Files_0@.len() ==> (#[trigger] h[k]->Files_0@[i]).compaction_level
                == level,
        h[k]->Files_0@.len() == if level == CompactionLevel::Initial {
            1int
        } else {
            0
        },
{
    let s = ScenarioView::ParquetFile { max_l0_files };
    let t = h.take(k + 1);
    assert(accepts(s, t));
    assert(t.last() == h[k]);
}

/// More files are added to a partition than may be listed, ten more, one by one and with growing
/// times, and then the files of that partition are asked for.
#[verifier::rlimit(30)]
#[verifier::spinoff_prover]
pub proof fn law_more_files_are_added_than_are_listed(h: Seq<Reply>, max_l0_files: u32, i: int)
    requires
        passes(ScenarioView::ParquetFile { max_l0_files }, h),
        h.len() <= usize::MAX,
        0 <= i < max_l0_files + 10,
    ensures
        ({
            let asked = |k: int|
                run::request(ScenarioView::ParquetFile { max_l0_files }, h.take(k));
            let partition_id = expect::partition(h, test_parquet_file::PARTITION_4).id;
            let k = test_parquet_file::FILLING + 2 * i;
            let end = test_parquet_file::FILLING + 2 * (max_l0_files + 10);
            &&& test_parquet_file::FILLING == test_parquet_file::PARTITION_4 + 1
            &&& h.len() == end + 1
            &&& asked(k) == RequestView::Value(ValueRequestView::NewObjectStoreIds { count: 1 })
            &&& h[k] is ObjectStoreIds && h[k]->ObjectStoreIds_0@.len() == 1
            &&& asked(k + 1) matches RequestView::ParquetFiles(
                ParquetFilesRequestView::CreateUpgradeDelete {
                    partition_id: given,
                    delete,
                    upgrade,
                    create,
                    target_level,
                },
            )
            &&& given == partition_id
            &&& delete.len() == 0 && upgrade.len() == 0 && create.len() == 1
            &&& create[0].object_store_id == h[k]->ObjectStoreIds_0@[0]
            &&& create[0].partition_id == partition_id
            &&& create[0].max_l0_created_at == MaxL0CreatedAt::Computed(i as i64)
            &&& create[0].compaction_level == CompactionLevel::Initial
            &&& target_level == CompactionLevel::Initial
            &&& h[k + 1] is Ids
            &&& asked(end) == RequestView::ParquetFiles(
                ParquetFilesRequestView::ListByPartitionNotToDeleteBatch {
                    partition_ids: seq![partition_id],
                },
            )
        }),
{
    let s = ScenarioView::ParquetFile { max_l0_files };
    let start = test_parquet_file::FILLING as int;
    let k = start + 2 * i;
    let end = start + 2 * (max_l0_files + 10);
    assert(test_parquet_file::filling(max_l0_files) == max_l0_files + 10);
    assert(h.len() > end);
    if h.len() > end + 1 {
        let t = h.take(end + 1);
        assert((t.len() - start - 1) / 2 == max_l0_files + 10);
        assert(finished(s, t));
    }
    let u = h.take(k);
    let v = h.take(k + 1);
    let w = h.take(k + 2);
    assert((u.len() - start) / 2 == i && (u.len() - start) % 2 == 0);
    assert((v.len() - start) / 2 == i && (v.len() - start) % 2 == 1);
    assert(accepts(s, v));
    assert(accepts(s, w));
    assert(v.last() == h[k] && w.last() == h[k + 1]);
    let p = test_parquet_file::PARTITION_4 as int;
    assert(v[p] == h[p] && h.take(end)[p] == h[p]);
    assert(v[k] == h[k]);
    assert((v.len() - 1) as usize == k);
    let z = h.take(end);
    assert((z.len() - start) / 2 == max_l0_files + 10);
}

/// The many old files are copies of the first file of their namespace, each with an id of its own
/// and
/// data that is over an hour old.
pub proof fn law_many_old_files_are_created(h: Seq<Reply>, i: int)
    requires
        0 <= i < 1_042,
    ensures
        test_parquet_file::old_files(h).len() == 1_042,
        test_parquet_file::old_files(h)[i] == (ParquetFileParamsView {
            object_store_id: expect::uuids(h, test_parquet_file::OLD_IDS)[i],
            max_time: (expect::time(h, test_parquet_file::NOW_6) - 65 * 60 * 1_000_000_000) as i64,
            ..test_parquet_file::params_1(h)
        }),
{
}

} // verus!
