//! What a catalog has answered of the files of a partition.
use crate::expect;
use crate::reply::Reply;
use crate::request::{
    HelperRequestView, ParquetFilesRequestView, PartitionsRequestView, RequestView, ScenarioView,
    ValueRequestView,
};
use crate::run;
use crate::run::{accepts, passes};
use crate::same::views;
use crate::scenarios::test_list_by_partiton_not_to_delete::{
    level_1_params, marked_params, other_params, LEVEL_1_ID, MARKED_ID, NAMESPACE, OTHER_ID, PARAMS,
    PARTITION, PARTITION_2, TABLE,
};
use crate::types::{CompactionLevel, ParquetFile, ParquetFileParamsView};
use vstd::prelude::*;

verus! {

/// What step `k` asks for.
pub open spec fn asked(h: Seq<Reply>, k: int) -> RequestView {
    run::request(ScenarioView::ListByPartitionNotToDelete, h.take(k))
}

/// The ids in the object store of files.
pub open spec fn object_store_ids(files: Seq<ParquetFile>) -> Seq<u128> {
    files.map_values(|f: ParquetFile| f.object_store_id)
}

/// Of the files of a partition those are listed that are not marked, whatever their level, and none
/// of another partition.
pub proof fn law_exactly_the_files_that_are_not_marked_are_listed(h: Seq<Reply>)
    requires
        passes(ScenarioView::ListByPartitionNotToDelete, h),
    ensures
        asked(h, 0) == RequestView::Helper(
            HelperRequestView::ArbitraryNamespace {
                name: "namespace_parquet_file_test_list_by_partiton_not_to_delete"@,
            },
        ),
        h[0] is Namespace,
        asked(h, 1) == RequestView::Helper(
            HelperRequestView::ArbitraryTable {
                name: "test_table"@,
                namespace: expect::namespace(h, NAMESPACE),
            },
        ),
        h[1] is Table,
        asked(h, 2) == RequestView::Partitions(
            PartitionsRequestView::CreateOrGet {
                key: "test_list_by_partiton_not_to_delete_one"@,
                table_id: expect::table(h, TABLE).id,
            },
        ),
        h[2] is Partition,
        asked(h, 3) == RequestView::Partitions(
            PartitionsRequestView::CreateOrGet {
                key: "test_list_by_partiton_not_to_delete_two"@,
                table_id: expect::table(h, TABLE).id,
            },
        ),
        h[3] is Partition,
        asked(h, 4) == RequestView::Helper(
            HelperRequestView::ArbitraryParquetFileParams {
                namespace: expect::namespace(h, NAMESPACE),
                table: expect::table(h, TABLE),
                partition: expect::partition(h, PARTITION),
            },
        ),
        h[4] is Params,
        asked(h, 5) == RequestView::ParquetFiles(
            ParquetFilesRequestView::Create { params: expect::params(h, PARAMS) },
        ),
        h[5] is File,
        asked(h, 6) == RequestView::Value(ValueRequestView::NewObjectStoreIds { count: 1 }),
        h[6] is ObjectStoreIds && h[6]->ObjectStoreIds_0@.len() == 1,
        asked(h, 7) == RequestView::ParquetFiles(
            ParquetFilesRequestView::Create { params: marked_params(h) },
        ),
        h[7] is File,
        asked(h, 8) == RequestView::ParquetFiles(
            ParquetFilesRequestView::CreateUpgradeDelete {
                partition_id: expect::partition(h, PARTITION).id,
                delete: seq![expect::uuid(h, MARKED_ID)],
                upgrade: Seq::empty(),
                create: Seq::empty(),
                target_level: CompactionLevel::Initial,
            },
        ),
        h[8] is Ids,
        asked(h, 9) == RequestView::Value(ValueRequestView::NewObjectStoreIds { count: 1 }),
        h[9] is ObjectStoreIds && h[9]->ObjectStoreIds_0@.len() == 1,
        asked(h, 10) == RequestView::ParquetFiles(
            ParquetFilesRequestView::Create { params: level_1_params(h) },
        ),
        h[10] is File,
        asked(h, 11) == RequestView::ParquetFiles(
            ParquetFilesRequestView::CreateUpgradeDelete {
                partition_id: expect::partition(h, PARTITION).id,
                delete: Seq::empty(),
                upgrade: seq![expect::uuid(h, LEVEL_1_ID)],
                create: Seq::empty(),
                target_level: CompactionLevel::FileNonOverlapped,
            },
        ),
        h[11] is Ids,
        asked(h, 12) == RequestView::Value(ValueRequestView::NewObjectStoreIds { count: 1 }),
        h[12] is ObjectStoreIds && h[12]->ObjectStoreIds_0@.len() == 1,
        asked(h, 13) == RequestView::ParquetFiles(
            ParquetFilesRequestView::Create { params: other_params(h) },
        ),
        h[13] is File,
        asked(h, 14) == RequestView::ParquetFiles(
            ParquetFilesRequestView::ListByPartitionNotToDeleteBatch {
                partition_ids: seq![expect::partition(h, PARTITION).id],
            },
        ),
        h[14] is Files && object_store_ids(h[14]->Files_0@).to_multiset() == seq![
            expect::params(h, PARAMS).object_store_id,
            expect::uuid(h, LEVEL_1_ID),
        ].to_multiset(),
        asked(h, 15) == RequestView::ParquetFiles(
            ParquetFilesRequestView::ListByPartitionNotToDeleteBatch {
                partition_ids: seq![expect::partition(h, PARTITION).id],
            },
        ),
        h[15] is Files && object_store_ids(h[15]->Files_0@).to_multiset() == seq![
            expect::params(h, PARAMS).object_store_id,
            expect::uuid(h, LEVEL_1_ID),
        ].to_multiset(),
{
    let s = ScenarioView::ListByPartitionNotToDelete;
    assert(accepts(s, h.take(1)));
    assert(accepts(s, h.take(2)));
    assert(accepts(s, h.take(3)));
    assert(accepts(s, h.take(4)));
    assert(accepts(s, h.take(5)));
    assert(accepts(s, h.take(6)));
    assert(accepts(s, h.take(7)));
    assert(accepts(s, h.take(8)));
    assert(accepts(s, h.take(9)));
    assert(accepts(s, h.take(10)));
    assert(accepts(s, h.take(11)));
    assert(accepts(s, h.take(12)));
    assert(accepts(s, h.take(13)));
    assert(accepts(s, h.take(14)));
    assert(accepts(s, h.take(15)));
    assert(accepts(s, h.take(16)));
    assert(object_store_ids(h[14]->Files_0@) =~= expect::file_ids(views(h[14]->Files_0@)));
    assert(object_store_ids(h[15]->Files_0@) =~= expect::file_ids(views(h[15]->Files_0@)));
}

/// Answers like these are accepted.
pub proof fn law_exactly_the_files_that_are_not_marked_are_listed_which_is_enough(h: Seq<Reply>)
    requires
        h.len() > 15,
        h[0] is Namespace,
        h[1] is Table,
        h[2] is Partition,
        h[3] is Partition,
        h[4] is Params,
        h[5] is File,
        h[6] is ObjectStoreIds && h[6]->ObjectStoreIds_0@.len() == 1,
        h[7] is File,
        h[8] is Ids,
        h[9] is ObjectStoreIds && h[9]->ObjectStoreIds_0@.len() == 1,
        h[10] is File,
        h[11] is Ids,
        h[12] is ObjectStoreIds && h[12]->ObjectStoreIds_0@.len() == 1,
        h[13] is File,
        h[14] is Files && object_store_ids(h[14]->Files_0@).to_multiset() == seq![
            expect::params(h, PARAMS).object_store_id,
            expect::uuid(h, LEVEL_1_ID),
        ].to_multiset(),
        h[15] is Files && object_store_ids(h[15]->Files_0@).to_multiset() == seq![
            expect::params(h, PARAMS).object_store_id,
            expect::uuid(h, LEVEL_1_ID),
        ].to_multiset(),
    ensures
        accepts(ScenarioView::ListByPartitionNotToDelete, h.take(1)),
        accepts(ScenarioView::ListByPartitionNotToDelete, h.take(2)),
        accepts(ScenarioView::ListByPartitionNotToDelete, h.take(3)),
        accepts(ScenarioView::ListByPartitionNotToDelete, h.take(4)),
        accepts(ScenarioView::ListByPartitionNotToDelete, h.take(5)),
        accepts(ScenarioView::ListByPartitionNotToDelete, h.take(6)),
        accepts(ScenarioView::ListByPartitionNotToDelete, h.take(7)),
        accepts(ScenarioView::ListByPartitionNotToDelete, h.take(8)),
        accepts(ScenarioView::ListByPartitionNotToDelete, h.take(9)),
        accepts(ScenarioView::ListByPartitionNotToDelete, h.take(10)),
        accepts(ScenarioView::ListByPartitionNotToDelete, h.take(11)),
        accepts(ScenarioView::ListByPartitionNotToDelete, h.take(12)),
        accepts(ScenarioView::ListByPartitionNotToDelete, h.take(13)),
        accepts(ScenarioView::ListByPartitionNotToDelete, h.take(14)),
        accepts(ScenarioView::ListByPartitionNotToDelete, h.take(15)),
        accepts(ScenarioView::ListByPartitionNotToDelete, h.take(16)),
{
    assert(h.take(1).last() == h[0]);
    assert(h.take(2).last() == h[1]);
    assert(h.take(3).last() == h[2]);
    assert(h.take(4).last() == h[3]);
    assert(h.take(5).last() == h[4]);
    assert(h.take(6).last() == h[5]);
    assert(h.take(7).last() == h[6]);
    assert(h.take(8).last() == h[7]);
    assert(h.take(9).last() == h[8]);
    assert(h.take(10).last() == h[9]);
    assert(h.take(11).last() == h[10]);
    assert(h.take(12).last() == h[11]);
    assert(h.take(13).last() == h[12]);
    assert(h.take(14).last() == h[13]);
    assert(h.take(15).last() == h[14]);
    assert(h.take(16).last() == h[15]);
    assert(object_store_ids(h[14]->Files_0@) =~= expect::file_ids(views(h[14]->Files_0@)));
    assert(object_store_ids(h[15]->Files_0@) =~= expect::file_ids(views(h[15]->Files_0@)));
}

/// The files that are created are copies of each other but for their ids, their times and, of one,
/// its partition.
pub proof fn law_parameters_of_the_files_of_a_partition(h: Seq<Reply>)
    ensures
        marked_params(h) == (
            ParquetFileParamsView {
                object_store_id: expect::uuid(h, MARKED_ID),
                ..expect::params(h, PARAMS)
            }
        ),
        level_1_params(h) == (
            ParquetFileParamsView {
                object_store_id: expect::uuid(h, LEVEL_1_ID),
                ..expect::params(h, PARAMS)
            }
        ),
        other_params(h) == (
            ParquetFileParamsView {
                partition_id: expect::partition(h, PARTITION_2).id,
                partition_hash_id: expect::partition(h, PARTITION_2).hash_id,
                object_store_id: expect::uuid(h, OTHER_ID),
                ..expect::params(h, PARAMS)
            }
        ),
{
}

} // verus!
