//! What a catalog has answered of a file that is raised to the next level.
use crate::expect;
use crate::reply::Reply;
use crate::request::{
    HelperRequestView, NamespacesRequestView, ParquetFilesRequestView, PartitionsRequestView,
    RequestView, ScenarioView, ValueRequestView,
};
use crate::run;
use crate::run::{accepts, passes};
use crate::scenarios::test_update_to_compaction_level_1::{
    inner_params, level_0_params, LEVEL_0_ID, NAMESPACE, PARAMS, PARTITION, QUERY_MAX_TIME,
    QUERY_MIN_TIME, TABLE,
};
use crate::types::{CompactionLevel, ParquetFileParamsView};
use vstd::prelude::*;

verus! {

/// What step `k` asks for.
pub open spec fn asked(h: Seq<Reply>, k: int) -> RequestView {
    run::request(ScenarioView::UpdateToCompactionLevel1, h.take(k))
}

/// The file that is given is raised, the other one is not, and none is created.
pub proof fn law_exactly_the_file_given_is_raised(h: Seq<Reply>)
    requires
        passes(ScenarioView::UpdateToCompactionLevel1, h),
    ensures
        asked(h, 0) == RequestView::Helper(
            HelperRequestView::ArbitraryNamespace {
                name: "namespace_update_to_compaction_level_1_test"@,
            },
        ),
        h[0] is Namespace,
        asked(h, 1) == RequestView::Helper(
            HelperRequestView::ArbitraryTable {
                name: "update_table"@,
                namespace: expect::namespace(h, NAMESPACE),
            },
        ),
        h[1] is Table,
        asked(h, 2) == RequestView::Partitions(
            PartitionsRequestView::CreateOrGet {
                key: "test_update_to_compaction_level_1_one"@,
                table_id: expect::table(h, TABLE).id,
            },
        ),
        h[2] is Partition,
        asked(h, 3) == RequestView::Helper(
            HelperRequestView::ArbitraryParquetFileParams {
                namespace: expect::namespace(h, NAMESPACE),
                table: expect::table(h, TABLE),
                partition: expect::partition(h, PARTITION),
            },
        ),
        h[3] is Params,
        asked(h, 4) == RequestView::ParquetFiles(
            ParquetFilesRequestView::Create { params: inner_params(h) },
        ),
        h[4] is File,
        asked(h, 5) == RequestView::Value(ValueRequestView::NewObjectStoreIds { count: 1 }),
        h[5] is ObjectStoreIds && h[5]->ObjectStoreIds_0@.len() == 1,
        asked(h, 6) == RequestView::ParquetFiles(
            ParquetFilesRequestView::Create { params: level_0_params(h) },
        ),
        h[6] is File,
        asked(h, 7) == RequestView::ParquetFiles(
            ParquetFilesRequestView::CreateUpgradeDelete {
                partition_id: expect::partition(h, PARTITION).id,
                delete: Seq::empty(),
                upgrade: seq![inner_params(h).object_store_id],
                create: Seq::empty(),
                target_level: CompactionLevel::FileNonOverlapped,
            },
        ),
        h[7] is Ids && h[7]->Ids_0@.len() == 0,
        asked(h, 8) == RequestView::ParquetFiles(
            ParquetFilesRequestView::GetByObjectStoreId {
                object_store_id: inner_params(h).object_store_id,
            },
        ),
        h[8] is File && h[8]->File_0.compaction_level == CompactionLevel::FileNonOverlapped,
        asked(h, 9) == RequestView::ParquetFiles(
            ParquetFilesRequestView::GetByObjectStoreId {
                object_store_id: expect::uuid(h, LEVEL_0_ID),
            },
        ),
        h[9] is File && h[9]->File_0.compaction_level == CompactionLevel::Initial,
        asked(h, 10) == RequestView::Namespaces(
            NamespacesRequestView::SoftDelete { id: expect::namespace(h, NAMESPACE).id },
        ),
        h[10] is Id,
        QUERY_MIN_TIME == 5 && QUERY_MAX_TIME == 10,
{
    let s = ScenarioView::UpdateToCompactionLevel1;
    assert(accepts(s, h.take(1)));
    assert(accepts(s, h.take(2)));
    assert(accepts(s, h.take(3)));
    assert(accepts(s, h.take(4)));
    assert(accepts(s, h.take(5)));
    assert(accepts(s, h.take(6)));
    assert(accepts(s, h.take(7)));
    assert(accepts(s, h.take(8)));
    assert(accepts(s, h.take(9)));
    assert(accepts(s, h.take(10)));
    assert(accepts(s, h.take(11)));
}

/// Answers like these are accepted.
pub proof fn law_exactly_the_file_given_is_raised_which_is_enough(h: Seq<Reply>)
    requires
        h.len() > 10,
        h[0] is Namespace,
        h[1] is Table,
        h[2] is Partition,
        h[3] is Params,
        h[4] is File,
        h[5] is ObjectStoreIds && h[5]->ObjectStoreIds_0@.len() == 1,
        h[6] is File,
        h[7] is Ids && h[7]->Ids_0@.len() == 0,
        h[8] is File && h[8]->File_0.compaction_level == CompactionLevel::FileNonOverlapped,
        h[9] is File && h[9]->File_0.compaction_level == CompactionLevel::Initial,
        h[10] is Id,
    ensures
        accepts(ScenarioView::UpdateToCompactionLevel1, h.take(1)),
        accepts(ScenarioView::UpdateToCompactionLevel1, h.take(2)),
        accepts(ScenarioView::UpdateToCompactionLevel1, h.take(3)),
        accepts(ScenarioView::UpdateToCompactionLevel1, h.take(4)),
        accepts(ScenarioView::UpdateToCompactionLevel1, h.take(5)),
        accepts(ScenarioView::UpdateToCompactionLevel1, h.take(6)),
        accepts(ScenarioView::UpdateToCompactionLevel1, h.take(7)),
        accepts(ScenarioView::UpdateToCompactionLevel1, h.take(8)),
        accepts(ScenarioView::UpdateToCompactionLevel1, h.take(9)),
        accepts(ScenarioView::UpdateToCompactionLevel1, h.take(10)),
        accepts(ScenarioView::UpdateToCompactionLevel1, h.take(11)),
{
    assert(h.take(1).last() == h[0]);
    assert(h.take(2).last() == h[1]);
    assert(h.take(3).last() == h[2]);
    assert(h.take(4).last() == h[3]);
    assert(h.take(5).last() == h[4]);
    assert(h.take(6).last() == h[5]);
    assert(h.take(7).last() == h[6]);
    assert(h.take(8).last() == h[7]);
    assert(h.take(9).last() == h[8]);
    assert(h.take(10).last() == h[9]);
    assert(h.take(11).last() == h[10]);
}

/// The data of both files lies strictly between the times of the query.
pub proof fn law_parameters_of_the_raised_file(h: Seq<Reply>)
    ensures
        inner_params(h) == (
            ParquetFileParamsView {
                min_time: (QUERY_MIN_TIME + 1) as i64,
                max_time: (QUERY_MAX_TIME - 1) as i64,
                ..expect::params(h, PARAMS)
            }
        ),
        level_0_params(h) == (
            ParquetFileParamsView {
                min_time: (QUERY_MIN_TIME + 1) as i64,
                max_time: (QUERY_MAX_TIME - 1) as i64,
                object_store_id: expect::uuid(h, LEVEL_0_ID),
                ..expect::params(h, PARAMS)
            }
        ),
{
}

} // verus!
