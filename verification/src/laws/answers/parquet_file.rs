//! What a catalog has answered of files.
use crate::expect;
use crate::reply::Reply;
use crate::request::{
    CatalogRequestView, HelperRequestView, NamespacesRequestView, ParquetFilesRequestView,
    PartitionsRequestView, RequestView, ScenarioView, TablesRequestView, ValueRequestView,
};
use crate::run;
use crate::run::{accepts, passes};
use crate::same::views;
use crate::scenarios::test_parquet_file::{
    conflicting_params, filling_params, old_files, old_params, other_params, params_1, params_2,
    params_3, params_4, params_5, params_6, params_7, params_8, params_9, sourced_params, FILE,
    FILE_1, FILE_2, FILE_3, FILE_5, FILE_5_MARKED, FILE_7, HOUR, ID_1, ID_2, ID_3, ID_4, ID_5, ID_6,
    ID_7, ID_7_TEXT, ID_8, ID_9, LISTED_3, MINUTES_55, MINUTES_65, NAMESPACE, NAMESPACES,
    NAMESPACE_2, NOW_1, NOW_2, NOW_3, NOW_4, NOW_5, NOW_6, OLD_IDS, OTHER_FILE, OTHER_ID,
    OTHER_PARTITION, OTHER_TABLE, PARAMS, PARTITION, PARTITION_2, PARTITION_3, PARTITION_4, S1, S2,
    S3, S4, S5, SECONDS_100, SOURCED, SPARE_ID, TABLE, TABLE_2, TS1, TS2, TS3, TS4,
};
use crate::text::law_texts_occur_between_others;
use crate::types::{
    CompactionLevel, ErrorKind, MaxL0CreatedAt, ParquetFileParamsView, ParquetFileSource,
    SoftDeletedRows,
};
use vstd::prelude::*;

verus! {

/// What step `k` asks for.
pub open spec fn asked(h: Seq<Reply>, k: int, max_l0_files: u32) -> RequestView {
    run::request(ScenarioView::ParquetFile { max_l0_files }, h.take(k))
}

/// A namespace with two tables, each with a partition of the same key, is made ready for files.
pub proof fn law_files_start_in_partitions_of_tables(h: Seq<Reply>, max_l0_files: u32)
    requires
        passes(ScenarioView::ParquetFile { max_l0_files }, h),
    ensures
        asked(h, 0, max_l0_files) == RequestView::Helper(
            HelperRequestView::ArbitraryNamespace { name: "namespace_parquet_file_test"@ },
        ),
        h[0] is Namespace,
        asked(h, 1, max_l0_files) == RequestView::Helper(
            HelperRequestView::ArbitraryTable {
                name: "test_table"@,
                namespace: expect::namespace(h, NAMESPACE),
            },
        ),
        h[1] is Table,
        asked(h, 2, max_l0_files) == RequestView::Helper(
            HelperRequestView::ArbitraryTable {
                name: "other"@,
                namespace: expect::namespace(h, NAMESPACE),
            },
        ),
        h[2] is Table,
        asked(h, 3, max_l0_files) == RequestView::Partitions(
            PartitionsRequestView::CreateOrGet {
                key: "one"@,
                table_id: expect::table(h, TABLE).id,
            },
        ),
        h[3] is Partition,
        asked(h, 4, max_l0_files) == RequestView::Partitions(
            PartitionsRequestView::CreateOrGet {
                key: "one"@,
                table_id: expect::table(h, OTHER_TABLE).id,
            },
        ),
        h[4] is Partition,
        asked(h, 5, max_l0_files) == RequestView::Tables(
            TablesRequestView::Snapshot { id: expect::table(h, TABLE).id },
        ),
        h[5] is TableSnapshot,
        asked(h, 6, max_l0_files) == RequestView::Run(
            ScenarioView::ValidateTableSnapshot { table_snapshot: expect::table_snapshot(h, TS1) },
        ),
        h[6] is Passed,
        asked(h, 7, max_l0_files) == RequestView::Tables(
            TablesRequestView::Snapshot { id: expect::table(h, OTHER_TABLE).id },
        ),
        h[7] is TableSnapshot,
        asked(h, 8, max_l0_files) == RequestView::Run(
            ScenarioView::ValidateTableSnapshot { table_snapshot: expect::table_snapshot(h, TS2) },
        ),
        h[8] is Passed,
{
    let s = ScenarioView::ParquetFile { max_l0_files };
    assert(accepts(s, h.take(1)));
    assert(accepts(s, h.take(2)));
    assert(accepts(s, h.take(3)));
    assert(accepts(s, h.take(4)));
    assert(accepts(s, h.take(5)));
    assert(accepts(s, h.take(6)));
    assert(accepts(s, h.take(7)));
    assert(accepts(s, h.take(8)));
    assert(accepts(s, h.take(9)));
}

/// Answers like these are accepted.
pub proof fn law_files_start_in_partitions_of_tables_which_is_enough(
    h: Seq<Reply>,
    max_l0_files: u32,
)
    requires
        h.len() > 8,
        h[0] is Namespace,
        h[1] is Table,
        h[2] is Table,
        h[3] is Partition,
        h[4] is Partition,
        h[5] is TableSnapshot,
        h[6] is Passed,
        h[7] is TableSnapshot,
        h[8] is Passed,
    ensures
        accepts(ScenarioView::ParquetFile { max_l0_files }, h.take(1)),
        accepts(ScenarioView::ParquetFile { max_l0_files }, h.take(2)),
        accepts(ScenarioView::ParquetFile { max_l0_files }, h.take(3)),
        accepts(ScenarioView::ParquetFile { max_l0_files }, h.take(4)),
        accepts(ScenarioView::ParquetFile { max_l0_files }, h.take(5)),
        accepts(ScenarioView::ParquetFile { max_l0_files }, h.take(6)),
        accepts(ScenarioView::ParquetFile { max_l0_files }, h.take(7)),
        accepts(ScenarioView::ParquetFile { max_l0_files }, h.take(8)),
        accepts(ScenarioView::ParquetFile { max_l0_files }, h.take(9)),
{
    assert(h.take(1).last() == h[0]);
    assert(h.take(2).last() == h[1]);
    assert(h.take(3).last() == h[2]);
    assert(h.take(4).last() == h[3]);
    assert(h.take(5).last() == h[4]);
    assert(h.take(6).last() == h[5]);
    assert(h.take(7).last() == h[6]);
    assert(h.take(8).last() == h[7]);
    assert(h.take(9).last() == h[8]);
}

/// A file that is created is found by its id and listed, in its table and in its namespace, and by
/// its level. It cannot be created again.
pub proof fn law_a_file_is_found_once_created(h: Seq<Reply>, max_l0_files: u32)
    requires
        passes(ScenarioView::ParquetFile { max_l0_files }, h),
    ensures
        asked(h, 9, max_l0_files) == RequestView::Helper(
            HelperRequestView::ArbitraryParquetFileParams {
                namespace: expect::namespace(h, NAMESPACE),
                table: expect::table(h, TABLE),
                partition: expect::partition(h, PARTITION),
            },
        ),
        h[9] is Params,
        asked(h, 10, max_l0_files) == RequestView::ParquetFiles(
            ParquetFilesRequestView::Create { params: expect::params(h, PARAMS) },
        ),
        h[10] is File,
        asked(h, 11, max_l0_files) == RequestView::ParquetFiles(
            ParquetFilesRequestView::GetByObjectStoreId {
                object_store_id: expect::params(h, PARAMS).object_store_id,
            },
        ),
        h[11] is File,
        asked(h, 12, max_l0_files) == RequestView::ParquetFiles(
            ParquetFilesRequestView::ListByTableId {
                table_id: expect::params(h, PARAMS).table_id,
                level: None,
            },
        ),
        h[12] is Files && views(h[12]->Files_0@) == seq![expect::file(h, FILE)],
        asked(h, 13, max_l0_files) == RequestView::ParquetFiles(
            ParquetFilesRequestView::ListByNamespaceId {
                namespace_id: expect::params(h, PARAMS).namespace_id,
                rows: SoftDeletedRows::ExcludeDeleted,
            },
        ),
        h[13] is Files && views(h[13]->Files_0@) == seq![expect::file(h, FILE)],
        asked(h, 14, max_l0_files) == RequestView::ParquetFiles(
            ParquetFilesRequestView::ListByTableId {
                table_id: expect::params(h, PARAMS).table_id,
                level: Some(CompactionLevel::Initial),
            },
        ),
        h[14] is Files && h[14]->Files_0@.len() == 1,
        forall|i: int| 0 <= i < h[14]->Files_0@.len() ==> (
            #[trigger] h[14]->Files_0@[i]
        ).compaction_level == CompactionLevel::Initial,
        asked(h, 15, max_l0_files) == RequestView::ParquetFiles(
            ParquetFilesRequestView::ListByTableId {
                table_id: expect::params(h, PARAMS).table_id,
                level: Some(CompactionLevel::FileNonOverlapped),
            },
        ),
        h[15] is Files && h[15]->Files_0@.len() == 0,
        forall|i: int| 0 <= i < h[15]->Files_0@.len() ==> (
            #[trigger] h[15]->Files_0@[i]
        ).compaction_level == CompactionLevel::FileNonOverlapped,
        asked(h, 16, max_l0_files) == RequestView::ParquetFiles(
            ParquetFilesRequestView::ListByTableId {
                table_id: expect::params(h, PARAMS).table_id,
                level: Some(CompactionLevel::Final),
            },
        ),
        h[16] is Files && h[16]->Files_0@.len() == 0,
        forall|i: int| 0 <= i < h[16]->Files_0@.len() ==> (
            #[trigger] h[16]->Files_0@[i]
        ).compaction_level == CompactionLevel::Final,
        asked(h, 17, max_l0_files) == RequestView::ParquetFiles(
            ParquetFilesRequestView::GetByObjectStoreId {
                object_store_id: expect::file(h, FILE).object_store_id,
            },
        ),
        h[17] is File && h[17]->File_0@ == expect::file(h, FILE),
        asked(h, 18, max_l0_files) == RequestView::ParquetFiles(
            ParquetFilesRequestView::Create { params: expect::params(h, PARAMS) },
        ),
        h[18] is Failed && h[18]->Failed_0.kind == ErrorKind::AlreadyExists,
{
    let s = ScenarioView::ParquetFile { max_l0_files };
    assert(accepts(s, h.take(10)));
    assert(accepts(s, h.take(11)));
    assert(accepts(s, h.take(12)));
    assert(accepts(s, h.take(13)));
    assert(accepts(s, h.take(14)));
    assert(accepts(s, h.take(15)));
    assert(accepts(s, h.take(16)));
    assert(accepts(s, h.take(17)));
    assert(accepts(s, h.take(18)));
    assert(accepts(s, h.take(19)));
}

/// Answers like these are accepted.
pub proof fn law_a_file_is_found_once_created_which_is_enough(h: Seq<Reply>, max_l0_files: u32)
    requires
        h.len() > 18,
        h[9] is Params,
        h[10] is File,
        h[11] is File,
        h[12] is Files && views(h[12]->Files_0@) == seq![expect::file(h, FILE)],
        h[13] is Files && views(h[13]->Files_0@) == seq![expect::file(h, FILE)],
        h[14] is Files && h[14]->Files_0@.len() == 1,
        forall|i: int| 0 <= i < h[14]->Files_0@.len() ==> (
            #[trigger] h[14]->Files_0@[i]
        ).compaction_level == CompactionLevel::Initial,
        h[15] is Files && h[15]->Files_0@.len() == 0,
        forall|i: int| 0 <= i < h[15]->Files_0@.len() ==> (
            #[trigger] h[15]->Files_0@[i]
        ).compaction_level == CompactionLevel::FileNonOverlapped,
        h[16] is Files && h[16]->Files_0@.len() == 0,
        forall|i: int| 0 <= i < h[16]->Files_0@.len() ==> (
            #[trigger] h[16]->Files_0@[i]
        ).compaction_level == CompactionLevel::Final,
        h[17] is File && h[17]->File_0@ == expect::file(h, FILE),
        h[18] is Failed && h[18]->Failed_0.kind == ErrorKind::AlreadyExists,
    ensures
        accepts(ScenarioView::ParquetFile { max_l0_files }, h.take(10)),
        accepts(ScenarioView::ParquetFile { max_l0_files }, h.take(11)),
        accepts(ScenarioView::ParquetFile { max_l0_files }, h.take(12)),
        accepts(ScenarioView::ParquetFile { max_l0_files }, h.take(13)),
        accepts(ScenarioView::ParquetFile { max_l0_files }, h.take(14)),
        accepts(ScenarioView::ParquetFile { max_l0_files }, h.take(15)),
        accepts(ScenarioView::ParquetFile { max_l0_files }, h.take(16)),
        accepts(ScenarioView::ParquetFile { max_l0_files }, h.take(17)),
        accepts(ScenarioView::ParquetFile { max_l0_files }, h.take(18)),
        accepts(ScenarioView::ParquetFile { max_l0_files }, h.take(19)),
{
    assert(h.take(10).last() == h[9]);
    assert(h.take(11).last() == h[10]);
    assert(h.take(12).last() == h[11]);
    assert(h.take(13).last() == h[12]);
    assert(h.take(14).last() == h[13]);
    assert(h.take(15).last() == h[14]);
    assert(h.take(16).last() == h[15]);
    assert(h.take(17).last() == h[16]);
    assert(h.take(18).last() == h[17]);
    assert(h.take(19).last() == h[18]);
}

/// A second file of another table is found under its own id, and no file is marked for deletion.
pub proof fn law_a_second_file_is_another(h: Seq<Reply>, max_l0_files: u32)
    requires
        passes(ScenarioView::ParquetFile { max_l0_files }, h),
    ensures
        asked(h, 19, max_l0_files) == RequestView::Value(
            ValueRequestView::NewObjectStoreIds { count: 1 },
        ),
        h[19] is ObjectStoreIds && h[19]->ObjectStoreIds_0@.len() == 1,
        asked(h, 20, max_l0_files) == RequestView::ParquetFiles(
            ParquetFilesRequestView::Create { params: other_params(h) },
        ),
        h[20] is File,
        asked(h, 21, max_l0_files) == RequestView::ParquetFiles(
            ParquetFilesRequestView::GetByObjectStoreId {
                object_store_id: expect::uuid(h, OTHER_ID),
            },
        ),
        h[21] is File && expect::file(h, FILE).id != expect::file(h, OTHER_FILE).id + 10,
        expect::file(h, OTHER_FILE).id + 10 <= i64::MAX,
        expect::file(h, FILE).to_delete is None,
        asked(h, 22, max_l0_files) == RequestView::Catalog(CatalogRequestView::Now),
        h[22] is Time && i64::MIN <= expect::time(h, NOW_1) + SECONDS_100 <= i64::MAX,
        asked(h, 23, max_l0_files) == RequestView::ParquetFiles(
            ParquetFilesRequestView::DeleteOldIdsCount {
                older_than: (expect::time(h, NOW_1) + SECONDS_100) as i64,
            },
        ),
        h[23] is Count && h[23]->Count_0 == 0,
        asked(h, 24, max_l0_files) == RequestView::Run(
            ScenarioView::ListParquetFiles { namespace_id: expect::namespace(h, NAMESPACE).id },
        ),
        h[24] is Files && h[24]->Files_0@.len() == 2,
{
    let s = ScenarioView::ParquetFile { max_l0_files };
    assert(accepts(s, h.take(20)));
    assert(accepts(s, h.take(21)));
    assert(accepts(s, h.take(22)));
    assert(accepts(s, h.take(23)));
    assert(accepts(s, h.take(24)));
    assert(accepts(s, h.take(25)));
}

/// Answers like these are accepted.
pub proof fn law_a_second_file_is_another_which_is_enough(h: Seq<Reply>, max_l0_files: u32)
    requires
        h.len() > 24,
        h[19] is ObjectStoreIds && h[19]->ObjectStoreIds_0@.len() == 1,
        h[20] is File,
        h[21] is File && expect::file(h, FILE).id != expect::file(h, OTHER_FILE).id + 10,
        expect::file(h, OTHER_FILE).id + 10 <= i64::MAX,
        expect::file(h, FILE).to_delete is None,
        h[22] is Time && i64::MIN <= expect::time(h, NOW_1) + SECONDS_100 <= i64::MAX,
        h[23] is Count && h[23]->Count_0 == 0,
        h[24] is Files && h[24]->Files_0@.len() == 2,
    ensures
        accepts(ScenarioView::ParquetFile { max_l0_files }, h.take(20)),
        accepts(ScenarioView::ParquetFile { max_l0_files }, h.take(21)),
        accepts(ScenarioView::ParquetFile { max_l0_files }, h.take(22)),
        accepts(ScenarioView::ParquetFile { max_l0_files }, h.take(23)),
        accepts(ScenarioView::ParquetFile { max_l0_files }, h.take(24)),
        accepts(ScenarioView::ParquetFile { max_l0_files }, h.take(25)),
{
    assert(h.take(20).last() == h[19]);
    assert(h.take(21).last() == h[20]);
    assert(h.take(22).last() == h[21]);
    assert(h.take(23).last() == h[22]);
    assert(h.take(24).last() == h[23]);
    assert(h.take(25).last() == h[24]);
}

/// A file that is marked for deletion is not listed any more but is there, marked, until a time
/// after its mark has passed. Then it is gone, and the other file is not.
pub proof fn law_a_marked_file_is_not_listed(h: Seq<Reply>, max_l0_files: u32)
    requires
        passes(ScenarioView::ParquetFile { max_l0_files }, h),
    ensures
        asked(h, 25, max_l0_files) == RequestView::ParquetFiles(
            ParquetFilesRequestView::CreateUpgradeDelete {
                partition_id: expect::file(h, FILE).partition_id,
                delete: seq![expect::file(h, FILE).object_store_id],
                upgrade: Seq::empty(),
                create: Seq::empty(),
                target_level: CompactionLevel::Initial,
            },
        ),
        h[25] is Ids,
        asked(h, 26, max_l0_files) == RequestView::Run(
            ScenarioView::ListParquetFiles { namespace_id: expect::namespace(h, NAMESPACE).id },
        ),
        h[26] is Files && h[26]->Files_0@.len() == 1,
        asked(h, 27, max_l0_files) == RequestView::ParquetFiles(
            ParquetFilesRequestView::GetByObjectStoreId {
                object_store_id: expect::file(h, FILE).object_store_id,
            },
        ),
        h[27] is File && h[27]->File_0.to_delete is Some,
        asked(h, 28, max_l0_files) == RequestView::Catalog(CatalogRequestView::Now),
        h[28] is Time && i64::MIN <= expect::time(h, NOW_2) + -SECONDS_100 <= i64::MAX,
        asked(h, 29, max_l0_files) == RequestView::ParquetFiles(
            ParquetFilesRequestView::DeleteOldIdsCount {
                older_than: (expect::time(h, NOW_2) - SECONDS_100) as i64,
            },
        ),
        h[29] is Count && h[29]->Count_0 == 0,
        asked(h, 30, max_l0_files) == RequestView::ParquetFiles(
            ParquetFilesRequestView::GetByObjectStoreId {
                object_store_id: expect::file(h, FILE).object_store_id,
            },
        ),
        h[30] is File,
        asked(h, 31, max_l0_files) == RequestView::ParquetFiles(
            ParquetFilesRequestView::DeleteOldIdsCount {
                older_than: (expect::time(h, NOW_1) + SECONDS_100) as i64,
            },
        ),
        h[31] is Count && h[31]->Count_0 == 1,
        asked(h, 32, max_l0_files) == RequestView::ParquetFiles(
            ParquetFilesRequestView::GetByObjectStoreId {
                object_store_id: expect::file(h, FILE).object_store_id,
            },
        ),
        h[32] is Nothing,
        asked(h, 33, max_l0_files) == RequestView::Run(
            ScenarioView::ListParquetFiles { namespace_id: expect::namespace(h, NAMESPACE).id },
        ),
        h[33] is Files && views(h[33]->Files_0@) == seq![expect::file(h, OTHER_FILE)],
{
    let s = ScenarioView::ParquetFile { max_l0_files };
    assert(accepts(s, h.take(26)));
    assert(accepts(s, h.take(27)));
    assert(accepts(s, h.take(28)));
    assert(accepts(s, h.take(29)));
    assert(accepts(s, h.take(30)));
    assert(accepts(s, h.take(31)));
    assert(accepts(s, h.take(32)));
    assert(accepts(s, h.take(33)));
    assert(accepts(s, h.take(34)));
}

/// Answers like these are accepted.
pub proof fn law_a_marked_file_is_not_listed_which_is_enough(h: Seq<Reply>, max_l0_files: u32)
    requires
        h.len() > 33,
        h[25] is Ids,
        h[26] is Files && h[26]->Files_0@.len() == 1,
        h[27] is File && h[27]->File_0.to_delete is Some,
        h[28] is Time && i64::MIN <= expect::time(h, NOW_2) + -SECONDS_100 <= i64::MAX,
        h[29] is Count && h[29]->Count_0 == 0,
        h[30] is File,
        h[31] is Count && h[31]->Count_0 == 1,
        h[32] is Nothing,
        h[33] is Files && views(h[33]->Files_0@) == seq![expect::file(h, OTHER_FILE)],
    ensures
        accepts(ScenarioView::ParquetFile { max_l0_files }, h.take(26)),
        accepts(ScenarioView::ParquetFile { max_l0_files }, h.take(27)),
        accepts(ScenarioView::ParquetFile { max_l0_files }, h.take(28)),
        accepts(ScenarioView::ParquetFile { max_l0_files }, h.take(29)),
        accepts(ScenarioView::ParquetFile { max_l0_files }, h.take(30)),
        accepts(ScenarioView::ParquetFile { max_l0_files }, h.take(31)),
        accepts(ScenarioView::ParquetFile { max_l0_files }, h.take(32)),
        accepts(ScenarioView::ParquetFile { max_l0_files }, h.take(33)),
        accepts(ScenarioView::ParquetFile { max_l0_files }, h.take(34)),
{
    assert(h.take(26).last() == h[25]);
    assert(h.take(27).last() == h[26]);
    assert(h.take(28).last() == h[27]);
    assert(h.take(29).last() == h[28]);
    assert(h.take(30).last() == h[29]);
    assert(h.take(31).last() == h[30]);
    assert(h.take(32).last() == h[31]);
    assert(h.take(33).last() == h[32]);
    assert(h.take(34).last() == h[33]);
}

/// Files are listed in the order in which they were created, each as it was created.
pub proof fn law_files_are_listed_as_they_are_created(h: Seq<Reply>, max_l0_files: u32)
    requires
        passes(ScenarioView::ParquetFile { max_l0_files }, h),
    ensures
        asked(h, 34, max_l0_files) == RequestView::Helper(
            HelperRequestView::ArbitraryNamespace { name: "namespace_parquet_file_test1"@ },
        ),
        h[34] is Namespace,
        asked(h, 35, max_l0_files) == RequestView::Helper(
            HelperRequestView::ArbitraryTable {
                name: "test_table2"@,
                namespace: expect::namespace(h, NAMESPACE_2),
            },
        ),
        h[35] is Table,
        asked(h, 36, max_l0_files) == RequestView::Partitions(
            PartitionsRequestView::CreateOrGet {
                key: "foo"@,
                table_id: expect::table(h, TABLE_2).id,
            },
        ),
        h[36] is Partition,
        asked(h, 37, max_l0_files) == RequestView::Run(
            ScenarioView::ListParquetFiles { namespace_id: expect::namespace(h, NAMESPACE_2).id },
        ),
        h[37] is Files && h[37]->Files_0@.len() == 0,
        asked(h, 38, max_l0_files) == RequestView::Tables(
            TablesRequestView::Snapshot { id: expect::table(h, TABLE_2).id },
        ),
        h[38] is TableSnapshot,
        asked(h, 39, max_l0_files) == RequestView::Run(
            ScenarioView::ValidateTableSnapshot { table_snapshot: expect::table_snapshot(h, TS3) },
        ),
        h[39] is Passed,
        asked(h, 40, max_l0_files) == RequestView::Value(
            ValueRequestView::NewObjectStoreIds { count: 1 },
        ),
        h[40] is ObjectStoreIds && h[40]->ObjectStoreIds_0@.len() == 1,
        asked(h, 41, max_l0_files) == RequestView::ParquetFiles(
            ParquetFilesRequestView::Create { params: params_1(h) },
        ),
        h[41] is File,
        asked(h, 42, max_l0_files) == RequestView::ParquetFiles(
            ParquetFilesRequestView::GetByObjectStoreId { object_store_id: expect::uuid(h, ID_1) },
        ),
        h[42] is File,
        asked(h, 43, max_l0_files) == RequestView::Value(
            ValueRequestView::NewObjectStoreIds { count: 1 },
        ),
        h[43] is ObjectStoreIds && h[43]->ObjectStoreIds_0@.len() == 1,
        asked(h, 44, max_l0_files) == RequestView::ParquetFiles(
            ParquetFilesRequestView::Create { params: params_2(h) },
        ),
        h[44] is File,
        asked(h, 45, max_l0_files) == RequestView::ParquetFiles(
            ParquetFilesRequestView::GetByObjectStoreId { object_store_id: expect::uuid(h, ID_2) },
        ),
        h[45] is File,
        asked(h, 46, max_l0_files) == RequestView::Run(
            ScenarioView::ListParquetFiles { namespace_id: expect::namespace(h, NAMESPACE_2).id },
        ),
        h[46] is Files && views(h[46]->Files_0@) == seq![
            expect::file(h, FILE_1),
            expect::file(h, FILE_2),
        ],
        asked(h, 47, max_l0_files) == RequestView::ParquetFiles(
            ParquetFilesRequestView::Create { params: params_2(h) },
        ),
        h[47] is Failed && h[47]->Failed_0.kind == ErrorKind::AlreadyExists,
        asked(h, 48, max_l0_files) == RequestView::ParquetFiles(
            ParquetFilesRequestView::Upsert { params: params_2(h) },
        ),
        h[48] is File && h[48]->File_0@ == expect::file(h, FILE_2),
        asked(h, 49, max_l0_files) == RequestView::ParquetFiles(
            ParquetFilesRequestView::Upsert { params: conflicting_params(h) },
        ),
        h[49] is Failed && h[49]->Failed_0.kind == ErrorKind::AlreadyExists,
        asked(h, 50, max_l0_files) == RequestView::Value(
            ValueRequestView::NewObjectStoreIds { count: 1 },
        ),
        h[50] is ObjectStoreIds && h[50]->ObjectStoreIds_0@.len() == 1,
        asked(h, 51, max_l0_files) == RequestView::ParquetFiles(
            ParquetFilesRequestView::Create { params: params_3(h) },
        ),
        h[51] is File,
        asked(h, 52, max_l0_files) == RequestView::ParquetFiles(
            ParquetFilesRequestView::GetByObjectStoreId { object_store_id: expect::uuid(h, ID_3) },
        ),
        h[52] is File,
        asked(h, 53, max_l0_files) == RequestView::Run(
            ScenarioView::ListParquetFiles { namespace_id: expect::namespace(h, NAMESPACE_2).id },
        ),
        h[53] is Files && views(h[53]->Files_0@) == seq![
            expect::file(h, FILE_1),
            expect::file(h, FILE_2),
            expect::file(h, FILE_3),
        ],
{
    let s = ScenarioView::ParquetFile { max_l0_files };
    assert(accepts(s, h.take(35)));
    assert(accepts(s, h.take(36)));
    assert(accepts(s, h.take(37)));
    assert(accepts(s, h.take(38)));
    assert(accepts(s, h.take(39)));
    assert(accepts(s, h.take(40)));
    assert(accepts(s, h.take(41)));
    assert(accepts(s, h.take(42)));
    assert(accepts(s, h.take(43)));
    assert(accepts(s, h.take(44)));
    assert(accepts(s, h.take(45)));
    assert(accepts(s, h.take(46)));
    assert(accepts(s, h.take(47)));
    assert(accepts(s, h.take(48)));
    assert(accepts(s, h.take(49)));
    assert(accepts(s, h.take(50)));
    assert(accepts(s, h.take(51)));
    assert(accepts(s, h.take(52)));
    assert(accepts(s, h.take(53)));
    assert(accepts(s, h.take(54)));
}

/// Answers like these are accepted.
pub proof fn law_files_are_listed_as_they_are_created_which_is_enough(
    h: Seq<Reply>,
    max_l0_files: u32,
)
    requires
        h.len() > 53,
        h[34] is Namespace,
        h[35] is Table,
        h[36] is Partition,
        h[37] is Files && h[37]->Files_0@.len() == 0,
        h[38] is TableSnapshot,
        h[39] is Passed,
        h[40] is ObjectStoreIds && h[40]->ObjectStoreIds_0@.len() == 1,
        h[41] is File,
        h[42] is File,
        h[43] is ObjectStoreIds && h[43]->ObjectStoreIds_0@.len() == 1,
        h[44] is File,
        h[45] is File,
        h[46] is Files && views(h[46]->Files_0@) == seq![
            expect::file(h, FILE_1),
            expect::file(h, FILE_2),
        ],
        h[47] is Failed && h[47]->Failed_0.kind == ErrorKind::AlreadyExists,
        h[48] is File && h[48]->File_0@ == expect::file(h, FILE_2),
        h[49] is Failed && h[49]->Failed_0.kind == ErrorKind::AlreadyExists,
        h[50] is ObjectStoreIds && h[50]->ObjectStoreIds_0@.len() == 1,
        h[51] is File,
        h[52] is File,
        h[53] is Files && views(h[53]->Files_0@) == seq![
            expect::file(h, FILE_1),
            expect::file(h, FILE_2),
            expect::file(h, FILE_3),
        ],
    ensures
        accepts(ScenarioView::ParquetFile { max_l0_files }, h.take(35)),
        accepts(ScenarioView::ParquetFile { max_l0_files }, h.take(36)),
        accepts(ScenarioView::ParquetFile { max_l0_files }, h.take(37)),
        accepts(ScenarioView::ParquetFile { max_l0_files }, h.take(38)),
        accepts(ScenarioView::ParquetFile { max_l0_files }, h.take(39)),
        accepts(ScenarioView::ParquetFile { max_l0_files }, h.take(40)),
        accepts(ScenarioView::ParquetFile { max_l0_files }, h.take(41)),
        accepts(ScenarioView::ParquetFile { max_l0_files }, h.take(42)),
        accepts(ScenarioView::ParquetFile { max_l0_files }, h.take(43)),
        accepts(ScenarioView::ParquetFile { max_l0_files }, h.take(44)),
        accepts(ScenarioView::ParquetFile { max_l0_files }, h.take(45)),
        accepts(ScenarioView::ParquetFile { max_l0_files }, h.take(46)),
        accepts(ScenarioView::ParquetFile { max_l0_files }, h.take(47)),
        accepts(ScenarioView::ParquetFile { max_l0_files }, h.take(48)),
        accepts(ScenarioView::ParquetFile { max_l0_files }, h.take(49)),
        accepts(ScenarioView::ParquetFile { max_l0_files }, h.take(50)),
        accepts(ScenarioView::ParquetFile { max_l0_files }, h.take(51)),
        accepts(ScenarioView::ParquetFile { max_l0_files }, h.take(52)),
        accepts(ScenarioView::ParquetFile { max_l0_files }, h.take(53)),
        accepts(ScenarioView::ParquetFile { max_l0_files }, h.take(54)),
{
    assert(h.take(35).last() == h[34]);
    assert(h.take(36).last() == h[35]);
    assert(h.take(37).last() == h[36]);
    assert(h.take(38).last() == h[37]);
    assert(h.take(39).last() == h[38]);
    assert(h.take(40).last() == h[39]);
    assert(h.take(41).last() == h[40]);
    assert(h.take(42).last() == h[41]);
    assert(h.take(43).last() == h[42]);
    assert(h.take(44).last() == h[43]);
    assert(h.take(45).last() == h[44]);
    assert(h.take(46).last() == h[45]);
    assert(h.take(47).last() == h[46]);
    assert(h.take(48).last() == h[47]);
    assert(h.take(49).last() == h[48]);
    assert(h.take(50).last() == h[49]);
    assert(h.take(51).last() == h[50]);
    assert(h.take(52).last() == h[51]);
    assert(h.take(53).last() == h[52]);
    assert(h.take(54).last() == h[53]);
}

/// A request with a file that is marked already is refused, whatever else it asks for.
pub proof fn law_refused_changes_are_told(h: Seq<Reply>, max_l0_files: u32)
    requires
        passes(ScenarioView::ParquetFile { max_l0_files }, h),
    ensures
        asked(h, 54, max_l0_files) == RequestView::Partitions(
            PartitionsRequestView::Snapshot { id: expect::partition(h, PARTITION_2).id },
        ),
        h[54] is PartitionSnapshot,
        asked(h, 55, max_l0_files) == RequestView::Run(
            ScenarioView::ValidatePartitionSnapshot {
                partition_snapshot: expect::partition_snapshot(h, S1),
            },
        ),
        h[55] is Passed,
        asked(h, 56, max_l0_files) == RequestView::ParquetFiles(
            ParquetFilesRequestView::CreateUpgradeDelete {
                partition_id: expect::file(h, FILE_2).partition_id,
                delete: seq![expect::file(h, FILE_2).object_store_id],
                upgrade: Seq::empty(),
                create: Seq::empty(),
                target_level: CompactionLevel::Initial,
            },
        ),
        h[56] is Ids,
        asked(h, 57, max_l0_files) == RequestView::Run(
            ScenarioView::ListParquetFiles { namespace_id: expect::namespace(h, NAMESPACE_2).id },
        ),
        h[57] is Files && views(h[57]->Files_0@) == seq![
            expect::file(h, FILE_1),
            expect::file(h, FILE_3),
        ],
        asked(h, 58, max_l0_files) == RequestView::ParquetFiles(
            ParquetFilesRequestView::CreateUpgradeDelete {
                partition_id: expect::partition(h, PARTITION_2).id,
                delete: seq![
                    expect::file(h, FILE_2).object_store_id,
                    expect::file(h, FILE_3).object_store_id,
                ],
                upgrade: Seq::empty(),
                create: Seq::empty(),
                target_level: CompactionLevel::Initial,
            },
        ),
        h[58] is Failed && h[58]->Failed_0.kind == ErrorKind::NotFound,
        asked(h, 59, max_l0_files) == RequestView::ParquetFiles(
            ParquetFilesRequestView::CreateUpgradeDelete {
                partition_id: expect::partition(h, PARTITION_2).id,
                delete: seq![expect::file(h, FILE_2).object_store_id],
                upgrade: seq![expect::file(h, FILE_3).object_store_id],
                create: Seq::empty(),
                target_level: CompactionLevel::Initial,
            },
        ),
        h[59] is Failed && h[59]->Failed_0.kind == ErrorKind::NotFound,
        asked(h, 60, max_l0_files) == RequestView::ParquetFiles(
            ParquetFilesRequestView::CreateUpgradeDelete {
                partition_id: expect::partition(h, PARTITION_2).id,
                delete: seq![expect::file(h, FILE_3).object_store_id],
                upgrade: seq![expect::file(h, FILE_2).object_store_id],
                create: Seq::empty(),
                target_level: CompactionLevel::Initial,
            },
        ),
        h[60] is Failed && h[60]->Failed_0.kind == ErrorKind::NotFound,
        asked(h, 61, max_l0_files) == RequestView::Run(
            ScenarioView::ListParquetFiles { namespace_id: expect::namespace(h, NAMESPACE_2).id },
        ),
        h[61] is Files && views(h[61]->Files_0@) == seq![
            expect::file(h, FILE_1),
            expect::file(h, FILE_3),
        ],
        asked(h, 62, max_l0_files) == RequestView::Partitions(
            PartitionsRequestView::Snapshot { id: expect::partition(h, PARTITION_2).id },
        ),
        h[62] is PartitionSnapshot,
        asked(h, 63, max_l0_files) == RequestView::Run(
            ScenarioView::ValidatePartitionSnapshot {
                partition_snapshot: expect::partition_snapshot(h, S2),
            },
        ),
        h[63] is Passed,
        asked(h, 64, max_l0_files) == RequestView::Run(
            ScenarioView::ListParquetFiles { namespace_id: i64::MAX },
        ),
        h[64] is Files && h[64]->Files_0@.len() == 0,
{
    let s = ScenarioView::ParquetFile { max_l0_files };
    assert(accepts(s, h.take(55)));
    assert(accepts(s, h.take(56)));
    assert(accepts(s, h.take(57)));
    assert(accepts(s, h.take(58)));
    assert(accepts(s, h.take(59)));
    assert(accepts(s, h.take(60)));
    assert(accepts(s, h.take(61)));
    assert(accepts(s, h.take(62)));
    assert(accepts(s, h.take(63)));
    assert(accepts(s, h.take(64)));
    assert(accepts(s, h.take(65)));
}

/// Answers like these are accepted.
pub proof fn law_refused_changes_are_told_which_is_enough(h: Seq<Reply>, max_l0_files: u32)
    requires
        h.len() > 64,
        h[54] is PartitionSnapshot,
        h[55] is Passed,
        h[56] is Ids,
        h[57] is Files && views(h[57]->Files_0@) == seq![
            expect::file(h, FILE_1),
            expect::file(h, FILE_3),
        ],
        h[58] is Failed && h[58]->Failed_0.kind == ErrorKind::NotFound,
        h[59] is Failed && h[59]->Failed_0.kind == ErrorKind::NotFound,
        h[60] is Failed && h[60]->Failed_0.kind == ErrorKind::NotFound,
        h[61] is Files && views(h[61]->Files_0@) == seq![
            expect::file(h, FILE_1),
            expect::file(h, FILE_3),
        ],
        h[62] is PartitionSnapshot && expect::partition_snapshot(
            h,
            S2,
        ).generation > expect::partition_snapshot(h, S1).generation,
        h[63] is Passed,
        h[64] is Files && h[64]->Files_0@.len() == 0,
    ensures
        accepts(ScenarioView::ParquetFile { max_l0_files }, h.take(55)),
        accepts(ScenarioView::ParquetFile { max_l0_files }, h.take(56)),
        accepts(ScenarioView::ParquetFile { max_l0_files }, h.take(57)),
        accepts(ScenarioView::ParquetFile { max_l0_files }, h.take(58)),
        accepts(ScenarioView::ParquetFile { max_l0_files }, h.take(59)),
        accepts(ScenarioView::ParquetFile { max_l0_files }, h.take(60)),
        accepts(ScenarioView::ParquetFile { max_l0_files }, h.take(61)),
        accepts(ScenarioView::ParquetFile { max_l0_files }, h.take(62)),
        accepts(ScenarioView::ParquetFile { max_l0_files }, h.take(63)),
        accepts(ScenarioView::ParquetFile { max_l0_files }, h.take(64)),
        accepts(ScenarioView::ParquetFile { max_l0_files }, h.take(65)),
{
    assert(h.take(55).last() == h[54]);
    assert(h.take(56).last() == h[55]);
    assert(h.take(57).last() == h[56]);
    assert(h.take(58).last() == h[57]);
    assert(h.take(59).last() == h[58]);
    assert(h.take(60).last() == h[59]);
    assert(h.take(61).last() == h[60]);
    assert(h.take(62).last() == h[61]);
    assert(h.take(63).last() == h[62]);
    assert(h.take(64).last() == h[63]);
    assert(h.take(65).last() == h[64]);
}

/// One marked file is removed.
pub proof fn law_marked_files_are_removed(h: Seq<Reply>, max_l0_files: u32)
    requires
        passes(ScenarioView::ParquetFile { max_l0_files }, h),
    ensures
        asked(h, 65, max_l0_files) == RequestView::Catalog(CatalogRequestView::Now),
        h[65] is Time && i64::MIN <= expect::time(h, NOW_3) + SECONDS_100 <= i64::MAX,
        asked(h, 66, max_l0_files) == RequestView::ParquetFiles(
            ParquetFilesRequestView::DeleteOldIdsCount {
                older_than: (expect::time(h, NOW_3) + SECONDS_100) as i64,
            },
        ),
        h[66] is Count && h[66]->Count_0 == 1,
        asked(h, 67, max_l0_files) == RequestView::Partitions(
            PartitionsRequestView::Snapshot { id: expect::partition(h, PARTITION_2).id },
        ),
        h[67] is PartitionSnapshot,
        asked(h, 68, max_l0_files) == RequestView::Run(
            ScenarioView::ValidatePartitionSnapshot {
                partition_snapshot: expect::partition_snapshot(h, S3),
            },
        ),
        h[68] is Passed,
{
    let s = ScenarioView::ParquetFile { max_l0_files };
    assert(accepts(s, h.take(66)));
    assert(accepts(s, h.take(67)));
    assert(accepts(s, h.take(68)));
    assert(accepts(s, h.take(69)));
}

/// Answers like these are accepted.
pub proof fn law_marked_files_are_removed_which_is_enough(h: Seq<Reply>, max_l0_files: u32)
    requires
        h.len() > 68,
        h[65] is Time && i64::MIN <= expect::time(h, NOW_3) + SECONDS_100 <= i64::MAX,
        h[66] is Count && h[66]->Count_0 == 1,
        h[67] is PartitionSnapshot && expect::partition_snapshot(
            h,
            S3,
        ).generation >= expect::partition_snapshot(h, S2).generation,
        expect::is_partition_snapshot(h, S2),
        h[68] is Passed,
    ensures
        accepts(ScenarioView::ParquetFile { max_l0_files }, h.take(66)),
        accepts(ScenarioView::ParquetFile { max_l0_files }, h.take(67)),
        accepts(ScenarioView::ParquetFile { max_l0_files }, h.take(68)),
        accepts(ScenarioView::ParquetFile { max_l0_files }, h.take(69)),
{
    assert(h.take(66).last() == h[65]);
    assert(h.take(67).last() == h[66]);
    assert(h.take(68).last() == h[67]);
    assert(h.take(69).last() == h[68]);
}

/// Without retention periods no file is marked. With one, a file whose data is older is, and one
/// whose data is not is not. A second look marks none.
pub proof fn law_only_files_that_are_too_old_are_marked(h: Seq<Reply>, max_l0_files: u32)
    requires
        passes(ScenarioView::ParquetFile { max_l0_files }, h),
    ensures
        asked(h, 69, max_l0_files) == RequestView::Namespaces(
            NamespacesRequestView::List { rows: SoftDeletedRows::AllRows },
        ),
        h[69] is Namespaces,
        asked(h, 70, max_l0_files) == RequestView::Run(
            ScenarioView::KeepForEver { namespaces: expect::namespaces(h, NAMESPACES) },
        ),
        h[70] is Passed,
        asked(h, 71, max_l0_files) == RequestView::ParquetFiles(
            ParquetFilesRequestView::FlagForDeleteByRetention,
        ),
        h[71] is Located && h[71]->Located_0@.len() == 0,
        asked(h, 72, max_l0_files) == RequestView::Namespaces(
            NamespacesRequestView::UpdateRetentionPeriod {
                id: expect::namespace(h, NAMESPACE_2).id,
                retention_period_ns: Some(HOUR),
            },
        ),
        h[72] is Namespace,
        asked(h, 73, max_l0_files) == RequestView::Value(
            ValueRequestView::NewObjectStoreIds { count: 1 },
        ),
        h[73] is ObjectStoreIds && h[73]->ObjectStoreIds_0@.len() == 1,
        asked(h, 74, max_l0_files) == RequestView::Catalog(CatalogRequestView::Now),
        h[74] is Time && i64::MIN <= expect::time(h, NOW_4) + -MINUTES_65 <= i64::MAX,
        asked(h, 75, max_l0_files) == RequestView::ParquetFiles(
            ParquetFilesRequestView::Create { params: params_4(h) },
        ),
        h[75] is File,
        asked(h, 76, max_l0_files) == RequestView::Value(
            ValueRequestView::NewObjectStoreIds { count: 1 },
        ),
        h[76] is ObjectStoreIds && h[76]->ObjectStoreIds_0@.len() == 1,
        asked(h, 77, max_l0_files) == RequestView::Catalog(CatalogRequestView::Now),
        h[77] is Time && i64::MIN <= expect::time(h, NOW_5) + -MINUTES_55 <= i64::MAX,
        asked(h, 78, max_l0_files) == RequestView::ParquetFiles(
            ParquetFilesRequestView::Create { params: params_5(h) },
        ),
        h[78] is File,
        asked(h, 79, max_l0_files) == RequestView::ParquetFiles(
            ParquetFilesRequestView::FlagForDeleteByRetention,
        ),
        h[79] is Located && h[79]->Located_0@.len() > 1,
        asked(h, 80, max_l0_files) == RequestView::ParquetFiles(
            ParquetFilesRequestView::GetByObjectStoreId { object_store_id: expect::uuid(h, ID_4) },
        ),
        h[80] is File && h[80]->File_0.to_delete is Some,
        asked(h, 81, max_l0_files) == RequestView::ParquetFiles(
            ParquetFilesRequestView::GetByObjectStoreId { object_store_id: expect::uuid(h, ID_5) },
        ),
        h[81] is File && h[81]->File_0.to_delete is None,
        asked(h, 82, max_l0_files) == RequestView::Partitions(
            PartitionsRequestView::Snapshot { id: expect::partition(h, PARTITION_2).id },
        ),
        h[82] is PartitionSnapshot,
        asked(h, 83, max_l0_files) == RequestView::Run(
            ScenarioView::ValidatePartitionSnapshot {
                partition_snapshot: expect::partition_snapshot(h, S4),
            },
        ),
        h[83] is Passed,
        asked(h, 84, max_l0_files) == RequestView::ParquetFiles(
            ParquetFilesRequestView::FlagForDeleteByRetention,
        ),
        h[84] is Located && h[84]->Located_0@.len() == 0,
        MINUTES_55 == 55 * 60 * 1_000_000_000,
        HOUR == 60 * 60 * 1_000_000_000,
        MINUTES_65 == 65 * 60 * 1_000_000_000,
        SECONDS_100 == 100 * 1_000_000_000,
{
    let s = ScenarioView::ParquetFile { max_l0_files };
    assert(accepts(s, h.take(70)));
    assert(accepts(s, h.take(71)));
    assert(accepts(s, h.take(72)));
    assert(accepts(s, h.take(73)));
    assert(accepts(s, h.take(74)));
    assert(accepts(s, h.take(75)));
    assert(accepts(s, h.take(76)));
    assert(accepts(s, h.take(77)));
    assert(accepts(s, h.take(78)));
    assert(accepts(s, h.take(79)));
    assert(accepts(s, h.take(80)));
    assert(accepts(s, h.take(81)));
    assert(accepts(s, h.take(82)));
    assert(accepts(s, h.take(83)));
    assert(accepts(s, h.take(84)));
    assert(accepts(s, h.take(85)));
}

/// Answers like these are accepted.
pub proof fn law_only_files_that_are_too_old_are_marked_which_is_enough(
    h: Seq<Reply>,
    max_l0_files: u32,
)
    requires
        h.len() > 84,
        h[69] is Namespaces,
        h[70] is Passed,
        h[71] is Located && h[71]->Located_0@.len() == 0,
        h[72] is Namespace,
        h[73] is ObjectStoreIds && h[73]->ObjectStoreIds_0@.len() == 1,
        h[74] is Time && i64::MIN <= expect::time(h, NOW_4) + -MINUTES_65 <= i64::MAX,
        h[75] is File,
        h[76] is ObjectStoreIds && h[76]->ObjectStoreIds_0@.len() == 1,
        h[77] is Time && i64::MIN <= expect::time(h, NOW_5) + -MINUTES_55 <= i64::MAX,
        h[78] is File,
        h[79] is Located && h[79]->Located_0@.len() > 1,
        h[80] is File && h[80]->File_0.to_delete is Some,
        h[81] is File && h[81]->File_0.to_delete is None,
        h[82] is PartitionSnapshot && expect::partition_snapshot(
            h,
            S4,
        ).generation > expect::partition_snapshot(h, S3).generation,
        expect::is_partition_snapshot(h, S3),
        h[83] is Passed,
        h[84] is Located && h[84]->Located_0@.len() == 0,
    ensures
        accepts(ScenarioView::ParquetFile { max_l0_files }, h.take(70)),
        accepts(ScenarioView::ParquetFile { max_l0_files }, h.take(71)),
        accepts(ScenarioView::ParquetFile { max_l0_files }, h.take(72)),
        accepts(ScenarioView::ParquetFile { max_l0_files }, h.take(73)),
        accepts(ScenarioView::ParquetFile { max_l0_files }, h.take(74)),
        accepts(ScenarioView::ParquetFile { max_l0_files }, h.take(75)),
        accepts(ScenarioView::ParquetFile { max_l0_files }, h.take(76)),
        accepts(ScenarioView::ParquetFile { max_l0_files }, h.take(77)),
        accepts(ScenarioView::ParquetFile { max_l0_files }, h.take(78)),
        accepts(ScenarioView::ParquetFile { max_l0_files }, h.take(79)),
        accepts(ScenarioView::ParquetFile { max_l0_files }, h.take(80)),
        accepts(ScenarioView::ParquetFile { max_l0_files }, h.take(81)),
        accepts(ScenarioView::ParquetFile { max_l0_files }, h.take(82)),
        accepts(ScenarioView::ParquetFile { max_l0_files }, h.take(83)),
        accepts(ScenarioView::ParquetFile { max_l0_files }, h.take(84)),
        accepts(ScenarioView::ParquetFile { max_l0_files }, h.take(85)),
{
    assert(h.take(70).last() == h[69]);
    assert(h.take(71).last() == h[70]);
    assert(h.take(72).last() == h[71]);
    assert(h.take(73).last() == h[72]);
    assert(h.take(74).last() == h[73]);
    assert(h.take(75).last() == h[74]);
    assert(h.take(76).last() == h[75]);
    assert(h.take(77).last() == h[76]);
    assert(h.take(78).last() == h[77]);
    assert(h.take(79).last() == h[78]);
    assert(h.take(80).last() == h[79]);
    assert(h.take(81).last() == h[80]);
    assert(h.take(82).last() == h[81]);
    assert(h.take(83).last() == h[82]);
    assert(h.take(84).last() == h[83]);
    assert(h.take(85).last() == h[84]);
}

/// Of many old files a thousand are marked first, then the rest, then none.
pub proof fn law_not_more_than_a_thousand_files_are_marked_at_once(h: Seq<Reply>, max_l0_files: u32)
    requires
        passes(ScenarioView::ParquetFile { max_l0_files }, h),
    ensures
        asked(h, 85, max_l0_files) == RequestView::Catalog(CatalogRequestView::Now),
        h[85] is Time && i64::MIN <= expect::time(h, NOW_6) + -MINUTES_65 <= i64::MAX,
        asked(h, 86, max_l0_files) == RequestView::Value(
            ValueRequestView::NewObjectStoreIds { count: 1_042 },
        ),
        h[86] is ObjectStoreIds && h[86]->ObjectStoreIds_0@.len() == 1_042,
        asked(h, 87, max_l0_files) == RequestView::ParquetFiles(
            ParquetFilesRequestView::CreateUpgradeDelete {
                partition_id: params_1(h).partition_id,
                delete: Seq::empty(),
                upgrade: Seq::empty(),
                create: old_files(h),
                target_level: CompactionLevel::Initial,
            },
        ),
        h[87] is Ids,
        asked(h, 88, max_l0_files) == RequestView::ParquetFiles(
            ParquetFilesRequestView::FlagForDeleteByRetention,
        ),
        h[88] is Located && h[88]->Located_0@.len() == 1_000,
        asked(h, 89, max_l0_files) == RequestView::ParquetFiles(
            ParquetFilesRequestView::FlagForDeleteByRetention,
        ),
        h[89] is Located && h[89]->Located_0@.len() == 42,
        asked(h, 90, max_l0_files) == RequestView::ParquetFiles(
            ParquetFilesRequestView::FlagForDeleteByRetention,
        ),
        h[90] is Located && h[90]->Located_0@.len() == 0,
{
    let s = ScenarioView::ParquetFile { max_l0_files };
    assert(accepts(s, h.take(86)));
    assert(accepts(s, h.take(87)));
    assert(accepts(s, h.take(88)));
    assert(accepts(s, h.take(89)));
    assert(accepts(s, h.take(90)));
    assert(accepts(s, h.take(91)));
}

/// Answers like these are accepted.
pub proof fn law_not_more_than_a_thousand_files_are_marked_at_once_which_is_enough(
    h: Seq<Reply>,
    max_l0_files: u32,
)
    requires
        h.len() > 90,
        h[85] is Time && i64::MIN <= expect::time(h, NOW_6) + -MINUTES_65 <= i64::MAX,
        h[86] is ObjectStoreIds && h[86]->ObjectStoreIds_0@.len() == 1_042,
        h[87] is Ids,
        h[88] is Located && h[88]->Located_0@.len() == 1_000,
        h[89] is Located && h[89]->Located_0@.len() == 42,
        h[90] is Located && h[90]->Located_0@.len() == 0,
    ensures
        accepts(ScenarioView::ParquetFile { max_l0_files }, h.take(86)),
        accepts(ScenarioView::ParquetFile { max_l0_files }, h.take(87)),
        accepts(ScenarioView::ParquetFile { max_l0_files }, h.take(88)),
        accepts(ScenarioView::ParquetFile { max_l0_files }, h.take(89)),
        accepts(ScenarioView::ParquetFile { max_l0_files }, h.take(90)),
        accepts(ScenarioView::ParquetFile { max_l0_files }, h.take(91)),
{
    assert(h.take(86).last() == h[85]);
    assert(h.take(87).last() == h[86]);
    assert(h.take(88).last() == h[87]);
    assert(h.take(89).last() == h[88]);
    assert(h.take(90).last() == h[89]);
    assert(h.take(91).last() == h[90]);
}

/// Files are marked, raised and created by one request: the old one is marked, the raised one is of
/// the new level, and the new one was created when the old one was marked. It cannot be created
/// again.
pub proof fn law_files_are_replaced(h: Seq<Reply>, max_l0_files: u32)
    requires
        passes(ScenarioView::ParquetFile { max_l0_files }, h),
    ensures
        asked(h, 91, max_l0_files) == RequestView::Value(
            ValueRequestView::NewObjectStoreIds { count: 1 },
        ),
        h[91] is ObjectStoreIds && h[91]->ObjectStoreIds_0@.len() == 1,
        asked(h, 92, max_l0_files) == RequestView::ParquetFiles(
            ParquetFilesRequestView::Create { params: params_6(h) },
        ),
        h[92] is File,
        asked(h, 93, max_l0_files) == RequestView::Value(
            ValueRequestView::NewObjectStoreIds { count: 1 },
        ),
        h[93] is ObjectStoreIds && h[93]->ObjectStoreIds_0@.len() == 1,
        asked(h, 94, max_l0_files) == RequestView::Value(
            ValueRequestView::NewObjectStoreIds { count: 1 },
        ),
        h[94] is ObjectStoreIds && h[94]->ObjectStoreIds_0@.len() == 1,
        asked(h, 95, max_l0_files) == RequestView::ParquetFiles(
            ParquetFilesRequestView::CreateUpgradeDelete {
                partition_id: expect::file(h, FILE_5).partition_id,
                delete: seq![expect::file(h, FILE_5).object_store_id],
                upgrade: seq![expect::uuid(h, ID_6)],
                create: seq![params_7(h)],
                target_level: CompactionLevel::Final,
            },
        ),
        h[95] is Ids && h[95]->Ids_0@.len() == 1,
        asked(h, 96, max_l0_files) == RequestView::ParquetFiles(
            ParquetFilesRequestView::CreateUpgradeDelete {
                partition_id: params_8(h).partition_id,
                delete: Seq::empty(),
                upgrade: Seq::empty(),
                create: seq![params_8(h)],
                target_level: CompactionLevel::Final,
            },
        ),
        h[96] is Ids && h[96]->Ids_0@.len() == 1,
        asked(h, 97, max_l0_files) == RequestView::ParquetFiles(
            ParquetFilesRequestView::GetByObjectStoreId {
                object_store_id: expect::file(h, FILE_5).object_store_id,
            },
        ),
        h[97] is File && h[97]->File_0.to_delete is Some,
        asked(h, 98, max_l0_files) == RequestView::ParquetFiles(
            ParquetFilesRequestView::GetByObjectStoreId { object_store_id: expect::uuid(h, ID_6) },
        ),
        h[98] is File && h[98]->File_0.compaction_level == CompactionLevel::Final,
        asked(h, 99, max_l0_files) == RequestView::ParquetFiles(
            ParquetFilesRequestView::GetByObjectStoreId { object_store_id: expect::uuid(h, ID_7) },
        ),
        h[99] is File && expect::file(h, FILE_5_MARKED).to_delete == Some(h[99]->File_0.created_at),
        asked(h, 100, max_l0_files) == RequestView::Value(
            ValueRequestView::ObjectStoreIdText { object_store_id: expect::uuid(h, ID_7) },
        ),
        h[100] is Text,
        asked(h, 101, max_l0_files) == RequestView::ParquetFiles(
            ParquetFilesRequestView::CreateUpgradeDelete {
                partition_id: expect::partition(h, PARTITION_2).id,
                delete: Seq::empty(),
                upgrade: Seq::empty(),
                create: seq![params_7(h)],
                target_level: CompactionLevel::Final,
            },
        ),
        h[101] is Failed && h[101]->Failed_0.kind == ErrorKind::AlreadyExists,
        h[101]->Failed_0.descr@ == expect::text(h, ID_7_TEXT),
        asked(h, 102, max_l0_files) == RequestView::ParquetFiles(
            ParquetFilesRequestView::GetByObjectStoreId {
                object_store_id: expect::file(h, FILE_1).object_store_id,
            },
        ),
        h[102] is File && h[102]->File_0.to_delete is Some,
        asked(h, 103, max_l0_files) == RequestView::ParquetFiles(
            ParquetFilesRequestView::GetByObjectStoreId {
                object_store_id: expect::file(h, FILE_7).object_store_id,
            },
        ),
        h[103] is File && h[103]->File_0.to_delete is None,
{
    let s = ScenarioView::ParquetFile { max_l0_files };
    assert(accepts(s, h.take(92)));
    assert(accepts(s, h.take(93)));
    assert(accepts(s, h.take(94)));
    assert(accepts(s, h.take(95)));
    assert(accepts(s, h.take(96)));
    assert(accepts(s, h.take(97)));
    assert(accepts(s, h.take(98)));
    assert(accepts(s, h.take(99)));
    assert(accepts(s, h.take(100)));
    assert(accepts(s, h.take(101)));
    assert(accepts(s, h.take(102)));
    assert(accepts(s, h.take(103)));
    assert(accepts(s, h.take(104)));
}

/// Answers like these are accepted.
pub proof fn law_files_are_replaced_which_is_enough(h: Seq<Reply>, max_l0_files: u32)
    requires
        h.len() > 103,
        h[91] is ObjectStoreIds && h[91]->ObjectStoreIds_0@.len() == 1,
        h[92] is File,
        h[93] is ObjectStoreIds && h[93]->ObjectStoreIds_0@.len() == 1,
        h[94] is ObjectStoreIds && h[94]->ObjectStoreIds_0@.len() == 1,
        h[95] is Ids && h[95]->Ids_0@.len() == 1,
        h[96] is Ids && h[96]->Ids_0@.len() == 1,
        h[97] is File && h[97]->File_0.to_delete is Some,
        h[98] is File && h[98]->File_0.compaction_level == CompactionLevel::Final,
        h[99] is File && expect::file(h, FILE_5_MARKED).to_delete == Some(h[99]->File_0.created_at),
        h[100] is Text,
        h[101] is Failed && h[101]->Failed_0.kind == ErrorKind::AlreadyExists,
        h[101]->Failed_0.descr@ == expect::text(h, ID_7_TEXT),
        h[102] is File && h[102]->File_0.to_delete is Some,
        h[103] is File && h[103]->File_0.to_delete is None,
    ensures
        accepts(ScenarioView::ParquetFile { max_l0_files }, h.take(92)),
        accepts(ScenarioView::ParquetFile { max_l0_files }, h.take(93)),
        accepts(ScenarioView::ParquetFile { max_l0_files }, h.take(94)),
        accepts(ScenarioView::ParquetFile { max_l0_files }, h.take(95)),
        accepts(ScenarioView::ParquetFile { max_l0_files }, h.take(96)),
        accepts(ScenarioView::ParquetFile { max_l0_files }, h.take(97)),
        accepts(ScenarioView::ParquetFile { max_l0_files }, h.take(98)),
        accepts(ScenarioView::ParquetFile { max_l0_files }, h.take(99)),
        accepts(ScenarioView::ParquetFile { max_l0_files }, h.take(100)),
        accepts(ScenarioView::ParquetFile { max_l0_files }, h.take(101)),
        accepts(ScenarioView::ParquetFile { max_l0_files }, h.take(102)),
        accepts(ScenarioView::ParquetFile { max_l0_files }, h.take(103)),
        accepts(ScenarioView::ParquetFile { max_l0_files }, h.take(104)),
{
    assert(h.take(92).last() == h[91]);
    assert(h.take(93).last() == h[92]);
    assert(h.take(94).last() == h[93]);
    assert(h.take(95).last() == h[94]);
    assert(h.take(96).last() == h[95]);
    assert(h.take(97).last() == h[96]);
    assert(h.take(98).last() == h[97]);
    assert(h.take(99).last() == h[98]);
    assert(h.take(100).last() == h[99]);
    assert(h.take(101).last() == h[100]);
    assert(h.take(102).last() == h[101]);
    assert(h.take(103).last() == h[102]);
    assert(h.take(104).last() == h[103]);
}

/// Of ids only those of files are known, marked or not, and of ids in partitions only those of
/// files in them.
pub proof fn law_files_are_known_by_their_ids(h: Seq<Reply>, max_l0_files: u32)
    requires
        passes(ScenarioView::ParquetFile { max_l0_files }, h),
    ensures
        asked(h, 104, max_l0_files) == RequestView::Value(
            ValueRequestView::NewObjectStoreIds { count: 1 },
        ),
        h[104] is ObjectStoreIds && h[104]->ObjectStoreIds_0@.len() == 1,
        asked(h, 105, max_l0_files) == RequestView::ParquetFiles(
            ParquetFilesRequestView::ExistsByObjectStoreIdBatch {
                ids: seq![
                    expect::file(h, FILE_1).object_store_id,
                    expect::file(h, FILE_7).object_store_id,
                    expect::uuid(h, SPARE_ID),
                ],
            },
        ),
        h[105] is ObjectStoreIds && h[105]->ObjectStoreIds_0@.to_multiset() == seq![
            expect::file(h, FILE_1).object_store_id,
            expect::file(h, FILE_7).object_store_id,
        ].to_multiset(),
        asked(h, 106, max_l0_files) == RequestView::ParquetFiles(
            ParquetFilesRequestView::ExistsByPartitionAndObjectStoreIdBatch {
                located: seq![
                    (expect::partition(h, PARTITION_2).id, expect::file(h, FILE_1).object_store_id),
                    (expect::partition(h, PARTITION).id, expect::uuid(h, ID_6)),
                    (expect::partition(h, PARTITION_2).id, expect::file(h, FILE_7).object_store_id),
                    (expect::partition(h, PARTITION).id, expect::uuid(h, ID_8)),
                    (expect::partition(h, PARTITION).id, expect::uuid(h, SPARE_ID)),
                ],
            },
        ),
        h[106] is Located && h[106]->Located_0@.to_multiset() == seq![
            (expect::partition(h, PARTITION_2).id, expect::file(h, FILE_1).object_store_id),
            (expect::partition(h, PARTITION_2).id, expect::file(h, FILE_7).object_store_id),
            (expect::partition(h, PARTITION).id, expect::uuid(h, ID_8)),
        ].to_multiset(),
{
    let s = ScenarioView::ParquetFile { max_l0_files };
    assert(accepts(s, h.take(105)));
    assert(accepts(s, h.take(106)));
    assert(accepts(s, h.take(107)));
}

/// Answers like these are accepted.
pub proof fn law_files_are_known_by_their_ids_which_is_enough(h: Seq<Reply>, max_l0_files: u32)
    requires
        h.len() > 106,
        h[104] is ObjectStoreIds && h[104]->ObjectStoreIds_0@.len() == 1,
        h[105] is ObjectStoreIds && h[105]->ObjectStoreIds_0@.to_multiset() == seq![
            expect::file(h, FILE_1).object_store_id,
            expect::file(h, FILE_7).object_store_id,
        ].to_multiset(),
        h[106] is Located && h[106]->Located_0@.to_multiset() == seq![
            (expect::partition(h, PARTITION_2).id, expect::file(h, FILE_1).object_store_id),
            (expect::partition(h, PARTITION_2).id, expect::file(h, FILE_7).object_store_id),
            (expect::partition(h, PARTITION).id, expect::uuid(h, ID_8)),
        ].to_multiset(),
    ensures
        accepts(ScenarioView::ParquetFile { max_l0_files }, h.take(105)),
        accepts(ScenarioView::ParquetFile { max_l0_files }, h.take(106)),
        accepts(ScenarioView::ParquetFile { max_l0_files }, h.take(107)),
{
    assert(h.take(105).last() == h[104]);
    assert(h.take(106).last() == h[105]);
    assert(h.take(107).last() == h[106]);
}

/// A file of another partition than the one that is named is refused, and nothing of the request is
/// done. Files of several partitions are listed each once.
pub proof fn law_files_stay_in_their_partition(h: Seq<Reply>, max_l0_files: u32)
    requires
        passes(ScenarioView::ParquetFile { max_l0_files }, h),
    ensures
        asked(h, 107, max_l0_files) == RequestView::Partitions(
            PartitionsRequestView::Snapshot { id: expect::partition(h, PARTITION_2).id },
        ),
        h[107] is PartitionSnapshot,
        asked(h, 108, max_l0_files) == RequestView::Run(
            ScenarioView::ValidatePartitionSnapshot {
                partition_snapshot: expect::partition_snapshot(h, S5),
            },
        ),
        h[108] is Passed,
        asked(h, 109, max_l0_files) == RequestView::Partitions(
            PartitionsRequestView::CreateOrGet {
                key: "three"@,
                table_id: expect::table(h, TABLE).id,
            },
        ),
        h[109] is Partition,
        asked(h, 110, max_l0_files) == RequestView::Tables(
            TablesRequestView::Snapshot { id: expect::table(h, TABLE).id },
        ),
        h[110] is TableSnapshot,
        asked(h, 111, max_l0_files) == RequestView::Run(
            ScenarioView::ValidateTableSnapshot { table_snapshot: expect::table_snapshot(h, TS4) },
        ),
        h[111] is Passed,
        asked(h, 112, max_l0_files) == RequestView::Value(
            ValueRequestView::NewObjectStoreIds { count: 1 },
        ),
        h[112] is ObjectStoreIds && h[112]->ObjectStoreIds_0@.len() == 1,
        asked(h, 113, max_l0_files) == RequestView::ParquetFiles(
            ParquetFilesRequestView::CreateUpgradeDelete {
                partition_id: expect::partition(h, PARTITION_2).id,
                delete: seq![expect::file(h, FILE_7).object_store_id],
                upgrade: Seq::empty(),
                create: seq![params_9(h)],
                target_level: CompactionLevel::Final,
            },
        ),
        asked(h, 114, max_l0_files) == RequestView::ParquetFiles(
            ParquetFilesRequestView::ListByPartitionNotToDeleteBatch {
                partition_ids: seq![expect::partition(h, PARTITION_2).id],
            },
        ),
        h[114] is Files && h[114]->Files_0@.len() == 2,
        asked(h, 115, max_l0_files) == RequestView::ParquetFiles(
            ParquetFilesRequestView::CreateUpgradeDelete {
                partition_id: expect::partition(h, PARTITION_3).id,
                delete: Seq::empty(),
                upgrade: Seq::empty(),
                create: seq![params_9(h)],
                target_level: CompactionLevel::Final,
            },
        ),
        h[115] is Ids,
        asked(h, 116, max_l0_files) == RequestView::ParquetFiles(
            ParquetFilesRequestView::ListByPartitionNotToDeleteBatch {
                partition_ids: seq![expect::partition(h, PARTITION_3).id],
            },
        ),
        h[116] is Files && h[116]->Files_0@.len() == 1,
        asked(h, 117, max_l0_files) == RequestView::ParquetFiles(
            ParquetFilesRequestView::ListByPartitionNotToDeleteBatch {
                partition_ids: Seq::empty(),
            },
        ),
        h[117] is Files && h[117]->Files_0@.len() == 0,
        asked(h, 118, max_l0_files) == RequestView::ParquetFiles(
            ParquetFilesRequestView::ListByPartitionNotToDeleteBatch {
                partition_ids: seq![
                    expect::partition(h, PARTITION_2).id,
                    expect::partition(h, PARTITION_3).id,
                ],
            },
        ),
        h[118] is Files && h[118]->Files_0@.len() == 3,
        asked(h, 119, max_l0_files) == RequestView::ParquetFiles(
            ParquetFilesRequestView::ListByPartitionNotToDeleteBatch {
                partition_ids: seq![
                    expect::partition(h, PARTITION_2).id,
                    i64::MAX,
                    expect::partition(h, PARTITION_3).id,
                    expect::partition(h, PARTITION_2).id,
                ],
            },
        ),
        h[119] is Files && h[119]->Files_0@.len() == 3,
        asked(h, 120, max_l0_files) == RequestView::ParquetFiles(
            ParquetFilesRequestView::CreateUpgradeDelete {
                partition_id: expect::partition(h, PARTITION_2).id,
                delete: seq![expect::files(h, LISTED_3)[0].object_store_id],
                upgrade: Seq::empty(),
                create: Seq::empty(),
                target_level: CompactionLevel::Final,
            },
        ),
        h[120] is Failed && h[120]->Failed_0.kind == ErrorKind::NotFound,
        asked(h, 121, max_l0_files) == RequestView::ParquetFiles(
            ParquetFilesRequestView::CreateUpgradeDelete {
                partition_id: expect::partition(h, PARTITION_2).id,
                delete: Seq::empty(),
                upgrade: seq![expect::files(h, LISTED_3)[0].object_store_id],
                create: Seq::empty(),
                target_level: CompactionLevel::Final,
            },
        ),
        h[121] is Failed && h[121]->Failed_0.kind == ErrorKind::NotFound,
        asked(h, 122, max_l0_files) == RequestView::ParquetFiles(
            ParquetFilesRequestView::CreateUpgradeDelete {
                partition_id: expect::partition(h, PARTITION_3).id,
                delete: seq![expect::files(h, LISTED_3)[0].object_store_id],
                upgrade: Seq::empty(),
                create: Seq::empty(),
                target_level: CompactionLevel::Final,
            },
        ),
        h[122] is Ids,
        h[113] is Failed,
        exists|before: Seq<char>, after: Seq<char>| h[113]->Failed_0.message@ == #[trigger] (
            before + "Inconsistent ParquetFileParams, expected PartitionId"@ + after
        ),
{
    let s = ScenarioView::ParquetFile { max_l0_files };
    assert(accepts(s, h.take(108)));
    assert(accepts(s, h.take(109)));
    assert(accepts(s, h.take(110)));
    assert(accepts(s, h.take(111)));
    assert(accepts(s, h.take(112)));
    assert(accepts(s, h.take(113)));
    assert(accepts(s, h.take(114)));
    assert(accepts(s, h.take(115)));
    assert(accepts(s, h.take(116)));
    assert(accepts(s, h.take(117)));
    assert(accepts(s, h.take(118)));
    assert(accepts(s, h.take(119)));
    assert(accepts(s, h.take(120)));
    assert(accepts(s, h.take(121)));
    assert(accepts(s, h.take(122)));
    assert(accepts(s, h.take(123)));
    law_texts_occur_between_others(
        h[113]->Failed_0.message@,
        "Inconsistent ParquetFileParams, expected PartitionId"@,
    );
}

/// Answers like these are accepted.
pub proof fn law_files_stay_in_their_partition_which_is_enough(h: Seq<Reply>, max_l0_files: u32)
    requires
        h.len() > 122,
        h[107] is PartitionSnapshot && expect::partition_snapshot(
            h,
            S5,
        ).generation > expect::partition_snapshot(h, S4).generation,
        expect::is_partition_snapshot(h, S4),
        h[108] is Passed,
        h[109] is Partition,
        h[110] is TableSnapshot,
        h[111] is Passed && expect::table_snapshot(h, TS4).generation > expect::table_snapshot(
            h,
            TS1,
        ).generation,
        expect::is_table_snapshot(h, TS1),
        h[112] is ObjectStoreIds && h[112]->ObjectStoreIds_0@.len() == 1,
        h[114] is Files && h[114]->Files_0@.len() == 2,
        h[115] is Ids,
        h[116] is Files && h[116]->Files_0@.len() == 1,
        h[117] is Files && h[117]->Files_0@.len() == 0,
        h[118] is Files && h[118]->Files_0@.len() == 3,
        h[119] is Files && h[119]->Files_0@.len() == 3,
        h[120] is Failed && h[120]->Failed_0.kind == ErrorKind::NotFound,
        h[121] is Failed && h[121]->Failed_0.kind == ErrorKind::NotFound,
        h[122] is Ids,
    ensures
        accepts(ScenarioView::ParquetFile { max_l0_files }, h.take(108)),
        accepts(ScenarioView::ParquetFile { max_l0_files }, h.take(109)),
        accepts(ScenarioView::ParquetFile { max_l0_files }, h.take(110)),
        accepts(ScenarioView::ParquetFile { max_l0_files }, h.take(111)),
        accepts(ScenarioView::ParquetFile { max_l0_files }, h.take(112)),
        accepts(ScenarioView::ParquetFile { max_l0_files }, h.take(113)),
        accepts(ScenarioView::ParquetFile { max_l0_files }, h.take(115)),
        accepts(ScenarioView::ParquetFile { max_l0_files }, h.take(116)),
        accepts(ScenarioView::ParquetFile { max_l0_files }, h.take(117)),
        accepts(ScenarioView::ParquetFile { max_l0_files }, h.take(118)),
        accepts(ScenarioView::ParquetFile { max_l0_files }, h.take(119)),
        accepts(ScenarioView::ParquetFile { max_l0_files }, h.take(120)),
        accepts(ScenarioView::ParquetFile { max_l0_files }, h.take(121)),
        accepts(ScenarioView::ParquetFile { max_l0_files }, h.take(122)),
        accepts(ScenarioView::ParquetFile { max_l0_files }, h.take(123)),
{
    assert(h.take(108).last() == h[107]);
    assert(h.take(109).last() == h[108]);
    assert(h.take(110).last() == h[109]);
    assert(h.take(111).last() == h[110]);
    assert(h.take(112).last() == h[111]);
    assert(h.take(113).last() == h[112]);
    assert(h.take(115).last() == h[114]);
    assert(h.take(116).last() == h[115]);
    assert(h.take(117).last() == h[116]);
    assert(h.take(118).last() == h[117]);
    assert(h.take(119).last() == h[118]);
    assert(h.take(120).last() == h[119]);
    assert(h.take(121).last() == h[120]);
    assert(h.take(122).last() == h[121]);
    assert(h.take(123).last() == h[122]);
}

/// There is no snapshot of a partition that is not there. A file is found with the source that it
/// was created with.
pub proof fn law_files_keep_their_source(h: Seq<Reply>, max_l0_files: u32)
    requires
        passes(ScenarioView::ParquetFile { max_l0_files }, h),
    ensures
        asked(h, 123, max_l0_files) == RequestView::Partitions(
            PartitionsRequestView::Snapshot { id: i64::MAX },
        ),
        h[123] is Failed && h[123]->Failed_0.kind == ErrorKind::NotFound,
        asked(h, 124, max_l0_files) == RequestView::Helper(
            HelperRequestView::ArbitraryParquetFileParams {
                namespace: expect::namespace(h, NAMESPACE),
                table: expect::table(h, TABLE),
                partition: expect::partition(h, PARTITION),
            },
        ),
        h[124] is Params,
        asked(h, 125, max_l0_files) == RequestView::ParquetFiles(
            ParquetFilesRequestView::Create { params: sourced_params(h) },
        ),
        h[125] is File,
        asked(h, 126, max_l0_files) == RequestView::ParquetFiles(
            ParquetFilesRequestView::GetByObjectStoreId {
                object_store_id: expect::params(h, SOURCED).object_store_id,
            },
        ),
        h[126] is File && h[126]->File_0.source == Some(ParquetFileSource::BulkIngest),
        asked(h, 127, max_l0_files) == RequestView::Partitions(
            PartitionsRequestView::CreateOrGet {
                key: "four"@,
                table_id: expect::table(h, TABLE).id,
            },
        ),
        h[127] is Partition,
{
    let s = ScenarioView::ParquetFile { max_l0_files };
    assert(accepts(s, h.take(124)));
    assert(accepts(s, h.take(125)));
    assert(accepts(s, h.take(126)));
    assert(accepts(s, h.take(127)));
    assert(accepts(s, h.take(128)));
}

/// Answers like these are accepted.
pub proof fn law_files_keep_their_source_which_is_enough(h: Seq<Reply>, max_l0_files: u32)
    requires
        h.len() > 127,
        h[123] is Failed && h[123]->Failed_0.kind == ErrorKind::NotFound,
        h[124] is Params,
        h[125] is File,
        h[126] is File && h[126]->File_0.source == Some(ParquetFileSource::BulkIngest),
        h[127] is Partition,
    ensures
        accepts(ScenarioView::ParquetFile { max_l0_files }, h.take(124)),
        accepts(ScenarioView::ParquetFile { max_l0_files }, h.take(125)),
        accepts(ScenarioView::ParquetFile { max_l0_files }, h.take(126)),
        accepts(ScenarioView::ParquetFile { max_l0_files }, h.take(127)),
        accepts(ScenarioView::ParquetFile { max_l0_files }, h.take(128)),
{
    assert(h.take(124).last() == h[123]);
    assert(h.take(125).last() == h[124]);
    assert(h.take(126).last() == h[125]);
    assert(h.take(127).last() == h[126]);
    assert(h.take(128).last() == h[127]);
}

/// What the parameters of the files are that are created, each over the parameters that the first
/// and the one with a source start from.
pub proof fn law_parameters_of_files(h: Seq<Reply>, k: usize, i: int)
    ensures
        other_params(h) == (
            ParquetFileParamsView {
                table_id: expect::partition(h, OTHER_PARTITION).table_id,
                partition_id: expect::partition(h, OTHER_PARTITION).id,
                partition_hash_id: expect::partition(h, OTHER_PARTITION).hash_id,
                object_store_id: expect::uuid(h, OTHER_ID),
                min_time: 50,
                max_time: 60,
                ..expect::params(h, PARAMS)
            }
        ),
        params_1(h) == (
            ParquetFileParamsView {
                table_id: expect::partition(h, PARTITION_2).table_id,
                partition_id: expect::partition(h, PARTITION_2).id,
                partition_hash_id: expect::partition(h, PARTITION_2).hash_id,
                namespace_id: expect::namespace(h, NAMESPACE_2).id,
                object_store_id: expect::uuid(h, ID_1),
                min_time: 1,
                max_time: 10,
                ..expect::params(h, PARAMS)
            }
        ),
        params_2(h) == (
            ParquetFileParamsView {
                table_id: expect::partition(h, PARTITION_2).table_id,
                partition_id: expect::partition(h, PARTITION_2).id,
                partition_hash_id: expect::partition(h, PARTITION_2).hash_id,
                namespace_id: expect::namespace(h, NAMESPACE_2).id,
                object_store_id: expect::uuid(h, ID_2),
                min_time: 50,
                max_time: 60,
                ..expect::params(h, PARAMS)
            }
        ),
        conflicting_params(h) == (
            ParquetFileParamsView {
                table_id: expect::partition(h, PARTITION_2).table_id,
                partition_id: expect::partition(h, PARTITION_2).id,
                partition_hash_id: expect::partition(h, PARTITION_2).hash_id,
                namespace_id: expect::namespace(h, NAMESPACE_2).id,
                object_store_id: expect::uuid(h, ID_2),
                min_time: 50,
                max_time: 60,
                row_count: 200,
                ..expect::params(h, PARAMS)
            }
        ),
        params_3(h) == (
            ParquetFileParamsView {
                table_id: expect::partition(h, PARTITION_2).table_id,
                partition_id: expect::partition(h, PARTITION_2).id,
                partition_hash_id: expect::partition(h, PARTITION_2).hash_id,
                namespace_id: expect::namespace(h, NAMESPACE_2).id,
                object_store_id: expect::uuid(h, ID_3),
                min_time: 50,
                max_time: 60,
                ..expect::params(h, PARAMS)
            }
        ),
        params_4(h) == (
            ParquetFileParamsView {
                table_id: expect::partition(h, PARTITION_2).table_id,
                partition_id: expect::partition(h, PARTITION_2).id,
                partition_hash_id: expect::partition(h, PARTITION_2).hash_id,
                namespace_id: expect::namespace(h, NAMESPACE_2).id,
                object_store_id: expect::uuid(h, ID_4),
                min_time: 50,
                max_time: (expect::time(h, NOW_4) - MINUTES_65) as i64,
                ..expect::params(h, PARAMS)
            }
        ),
        params_5(h) == (
            ParquetFileParamsView {
                table_id: expect::partition(h, PARTITION_2).table_id,
                partition_id: expect::partition(h, PARTITION_2).id,
                partition_hash_id: expect::partition(h, PARTITION_2).hash_id,
                namespace_id: expect::namespace(h, NAMESPACE_2).id,
                object_store_id: expect::uuid(h, ID_5),
                min_time: 50,
                max_time: (expect::time(h, NOW_5) - MINUTES_55) as i64,
                ..expect::params(h, PARAMS)
            }
        ),
        old_params(h, i) == (
            ParquetFileParamsView {
                table_id: expect::partition(h, PARTITION_2).table_id,
                partition_id: expect::partition(h, PARTITION_2).id,
                partition_hash_id: expect::partition(h, PARTITION_2).hash_id,
                namespace_id: expect::namespace(h, NAMESPACE_2).id,
                object_store_id: expect::uuids(h, OLD_IDS)[i],
                min_time: 1,
                max_time: (expect::time(h, NOW_6) - MINUTES_65) as i64,
                ..expect::params(h, PARAMS)
            }
        ),
        params_6(h) == (
            ParquetFileParamsView {
                table_id: expect::partition(h, PARTITION_2).table_id,
                partition_id: expect::partition(h, PARTITION_2).id,
                partition_hash_id: expect::partition(h, PARTITION_2).hash_id,
                namespace_id: expect::namespace(h, NAMESPACE_2).id,
                object_store_id: expect::uuid(h, ID_6),
                min_time: 50,
                max_time: (expect::time(h, NOW_5) - MINUTES_55) as i64,
                ..expect::params(h, PARAMS)
            }
        ),
        params_7(h) == (
            ParquetFileParamsView {
                table_id: expect::partition(h, PARTITION_2).table_id,
                partition_id: expect::partition(h, PARTITION_2).id,
                partition_hash_id: expect::partition(h, PARTITION_2).hash_id,
                namespace_id: expect::namespace(h, NAMESPACE_2).id,
                object_store_id: expect::uuid(h, ID_7),
                min_time: 50,
                max_time: (expect::time(h, NOW_5) - MINUTES_55) as i64,
                ..expect::params(h, PARAMS)
            }
        ),
        params_8(h) == (
            ParquetFileParamsView {
                table_id: expect::partition(h, PARTITION_2).table_id,
                partition_id: expect::partition(h, PARTITION).id,
                partition_hash_id: expect::partition(h, PARTITION_2).hash_id,
                namespace_id: expect::namespace(h, NAMESPACE_2).id,
                object_store_id: expect::uuid(h, ID_8),
                min_time: 50,
                max_time: (expect::time(h, NOW_5) - MINUTES_55) as i64,
                ..expect::params(h, PARAMS)
            }
        ),
        params_9(h) == (
            ParquetFileParamsView {
                table_id: expect::partition(h, PARTITION_2).table_id,
                partition_id: expect::partition(h, PARTITION_3).id,
                partition_hash_id: expect::partition(h, PARTITION_2).hash_id,
                namespace_id: expect::namespace(h, NAMESPACE_2).id,
                object_store_id: expect::uuid(h, ID_9),
                min_time: 50,
                max_time: (expect::time(h, NOW_5) - MINUTES_55) as i64,
                ..expect::params(h, PARAMS)
            }
        ),
        sourced_params(h) == (
            ParquetFileParamsView {
                source: Some(ParquetFileSource::BulkIngest),
                ..expect::params(h, SOURCED)
            }
        ),
        filling_params(h, k, i as i64) == (
            ParquetFileParamsView {
                table_id: expect::partition(h, PARTITION_2).table_id,
                partition_id: expect::partition(h, PARTITION_4).id,
                partition_hash_id: expect::partition(h, PARTITION_2).hash_id,
                namespace_id: expect::namespace(h, NAMESPACE_2).id,
                object_store_id: expect::uuid(h, k),
                min_time: 0,
                max_time: 10,
                max_l0_created_at: MaxL0CreatedAt::Computed(i as i64),
                compaction_level: CompactionLevel::Initial,
                ..expect::params(h, PARAMS)
            }
        ),
{
}

} // verus!
