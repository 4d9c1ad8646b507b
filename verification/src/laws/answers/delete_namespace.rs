//! What a catalog has answered of two namespaces of which one is deleted.
use crate::expect;
use crate::reply::Reply;
use crate::request::{
    ColumnsRequestView, HelperRequestView, NamespacesRequestView, ParquetFilesRequestView,
    PartitionsRequestView, RequestView, ScenarioView, TablesRequestView, ValueRequestView,
};
use crate::run;
use crate::run::{accepts, passes};
use crate::scenarios::test_delete_namespace::{
    second_params_1, second_params_2, FIRST_1, FIRST_2, ID_1, ID_2, NAMESPACE_1, NAMESPACE_2,
    PARAMS_1, PARAMS_2, PARTITION_1, PARTITION_2, SECOND_1, SECOND_2, TABLE_1, TABLE_2,
};
use crate::types::{ColumnType, ParquetFileParamsView, SoftDeletedRows};
use vstd::prelude::*;

verus! {

/// What step `k` asks for.
pub open spec fn asked(h: Seq<Reply>, k: int) -> RequestView {
    run::request(ScenarioView::DeleteNamespace, h.take(k))
}

/// Two namespaces each get a table with a column and a partition with two files.
pub proof fn law_two_namespaces_are_filled_alike(h: Seq<Reply>)
    requires
        passes(ScenarioView::DeleteNamespace, h),
    ensures
        asked(h, 0) == RequestView::Value(ValueRequestView::Defaults),
        h[0] is Defaults,
        asked(h, 1) == RequestView::Helper(
            HelperRequestView::ArbitraryNamespace { name: "namespace_test_delete_namespace_1"@ },
        ),
        h[1] is Namespace,
        asked(h, 2) == RequestView::Helper(
            HelperRequestView::ArbitraryTable {
                name: "test_table_1"@,
                namespace: expect::namespace(h, NAMESPACE_1),
            },
        ),
        h[2] is Table,
        asked(h, 3) == RequestView::Columns(
            ColumnsRequestView::CreateOrGet {
                name: "column_test_1"@,
                table_id: expect::table(h, TABLE_1).id,
                column_type: ColumnType::Tag,
            },
        ),
        h[3] is Column,
        asked(h, 4) == RequestView::Partitions(
            PartitionsRequestView::CreateOrGet {
                key: "test_delete_namespace_one"@,
                table_id: expect::table(h, TABLE_1).id,
            },
        ),
        h[4] is Partition,
        asked(h, 5) == RequestView::Helper(
            HelperRequestView::ArbitraryParquetFileParams {
                namespace: expect::namespace(h, NAMESPACE_1),
                table: expect::table(h, TABLE_1),
                partition: expect::partition(h, PARTITION_1),
            },
        ),
        h[5] is Params,
        asked(h, 6) == RequestView::ParquetFiles(
            ParquetFilesRequestView::Create { params: expect::params(h, PARAMS_1) },
        ),
        h[6] is File,
        asked(h, 7) == RequestView::Value(ValueRequestView::NewObjectStoreIds { count: 1 }),
        h[7] is ObjectStoreIds && h[7]->ObjectStoreIds_0@.len() == 1,
        asked(h, 8) == RequestView::ParquetFiles(
            ParquetFilesRequestView::Create { params: second_params_1(h) },
        ),
        h[8] is File,
        asked(h, 9) == RequestView::Helper(
            HelperRequestView::ArbitraryNamespace { name: "namespace_test_delete_namespace_2"@ },
        ),
        h[9] is Namespace,
        asked(h, 10) == RequestView::Helper(
            HelperRequestView::ArbitraryTable {
                name: "test_table_2"@,
                namespace: expect::namespace(h, NAMESPACE_2),
            },
        ),
        h[10] is Table,
        asked(h, 11) == RequestView::Columns(
            ColumnsRequestView::CreateOrGet {
                name: "column_test_2"@,
                table_id: expect::table(h, TABLE_2).id,
                column_type: ColumnType::Tag,
            },
        ),
        h[11] is Column,
        asked(h, 12) == RequestView::Partitions(
            PartitionsRequestView::CreateOrGet {
                key: "test_delete_namespace_two"@,
                table_id: expect::table(h, TABLE_2).id,
            },
        ),
        h[12] is Partition,
        asked(h, 13) == RequestView::Helper(
            HelperRequestView::ArbitraryParquetFileParams {
                namespace: expect::namespace(h, NAMESPACE_2),
                table: expect::table(h, TABLE_2),
                partition: expect::partition(h, PARTITION_2),
            },
        ),
        h[13] is Params,
        asked(h, 14) == RequestView::ParquetFiles(
            ParquetFilesRequestView::Create { params: expect::params(h, PARAMS_2) },
        ),
        h[14] is File,
        asked(h, 15) == RequestView::Value(ValueRequestView::NewObjectStoreIds { count: 1 }),
        h[15] is ObjectStoreIds && h[15]->ObjectStoreIds_0@.len() == 1,
        asked(h, 16) == RequestView::ParquetFiles(
            ParquetFilesRequestView::Create { params: second_params_2(h) },
        ),
        h[16] is File,
{
    let s = ScenarioView::DeleteNamespace;
    assert(accepts(s, h.take(1)));
    assert(accepts(s, h.take(2)));
    assert(accepts(s, h.take(3)));
    assert(accepts(s, h.take(4)));
    assert(accepts(s, h.take(5)));
    assert(accepts(s, h.take(6)));
    assert(accepts(s, h.take(7)));
    assert(accepts(s, h.take(8)));
    assert(accepts(s, h.take(9)));
    assert(accepts(s, h.take(10)));
    assert(accepts(s, h.take(11)));
    assert(accepts(s, h.take(12)));
    assert(accepts(s, h.take(13)));
    assert(accepts(s, h.take(14)));
    assert(accepts(s, h.take(15)));
    assert(accepts(s, h.take(16)));
    assert(accepts(s, h.take(17)));
}

/// Answers like these are accepted.
pub proof fn law_two_namespaces_are_filled_alike_which_is_enough(h: Seq<Reply>)
    requires
        h.len() > 16,
        h[0] is Defaults,
        h[1] is Namespace,
        h[2] is Table,
        h[3] is Column,
        h[4] is Partition,
        h[5] is Params,
        h[6] is File,
        h[7] is ObjectStoreIds && h[7]->ObjectStoreIds_0@.len() == 1,
        h[8] is File,
        h[9] is Namespace,
        h[10] is Table,
        h[11] is Column,
        h[12] is Partition,
        h[13] is Params,
        h[14] is File,
        h[15] is ObjectStoreIds && h[15]->ObjectStoreIds_0@.len() == 1,
        h[16] is File,
    ensures
        accepts(ScenarioView::DeleteNamespace, h.take(1)),
        accepts(ScenarioView::DeleteNamespace, h.take(2)),
        accepts(ScenarioView::DeleteNamespace, h.take(3)),
        accepts(ScenarioView::DeleteNamespace, h.take(4)),
        accepts(ScenarioView::DeleteNamespace, h.take(5)),
        accepts(ScenarioView::DeleteNamespace, h.take(6)),
        accepts(ScenarioView::DeleteNamespace, h.take(7)),
        accepts(ScenarioView::DeleteNamespace, h.take(8)),
        accepts(ScenarioView::DeleteNamespace, h.take(9)),
        accepts(ScenarioView::DeleteNamespace, h.take(10)),
        accepts(ScenarioView::DeleteNamespace, h.take(11)),
        accepts(ScenarioView::DeleteNamespace, h.take(12)),
        accepts(ScenarioView::DeleteNamespace, h.take(13)),
        accepts(ScenarioView::DeleteNamespace, h.take(14)),
        accepts(ScenarioView::DeleteNamespace, h.take(15)),
        accepts(ScenarioView::DeleteNamespace, h.take(16)),
        accepts(ScenarioView::DeleteNamespace, h.take(17)),
{
    assert(h.take(1).last() == h[0]);
    assert(h.take(2).last() == h[1]);
    assert(h.take(3).last() == h[2]);
    assert(h.take(4).last() == h[3]);
    assert(h.take(5).last() == h[4]);
    assert(h.take(6).last() == h[5]);
    assert(h.take(7).last() == h[6]);
    assert(h.take(8).last() == h[7]);
    assert(h.take(9).last() == h[8]);
    assert(h.take(10).last() == h[9]);
    assert(h.take(11).last() == h[10]);
    assert(h.take(12).last() == h[11]);
    assert(h.take(13).last() == h[12]);
    assert(h.take(14).last() == h[13]);
    assert(h.take(15).last() == h[14]);
    assert(h.take(16).last() == h[15]);
    assert(h.take(17).last() == h[16]);
}

/// The deleted namespace is not seen any more but is there, and what it holds is there as it was.
pub proof fn law_what_the_deleted_namespace_holds_stays(h: Seq<Reply>)
    requires
        passes(ScenarioView::DeleteNamespace, h),
    ensures
        asked(h, 17) == RequestView::Namespaces(
            NamespacesRequestView::SoftDelete { id: expect::namespace(h, NAMESPACE_1).id },
        ),
        h[17] is Id,
        asked(h, 18) == RequestView::Namespaces(
            NamespacesRequestView::GetById {
                id: expect::namespace(h, NAMESPACE_1).id,
                rows: SoftDeletedRows::ExcludeDeleted,
            },
        ),
        h[18] is Nothing,
        asked(h, 19) == RequestView::Namespaces(
            NamespacesRequestView::GetById {
                id: expect::namespace(h, NAMESPACE_1).id,
                rows: SoftDeletedRows::AllRows,
            },
        ),
        asked(h, 20) == RequestView::Tables(
            TablesRequestView::GetById { id: expect::table(h, TABLE_1).id },
        ),
        h[20] is Table && h[20]->Table_0@ == expect::table(h, TABLE_1),
        asked(h, 21) == RequestView::Columns(
            ColumnsRequestView::ListByNamespaceId {
                namespace_id: expect::namespace(h, NAMESPACE_1).id,
            },
        ),
        h[21] is Columns && h[21]->Columns_0@.len() == 1,
        asked(h, 22) == RequestView::Columns(
            ColumnsRequestView::ListByTableId { table_id: expect::table(h, TABLE_1).id },
        ),
        h[22] is Columns && h[22]->Columns_0@.len() == 1,
        asked(h, 23) == RequestView::Partitions(
            PartitionsRequestView::GetByIdBatch { ids: seq![expect::partition(h, PARTITION_1).id] },
        ),
        h[23] is Partitions && h[23]->Partitions_0@.len() > 0,
{
    let s = ScenarioView::DeleteNamespace;
    assert(accepts(s, h.take(18)));
    assert(accepts(s, h.take(19)));
    assert(accepts(s, h.take(20)));
    assert(accepts(s, h.take(21)));
    assert(accepts(s, h.take(22)));
    assert(accepts(s, h.take(23)));
    assert(accepts(s, h.take(24)));
}

/// Answers like these are accepted.
pub proof fn law_what_the_deleted_namespace_holds_stays_which_is_enough(h: Seq<Reply>)
    requires
        h.len() > 23,
        h[17] is Id,
        h[18] is Nothing,
        h[20] is Table && h[20]->Table_0@ == expect::table(h, TABLE_1),
        h[21] is Columns && h[21]->Columns_0@.len() == 1,
        h[22] is Columns && h[22]->Columns_0@.len() == 1,
        h[23] is Partitions && h[23]->Partitions_0@.len() > 0,
    ensures
        accepts(ScenarioView::DeleteNamespace, h.take(18)),
        accepts(ScenarioView::DeleteNamespace, h.take(19)),
        accepts(ScenarioView::DeleteNamespace, h.take(21)),
        accepts(ScenarioView::DeleteNamespace, h.take(22)),
        accepts(ScenarioView::DeleteNamespace, h.take(23)),
        accepts(ScenarioView::DeleteNamespace, h.take(24)),
{
    assert(h.take(18).last() == h[17]);
    assert(h.take(19).last() == h[18]);
    assert(h.take(21).last() == h[20]);
    assert(h.take(22).last() == h[21]);
    assert(h.take(23).last() == h[22]);
    assert(h.take(24).last() == h[23]);
}

/// The other namespace is there with what it holds, and the files of both are as they were.
pub proof fn law_what_the_other_namespace_holds_stays(h: Seq<Reply>)
    requires
        passes(ScenarioView::DeleteNamespace, h),
    ensures
        asked(h, 24) == RequestView::Namespaces(
            NamespacesRequestView::GetById {
                id: expect::namespace(h, NAMESPACE_2).id,
                rows: SoftDeletedRows::ExcludeDeleted,
            },
        ),
        h[24] is Namespace,
        asked(h, 25) == RequestView::Tables(
            TablesRequestView::GetById { id: expect::table(h, TABLE_2).id },
        ),
        h[25] is Table,
        asked(h, 26) == RequestView::Columns(
            ColumnsRequestView::ListByNamespaceId {
                namespace_id: expect::namespace(h, NAMESPACE_2).id,
            },
        ),
        h[26] is Columns && h[26]->Columns_0@.len() == 1,
        asked(h, 27) == RequestView::Columns(
            ColumnsRequestView::ListByTableId { table_id: expect::table(h, TABLE_2).id },
        ),
        h[27] is Columns && h[27]->Columns_0@.len() == 1,
        asked(h, 28) == RequestView::Partitions(
            PartitionsRequestView::GetByIdBatch { ids: seq![expect::partition(h, PARTITION_2).id] },
        ),
        h[28] is Partitions && h[28]->Partitions_0@.len() > 0,
        asked(h, 29) == RequestView::ParquetFiles(
            ParquetFilesRequestView::GetByObjectStoreId {
                object_store_id: expect::params(h, PARAMS_1).object_store_id,
            },
        ),
        h[29] is File && h[29]->File_0@ == expect::file(h, FIRST_1),
        h[29]->File_0.object_store_id == expect::params(h, PARAMS_1).object_store_id,
        asked(h, 30) == RequestView::ParquetFiles(
            ParquetFilesRequestView::GetByObjectStoreId { object_store_id: expect::uuid(h, ID_1) },
        ),
        h[30] is File && h[30]->File_0@ == expect::file(h, SECOND_1),
        h[30]->File_0.object_store_id == expect::uuid(h, ID_1),
        asked(h, 31) == RequestView::ParquetFiles(
            ParquetFilesRequestView::GetByObjectStoreId {
                object_store_id: expect::params(h, PARAMS_2).object_store_id,
            },
        ),
        h[31] is File && h[31]->File_0@ == expect::file(h, FIRST_2),
        h[31]->File_0.object_store_id == expect::params(h, PARAMS_2).object_store_id,
        asked(h, 32) == RequestView::ParquetFiles(
            ParquetFilesRequestView::GetByObjectStoreId { object_store_id: expect::uuid(h, ID_2) },
        ),
        h[32] is File && h[32]->File_0@ == expect::file(h, SECOND_2),
        h[32]->File_0.object_store_id == expect::uuid(h, ID_2),
{
    let s = ScenarioView::DeleteNamespace;
    assert(accepts(s, h.take(25)));
    assert(accepts(s, h.take(26)));
    assert(accepts(s, h.take(27)));
    assert(accepts(s, h.take(28)));
    assert(accepts(s, h.take(29)));
    assert(accepts(s, h.take(30)));
    assert(accepts(s, h.take(31)));
    assert(accepts(s, h.take(32)));
    assert(accepts(s, h.take(33)));
}

/// Answers like these are accepted.
pub proof fn law_what_the_other_namespace_holds_stays_which_is_enough(h: Seq<Reply>)
    requires
        h.len() > 32,
        h[24] is Namespace,
        h[25] is Table,
        h[26] is Columns && h[26]->Columns_0@.len() == 1,
        h[27] is Columns && h[27]->Columns_0@.len() == 1,
        h[28] is Partitions && h[28]->Partitions_0@.len() > 0,
        h[29] is File && h[29]->File_0@ == expect::file(h, FIRST_1),
        h[29]->File_0.object_store_id == expect::params(h, PARAMS_1).object_store_id,
        h[30] is File && h[30]->File_0@ == expect::file(h, SECOND_1),
        h[30]->File_0.object_store_id == expect::uuid(h, ID_1),
        h[31] is File && h[31]->File_0@ == expect::file(h, FIRST_2),
        h[31]->File_0.object_store_id == expect::params(h, PARAMS_2).object_store_id,
        h[32] is File && h[32]->File_0@ == expect::file(h, SECOND_2),
        h[32]->File_0.object_store_id == expect::uuid(h, ID_2),
    ensures
        accepts(ScenarioView::DeleteNamespace, h.take(25)),
        accepts(ScenarioView::DeleteNamespace, h.take(26)),
        accepts(ScenarioView::DeleteNamespace, h.take(27)),
        accepts(ScenarioView::DeleteNamespace, h.take(28)),
        accepts(ScenarioView::DeleteNamespace, h.take(29)),
        accepts(ScenarioView::DeleteNamespace, h.take(30)),
        accepts(ScenarioView::DeleteNamespace, h.take(31)),
        accepts(ScenarioView::DeleteNamespace, h.take(32)),
        accepts(ScenarioView::DeleteNamespace, h.take(33)),
{
    assert(h.take(25).last() == h[24]);
    assert(h.take(26).last() == h[25]);
    assert(h.take(27).last() == h[26]);
    assert(h.take(28).last() == h[27]);
    assert(h.take(29).last() == h[28]);
    assert(h.take(30).last() == h[29]);
    assert(h.take(31).last() == h[30]);
    assert(h.take(32).last() == h[31]);
    assert(h.take(33).last() == h[32]);
}

/// The second file of a namespace is as the first one but for its id and its times.
pub proof fn law_parameters_of_second_files(h: Seq<Reply>)
    ensures
        second_params_1(h) == (
            ParquetFileParamsView {
                object_store_id: expect::uuid(h, ID_1),
                min_time: 200,
                max_time: 300,
                ..expect::params(h, PARAMS_1)
            }
        ),
        second_params_2(h) == (
            ParquetFileParamsView {
                object_store_id: expect::uuid(h, ID_2),
                min_time: 200,
                max_time: 300,
                ..expect::params(h, PARAMS_2)
            }
        ),
{
}

} // verus!
