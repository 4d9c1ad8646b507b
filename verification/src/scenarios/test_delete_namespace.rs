//! Deleting a namespace deletes neither what it holds nor any other namespace.
use crate::check;
use crate::expect;
use crate::reply::Reply;
use crate::request::{
    ColumnsRequest, ColumnsRequestView, HelperRequest, HelperRequestView, NamespacesRequest,
    NamespacesRequestView, ParquetFilesRequest, ParquetFilesRequestView, PartitionsRequest,
    PartitionsRequestView, Request, RequestView, ScenarioView, TablesRequest, TablesRequestView,
    ValueRequest, ValueRequestView,
};
use crate::run;
use crate::run::accepted;
use crate::types::{ColumnType, ParquetFileParams, ParquetFileParamsView, SoftDeletedRows};
use vstd::prelude::*;

verus! {

/// The step that gives the defaults.
pub const DEFAULTS: usize = 0;

/// The step that gives the namespace that is deleted.
pub const NAMESPACE_1: usize = 1;

/// The step that gives its table.
pub const TABLE_1: usize = 2;

/// The step that gives its partition.
pub const PARTITION_1: usize = 4;

/// The step that gives the parameters of its first file.
pub const PARAMS_1: usize = 5;

/// The step that gives its first file.
pub const FIRST_1: usize = 6;

/// The step that gives the id of its second file.
pub const ID_1: usize = 7;

/// The step that gives its second file.
pub const SECOND_1: usize = 8;

/// The step that gives the namespace that stays.
pub const NAMESPACE_2: usize = 9;

/// The step that gives its table.
pub const TABLE_2: usize = 10;

/// The step that gives its partition.
pub const PARTITION_2: usize = 12;

/// The step that gives the parameters of its first file.
pub const PARAMS_2: usize = 13;

/// The step that gives its first file.
pub const FIRST_2: usize = 14;

/// The step that gives the id of its second file.
pub const ID_2: usize = 15;

/// The step that gives its second file.
pub const SECOND_2: usize = 16;

/// How many requests there are.
pub const LENGTH: usize = 33;

/// The parameters of the second file of namespace 1.
pub open spec fn second_params_1(h: Seq<Reply>) -> ParquetFileParamsView {
    ParquetFileParamsView {
        object_store_id: expect::uuid(h, ID_1),
        min_time: 200,
        max_time: 300,
        ..expect::params(h, PARAMS_1)
    }
}

/// The parameters of the second file of namespace 2.
pub open spec fn second_params_2(h: Seq<Reply>) -> ParquetFileParamsView {
    ParquetFileParamsView {
        object_store_id: expect::uuid(h, ID_2),
        min_time: 200,
        max_time: 300,
        ..expect::params(h, PARAMS_2)
    }
}

/// What is asked for when the replies so far are `h`.
pub open spec fn request(h: Seq<Reply>) -> RequestView {
    let n = h.len();
    if n == DEFAULTS {
        // the defaults
        RequestView::Value(ValueRequestView::Defaults)
    } else if n == NAMESPACE_1 {
        // the namespace that is deleted
        RequestView::Helper(
            HelperRequestView::ArbitraryNamespace { name: "namespace_test_delete_namespace_1"@ },
        )
    } else if n == TABLE_1 {
        // its table
        RequestView::Helper(
            HelperRequestView::ArbitraryTable {
                name: "test_table_1"@,
                namespace: expect::namespace(h, NAMESPACE_1),
            },
        )
    } else if n == 3 {
        // its column
        RequestView::Columns(
            ColumnsRequestView::CreateOrGet {
                name: "column_test_1"@,
                table_id: expect::table(h, TABLE_1).id,
                column_type: ColumnType::Tag,
            },
        )
    } else if n == PARTITION_1 {
        // its partition
        RequestView::Partitions(
            PartitionsRequestView::CreateOrGet {
                key: "test_delete_namespace_one"@,
                table_id: expect::table(h, TABLE_1).id,
            },
        )
    } else if n == PARAMS_1 {
        // the parameters of its first file
        RequestView::Helper(
            HelperRequestView::ArbitraryParquetFileParams {
                namespace: expect::namespace(h, NAMESPACE_1),
                table: expect::table(h, TABLE_1),
                partition: expect::partition(h, PARTITION_1),
            },
        )
    } else if n == FIRST_1 {
        // its first file
        RequestView::ParquetFiles(
            ParquetFilesRequestView::Create { params: expect::params(h, PARAMS_1) },
        )
    } else if n == ID_1 {
        // the id of its second file
        RequestView::Value(ValueRequestView::NewObjectStoreIds { count: 1 })
    } else if n == SECOND_1 {
        // its second file
        RequestView::ParquetFiles(ParquetFilesRequestView::Create { params: second_params_1(h) })
    } else if n == NAMESPACE_2 {
        // the namespace that stays
        RequestView::Helper(
            HelperRequestView::ArbitraryNamespace { name: "namespace_test_delete_namespace_2"@ },
        )
    } else if n == TABLE_2 {
        // its table
        RequestView::Helper(
            HelperRequestView::ArbitraryTable {
                name: "test_table_2"@,
                namespace: expect::namespace(h, NAMESPACE_2),
            },
        )
    } else if n == 11 {
        // its column
        RequestView::Columns(
            ColumnsRequestView::CreateOrGet {
                name: "column_test_2"@,
                table_id: expect::table(h, TABLE_2).id,
                column_type: ColumnType::Tag,
            },
        )
    } else if n == PARTITION_2 {
        // its partition
        RequestView::Partitions(
            PartitionsRequestView::CreateOrGet {
                key: "test_delete_namespace_two"@,
                table_id: expect::table(h, TABLE_2).id,
            },
        )
    } else if n == PARAMS_2 {
        // the parameters of its first file
        RequestView::Helper(
            HelperRequestView::ArbitraryParquetFileParams {
                namespace: expect::namespace(h, NAMESPACE_2),
                table: expect::table(h, TABLE_2),
                partition: expect::partition(h, PARTITION_2),
            },
        )
    } else if n == FIRST_2 {
        // its first file
        RequestView::ParquetFiles(
            ParquetFilesRequestView::Create { params: expect::params(h, PARAMS_2) },
        )
    } else if n == ID_2 {
        // the id of its second file
        RequestView::Value(ValueRequestView::NewObjectStoreIds { count: 1 })
    } else if n == SECOND_2 {
        // its second file
        RequestView::ParquetFiles(ParquetFilesRequestView::Create { params: second_params_2(h) })
    } else if n == 17 {
        // the first namespace is deleted
        RequestView::Namespaces(
            NamespacesRequestView::SoftDelete { id: expect::namespace(h, NAMESPACE_1).id },
        )
    } else if n == 18 {
        // it is not seen any more
        RequestView::Namespaces(
            NamespacesRequestView::GetById {
                id: expect::namespace(h, NAMESPACE_1).id,
                rows: SoftDeletedRows::ExcludeDeleted,
            },
        )
    } else if n == 19 {
        // but it is there, the same but for its deletion and its version
        RequestView::Namespaces(
            NamespacesRequestView::GetById {
                id: expect::namespace(h, NAMESPACE_1).id,
                rows: SoftDeletedRows::AllRows,
            },
        )
    } else if n == 20 {
        // so is what it holds
        RequestView::Tables(TablesRequestView::GetById { id: expect::table(h, TABLE_1).id })
    } else if n == 21 {
        RequestView::Columns(
            ColumnsRequestView::ListByNamespaceId {
                namespace_id: expect::namespace(h, NAMESPACE_1).id,
            },
        )
    } else if n == 22 {
        RequestView::Columns(
            ColumnsRequestView::ListByTableId { table_id: expect::table(h, TABLE_1).id },
        )
    } else if n == 23 {
        RequestView::Partitions(
            PartitionsRequestView::GetByIdBatch { ids: seq![expect::partition(h, PARTITION_1).id] },
        )
    } else if n == 24 {
        // the other namespace is there, and what it holds
        RequestView::Namespaces(
            NamespacesRequestView::GetById {
                id: expect::namespace(h, NAMESPACE_2).id,
                rows: SoftDeletedRows::ExcludeDeleted,
            },
        )
    } else if n == 25 {
        RequestView::Tables(TablesRequestView::GetById { id: expect::table(h, TABLE_2).id })
    } else if n == 26 {
        RequestView::Columns(
            ColumnsRequestView::ListByNamespaceId {
                namespace_id: expect::namespace(h, NAMESPACE_2).id,
            },
        )
    } else if n == 27 {
        RequestView::Columns(
            ColumnsRequestView::ListByTableId { table_id: expect::table(h, TABLE_2).id },
        )
    } else if n == 28 {
        RequestView::Partitions(
            PartitionsRequestView::GetByIdBatch { ids: seq![expect::partition(h, PARTITION_2).id] },
        )
    } else if n == 29 {
        // the files of both are there, as they were
        RequestView::ParquetFiles(
            ParquetFilesRequestView::GetByObjectStoreId {
                object_store_id: expect::params(h, PARAMS_1).object_store_id,
            },
        )
    } else if n == 30 {
        RequestView::ParquetFiles(
            ParquetFilesRequestView::GetByObjectStoreId { object_store_id: expect::uuid(h, ID_1) },
        )
    } else if n == 31 {
        RequestView::ParquetFiles(
            ParquetFilesRequestView::GetByObjectStoreId {
                object_store_id: expect::params(h, PARAMS_2).object_store_id,
            },
        )
    } else {
        RequestView::ParquetFiles(
            ParquetFilesRequestView::GetByObjectStoreId { object_store_id: expect::uuid(h, ID_2) },
        )
    }
}

/// The last of the replies `h` is as it has to be, where the ones before it were.
pub open spec fn accepts(h: Seq<Reply>) -> bool {
    let n = h.len() - 1;
    if n == DEFAULTS {
        expect::got_defaults(h)
    } else if n == NAMESPACE_1 {
        expect::got_namespace(h)
    } else if n == TABLE_1 {
        expect::got_table(h)
    } else if n == 3 {
        expect::got_column(h)
    } else if n == PARTITION_1 {
        expect::got_partition(h)
    } else if n == PARAMS_1 {
        expect::got_params(h)
    } else if n == FIRST_1 {
        expect::got_file(h)
    } else if n == ID_1 {
        expect::got_uuid(h)
    } else if n == SECOND_1 {
        expect::got_file(h)
    } else if n == NAMESPACE_2 {
        expect::got_namespace(h)
    } else if n == TABLE_2 {
        expect::got_table(h)
    } else if n == 11 {
        expect::got_column(h)
    } else if n == PARTITION_2 {
        expect::got_partition(h)
    } else if n == PARAMS_2 {
        expect::got_params(h)
    } else if n == FIRST_2 {
        expect::got_file(h)
    } else if n == ID_2 {
        expect::got_uuid(h)
    } else if n == SECOND_2 {
        expect::got_file(h)
    } else if n == 17 {
        expect::got_id(h)
    } else if n == 18 {
        expect::nothing(h)
    } else if n == 19 {
        expect::same_but_deleted(h, NAMESPACE_1, DEFAULTS)
    } else if n == 20 {
        expect::same_table(h, TABLE_1)
    } else if n == 21 {
        expect::column_count(h, 1)
    } else if n == 22 {
        expect::column_count(h, 1)
    } else if n == 23 {
        expect::some_partition(h)
    } else if n == 24 {
        expect::got_namespace(h)
    } else if n == 25 {
        expect::got_table(h)
    } else if n == 26 {
        expect::column_count(h, 1)
    } else if n == 27 {
        expect::column_count(h, 1)
    } else if n == 28 {
        expect::some_partition(h)
    } else if n == 29 {
        expect::same_file(h, FIRST_1) && expect::file_has_id(
            h,
            expect::params(h, PARAMS_1).object_store_id,
        )
    } else if n == 30 {
        expect::same_file(h, SECOND_1) && expect::file_has_id(h, expect::uuid(h, ID_1))
    } else if n == 31 {
        expect::same_file(h, FIRST_2) && expect::file_has_id(
            h,
            expect::params(h, PARAMS_2).object_store_id,
        )
    } else if n == 32 {
        expect::same_file(h, SECOND_2) && expect::file_has_id(h, expect::uuid(h, ID_2))
    } else {
        false
    }
}

/// With the replies `h` everything has been asked for.
pub open spec fn finished(h: Seq<Reply>) -> bool {
    h.len() >= LENGTH
}

/// What is known of the first `m` replies once they have been accepted.
pub proof fn lemma_known(h: Seq<Reply>, m: int)
    requires
        0 <= m <= h.len(),
        accepted(ScenarioView::DeleteNamespace, h, m),
    ensures
        m > DEFAULTS ==> expect::is_defaults(h, DEFAULTS),
        m > NAMESPACE_1 ==> expect::is_namespace(h, NAMESPACE_1),
        m > TABLE_1 ==> expect::is_table(h, TABLE_1),
        m > PARTITION_1 ==> expect::is_partition(h, PARTITION_1),
        m > PARAMS_1 ==> expect::is_params(h, PARAMS_1),
        m > FIRST_1 ==> expect::is_file(h, FIRST_1),
        m > ID_1 ==> expect::is_uuid(h, ID_1),
        m > SECOND_1 ==> expect::is_file(h, SECOND_1),
        m > NAMESPACE_2 ==> expect::is_namespace(h, NAMESPACE_2),
        m > TABLE_2 ==> expect::is_table(h, TABLE_2),
        m > PARTITION_2 ==> expect::is_partition(h, PARTITION_2),
        m > PARAMS_2 ==> expect::is_params(h, PARAMS_2),
        m > FIRST_2 ==> expect::is_file(h, FIRST_2),
        m > ID_2 ==> expect::is_uuid(h, ID_2),
        m > SECOND_2 ==> expect::is_file(h, SECOND_2),
{
    let s = ScenarioView::DeleteNamespace;
    if m > DEFAULTS {
        assert(run::accepts(s, h.take(DEFAULTS + 1)));
    }
    if m > NAMESPACE_1 {
        assert(run::accepts(s, h.take(NAMESPACE_1 + 1)));
    }
    if m > TABLE_1 {
        assert(run::accepts(s, h.take(TABLE_1 + 1)));
    }
    if m > PARTITION_1 {
        assert(run::accepts(s, h.take(PARTITION_1 + 1)));
    }
    if m > PARAMS_1 {
        assert(run::accepts(s, h.take(PARAMS_1 + 1)));
    }
    if m > FIRST_1 {
        assert(run::accepts(s, h.take(FIRST_1 + 1)));
    }
    if m > ID_1 {
        assert(run::accepts(s, h.take(ID_1 + 1)));
    }
    if m > SECOND_1 {
        assert(run::accepts(s, h.take(SECOND_1 + 1)));
    }
    if m > NAMESPACE_2 {
        assert(run::accepts(s, h.take(NAMESPACE_2 + 1)));
    }
    if m > TABLE_2 {
        assert(run::accepts(s, h.take(TABLE_2 + 1)));
    }
    if m > PARTITION_2 {
        assert(run::accepts(s, h.take(PARTITION_2 + 1)));
    }
    if m > PARAMS_2 {
        assert(run::accepts(s, h.take(PARAMS_2 + 1)));
    }
    if m > FIRST_2 {
        assert(run::accepts(s, h.take(FIRST_2 + 1)));
    }
    if m > ID_2 {
        assert(run::accepts(s, h.take(ID_2 + 1)));
    }
    if m > SECOND_2 {
        assert(run::accepts(s, h.take(SECOND_2 + 1)));
    }
}

/// The parameters of the second file of namespace 1.
fn do_second_params_1(h: &Vec<Reply>) -> (r: ParquetFileParams)
    requires
        expect::is_params(h@, PARAMS_1),
        expect::is_uuid(h@, ID_1),
    ensures
        r@ == second_params_1(h@),
{
    let mut p: ParquetFileParams = check::params(h, PARAMS_1).copy();
    p.object_store_id = check::uuid(h, ID_1);
    p.min_time = 200;
    p.max_time = 300;
    p
}

/// The parameters of the second file of namespace 2.
fn do_second_params_2(h: &Vec<Reply>) -> (r: ParquetFileParams)
    requires
        expect::is_params(h@, PARAMS_2),
        expect::is_uuid(h@, ID_2),
    ensures
        r@ == second_params_2(h@),
{
    let mut p: ParquetFileParams = check::params(h, PARAMS_2).copy();
    p.object_store_id = check::uuid(h, ID_2);
    p.min_time = 200;
    p.max_time = 300;
    p
}

/// What is asked for when the replies so far are `h`.
pub fn next_request<'a>(h: &'a Vec<Reply>) -> (r: Request<'a>)
    requires
        accepted(ScenarioView::DeleteNamespace, h@, h@.len() as int),
        !finished(h@),
    ensures
        r@ =~~= request(h@),
{
    let n: usize = h.len();
    proof {
        lemma_known(h@, n as int);
    }
    if n == DEFAULTS {
        Request::Value(ValueRequest::Defaults)
    } else if n == NAMESPACE_1 {
        Request::Helper(
            HelperRequest::ArbitraryNamespace { name: "namespace_test_delete_namespace_1" },
        )
    } else if n == TABLE_1 {
        Request::Helper(
            HelperRequest::ArbitraryTable {
                name: "test_table_1",
                namespace: check::namespace(h, NAMESPACE_1),
            },
        )
    } else if n == 3 {
        Request::Columns(
            ColumnsRequest::CreateOrGet {
                name: "column_test_1",
                table_id: check::table(h, TABLE_1).id,
                column_type: ColumnType::Tag,
            },
        )
    } else if n == PARTITION_1 {
        Request::Partitions(
            PartitionsRequest::CreateOrGet {
                key: "test_delete_namespace_one",
                table_id: check::table(h, TABLE_1).id,
            },
        )
    } else if n == PARAMS_1 {
        Request::Helper(
            HelperRequest::ArbitraryParquetFileParams {
                namespace: check::namespace(h, NAMESPACE_1),
                table: check::table(h, TABLE_1),
                partition: check::partition(h, PARTITION_1),
            },
        )
    } else if n == FIRST_1 {
        Request::ParquetFiles(
            ParquetFilesRequest::Create { params: check::params(h, PARAMS_1).copy() },
        )
    } else if n == ID_1 {
        Request::Value(ValueRequest::NewObjectStoreIds { count: 1 })
    } else if n == SECOND_1 {
        Request::ParquetFiles(ParquetFilesRequest::Create { params: do_second_params_1(h) })
    } else if n == NAMESPACE_2 {
        Request::Helper(
            HelperRequest::ArbitraryNamespace { name: "namespace_test_delete_namespace_2" },
        )
    } else if n == TABLE_2 {
        Request::Helper(
            HelperRequest::ArbitraryTable {
                name: "test_table_2",
                namespace: check::namespace(h, NAMESPACE_2),
            },
        )
    } else if n == 11 {
        Request::Columns(
            ColumnsRequest::CreateOrGet {
                name: "column_test_2",
                table_id: check::table(h, TABLE_2).id,
                column_type: ColumnType::Tag,
            },
        )
    } else if n == PARTITION_2 {
        Request::Partitions(
            PartitionsRequest::CreateOrGet {
                key: "test_delete_namespace_two",
                table_id: check::table(h, TABLE_2).id,
            },
        )
    } else if n == PARAMS_2 {
        Request::Helper(
            HelperRequest::ArbitraryParquetFileParams {
                namespace: check::namespace(h, NAMESPACE_2),
                table: check::table(h, TABLE_2),
                partition: check::partition(h, PARTITION_2),
            },
        )
    } else if n == FIRST_2 {
        Request::ParquetFiles(
            ParquetFilesRequest::Create { params: check::params(h, PARAMS_2).copy() },
        )
    } else if n == ID_2 {
        Request::Value(ValueRequest::NewObjectStoreIds { count: 1 })
    } else if n == SECOND_2 {
        Request::ParquetFiles(ParquetFilesRequest::Create { params: do_second_params_2(h) })
    } else if n == 17 {
        Request::Namespaces(
            NamespacesRequest::SoftDelete { id: check::namespace(h, NAMESPACE_1).id },
        )
    } else if n == 18 {
        Request::Namespaces(
            NamespacesRequest::GetById {
                id: check::namespace(h, NAMESPACE_1).id,
                rows: SoftDeletedRows::ExcludeDeleted,
            },
        )
    } else if n == 19 {
        Request::Namespaces(
            NamespacesRequest::GetById {
                id: check::namespace(h, NAMESPACE_1).id,
                rows: SoftDeletedRows::AllRows,
            },
        )
    } else if n == 20 {
        Request::Tables(TablesRequest::GetById { id: check::table(h, TABLE_1).id })
    } else if n == 21 {
        Request::Columns(
            ColumnsRequest::ListByNamespaceId { namespace_id: check::namespace(h, NAMESPACE_1).id },
        )
    } else if n == 22 {
        Request::Columns(ColumnsRequest::ListByTableId { table_id: check::table(h, TABLE_1).id })
    } else if n == 23 {
        Request::Partitions(
            PartitionsRequest::GetByIdBatch { ids: vec![check::partition(h, PARTITION_1).id] },
        )
    } else if n == 24 {
        Request::Namespaces(
            NamespacesRequest::GetById {
                id: check::namespace(h, NAMESPACE_2).id,
                rows: SoftDeletedRows::ExcludeDeleted,
            },
        )
    } else if n == 25 {
        Request::Tables(TablesRequest::GetById { id: check::table(h, TABLE_2).id })
    } else if n == 26 {
        Request::Columns(
            ColumnsRequest::ListByNamespaceId { namespace_id: check::namespace(h, NAMESPACE_2).id },
        )
    } else if n == 27 {
        Request::Columns(ColumnsRequest::ListByTableId { table_id: check::table(h, TABLE_2).id })
    } else if n == 28 {
        Request::Partitions(
            PartitionsRequest::GetByIdBatch { ids: vec![check::partition(h, PARTITION_2).id] },
        )
    } else if n == 29 {
        Request::ParquetFiles(
            ParquetFilesRequest::GetByObjectStoreId {
                object_store_id: check::params(h, PARAMS_1).object_store_id,
            },
        )
    } else if n == 30 {
        Request::ParquetFiles(
            ParquetFilesRequest::GetByObjectStoreId { object_store_id: check::uuid(h, ID_1) },
        )
    } else if n == 31 {
        Request::ParquetFiles(
            ParquetFilesRequest::GetByObjectStoreId {
                object_store_id: check::params(h, PARAMS_2).object_store_id,
            },
        )
    } else {
        Request::ParquetFiles(
            ParquetFilesRequest::GetByObjectStoreId { object_store_id: check::uuid(h, ID_2) },
        )
    }
}

/// Whether the last of the replies `h` is as it has to be.
pub fn accepts_last(h: &Vec<Reply>) -> (b: bool)
    requires
        h.len() > 0,
        accepted(ScenarioView::DeleteNamespace, h@, h@.len() - 1),
        !finished(h@.drop_last()),
    ensures
        b == accepts(h@),
{
    let n: usize = h.len() - 1;
    proof {
        lemma_known(h@, n as int);
    }
    if n == DEFAULTS {
        check::got_defaults(h)
    } else if n == NAMESPACE_1 {
        check::got_namespace(h)
    } else if n == TABLE_1 {
        check::got_table(h)
    } else if n == 3 {
        check::got_column(h)
    } else if n == PARTITION_1 {
        check::got_partition(h)
    } else if n == PARAMS_1 {
        check::got_params(h)
    } else if n == FIRST_1 {
        check::got_file(h)
    } else if n == ID_1 {
        check::got_uuid(h)
    } else if n == SECOND_1 {
        check::got_file(h)
    } else if n == NAMESPACE_2 {
        check::got_namespace(h)
    } else if n == TABLE_2 {
        check::got_table(h)
    } else if n == 11 {
        check::got_column(h)
    } else if n == PARTITION_2 {
        check::got_partition(h)
    } else if n == PARAMS_2 {
        check::got_params(h)
    } else if n == FIRST_2 {
        check::got_file(h)
    } else if n == ID_2 {
        check::got_uuid(h)
    } else if n == SECOND_2 {
        check::got_file(h)
    } else if n == 17 {
        check::got_id(h)
    } else if n == 18 {
        check::nothing(h)
    } else if n == 19 {
        check::same_but_deleted(h, NAMESPACE_1, DEFAULTS)
    } else if n == 20 {
        check::same_table(h, TABLE_1)
    } else if n == 21 {
        check::column_count(h, 1)
    } else if n == 22 {
        check::column_count(h, 1)
    } else if n == 23 {
        check::some_partition(h)
    } else if n == 24 {
        check::got_namespace(h)
    } else if n == 25 {
        check::got_table(h)
    } else if n == 26 {
        check::column_count(h, 1)
    } else if n == 27 {
        check::column_count(h, 1)
    } else if n == 28 {
        check::some_partition(h)
    } else if n == 29 {
        check::same_file(h, FIRST_1) && check::file_has_id(
            h,
            check::params(h, PARAMS_1).object_store_id,
        )
    } else if n == 30 {
        check::same_file(h, SECOND_1) && check::file_has_id(h, check::uuid(h, ID_1))
    } else if n == 31 {
        check::same_file(h, FIRST_2) && check::file_has_id(
            h,
            check::params(h, PARAMS_2).object_store_id,
        )
    } else if n == 32 {
        check::same_file(h, SECOND_2) && check::file_has_id(h, check::uuid(h, ID_2))
    } else {
        false
    }
}

/// Whether everything has been asked for.
pub fn is_finished(h: &Vec<Reply>) -> (b: bool)
    ensures
        b == finished(h@),
{
    h.len() >= LENGTH
}

} // verus!
