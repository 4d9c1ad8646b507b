//! The files of a partition are listed, but for those that are marked for deletion.
use crate::check;
use crate::expect;
use crate::reply::Reply;
use crate::request::{
    HelperRequest, HelperRequestView, ParquetFilesRequest, ParquetFilesRequestView,
    PartitionsRequest, PartitionsRequestView, Request, RequestView, ScenarioView, ValueRequest,
    ValueRequestView,
};
use crate::run;
use crate::run::accepted;
use crate::types::{copy_hash, CompactionLevel, ParquetFileParams, ParquetFileParamsView};
use vstd::prelude::*;

verus! {

/// The step that gives the namespace.
pub const NAMESPACE: usize = 0;

/// The step that gives the table.
pub const TABLE: usize = 1;

/// The step that gives the partition.
pub const PARTITION: usize = 2;

/// The step that gives another partition.
pub const PARTITION_2: usize = 3;

/// The step that gives the parameters of a file.
pub const PARAMS: usize = 4;

/// The step that gives the id of a file that is marked for deletion.
pub const MARKED_ID: usize = 6;

/// The step that gives the id of a file that is raised to the second level.
pub const LEVEL_1_ID: usize = 9;

/// The step that gives the id of a file of the other partition.
pub const OTHER_ID: usize = 12;

/// How many requests there are.
pub const LENGTH: usize = 16;

/// The parameters of the file that is marked for deletion.
pub open spec fn marked_params(h: Seq<Reply>) -> ParquetFileParamsView {
    ParquetFileParamsView {
        object_store_id: expect::uuid(h, MARKED_ID),
        ..expect::params(h, PARAMS)
    }
}

/// The parameters of the file that is raised to the second level.
pub open spec fn level_1_params(h: Seq<Reply>) -> ParquetFileParamsView {
    ParquetFileParamsView {
        object_store_id: expect::uuid(h, LEVEL_1_ID),
        ..expect::params(h, PARAMS)
    }
}

/// The parameters of the file of the other partition.
pub open spec fn other_params(h: Seq<Reply>) -> ParquetFileParamsView {
    ParquetFileParamsView {
        partition_id: expect::partition(h, PARTITION_2).id,
        partition_hash_id: expect::partition(h, PARTITION_2).hash_id,
        object_store_id: expect::uuid(h, OTHER_ID),
        ..expect::params(h, PARAMS)
    }
}

/// What is asked for when the replies so far are `h`.
pub open spec fn request(h: Seq<Reply>) -> RequestView {
    let n = h.len();
    if n == NAMESPACE {
        // the namespace
        RequestView::Helper(
            HelperRequestView::ArbitraryNamespace {
                name: "namespace_parquet_file_test_list_by_partiton_not_to_delete"@,
            },
        )
    } else if n == TABLE {
        // the table
        RequestView::Helper(
            HelperRequestView::ArbitraryTable {
                name: "test_table"@,
                namespace: expect::namespace(h, NAMESPACE),
            },
        )
    } else if n == PARTITION {
        // the partition
        RequestView::Partitions(
            PartitionsRequestView::CreateOrGet {
                key: "test_list_by_partiton_not_to_delete_one"@,
                table_id: expect::table(h, TABLE).id,
            },
        )
    } else if n == PARTITION_2 {
        // another partition
        RequestView::Partitions(
            PartitionsRequestView::CreateOrGet {
                key: "test_list_by_partiton_not_to_delete_two"@,
                table_id: expect::table(h, TABLE).id,
            },
        )
    } else if n == PARAMS {
        // the parameters of a file
        RequestView::Helper(
            HelperRequestView::ArbitraryParquetFileParams {
                namespace: expect::namespace(h, NAMESPACE),
                table: expect::table(h, TABLE),
                partition: expect::partition(h, PARTITION),
            },
        )
    } else if n == 5 {
        RequestView::ParquetFiles(
            ParquetFilesRequestView::Create { params: expect::params(h, PARAMS) },
        )
    } else if n == MARKED_ID {
        // the id of a file that is marked for deletion
        RequestView::Value(ValueRequestView::NewObjectStoreIds { count: 1 })
    } else if n == 7 {
        RequestView::ParquetFiles(ParquetFilesRequestView::Create { params: marked_params(h) })
    } else if n == 8 {
        RequestView::ParquetFiles(
            ParquetFilesRequestView::CreateUpgradeDelete {
                partition_id: expect::partition(h, PARTITION).id,
                delete: seq![expect::uuid(h, MARKED_ID)],
                upgrade: Seq::empty(),
                create: Seq::empty(),
                target_level: CompactionLevel::Initial,
            },
        )
    } else if n == LEVEL_1_ID {
        // the id of a file that is raised to the second level
        RequestView::Value(ValueRequestView::NewObjectStoreIds { count: 1 })
    } else if n == 10 {
        RequestView::ParquetFiles(ParquetFilesRequestView::Create { params: level_1_params(h) })
    } else if n == 11 {
        RequestView::ParquetFiles(
            ParquetFilesRequestView::CreateUpgradeDelete {
                partition_id: expect::partition(h, PARTITION).id,
                delete: Seq::empty(),
                upgrade: seq![expect::uuid(h, LEVEL_1_ID)],
                create: Seq::empty(),
                target_level: CompactionLevel::FileNonOverlapped,
            },
        )
    } else if n == OTHER_ID {
        // the id of a file of the other partition
        RequestView::Value(ValueRequestView::NewObjectStoreIds { count: 1 })
    } else if n == 13 {
        RequestView::ParquetFiles(ParquetFilesRequestView::Create { params: other_params(h) })
    } else if n == 14 {
        // the files that are left
        RequestView::ParquetFiles(
            ParquetFilesRequestView::ListByPartitionNotToDeleteBatch {
                partition_ids: seq![expect::partition(h, PARTITION).id],
            },
        )
    } else {
        // the files that are left
        RequestView::ParquetFiles(
            ParquetFilesRequestView::ListByPartitionNotToDeleteBatch {
                partition_ids: seq![expect::partition(h, PARTITION).id],
            },
        )
    }
}

/// The last of the replies `h` is as it has to be, where the ones before it were.
pub open spec fn accepts(h: Seq<Reply>) -> bool {
    let n = h.len() - 1;
    if n == NAMESPACE {
        expect::got_namespace(h)
    } else if n == TABLE {
        expect::got_table(h)
    } else if n == PARTITION {
        expect::got_partition(h)
    } else if n == PARTITION_2 {
        expect::got_partition(h)
    } else if n == PARAMS {
        expect::got_params(h)
    } else if n == 5 {
        expect::got_file(h)
    } else if n == MARKED_ID {
        expect::got_uuid(h)
    } else if n == 7 {
        expect::got_file(h)
    } else if n == 8 {
        expect::got_ids(h)
    } else if n == LEVEL_1_ID {
        expect::got_uuid(h)
    } else if n == 10 {
        expect::got_file(h)
    } else if n == 11 {
        expect::got_ids(h)
    } else if n == OTHER_ID {
        expect::got_uuid(h)
    } else if n == 13 {
        expect::got_file(h)
    } else if n == 14 {
        expect::file_ids_are(
            h,
            expect::params(h, PARAMS).object_store_id,
            expect::uuid(h, LEVEL_1_ID),
        )
    } else if n == 15 {
        expect::file_ids_are(
            h,
            expect::params(h, PARAMS).object_store_id,
            expect::uuid(h, LEVEL_1_ID),
        )
    } else {
        false
    }
}

/// With the replies `h` everything has been asked for.
pub open spec fn finished(h: Seq<Reply>) -> bool {
    h.len() >= LENGTH
}

/// What is known of the first `m` replies once they have been accepted.
pub proof fn lemma_known(h: Seq<Reply>, m: int)
    requires
        0 <= m <= h.len(),
        accepted(ScenarioView::ListByPartitionNotToDelete, h, m),
    ensures
        m > NAMESPACE ==> expect::is_namespace(h, NAMESPACE),
        m > TABLE ==> expect::is_table(h, TABLE),
        m > PARTITION ==> expect::is_partition(h, PARTITION),
        m > PARTITION_2 ==> expect::is_partition(h, PARTITION_2),
        m > PARAMS ==> expect::is_params(h, PARAMS),
        m > MARKED_ID ==> expect::is_uuid(h, MARKED_ID),
        m > LEVEL_1_ID ==> expect::is_uuid(h, LEVEL_1_ID),
        m > OTHER_ID ==> expect::is_uuid(h, OTHER_ID),
{
    let s = ScenarioView::ListByPartitionNotToDelete;
    if m > NAMESPACE {
        assert(run::accepts(s, h.take(NAMESPACE + 1)));
    }
    if m > TABLE {
        assert(run::accepts(s, h.take(TABLE + 1)));
    }
    if m > PARTITION {
        assert(run::accepts(s, h.take(PARTITION + 1)));
    }
    if m > PARTITION_2 {
        assert(run::accepts(s, h.take(PARTITION_2 + 1)));
    }
    if m > PARAMS {
        assert(run::accepts(s, h.take(PARAMS + 1)));
    }
    if m > MARKED_ID {
        assert(run::accepts(s, h.take(MARKED_ID + 1)));
    }
    if m > LEVEL_1_ID {
        assert(run::accepts(s, h.take(LEVEL_1_ID + 1)));
    }
    if m > OTHER_ID {
        assert(run::accepts(s, h.take(OTHER_ID + 1)));
    }
}

/// The parameters of the file that is marked for deletion.
fn do_marked_params(h: &Vec<Reply>) -> (r: ParquetFileParams)
    requires
        expect::is_params(h@, PARAMS),
        expect::is_uuid(h@, MARKED_ID),
    ensures
        r@ == marked_params(h@),
{
    let mut p: ParquetFileParams = check::params(h, PARAMS).copy();
    p.object_store_id = check::uuid(h, MARKED_ID);
    p
}

/// The parameters of the file that is raised to the second level.
fn do_level_1_params(h: &Vec<Reply>) -> (r: ParquetFileParams)
    requires
        expect::is_params(h@, PARAMS),
        expect::is_uuid(h@, LEVEL_1_ID),
    ensures
        r@ == level_1_params(h@),
{
    let mut p: ParquetFileParams = check::params(h, PARAMS).copy();
    p.object_store_id = check::uuid(h, LEVEL_1_ID);
    p
}

/// The parameters of the file of the other partition.
fn do_other_params(h: &Vec<Reply>) -> (r: ParquetFileParams)
    requires
        expect::is_params(h@, PARAMS),
        expect::is_partition(h@, PARTITION_2),
        expect::is_uuid(h@, OTHER_ID),
    ensures
        r@ == other_params(h@),
{
    let mut p: ParquetFileParams = check::params(h, PARAMS).copy();
    p.partition_id = check::partition(h, PARTITION_2).id;
    p.partition_hash_id = copy_hash(&check::partition(h, PARTITION_2).hash_id);
    p.object_store_id = check::uuid(h, OTHER_ID);
    p
}

/// What is asked for when the replies so far are `h`.
pub fn next_request<'a>(h: &'a Vec<Reply>) -> (r: Request<'a>)
    requires
        accepted(ScenarioView::ListByPartitionNotToDelete, h@, h@.len() as int),
        !finished(h@),
    ensures
        r@ =~~= request(h@),
{
    let n: usize = h.len();
    proof {
        lemma_known(h@, n as int);
    }
    if n == NAMESPACE {
        Request::Helper(
            HelperRequest::ArbitraryNamespace {
                name: "namespace_parquet_file_test_list_by_partiton_not_to_delete",
            },
        )
    } else if n == TABLE {
        Request::Helper(
            HelperRequest::ArbitraryTable {
                name: "test_table",
                namespace: check::namespace(h, NAMESPACE),
            },
        )
    } else if n == PARTITION {
        Request::Partitions(
            PartitionsRequest::CreateOrGet {
                key: "test_list_by_partiton_not_to_delete_one",
                table_id: check::table(h, TABLE).id,
            },
        )
    } else if n == PARTITION_2 {
        Request::Partitions(
            PartitionsRequest::CreateOrGet {
                key: "test_list_by_partiton_not_to_delete_two",
                table_id: check::table(h, TABLE).id,
            },
        )
    } else if n == PARAMS {
        Request::Helper(
            HelperRequest::ArbitraryParquetFileParams {
                namespace: check::namespace(h, NAMESPACE),
                table: check::table(h, TABLE),
                partition: check::partition(h, PARTITION),
            },
        )
    } else if n == 5 {
        Request::ParquetFiles(
            ParquetFilesRequest::Create { params: check::params(h, PARAMS).copy() },
        )
    } else if n == MARKED_ID {
        Request::Value(ValueRequest::NewObjectStoreIds { count: 1 })
    } else if n == 7 {
        Request::ParquetFiles(ParquetFilesRequest::Create { params: do_marked_params(h) })
    } else if n == 8 {
        Request::ParquetFiles(
            ParquetFilesRequest::CreateUpgradeDelete {
                partition_id: check::partition(h, PARTITION).id,
                delete: vec![check::uuid(h, MARKED_ID)],
                upgrade: Vec::new(),
                create: Vec::new(),
                target_level: CompactionLevel::Initial,
            },
        )
    } else if n == LEVEL_1_ID {
        Request::Value(ValueRequest::NewObjectStoreIds { count: 1 })
    } else if n == 10 {
        Request::ParquetFiles(ParquetFilesRequest::Create { params: do_level_1_params(h) })
    } else if n == 11 {
        Request::ParquetFiles(
            ParquetFilesRequest::CreateUpgradeDelete {
                partition_id: check::partition(h, PARTITION).id,
                delete: Vec::new(),
                upgrade: vec![check::uuid(h, LEVEL_1_ID)],
                create: Vec::new(),
                target_level: CompactionLevel::FileNonOverlapped,
            },
        )
    } else if n == OTHER_ID {
        Request::Value(ValueRequest::NewObjectStoreIds { count: 1 })
    } else if n == 13 {
        Request::ParquetFiles(ParquetFilesRequest::Create { params: do_other_params(h) })
    } else if n == 14 {
        Request::ParquetFiles(
            ParquetFilesRequest::ListByPartitionNotToDeleteBatch {
                partition_ids: vec![check::partition(h, PARTITION).id],
            },
        )
    } else {
        Request::ParquetFiles(
            ParquetFilesRequest::ListByPartitionNotToDeleteBatch {
                partition_ids: vec![check::partition(h, PARTITION).id],
            },
        )
    }
}

/// Whether the last of the replies `h` is as it has to be.
pub fn accepts_last(h: &Vec<Reply>) -> (b: bool)
    requires
        h.len() > 0,
        accepted(ScenarioView::ListByPartitionNotToDelete, h@, h@.len() - 1),
        !finished(h@.drop_last()),
    ensures
        b == accepts(h@),
{
    let n: usize = h.len() - 1;
    proof {
        lemma_known(h@, n as int);
    }
    if n == NAMESPACE {
        check::got_namespace(h)
    } else if n == TABLE {
        check::got_table(h)
    } else if n == PARTITION {
        check::got_partition(h)
    } else if n == PARTITION_2 {
        check::got_partition(h)
    } else if n == PARAMS {
        check::got_params(h)
    } else if n == 5 {
        check::got_file(h)
    } else if n == MARKED_ID {
        check::got_uuid(h)
    } else if n == 7 {
        check::got_file(h)
    } else if n == 8 {
        check::got_ids(h)
    } else if n == LEVEL_1_ID {
        check::got_uuid(h)
    } else if n == 10 {
        check::got_file(h)
    } else if n == 11 {
        check::got_ids(h)
    } else if n == OTHER_ID {
        check::got_uuid(h)
    } else if n == 13 {
        check::got_file(h)
    } else if n == 14 {
        check::file_ids_are(h, check::params(h, PARAMS).object_store_id, check::uuid(h, LEVEL_1_ID))
    } else if n == 15 {
        check::file_ids_are(h, check::params(h, PARAMS).object_store_id, check::uuid(h, LEVEL_1_ID))
    } else {
        false
    }
}

/// Whether everything has been asked for.
pub fn is_finished(h: &Vec<Reply>) -> (b: bool)
    ensures
        b == finished(h@),
{
    h.len() >= LENGTH
}

} // verus!
