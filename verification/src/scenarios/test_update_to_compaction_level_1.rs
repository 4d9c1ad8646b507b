//! A file can be raised to the second level.
use crate::check;
use crate::expect;
use crate::reply::Reply;
use crate::request::{
    HelperRequest, HelperRequestView, NamespacesRequest, NamespacesRequestView, ParquetFilesRequest,
    ParquetFilesRequestView, PartitionsRequest, PartitionsRequestView, Request, RequestView,
    ScenarioView, ValueRequest, ValueRequestView,
};
use crate::run;
use crate::run::accepted;
use crate::types::{CompactionLevel, ParquetFileParams, ParquetFileParamsView};
use vstd::prelude::*;

verus! {

/// The step that gives the namespace.
pub const NAMESPACE: usize = 0;

/// The step that gives the table.
pub const TABLE: usize = 1;

/// The step that gives the partition.
pub const PARTITION: usize = 2;

/// The step that gives the parameters of a file.
pub const PARAMS: usize = 3;

/// The step that gives the id of a file that stays on the first level.
pub const LEVEL_0_ID: usize = 5;

/// The first time of the window.
pub const QUERY_MIN_TIME: i64 = 5;

/// The last time of the window.
pub const QUERY_MAX_TIME: i64 = 10;

/// How many requests there are.
pub const LENGTH: usize = 11;

/// The parameters of a file whose times are within the window.
pub open spec fn inner_params(h: Seq<Reply>) -> ParquetFileParamsView {
    ParquetFileParamsView {
        min_time: (QUERY_MIN_TIME + 1) as i64,
        max_time: (QUERY_MAX_TIME - 1) as i64,
        ..expect::params(h, PARAMS)
    }
}

/// The parameters of a file that stays on the first level.
pub open spec fn level_0_params(h: Seq<Reply>) -> ParquetFileParamsView {
    ParquetFileParamsView {
        object_store_id: expect::uuid(h, LEVEL_0_ID),
        ..inner_params(h)
    }
}

/// What is asked for when the replies so far are `h`.
pub open spec fn request(h: Seq<Reply>) -> RequestView {
    let n = h.len();
    if n == NAMESPACE {
        // the namespace
        RequestView::Helper(
            HelperRequestView::ArbitraryNamespace {
                name: "namespace_update_to_compaction_level_1_test"@,
            },
        )
    } else if n == TABLE {
        // the table
        RequestView::Helper(
            HelperRequestView::ArbitraryTable {
                name: "update_table"@,
                namespace: expect::namespace(h, NAMESPACE),
            },
        )
    } else if n == PARTITION {
        // the partition
        RequestView::Partitions(
            PartitionsRequestView::CreateOrGet {
                key: "test_update_to_compaction_level_1_one"@,
                table_id: expect::table(h, TABLE).id,
            },
        )
    } else if n == PARAMS {
        // the parameters of a file
        RequestView::Helper(
            HelperRequestView::ArbitraryParquetFileParams {
                namespace: expect::namespace(h, NAMESPACE),
                table: expect::table(h, TABLE),
                partition: expect::partition(h, PARTITION),
            },
        )
    } else if n == 4 {
        // its times are within the window
        RequestView::ParquetFiles(ParquetFilesRequestView::Create { params: inner_params(h) })
    } else if n == LEVEL_0_ID {
        // the id of a file that stays on the first level
        RequestView::Value(ValueRequestView::NewObjectStoreIds { count: 1 })
    } else if n == 6 {
        RequestView::ParquetFiles(ParquetFilesRequestView::Create { params: level_0_params(h) })
    } else if n == 7 {
        // raising a file adds none
        RequestView::ParquetFiles(
            ParquetFilesRequestView::CreateUpgradeDelete {
                partition_id: expect::partition(h, PARTITION).id,
                delete: Seq::empty(),
                upgrade: seq![inner_params(h).object_store_id],
                create: Seq::empty(),
                target_level: CompactionLevel::FileNonOverlapped,
            },
        )
    } else if n == 8 {
        // the file is on the second level
        RequestView::ParquetFiles(
            ParquetFilesRequestView::GetByObjectStoreId {
                object_store_id: inner_params(h).object_store_id,
            },
        )
    } else if n == 9 {
        // the other one stays on the first
        RequestView::ParquetFiles(
            ParquetFilesRequestView::GetByObjectStoreId {
                object_store_id: expect::uuid(h, LEVEL_0_ID),
            },
        )
    } else {
        // the namespace is deleted
        RequestView::Namespaces(
            NamespacesRequestView::SoftDelete { id: expect::namespace(h, NAMESPACE).id },
        )
    }
}

/// The last of the replies `h` is as it has to be, where the ones before it were.
pub open spec fn accepts(h: Seq<Reply>) -> bool {
    let n = h.len() - 1;
    if n == NAMESPACE {
        expect::got_namespace(h)
    } else if n == TABLE {
        expect::got_table(h)
    } else if n == PARTITION {
        expect::got_partition(h)
    } else if n == PARAMS {
        expect::got_params(h)
    } else if n == 4 {
        expect::got_file(h)
    } else if n == LEVEL_0_ID {
        expect::got_uuid(h)
    } else if n == 6 {
        expect::got_file(h)
    } else if n == 7 {
        expect::id_count(h, 0)
    } else if n == 8 {
        expect::has_level(h, CompactionLevel::FileNonOverlapped)
    } else if n == 9 {
        expect::has_level(h, CompactionLevel::Initial)
    } else if n == 10 {
        expect::got_id(h)
    } else {
        false
    }
}

/// With the replies `h` everything has been asked for.
pub open spec fn finished(h: Seq<Reply>) -> bool {
    h.len() >= LENGTH
}

/// What is known of the first `m` replies once they have been accepted.
pub proof fn lemma_known(h: Seq<Reply>, m: int)
    requires
        0 <= m <= h.len(),
        accepted(ScenarioView::UpdateToCompactionLevel1, h, m),
    ensures
        m > NAMESPACE ==> expect::is_namespace(h, NAMESPACE),
        m > TABLE ==> expect::is_table(h, TABLE),
        m > PARTITION ==> expect::is_partition(h, PARTITION),
        m > PARAMS ==> expect::is_params(h, PARAMS),
        m > LEVEL_0_ID ==> expect::is_uuid(h, LEVEL_0_ID),
{
    let s = ScenarioView::UpdateToCompactionLevel1;
    if m > NAMESPACE {
        assert(run::accepts(s, h.take(NAMESPACE + 1)));
    }
    if m > TABLE {
        assert(run::accepts(s, h.take(TABLE + 1)));
    }
    if m > PARTITION {
        assert(run::accepts(s, h.take(PARTITION + 1)));
    }
    if m > PARAMS {
        assert(run::accepts(s, h.take(PARAMS + 1)));
    }
    if m > LEVEL_0_ID {
        assert(run::accepts(s, h.take(LEVEL_0_ID + 1)));
    }
}

/// The parameters of a file whose times are within the window.
fn do_inner_params(h: &Vec<Reply>) -> (r: ParquetFileParams)
    requires
        expect::is_params(h@, PARAMS),
    ensures
        r@ == inner_params(h@),
{
    let mut p: ParquetFileParams = check::params(h, PARAMS).copy();
    p.min_time = QUERY_MIN_TIME + 1;
    p.max_time = QUERY_MAX_TIME - 1;
    p
}

/// The parameters of a file that stays on the first level.
fn do_level_0_params(h: &Vec<Reply>) -> (r: ParquetFileParams)
    requires
        expect::is_params(h@, PARAMS),
        expect::is_uuid(h@, LEVEL_0_ID),
    ensures
        r@ == level_0_params(h@),
{
    let mut p: ParquetFileParams = do_inner_params(h);
    p.object_store_id = check::uuid(h, LEVEL_0_ID);
    p
}

/// What is asked for when the replies so far are `h`.
pub fn next_request<'a>(h: &'a Vec<Reply>) -> (r: Request<'a>)
    requires
        accepted(ScenarioView::UpdateToCompactionLevel1, h@, h@.len() as int),
        !finished(h@),
    ensures
        r@ =~~= request(h@),
{
    let n: usize = h.len();
    proof {
        lemma_known(h@, n as int);
    }
    if n == NAMESPACE {
        Request::Helper(
            HelperRequest::ArbitraryNamespace {
                name: "namespace_update_to_compaction_level_1_test",
            },
        )
    } else if n == TABLE {
        Request::Helper(
            HelperRequest::ArbitraryTable {
                name: "update_table",
                namespace: check::namespace(h, NAMESPACE),
            },
        )
    } else if n == PARTITION {
        Request::Partitions(
            PartitionsRequest::CreateOrGet {
                key: "test_update_to_compaction_level_1_one",
                table_id: check::table(h, TABLE).id,
            },
        )
    } else if n == PARAMS {
        Request::Helper(
            HelperRequest::ArbitraryParquetFileParams {
                namespace: check::namespace(h, NAMESPACE),
                table: check::table(h, TABLE),
                partition: check::partition(h, PARTITION),
            },
        )
    } else if n == 4 {
        Request::ParquetFiles(ParquetFilesRequest::Create { params: do_inner_params(h) })
    } else if n == LEVEL_0_ID {
        Request::Value(ValueRequest::NewObjectStoreIds { count: 1 })
    } else if n == 6 {
        Request::ParquetFiles(ParquetFilesRequest::Create { params: do_level_0_params(h) })
    } else if n == 7 {
        Request::ParquetFiles(
            ParquetFilesRequest::CreateUpgradeDelete {
                partition_id: check::partition(h, PARTITION).id,
                delete: Vec::new(),
                upgrade: vec![do_inner_params(h).object_store_id],
                create: Vec::new(),
                target_level: CompactionLevel::FileNonOverlapped,
            },
        )
    } else if n == 8 {
        Request::ParquetFiles(
            ParquetFilesRequest::GetByObjectStoreId {
                object_store_id: do_inner_params(h).object_store_id,
            },
        )
    } else if n == 9 {
        Request::ParquetFiles(
            ParquetFilesRequest::GetByObjectStoreId { object_store_id: check::uuid(h, LEVEL_0_ID) },
        )
    } else {
        Request::Namespaces(NamespacesRequest::SoftDelete { id: check::namespace(h, NAMESPACE).id })
    }
}

/// Whether the last of the replies `h` is as it has to be.
pub fn accepts_last(h: &Vec<Reply>) -> (b: bool)
    requires
        h.len() > 0,
        accepted(ScenarioView::UpdateToCompactionLevel1, h@, h@.len() - 1),
        !finished(h@.drop_last()),
    ensures
        b == accepts(h@),
{
    let n: usize = h.len() - 1;
    proof {
        lemma_known(h@, n as int);
    }
    if n == NAMESPACE {
        check::got_namespace(h)
    } else if n == TABLE {
        check::got_table(h)
    } else if n == PARTITION {
        check::got_partition(h)
    } else if n == PARAMS {
        check::got_params(h)
    } else if n == 4 {
        check::got_file(h)
    } else if n == LEVEL_0_ID {
        check::got_uuid(h)
    } else if n == 6 {
        check::got_file(h)
    } else if n == 7 {
        check::id_count(h, 0)
    } else if n == 8 {
        check::has_level(h, CompactionLevel::FileNonOverlapped)
    } else if n == 9 {
        check::has_level(h, CompactionLevel::Initial)
    } else if n == 10 {
        check::got_id(h)
    } else {
        false
    }
}

/// Whether everything has been asked for.
pub fn is_finished(h: &Vec<Reply>) -> (b: bool)
    ensures
        b == finished(h@),
{
    h.len() >= LENGTH
}

} // verus!
