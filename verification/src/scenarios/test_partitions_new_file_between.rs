//! Partitions can be found by the time of their last new file of the first level.
use crate::check;
use crate::expect;
use crate::reply::Reply;
use crate::request::{
    CatalogRequest, CatalogRequestView, EnvironmentRequest, EnvironmentRequestView, HelperRequest,
    HelperRequestView, ParquetFilesRequest, ParquetFilesRequestView, PartitionsRequest,
    PartitionsRequestView, Request, RequestView, ScenarioView, ValueRequest, ValueRequestView,
};
use crate::run;
use crate::run::accepted;
use crate::types::{copy_hash, CompactionLevel, ParquetFileParams, ParquetFileParamsView};
use vstd::prelude::*;

verus! {

/// The step that gives the namespace.
pub const NAMESPACE: usize = 0;

/// The step that gives the table.
pub const TABLE: usize = 1;

/// The step that gives the time before there are partitions.
pub const TIME_A: usize = 2;

/// The step that gives the first partition.
pub const PARTITION_1: usize = 5;

/// The step that gives the parameters of its first file.
pub const PARAMS: usize = 7;

/// The step that gives the time after its first file.
pub const TIME_B: usize = 10;

/// The step that gives the time after its first file is deleted.
pub const TIME_C: usize = 15;

/// The step that gives the id of its second file.
pub const ACTIVE_ID: usize = 17;

/// The step that gives its second file.
pub const ACTIVE: usize = 19;

/// The step that gives the time after its second file.
pub const TIME_D: usize = 21;

/// The step that gives the second partition.
pub const PARTITION_2: usize = 30;

/// The step that gives the id of its first file.
pub const ID_2: usize = 31;

/// The step that gives the time after that file.
pub const TIME_E: usize = 34;

/// The step that gives the id of a file of the second level.
pub const LEVEL_1_ID: usize = 39;

/// The step that gives the id of one more file of the first level.
pub const UPDATE_ID: usize = 42;

/// The step that gives the third partition.
pub const PARTITION_3: usize = 46;

/// The step that gives the id of a file of the last level.
pub const LEVEL_2_ID: usize = 47;

/// How many requests there are.
pub const LENGTH: usize = 50;

/// The parameters of the second file.
pub open spec fn active_params(h: Seq<Reply>) -> ParquetFileParamsView {
    ParquetFileParamsView {
        object_store_id: expect::uuid(h, ACTIVE_ID),
        ..expect::params(h, PARAMS)
    }
}

/// The parameters of the first file of the second partition.
pub open spec fn params_2(h: Seq<Reply>) -> ParquetFileParamsView {
    ParquetFileParamsView {
        object_store_id: expect::uuid(h, ID_2),
        partition_id: expect::partition(h, PARTITION_2).id,
        partition_hash_id: expect::partition(h, PARTITION_2).hash_id,
        ..expect::params(h, PARAMS)
    }
}

/// The parameters of a file of the second level.
pub open spec fn level_1_params(h: Seq<Reply>) -> ParquetFileParamsView {
    ParquetFileParamsView {
        object_store_id: expect::uuid(h, LEVEL_1_ID),
        partition_id: expect::partition(h, PARTITION_2).id,
        partition_hash_id: expect::partition(h, PARTITION_2).hash_id,
        compaction_level: CompactionLevel::FileNonOverlapped,
        ..expect::params(h, PARAMS)
    }
}

/// The parameters of one more file of the first level.
pub open spec fn update_params(h: Seq<Reply>) -> ParquetFileParamsView {
    ParquetFileParamsView {
        object_store_id: expect::uuid(h, UPDATE_ID),
        partition_id: expect::partition(h, PARTITION_2).id,
        partition_hash_id: expect::partition(h, PARTITION_2).hash_id,
        compaction_level: CompactionLevel::Initial,
        ..expect::params(h, PARAMS)
    }
}

/// The parameters of a file of the last level.
pub open spec fn level_2_params(h: Seq<Reply>) -> ParquetFileParamsView {
    ParquetFileParamsView {
        object_store_id: expect::uuid(h, LEVEL_2_ID),
        partition_id: expect::partition(h, PARTITION_3).id,
        partition_hash_id: expect::partition(h, PARTITION_3).hash_id,
        compaction_level: CompactionLevel::Final,
        ..expect::params(h, PARAMS)
    }
}

/// What is asked for when the replies so far are `h`.
pub open spec fn request(h: Seq<Reply>) -> RequestView {
    let n = h.len();
    if n == NAMESPACE {
        // the namespace
        RequestView::Helper(
            HelperRequestView::ArbitraryNamespace { name: "test_partitions_new_file_between"@ },
        )
    } else if n == TABLE {
        // the table
        RequestView::Helper(
            HelperRequestView::ArbitraryTable {
                name: "test_table_for_new_file_between"@,
                namespace: expect::namespace(h, NAMESPACE),
            },
        )
    } else if n == TIME_A {
        // the time before there are partitions
        RequestView::Catalog(CatalogRequestView::Now)
    } else if n == 3 {
        RequestView::Environment(EnvironmentRequestView::Sleep { millis: 1 })
    } else if n == 4 {
        // there are no partitions
        RequestView::Partitions(
            PartitionsRequestView::NewFileBetween {
                minimum_time: expect::time(h, TIME_A),
                maximum_time: None,
            },
        )
    } else if n == PARTITION_1 {
        // the first partition
        RequestView::Partitions(
            PartitionsRequestView::CreateOrGet {
                key: "one"@,
                table_id: expect::table(h, TABLE).id,
            },
        )
    } else if n == 6 {
        // it has no files
        RequestView::Partitions(
            PartitionsRequestView::NewFileBetween {
                minimum_time: expect::time(h, TIME_A),
                maximum_time: None,
            },
        )
    } else if n == PARAMS {
        // the parameters of its first file
        RequestView::Helper(
            HelperRequestView::ArbitraryParquetFileParams {
                namespace: expect::namespace(h, NAMESPACE),
                table: expect::table(h, TABLE),
                partition: expect::partition(h, PARTITION_1),
            },
        )
    } else if n == 8 {
        RequestView::ParquetFiles(
            ParquetFilesRequestView::Create { params: expect::params(h, PARAMS) },
        )
    } else if n == 9 {
        RequestView::Environment(EnvironmentRequestView::Sleep { millis: 1 })
    } else if n == TIME_B {
        // the time after its first file
        RequestView::Catalog(CatalogRequestView::Now)
    } else if n == 11 {
        RequestView::Environment(EnvironmentRequestView::Sleep { millis: 1 })
    } else if n == 12 {
        // the file is marked for deletion
        RequestView::ParquetFiles(
            ParquetFilesRequestView::CreateUpgradeDelete {
                partition_id: expect::partition(h, PARTITION_1).id,
                delete: seq![expect::params(h, PARAMS).object_store_id],
                upgrade: Seq::empty(),
                create: Seq::empty(),
                target_level: CompactionLevel::Initial,
            },
        )
    } else if n == 13 {
        // that is no new file
        RequestView::Partitions(
            PartitionsRequestView::NewFileBetween {
                minimum_time: expect::time(h, TIME_B),
                maximum_time: None,
            },
        )
    } else if n == 14 {
        RequestView::Environment(EnvironmentRequestView::Sleep { millis: 1 })
    } else if n == TIME_C {
        // the time after its first file is deleted
        RequestView::Catalog(CatalogRequestView::Now)
    } else if n == 16 {
        RequestView::Environment(EnvironmentRequestView::Sleep { millis: 1 })
    } else if n == ACTIVE_ID {
        // the id of its second file
        RequestView::Value(ValueRequestView::NewObjectStoreIds { count: 1 })
    } else if n == 18 {
        RequestView::ParquetFiles(ParquetFilesRequestView::Create { params: active_params(h) })
    } else if n == ACTIVE {
        // its second file
        RequestView::ParquetFiles(
            ParquetFilesRequestView::GetByObjectStoreId {
                object_store_id: expect::uuid(h, ACTIVE_ID),
            },
        )
    } else if n == 20 {
        RequestView::Environment(EnvironmentRequestView::Sleep { millis: 1 })
    } else if n == TIME_D {
        // the time after its second file
        RequestView::Catalog(CatalogRequestView::Now)
    } else if n == 22 {
        RequestView::Environment(EnvironmentRequestView::Sleep { millis: 1 })
    } else if n == 23 {
        // the file is found from before it was added
        RequestView::Partitions(
            PartitionsRequestView::NewFileBetween {
                minimum_time: expect::time(h, TIME_B),
                maximum_time: None,
            },
        )
    } else if n == 24 {
        // and until after that
        RequestView::Partitions(
            PartitionsRequestView::NewFileBetween {
                minimum_time: expect::time(h, TIME_B),
                maximum_time: Some(expect::time(h, TIME_D)),
            },
        )
    } else if n == 25 {
        // but not until before that
        RequestView::Partitions(
            PartitionsRequestView::NewFileBetween {
                minimum_time: expect::time(h, TIME_B),
                maximum_time: Some(expect::time(h, TIME_C)),
            },
        )
    } else if n == 26 {
        // nor from after that
        RequestView::Partitions(
            PartitionsRequestView::NewFileBetween {
                minimum_time: expect::next_time(h, ACTIVE),
                maximum_time: None,
            },
        )
    } else if n == 27 {
        RequestView::Partitions(
            PartitionsRequestView::NewFileBetween {
                minimum_time: expect::next_time(h, ACTIVE),
                maximum_time: Some(expect::time(h, TIME_D)),
            },
        )
    } else if n == 28 {
        // nor from that very moment
        RequestView::Partitions(
            PartitionsRequestView::NewFileBetween {
                minimum_time: expect::file(h, ACTIVE).created_at,
                maximum_time: None,
            },
        )
    } else if n == 29 {
        // nor until that very moment
        RequestView::Partitions(
            PartitionsRequestView::NewFileBetween {
                minimum_time: expect::time(h, TIME_B),
                maximum_time: Some(expect::file(h, ACTIVE).created_at),
            },
        )
    } else if n == PARTITION_2 {
        // the second partition
        RequestView::Partitions(
            PartitionsRequestView::CreateOrGet {
                key: "two"@,
                table_id: expect::table(h, TABLE).id,
            },
        )
    } else if n == ID_2 {
        // the id of its first file
        RequestView::Value(ValueRequestView::NewObjectStoreIds { count: 1 })
    } else if n == 32 {
        RequestView::ParquetFiles(ParquetFilesRequestView::Create { params: params_2(h) })
    } else if n == 33 {
        RequestView::Environment(EnvironmentRequestView::Sleep { millis: 1 })
    } else if n == TIME_E {
        // the time after that file
        RequestView::Catalog(CatalogRequestView::Now)
    } else if n == 35 {
        RequestView::Environment(EnvironmentRequestView::Sleep { millis: 1 })
    } else if n == 36 {
        // each partition has its own time
        RequestView::Partitions(
            PartitionsRequestView::NewFileBetween {
                minimum_time: expect::time(h, TIME_B),
                maximum_time: Some(expect::time(h, TIME_D)),
            },
        )
    } else if n == 37 {
        RequestView::Partitions(
            PartitionsRequestView::NewFileBetween {
                minimum_time: expect::time(h, TIME_D),
                maximum_time: None,
            },
        )
    } else if n == 38 {
        RequestView::Partitions(
            PartitionsRequestView::NewFileBetween {
                minimum_time: expect::time(h, TIME_B),
                maximum_time: None,
            },
        )
    } else if n == LEVEL_1_ID {
        // the id of a file of the second level
        RequestView::Value(ValueRequestView::NewObjectStoreIds { count: 1 })
    } else if n == 40 {
        RequestView::ParquetFiles(ParquetFilesRequestView::Create { params: level_1_params(h) })
    } else if n == 41 {
        // such a file does not count
        RequestView::Partitions(
            PartitionsRequestView::NewFileBetween {
                minimum_time: expect::time(h, TIME_E),
                maximum_time: None,
            },
        )
    } else if n == UPDATE_ID {
        // the id of one more file of the first level
        RequestView::Value(ValueRequestView::NewObjectStoreIds { count: 1 })
    } else if n == 43 {
        RequestView::ParquetFiles(ParquetFilesRequestView::Create { params: update_params(h) })
    } else if n == 44 {
        // such a file does
        RequestView::Partitions(
            PartitionsRequestView::NewFileBetween {
                minimum_time: expect::time(h, TIME_E),
                maximum_time: None,
            },
        )
    } else if n == 45 {
        // only the last one does
        RequestView::Partitions(
            PartitionsRequestView::NewFileBetween {
                minimum_time: expect::time(h, TIME_D),
                maximum_time: Some(expect::time(h, TIME_E)),
            },
        )
    } else if n == PARTITION_3 {
        // the third partition
        RequestView::Partitions(
            PartitionsRequestView::CreateOrGet {
                key: "three"@,
                table_id: expect::table(h, TABLE).id,
            },
        )
    } else if n == LEVEL_2_ID {
        // the id of a file of the last level
        RequestView::Value(ValueRequestView::NewObjectStoreIds { count: 1 })
    } else if n == 48 {
        RequestView::ParquetFiles(ParquetFilesRequestView::Create { params: level_2_params(h) })
    } else {
        // such a file does not count either
        RequestView::Partitions(
            PartitionsRequestView::NewFileBetween {
                minimum_time: expect::time(h, TIME_B),
                maximum_time: None,
            },
        )
    }
}

/// The last of the replies `h` is as it has to be, where the ones before it were.
pub open spec fn accepts(h: Seq<Reply>) -> bool {
    let n = h.len() - 1;
    if n == NAMESPACE {
        expect::got_namespace(h)
    } else if n == TABLE {
        expect::got_table(h)
    } else if n == TIME_A {
        expect::got_time(h)
    } else if n == 3 {
        expect::done(h)
    } else if n == 4 {
        expect::id_count(h, 0)
    } else if n == PARTITION_1 {
        expect::got_partition(h)
    } else if n == 6 {
        expect::id_count(h, 0)
    } else if n == PARAMS {
        expect::got_params(h)
    } else if n == 8 {
        expect::got_file(h)
    } else if n == 9 {
        expect::done(h)
    } else if n == TIME_B {
        expect::got_time(h)
    } else if n == 11 {
        expect::done(h)
    } else if n == 12 {
        expect::got_ids(h)
    } else if n == 13 {
        expect::id_count(h, 0)
    } else if n == 14 {
        expect::done(h)
    } else if n == TIME_C {
        expect::got_time(h)
    } else if n == 16 {
        expect::done(h)
    } else if n == ACTIVE_ID {
        expect::got_uuid(h)
    } else if n == 18 {
        expect::got_file(h)
    } else if n == ACTIVE {
        expect::got_file(h) && expect::has_next_time(h, ACTIVE)
    } else if n == 20 {
        expect::done(h)
    } else if n == TIME_D {
        expect::got_time(h)
    } else if n == 22 {
        expect::done(h)
    } else if n == 23 {
        expect::only_id(h, PARTITION_1)
    } else if n == 24 {
        expect::only_id(h, PARTITION_1)
    } else if n == 25 {
        expect::id_count(h, 0)
    } else if n == 26 {
        expect::id_count(h, 0)
    } else if n == 27 {
        expect::id_count(h, 0)
    } else if n == 28 {
        expect::id_count(h, 0)
    } else if n == 29 {
        expect::id_count(h, 0)
    } else if n == PARTITION_2 {
        expect::got_partition(h)
    } else if n == ID_2 {
        expect::got_uuid(h)
    } else if n == 32 {
        expect::got_file(h)
    } else if n == 33 {
        expect::done(h)
    } else if n == TIME_E {
        expect::got_time(h)
    } else if n == 35 {
        expect::done(h)
    } else if n == 36 {
        expect::only_id(h, PARTITION_1)
    } else if n == 37 {
        expect::only_id(h, PARTITION_2)
    } else if n == 38 {
        expect::sorted_ids_are(h, PARTITION_1, PARTITION_2)
    } else if n == LEVEL_1_ID {
        expect::got_uuid(h)
    } else if n == 40 {
        expect::got_file(h)
    } else if n == 41 {
        expect::id_count(h, 0)
    } else if n == UPDATE_ID {
        expect::got_uuid(h)
    } else if n == 43 {
        expect::got_file(h)
    } else if n == 44 {
        expect::only_id(h, PARTITION_2)
    } else if n == 45 {
        expect::id_count(h, 0)
    } else if n == PARTITION_3 {
        expect::got_partition(h)
    } else if n == LEVEL_2_ID {
        expect::got_uuid(h)
    } else if n == 48 {
        expect::got_file(h)
    } else if n == 49 {
        expect::sorted_ids_are(h, PARTITION_1, PARTITION_2)
    } else {
        false
    }
}

/// With the replies `h` everything has been asked for.
pub open spec fn finished(h: Seq<Reply>) -> bool {
    h.len() >= LENGTH
}

/// What is known of the first `m` replies once they have been accepted.
pub proof fn lemma_known(h: Seq<Reply>, m: int)
    requires
        0 <= m <= h.len(),
        accepted(ScenarioView::PartitionsNewFileBetween, h, m),
    ensures
        m > NAMESPACE ==> expect::is_namespace(h, NAMESPACE),
        m > TABLE ==> expect::is_table(h, TABLE),
        m > TIME_A ==> expect::is_time(h, TIME_A),
        m > PARTITION_1 ==> expect::is_partition(h, PARTITION_1),
        m > PARAMS ==> expect::is_params(h, PARAMS),
        m > TIME_B ==> expect::is_time(h, TIME_B),
        m > TIME_C ==> expect::is_time(h, TIME_C),
        m > ACTIVE_ID ==> expect::is_uuid(h, ACTIVE_ID),
        m > ACTIVE ==> expect::is_file(h, ACTIVE),
        m > ACTIVE ==> expect::has_next_time(h, ACTIVE),
        m > TIME_D ==> expect::is_time(h, TIME_D),
        m > PARTITION_2 ==> expect::is_partition(h, PARTITION_2),
        m > ID_2 ==> expect::is_uuid(h, ID_2),
        m > TIME_E ==> expect::is_time(h, TIME_E),
        m > LEVEL_1_ID ==> expect::is_uuid(h, LEVEL_1_ID),
        m > UPDATE_ID ==> expect::is_uuid(h, UPDATE_ID),
        m > PARTITION_3 ==> expect::is_partition(h, PARTITION_3),
        m > LEVEL_2_ID ==> expect::is_uuid(h, LEVEL_2_ID),
{
    let s = ScenarioView::PartitionsNewFileBetween;
    if m > NAMESPACE {
        assert(run::accepts(s, h.take(NAMESPACE + 1)));
    }
    if m > TABLE {
        assert(run::accepts(s, h.take(TABLE + 1)));
    }
    if m > TIME_A {
        assert(run::accepts(s, h.take(TIME_A + 1)));
    }
    if m > PARTITION_1 {
        assert(run::accepts(s, h.take(PARTITION_1 + 1)));
    }
    if m > PARAMS {
        assert(run::accepts(s, h.take(PARAMS + 1)));
    }
    if m > TIME_B {
        assert(run::accepts(s, h.take(TIME_B + 1)));
    }
    if m > TIME_C {
        assert(run::accepts(s, h.take(TIME_C + 1)));
    }
    if m > ACTIVE_ID {
        assert(run::accepts(s, h.take(ACTIVE_ID + 1)));
    }
    if m > ACTIVE {
        assert(run::accepts(s, h.take(ACTIVE + 1)));
    }
    if m > TIME_D {
        assert(run::accepts(s, h.take(TIME_D + 1)));
    }
    if m > PARTITION_2 {
        assert(run::accepts(s, h.take(PARTITION_2 + 1)));
    }
    if m > ID_2 {
        assert(run::accepts(s, h.take(ID_2 + 1)));
    }
    if m > TIME_E {
        assert(run::accepts(s, h.take(TIME_E + 1)));
    }
    if m > LEVEL_1_ID {
        assert(run::accepts(s, h.take(LEVEL_1_ID + 1)));
    }
    if m > UPDATE_ID {
        assert(run::accepts(s, h.take(UPDATE_ID + 1)));
    }
    if m > PARTITION_3 {
        assert(run::accepts(s, h.take(PARTITION_3 + 1)));
    }
    if m > LEVEL_2_ID {
        assert(run::accepts(s, h.take(LEVEL_2_ID + 1)));
    }
}

/// The parameters of the second file.
fn do_active_params(h: &Vec<Reply>) -> (r: ParquetFileParams)
    requires
        expect::is_params(h@, PARAMS),
        expect::is_uuid(h@, ACTIVE_ID),
    ensures
        r@ == active_params(h@),
{
    let mut p: ParquetFileParams = check::params(h, PARAMS).copy();
    p.object_store_id = check::uuid(h, ACTIVE_ID);
    p
}

/// The parameters of the first file of the second partition.
fn do_params_2(h: &Vec<Reply>) -> (r: ParquetFileParams)
    requires
        expect::is_params(h@, PARAMS),
        expect::is_uuid(h@, ID_2),
        expect::is_partition(h@, PARTITION_2),
    ensures
        r@ == params_2(h@),
{
    let mut p: ParquetFileParams = check::params(h, PARAMS).copy();
    p.object_store_id = check::uuid(h, ID_2);
    p.partition_id = check::partition(h, PARTITION_2).id;
    p.partition_hash_id = copy_hash(&check::partition(h, PARTITION_2).hash_id);
    p
}

/// The parameters of a file of the second level.
fn do_level_1_params(h: &Vec<Reply>) -> (r: ParquetFileParams)
    requires
        expect::is_params(h@, PARAMS),
        expect::is_uuid(h@, LEVEL_1_ID),
        expect::is_partition(h@, PARTITION_2),
    ensures
        r@ == level_1_params(h@),
{
    let mut p: ParquetFileParams = check::params(h, PARAMS).copy();
    p.object_store_id = check::uuid(h, LEVEL_1_ID);
    p.partition_id = check::partition(h, PARTITION_2).id;
    p.partition_hash_id = copy_hash(&check::partition(h, PARTITION_2).hash_id);
    p.compaction_level = CompactionLevel::FileNonOverlapped;
    p
}

/// The parameters of one more file of the first level.
fn do_update_params(h: &Vec<Reply>) -> (r: ParquetFileParams)
    requires
        expect::is_params(h@, PARAMS),
        expect::is_uuid(h@, UPDATE_ID),
        expect::is_partition(h@, PARTITION_2),
    ensures
        r@ == update_params(h@),
{
    let mut p: ParquetFileParams = check::params(h, PARAMS).copy();
    p.object_store_id = check::uuid(h, UPDATE_ID);
    p.partition_id = check::partition(h, PARTITION_2).id;
    p.partition_hash_id = copy_hash(&check::partition(h, PARTITION_2).hash_id);
    p.compaction_level = CompactionLevel::Initial;
    p
}

/// The parameters of a file of the last level.
fn do_level_2_params(h: &Vec<Reply>) -> (r: ParquetFileParams)
    requires
        expect::is_params(h@, PARAMS),
        expect::is_uuid(h@, LEVEL_2_ID),
        expect::is_partition(h@, PARTITION_3),
    ensures
        r@ == level_2_params(h@),
{
    let mut p: ParquetFileParams = check::params(h, PARAMS).copy();
    p.object_store_id = check::uuid(h, LEVEL_2_ID);
    p.partition_id = check::partition(h, PARTITION_3).id;
    p.partition_hash_id = copy_hash(&check::partition(h, PARTITION_3).hash_id);
    p.compaction_level = CompactionLevel::Final;
    p
}

/// What is asked for when the replies so far are `h`.
pub fn next_request<'a>(h: &'a Vec<Reply>) -> (r: Request<'a>)
    requires
        accepted(ScenarioView::PartitionsNewFileBetween, h@, h@.len() as int),
        !finished(h@),
    ensures
        r@ =~~= request(h@),
{
    let n: usize = h.len();
    proof {
        lemma_known(h@, n as int);
    }
    if n == NAMESPACE {
        Request::Helper(
            HelperRequest::ArbitraryNamespace { name: "test_partitions_new_file_between" },
        )
    } else if n == TABLE {
        Request::Helper(
            HelperRequest::ArbitraryTable {
                name: "test_table_for_new_file_between",
                namespace: check::namespace(h, NAMESPACE),
            },
        )
    } else if n == TIME_A {
        Request::Catalog(CatalogRequest::Now)
    } else if n == 3 {
        Request::Environment(EnvironmentRequest::Sleep { millis: 1 })
    } else if n == 4 {
        Request::Partitions(
            PartitionsRequest::NewFileBetween {
                minimum_time: check::time(h, TIME_A),
                maximum_time: None,
            },
        )
    } else if n == PARTITION_1 {
        Request::Partitions(
            PartitionsRequest::CreateOrGet { key: "one", table_id: check::table(h, TABLE).id },
        )
    } else if n == 6 {
        Request::Partitions(
            PartitionsRequest::NewFileBetween {
                minimum_time: check::time(h, TIME_A),
                maximum_time: None,
            },
        )
    } else if n == PARAMS {
        Request::Helper(
            HelperRequest::ArbitraryParquetFileParams {
                namespace: check::namespace(h, NAMESPACE),
                table: check::table(h, TABLE),
                partition: check::partition(h, PARTITION_1),
            },
        )
    } else if n == 8 {
        Request::ParquetFiles(
            ParquetFilesRequest::Create { params: check::params(h, PARAMS).copy() },
        )
    } else if n == 9 {
        Request::Environment(EnvironmentRequest::Sleep { millis: 1 })
    } else if n == TIME_B {
        Request::Catalog(CatalogRequest::Now)
    } else if n == 11 {
        Request::Environment(EnvironmentRequest::Sleep { millis: 1 })
    } else if n == 12 {
        Request::ParquetFiles(
            ParquetFilesRequest::CreateUpgradeDelete {
                partition_id: check::partition(h, PARTITION_1).id,
                delete: vec![check::params(h, PARAMS).object_store_id],
                upgrade: Vec::new(),
                create: Vec::new(),
                target_level: CompactionLevel::Initial,
            },
        )
    } else if n == 13 {
        Request::Partitions(
            PartitionsRequest::NewFileBetween {
                minimum_time: check::time(h, TIME_B),
                maximum_time: None,
            },
        )
    } else if n == 14 {
        Request::Environment(EnvironmentRequest::Sleep { millis: 1 })
    } else if n == TIME_C {
        Request::Catalog(CatalogRequest::Now)
    } else if n == 16 {
        Request::Environment(EnvironmentRequest::Sleep { millis: 1 })
    } else if n == ACTIVE_ID {
        Request::Value(ValueRequest::NewObjectStoreIds { count: 1 })
    } else if n == 18 {
        Request::ParquetFiles(ParquetFilesRequest::Create { params: do_active_params(h) })
    } else if n == ACTIVE {
        Request::ParquetFiles(
            ParquetFilesRequest::GetByObjectStoreId { object_store_id: check::uuid(h, ACTIVE_ID) },
        )
    } else if n == 20 {
        Request::Environment(EnvironmentRequest::Sleep { millis: 1 })
    } else if n == TIME_D {
        Request::Catalog(CatalogRequest::Now)
    } else if n == 22 {
        Request::Environment(EnvironmentRequest::Sleep { millis: 1 })
    } else if n == 23 {
        Request::Partitions(
            PartitionsRequest::NewFileBetween {
                minimum_time: check::time(h, TIME_B),
                maximum_time: None,
            },
        )
    } else if n == 24 {
        Request::Partitions(
            PartitionsRequest::NewFileBetween {
                minimum_time: check::time(h, TIME_B),
                maximum_time: Some(check::time(h, TIME_D)),
            },
        )
    } else if n == 25 {
        Request::Partitions(
            PartitionsRequest::NewFileBetween {
                minimum_time: check::time(h, TIME_B),
                maximum_time: Some(check::time(h, TIME_C)),
            },
        )
    } else if n == 26 {
        Request::Partitions(
            PartitionsRequest::NewFileBetween {
                minimum_time: check::next_time(h, ACTIVE),
                maximum_time: None,
            },
        )
    } else if n == 27 {
        Request::Partitions(
            PartitionsRequest::NewFileBetween {
                minimum_time: check::next_time(h, ACTIVE),
                maximum_time: Some(check::time(h, TIME_D)),
            },
        )
    } else if n == 28 {
        Request::Partitions(
            PartitionsRequest::NewFileBetween {
                minimum_time: check::file(h, ACTIVE).created_at,
                maximum_time: None,
            },
        )
    } else if n == 29 {
        Request::Partitions(
            PartitionsRequest::NewFileBetween {
                minimum_time: check::time(h, TIME_B),
                maximum_time: Some(check::file(h, ACTIVE).created_at),
            },
        )
    } else if n == PARTITION_2 {
        Request::Partitions(
            PartitionsRequest::CreateOrGet { key: "two", table_id: check::table(h, TABLE).id },
        )
    } else if n == ID_2 {
        Request::Value(ValueRequest::NewObjectStoreIds { count: 1 })
    } else if n == 32 {
        Request::ParquetFiles(ParquetFilesRequest::Create { params: do_params_2(h) })
    } else if n == 33 {
        Request::Environment(EnvironmentRequest::Sleep { millis: 1 })
    } else if n == TIME_E {
        Request::Catalog(CatalogRequest::Now)
    } else if n == 35 {
        Request::Environment(EnvironmentRequest::Sleep { millis: 1 })
    } else if n == 36 {
        Request::Partitions(
            PartitionsRequest::NewFileBetween {
                minimum_time: check::time(h, TIME_B),
                maximum_time: Some(check::time(h, TIME_D)),
            },
        )
    } else if n == 37 {
        Request::Partitions(
            PartitionsRequest::NewFileBetween {
                minimum_time: check::time(h, TIME_D),
                maximum_time: None,
            },
        )
    } else if n == 38 {
        Request::Partitions(
            PartitionsRequest::NewFileBetween {
                minimum_time: check::time(h, TIME_B),
                maximum_time: None,
            },
        )
    } else if n == LEVEL_1_ID {
        Request::Value(ValueRequest::NewObjectStoreIds { count: 1 })
    } else if n == 40 {
        Request::ParquetFiles(ParquetFilesRequest::Create { params: do_level_1_params(h) })
    } else if n == 41 {
        Request::Partitions(
            PartitionsRequest::NewFileBetween {
                minimum_time: check::time(h, TIME_E),
                maximum_time: None,
            },
        )
    } else if n == UPDATE_ID {
        Request::Value(ValueRequest::NewObjectStoreIds { count: 1 })
    } else if n == 43 {
        Request::ParquetFiles(ParquetFilesRequest::Create { params: do_update_params(h) })
    } else if n == 44 {
        Request::Partitions(
            PartitionsRequest::NewFileBetween {
                minimum_time: check::time(h, TIME_E),
                maximum_time: None,
            },
        )
    } else if n == 45 {
        Request::Partitions(
            PartitionsRequest::NewFileBetween {
                minimum_time: check::time(h, TIME_D),
                maximum_time: Some(check::time(h, TIME_E)),
            },
        )
    } else if n == PARTITION_3 {
        Request::Partitions(
            PartitionsRequest::CreateOrGet { key: "three", table_id: check::table(h, TABLE).id },
        )
    } else if n == LEVEL_2_ID {
        Request::Value(ValueRequest::NewObjectStoreIds { count: 1 })
    } else if n == 48 {
        Request::ParquetFiles(ParquetFilesRequest::Create { params: do_level_2_params(h) })
    } else {
        Request::Partitions(
            PartitionsRequest::NewFileBetween {
                minimum_time: check::time(h, TIME_B),
                maximum_time: None,
            },
        )
    }
}

/// Whether the last of the replies `h` is as it has to be.
pub fn accepts_last(h: &Vec<Reply>) -> (b: bool)
    requires
        h.len() > 0,
        accepted(ScenarioView::PartitionsNewFileBetween, h@, h@.len() - 1),
        !finished(h@.drop_last()),
    ensures
        b == accepts(h@),
{
    let n: usize = h.len() - 1;
    proof {
        lemma_known(h@, n as int);
    }
    if n == NAMESPACE {
        check::got_namespace(h)
    } else if n == TABLE {
        check::got_table(h)
    } else if n == TIME_A {
        check::got_time(h)
    } else if n == 3 {
        check::done(h)
    } else if n == 4 {
        check::id_count(h, 0)
    } else if n == PARTITION_1 {
        check::got_partition(h)
    } else if n == 6 {
        check::id_count(h, 0)
    } else if n == PARAMS {
        check::got_params(h)
    } else if n == 8 {
        check::got_file(h)
    } else if n == 9 {
        check::done(h)
    } else if n == TIME_B {
        check::got_time(h)
    } else if n == 11 {
        check::done(h)
    } else if n == 12 {
        check::got_ids(h)
    } else if n == 13 {
        check::id_count(h, 0)
    } else if n == 14 {
        check::done(h)
    } else if n == TIME_C {
        check::got_time(h)
    } else if n == 16 {
        check::done(h)
    } else if n == ACTIVE_ID {
        check::got_uuid(h)
    } else if n == 18 {
        check::got_file(h)
    } else if n == ACTIVE {
        check::got_file(h) && check::has_next_time(h, ACTIVE)
    } else if n == 20 {
        check::done(h)
    } else if n == TIME_D {
        check::got_time(h)
    } else if n == 22 {
        check::done(h)
    } else if n == 23 {
        check::only_id(h, PARTITION_1)
    } else if n == 24 {
        check::only_id(h, PARTITION_1)
    } else if n == 25 {
        check::id_count(h, 0)
    } else if n == 26 {
        check::id_count(h, 0)
    } else if n == 27 {
        check::id_count(h, 0)
    } else if n == 28 {
        check::id_count(h, 0)
    } else if n == 29 {
        check::id_count(h, 0)
    } else if n == PARTITION_2 {
        check::got_partition(h)
    } else if n == ID_2 {
        check::got_uuid(h)
    } else if n == 32 {
        check::got_file(h)
    } else if n == 33 {
        check::done(h)
    } else if n == TIME_E {
        check::got_time(h)
    } else if n == 35 {
        check::done(h)
    } else if n == 36 {
        check::only_id(h, PARTITION_1)
    } else if n == 37 {
        check::only_id(h, PARTITION_2)
    } else if n == 38 {
        check::sorted_ids_are(h, PARTITION_1, PARTITION_2)
    } else if n == LEVEL_1_ID {
        check::got_uuid(h)
    } else if n == 40 {
        check::got_file(h)
    } else if n == 41 {
        check::id_count(h, 0)
    } else if n == UPDATE_ID {
        check::got_uuid(h)
    } else if n == 43 {
        check::got_file(h)
    } else if n == 44 {
        check::only_id(h, PARTITION_2)
    } else if n == 45 {
        check::id_count(h, 0)
    } else if n == PARTITION_3 {
        check::got_partition(h)
    } else if n == LEVEL_2_ID {
        check::got_uuid(h)
    } else if n == 48 {
        check::got_file(h)
    } else if n == 49 {
        check::sorted_ids_are(h, PARTITION_1, PARTITION_2)
    } else {
        false
    }
}

/// Whether everything has been asked for.
pub fn is_finished(h: &Vec<Reply>) -> (b: bool)
    ensures
        b == finished(h@),
{
    h.len() >= LENGTH
}

} // verus!
