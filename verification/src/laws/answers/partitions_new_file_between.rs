//! What a catalog has answered of partitions with new files.
use crate::expect;
use crate::reply::Reply;
use crate::request::{
    CatalogRequestView, EnvironmentRequestView, HelperRequestView, ParquetFilesRequestView,
    PartitionsRequestView, RequestView, ScenarioView, ValueRequestView,
};
use crate::run;
use crate::run::{accepts, passes};
use crate::scenarios::test_partitions_new_file_between::{
    active_params, level_1_params, level_2_params, params_2, update_params, ACTIVE, ACTIVE_ID, ID_2,
    LEVEL_1_ID, LEVEL_2_ID, NAMESPACE, PARAMS, PARTITION_1, PARTITION_2, PARTITION_3, TABLE, TIME_A,
    TIME_B, TIME_C, TIME_D, TIME_E, UPDATE_ID,
};
use crate::sorting::law_sorting_rearranges;
use crate::types::{CompactionLevel, ParquetFileParamsView};
use vstd::prelude::*;

verus! {

/// What step `k` asks for.
pub open spec fn asked(h: Seq<Reply>, k: int) -> RequestView {
    run::request(ScenarioView::PartitionsNewFileBetween, h.take(k))
}

/// Neither before there is a partition, nor while it has no file, nor because a file is marked, is
/// one found.
pub proof fn law_partitions_without_new_files_are_not_found(h: Seq<Reply>)
    requires
        passes(ScenarioView::PartitionsNewFileBetween, h),
    ensures
        asked(h, 0) == RequestView::Helper(
            HelperRequestView::ArbitraryNamespace { name: "test_partitions_new_file_between"@ },
        ),
        h[0] is Namespace,
        asked(h, 1) == RequestView::Helper(
            HelperRequestView::ArbitraryTable {
                name: "test_table_for_new_file_between"@,
                namespace: expect::namespace(h, NAMESPACE),
            },
        ),
        h[1] is Table,
        asked(h, 2) == RequestView::Catalog(CatalogRequestView::Now),
        h[2] is Time,
        asked(h, 3) == RequestView::Environment(EnvironmentRequestView::Sleep { millis: 1 }),
        h[3] is Done,
        asked(h, 4) == RequestView::Partitions(
            PartitionsRequestView::NewFileBetween {
                minimum_time: expect::time(h, TIME_A),
                maximum_time: None,
            },
        ),
        h[4] is Ids && h[4]->Ids_0@.len() == 0,
        asked(h, 5) == RequestView::Partitions(
            PartitionsRequestView::CreateOrGet {
                key: "one"@,
                table_id: expect::table(h, TABLE).id,
            },
        ),
        h[5] is Partition,
        asked(h, 6) == RequestView::Partitions(
            PartitionsRequestView::NewFileBetween {
                minimum_time: expect::time(h, TIME_A),
                maximum_time: None,
            },
        ),
        h[6] is Ids && h[6]->Ids_0@.len() == 0,
        asked(h, 7) == RequestView::Helper(
            HelperRequestView::ArbitraryParquetFileParams {
                namespace: expect::namespace(h, NAMESPACE),
                table: expect::table(h, TABLE),
                partition: expect::partition(h, PARTITION_1),
            },
        ),
        h[7] is Params,
        asked(h, 8) == RequestView::ParquetFiles(
            ParquetFilesRequestView::Create { params: expect::params(h, PARAMS) },
        ),
        h[8] is File,
        asked(h, 9) == RequestView::Environment(EnvironmentRequestView::Sleep { millis: 1 }),
        h[9] is Done,
        asked(h, 10) == RequestView::Catalog(CatalogRequestView::Now),
        h[10] is Time,
        asked(h, 11) == RequestView::Environment(EnvironmentRequestView::Sleep { millis: 1 }),
        h[11] is Done,
        asked(h, 12) == RequestView::ParquetFiles(
            ParquetFilesRequestView::CreateUpgradeDelete {
                partition_id: expect::partition(h, PARTITION_1).id,
                delete: seq![expect::params(h, PARAMS).object_store_id],
                upgrade: Seq::empty(),
                create: Seq::empty(),
                target_level: CompactionLevel::Initial,
            },
        ),
        h[12] is Ids,
        asked(h, 13) == RequestView::Partitions(
            PartitionsRequestView::NewFileBetween {
                minimum_time: expect::time(h, TIME_B),
                maximum_time: None,
            },
        ),
        h[13] is Ids && h[13]->Ids_0@.len() == 0,
        asked(h, 14) == RequestView::Environment(EnvironmentRequestView::Sleep { millis: 1 }),
        h[14] is Done,
        asked(h, 15) == RequestView::Catalog(CatalogRequestView::Now),
        h[15] is Time,
        asked(h, 16) == RequestView::Environment(EnvironmentRequestView::Sleep { millis: 1 }),
        h[16] is Done,
{
    let s = ScenarioView::PartitionsNewFileBetween;
    assert(accepts(s, h.take(1)));
    assert(accepts(s, h.take(2)));
    assert(accepts(s, h.take(3)));
    assert(accepts(s, h.take(4)));
    assert(accepts(s, h.take(5)));
    assert(accepts(s, h.take(6)));
    assert(accepts(s, h.take(7)));
    assert(accepts(s, h.take(8)));
    assert(accepts(s, h.take(9)));
    assert(accepts(s, h.take(10)));
    assert(accepts(s, h.take(11)));
    assert(accepts(s, h.take(12)));
    assert(accepts(s, h.take(13)));
    assert(accepts(s, h.take(14)));
    assert(accepts(s, h.take(15)));
    assert(accepts(s, h.take(16)));
    assert(accepts(s, h.take(17)));
}

/// Answers like these are accepted.
pub proof fn law_partitions_without_new_files_are_not_found_which_is_enough(h: Seq<Reply>)
    requires
        h.len() > 16,
        h[0] is Namespace,
        h[1] is Table,
        h[2] is Time,
        h[3] is Done,
        h[4] is Ids && h[4]->Ids_0@.len() == 0,
        h[5] is Partition,
        h[6] is Ids && h[6]->Ids_0@.len() == 0,
        h[7] is Params,
        h[8] is File,
        h[9] is Done,
        h[10] is Time,
        h[11] is Done,
        h[12] is Ids,
        h[13] is Ids && h[13]->Ids_0@.len() == 0,
        h[14] is Done,
        h[15] is Time,
        h[16] is Done,
    ensures
        accepts(ScenarioView::PartitionsNewFileBetween, h.take(1)),
        accepts(ScenarioView::PartitionsNewFileBetween, h.take(2)),
        accepts(ScenarioView::PartitionsNewFileBetween, h.take(3)),
        accepts(ScenarioView::PartitionsNewFileBetween, h.take(4)),
        accepts(ScenarioView::PartitionsNewFileBetween, h.take(5)),
        accepts(ScenarioView::PartitionsNewFileBetween, h.take(6)),
        accepts(ScenarioView::PartitionsNewFileBetween, h.take(7)),
        accepts(ScenarioView::PartitionsNewFileBetween, h.take(8)),
        accepts(ScenarioView::PartitionsNewFileBetween, h.take(9)),
        accepts(ScenarioView::PartitionsNewFileBetween, h.take(10)),
        accepts(ScenarioView::PartitionsNewFileBetween, h.take(11)),
        accepts(ScenarioView::PartitionsNewFileBetween, h.take(12)),
        accepts(ScenarioView::PartitionsNewFileBetween, h.take(13)),
        accepts(ScenarioView::PartitionsNewFileBetween, h.take(14)),
        accepts(ScenarioView::PartitionsNewFileBetween, h.take(15)),
        accepts(ScenarioView::PartitionsNewFileBetween, h.take(16)),
        accepts(ScenarioView::PartitionsNewFileBetween, h.take(17)),
{
    assert(h.take(1).last() == h[0]);
    assert(h.take(2).last() == h[1]);
    assert(h.take(3).last() == h[2]);
    assert(h.take(4).last() == h[3]);
    assert(h.take(5).last() == h[4]);
    assert(h.take(6).last() == h[5]);
    assert(h.take(7).last() == h[6]);
    assert(h.take(8).last() == h[7]);
    assert(h.take(9).last() == h[8]);
    assert(h.take(10).last() == h[9]);
    assert(h.take(11).last() == h[10]);
    assert(h.take(12).last() == h[11]);
    assert(h.take(13).last() == h[12]);
    assert(h.take(14).last() == h[13]);
    assert(h.take(15).last() == h[14]);
    assert(h.take(16).last() == h[15]);
    assert(h.take(17).last() == h[16]);
}

/// A partition is found where its file was added strictly between the bounds.
pub proof fn law_a_partition_with_a_new_file_is_found(h: Seq<Reply>)
    requires
        passes(ScenarioView::PartitionsNewFileBetween, h),
    ensures
        asked(h, 17) == RequestView::Value(ValueRequestView::NewObjectStoreIds { count: 1 }),
        h[17] is ObjectStoreIds && h[17]->ObjectStoreIds_0@.len() == 1,
        asked(h, 18) == RequestView::ParquetFiles(
            ParquetFilesRequestView::Create { params: active_params(h) },
        ),
        h[18] is File,
        asked(h, 19) == RequestView::ParquetFiles(
            ParquetFilesRequestView::GetByObjectStoreId {
                object_store_id: expect::uuid(h, ACTIVE_ID),
            },
        ),
        h[19] is File && expect::file(h, ACTIVE).created_at < i64::MAX,
        asked(h, 20) == RequestView::Environment(EnvironmentRequestView::Sleep { millis: 1 }),
        h[20] is Done,
        asked(h, 21) == RequestView::Catalog(CatalogRequestView::Now),
        h[21] is Time,
        asked(h, 22) == RequestView::Environment(EnvironmentRequestView::Sleep { millis: 1 }),
        h[22] is Done,
        asked(h, 23) == RequestView::Partitions(
            PartitionsRequestView::NewFileBetween {
                minimum_time: expect::time(h, TIME_B),
                maximum_time: None,
            },
        ),
        h[23] is Ids && h[23]->Ids_0@ == seq![expect::partition(h, PARTITION_1).id],
        asked(h, 24) == RequestView::Partitions(
            PartitionsRequestView::NewFileBetween {
                minimum_time: expect::time(h, TIME_B),
                maximum_time: Some(expect::time(h, TIME_D)),
            },
        ),
        h[24] is Ids && h[24]->Ids_0@ == seq![expect::partition(h, PARTITION_1).id],
        asked(h, 25) == RequestView::Partitions(
            PartitionsRequestView::NewFileBetween {
                minimum_time: expect::time(h, TIME_B),
                maximum_time: Some(expect::time(h, TIME_C)),
            },
        ),
        h[25] is Ids && h[25]->Ids_0@.len() == 0,
        asked(h, 26) == RequestView::Partitions(
            PartitionsRequestView::NewFileBetween {
                minimum_time: (expect::file(h, ACTIVE).created_at + 1) as i64,
                maximum_time: None,
            },
        ),
        h[26] is Ids && h[26]->Ids_0@.len() == 0,
        asked(h, 27) == RequestView::Partitions(
            PartitionsRequestView::NewFileBetween {
                minimum_time: (expect::file(h, ACTIVE).created_at + 1) as i64,
                maximum_time: Some(expect::time(h, TIME_D)),
            },
        ),
        h[27] is Ids && h[27]->Ids_0@.len() == 0,
        asked(h, 28) == RequestView::Partitions(
            PartitionsRequestView::NewFileBetween {
                minimum_time: expect::file(h, ACTIVE).created_at,
                maximum_time: None,
            },
        ),
        h[28] is Ids && h[28]->Ids_0@.len() == 0,
        asked(h, 29) == RequestView::Partitions(
            PartitionsRequestView::NewFileBetween {
                minimum_time: expect::time(h, TIME_B),
                maximum_time: Some(expect::file(h, ACTIVE).created_at),
            },
        ),
        h[29] is Ids && h[29]->Ids_0@.len() == 0,
{
    let s = ScenarioView::PartitionsNewFileBetween;
    assert(accepts(s, h.take(18)));
    assert(accepts(s, h.take(19)));
    assert(accepts(s, h.take(20)));
    assert(accepts(s, h.take(21)));
    assert(accepts(s, h.take(22)));
    assert(accepts(s, h.take(23)));
    assert(accepts(s, h.take(24)));
    assert(accepts(s, h.take(25)));
    assert(accepts(s, h.take(26)));
    assert(accepts(s, h.take(27)));
    assert(accepts(s, h.take(28)));
    assert(accepts(s, h.take(29)));
    assert(accepts(s, h.take(30)));
}

/// Answers like these are accepted.
pub proof fn law_a_partition_with_a_new_file_is_found_which_is_enough(h: Seq<Reply>)
    requires
        h.len() > 29,
        h[17] is ObjectStoreIds && h[17]->ObjectStoreIds_0@.len() == 1,
        h[18] is File,
        h[19] is File && expect::file(h, ACTIVE).created_at < i64::MAX,
        h[20] is Done,
        h[21] is Time,
        h[22] is Done,
        h[23] is Ids && h[23]->Ids_0@ == seq![expect::partition(h, PARTITION_1).id],
        h[24] is Ids && h[24]->Ids_0@ == seq![expect::partition(h, PARTITION_1).id],
        h[25] is Ids && h[25]->Ids_0@.len() == 0,
        h[26] is Ids && h[26]->Ids_0@.len() == 0,
        h[27] is Ids && h[27]->Ids_0@.len() == 0,
        h[28] is Ids && h[28]->Ids_0@.len() == 0,
        h[29] is Ids && h[29]->Ids_0@.len() == 0,
    ensures
        accepts(ScenarioView::PartitionsNewFileBetween, h.take(18)),
        accepts(ScenarioView::PartitionsNewFileBetween, h.take(19)),
        accepts(ScenarioView::PartitionsNewFileBetween, h.take(20)),
        accepts(ScenarioView::PartitionsNewFileBetween, h.take(21)),
        accepts(ScenarioView::PartitionsNewFileBetween, h.take(22)),
        accepts(ScenarioView::PartitionsNewFileBetween, h.take(23)),
        accepts(ScenarioView::PartitionsNewFileBetween, h.take(24)),
        accepts(ScenarioView::PartitionsNewFileBetween, h.take(25)),
        accepts(ScenarioView::PartitionsNewFileBetween, h.take(26)),
        accepts(ScenarioView::PartitionsNewFileBetween, h.take(27)),
        accepts(ScenarioView::PartitionsNewFileBetween, h.take(28)),
        accepts(ScenarioView::PartitionsNewFileBetween, h.take(29)),
        accepts(ScenarioView::PartitionsNewFileBetween, h.take(30)),
{
    assert(h.take(18).last() == h[17]);
    assert(h.take(19).last() == h[18]);
    assert(h.take(20).last() == h[19]);
    assert(h.take(21).last() == h[20]);
    assert(h.take(22).last() == h[21]);
    assert(h.take(23).last() == h[22]);
    assert(h.take(24).last() == h[23]);
    assert(h.take(25).last() == h[24]);
    assert(h.take(26).last() == h[25]);
    assert(h.take(27).last() == h[26]);
    assert(h.take(28).last() == h[27]);
    assert(h.take(29).last() == h[28]);
    assert(h.take(30).last() == h[29]);
}

/// Of two partitions those are found whose last new file was added between the bounds.
pub proof fn law_each_partition_has_its_own_time(h: Seq<Reply>)
    requires
        passes(ScenarioView::PartitionsNewFileBetween, h),
    ensures
        asked(h, 30) == RequestView::Partitions(
            PartitionsRequestView::CreateOrGet {
                key: "two"@,
                table_id: expect::table(h, TABLE).id,
            },
        ),
        h[30] is Partition,
        asked(h, 31) == RequestView::Value(ValueRequestView::NewObjectStoreIds { count: 1 }),
        h[31] is ObjectStoreIds && h[31]->ObjectStoreIds_0@.len() == 1,
        asked(h, 32) == RequestView::ParquetFiles(
            ParquetFilesRequestView::Create { params: params_2(h) },
        ),
        h[32] is File,
        asked(h, 33) == RequestView::Environment(EnvironmentRequestView::Sleep { millis: 1 }),
        h[33] is Done,
        asked(h, 34) == RequestView::Catalog(CatalogRequestView::Now),
        h[34] is Time,
        asked(h, 35) == RequestView::Environment(EnvironmentRequestView::Sleep { millis: 1 }),
        h[35] is Done,
        asked(h, 36) == RequestView::Partitions(
            PartitionsRequestView::NewFileBetween {
                minimum_time: expect::time(h, TIME_B),
                maximum_time: Some(expect::time(h, TIME_D)),
            },
        ),
        h[36] is Ids && h[36]->Ids_0@ == seq![expect::partition(h, PARTITION_1).id],
        asked(h, 37) == RequestView::Partitions(
            PartitionsRequestView::NewFileBetween {
                minimum_time: expect::time(h, TIME_D),
                maximum_time: None,
            },
        ),
        h[37] is Ids && h[37]->Ids_0@ == seq![expect::partition(h, PARTITION_2).id],
        asked(h, 38) == RequestView::Partitions(
            PartitionsRequestView::NewFileBetween {
                minimum_time: expect::time(h, TIME_B),
                maximum_time: None,
            },
        ),
        h[38] is Ids && h[38]->Ids_0@.to_multiset() == seq![
            expect::partition(h, PARTITION_1).id,
            expect::partition(h, PARTITION_2).id,
        ].to_multiset(),
        expect::partition(h, PARTITION_1).id <= expect::partition(h, PARTITION_2).id,
{
    let s = ScenarioView::PartitionsNewFileBetween;
    assert(accepts(s, h.take(31)));
    assert(accepts(s, h.take(32)));
    assert(accepts(s, h.take(33)));
    assert(accepts(s, h.take(34)));
    assert(accepts(s, h.take(35)));
    assert(accepts(s, h.take(36)));
    assert(accepts(s, h.take(37)));
    assert(accepts(s, h.take(38)));
    assert(accepts(s, h.take(39)));
    law_sorting_rearranges(h[38]->Ids_0@);
}

/// Answers like these are accepted.
pub proof fn law_each_partition_has_its_own_time_which_is_enough(h: Seq<Reply>)
    requires
        h.len() > 37,
        h[30] is Partition,
        h[31] is ObjectStoreIds && h[31]->ObjectStoreIds_0@.len() == 1,
        h[32] is File,
        h[33] is Done,
        h[34] is Time,
        h[35] is Done,
        h[36] is Ids && h[36]->Ids_0@ == seq![expect::partition(h, PARTITION_1).id],
        h[37] is Ids && h[37]->Ids_0@ == seq![expect::partition(h, PARTITION_2).id],
    ensures
        accepts(ScenarioView::PartitionsNewFileBetween, h.take(31)),
        accepts(ScenarioView::PartitionsNewFileBetween, h.take(32)),
        accepts(ScenarioView::PartitionsNewFileBetween, h.take(33)),
        accepts(ScenarioView::PartitionsNewFileBetween, h.take(34)),
        accepts(ScenarioView::PartitionsNewFileBetween, h.take(35)),
        accepts(ScenarioView::PartitionsNewFileBetween, h.take(36)),
        accepts(ScenarioView::PartitionsNewFileBetween, h.take(37)),
        accepts(ScenarioView::PartitionsNewFileBetween, h.take(38)),
{
    assert(h.take(31).last() == h[30]);
    assert(h.take(32).last() == h[31]);
    assert(h.take(33).last() == h[32]);
    assert(h.take(34).last() == h[33]);
    assert(h.take(35).last() == h[34]);
    assert(h.take(36).last() == h[35]);
    assert(h.take(37).last() == h[36]);
    assert(h.take(38).last() == h[37]);
}

/// Files of later levels do not make a partition found.
pub proof fn law_only_files_of_the_first_level_are_new(h: Seq<Reply>)
    requires
        passes(ScenarioView::PartitionsNewFileBetween, h),
    ensures
        asked(h, 39) == RequestView::Value(ValueRequestView::NewObjectStoreIds { count: 1 }),
        h[39] is ObjectStoreIds && h[39]->ObjectStoreIds_0@.len() == 1,
        asked(h, 40) == RequestView::ParquetFiles(
            ParquetFilesRequestView::Create { params: level_1_params(h) },
        ),
        h[40] is File,
        asked(h, 41) == RequestView::Partitions(
            PartitionsRequestView::NewFileBetween {
                minimum_time: expect::time(h, TIME_E),
                maximum_time: None,
            },
        ),
        h[41] is Ids && h[41]->Ids_0@.len() == 0,
        asked(h, 42) == RequestView::Value(ValueRequestView::NewObjectStoreIds { count: 1 }),
        h[42] is ObjectStoreIds && h[42]->ObjectStoreIds_0@.len() == 1,
        asked(h, 43) == RequestView::ParquetFiles(
            ParquetFilesRequestView::Create { params: update_params(h) },
        ),
        h[43] is File,
        asked(h, 44) == RequestView::Partitions(
            PartitionsRequestView::NewFileBetween {
                minimum_time: expect::time(h, TIME_E),
                maximum_time: None,
            },
        ),
        h[44] is Ids && h[44]->Ids_0@ == seq![expect::partition(h, PARTITION_2).id],
        asked(h, 45) == RequestView::Partitions(
            PartitionsRequestView::NewFileBetween {
                minimum_time: expect::time(h, TIME_D),
                maximum_time: Some(expect::time(h, TIME_E)),
            },
        ),
        h[45] is Ids && h[45]->Ids_0@.len() == 0,
        asked(h, 46) == RequestView::Partitions(
            PartitionsRequestView::CreateOrGet {
                key: "three"@,
                table_id: expect::table(h, TABLE).id,
            },
        ),
        h[46] is Partition,
        asked(h, 47) == RequestView::Value(ValueRequestView::NewObjectStoreIds { count: 1 }),
        h[47] is ObjectStoreIds && h[47]->ObjectStoreIds_0@.len() == 1,
        asked(h, 48) == RequestView::ParquetFiles(
            ParquetFilesRequestView::Create { params: level_2_params(h) },
        ),
        h[48] is File,
        asked(h, 49) == RequestView::Partitions(
            PartitionsRequestView::NewFileBetween {
                minimum_time: expect::time(h, TIME_B),
                maximum_time: None,
            },
        ),
        h[49] is Ids && h[49]->Ids_0@.to_multiset() == seq![
            expect::partition(h, PARTITION_1).id,
            expect::partition(h, PARTITION_2).id,
        ].to_multiset(),
        expect::partition(h, PARTITION_1).id <= expect::partition(h, PARTITION_2).id,
{
    let s = ScenarioView::PartitionsNewFileBetween;
    assert(accepts(s, h.take(40)));
    assert(accepts(s, h.take(41)));
    assert(accepts(s, h.take(42)));
    assert(accepts(s, h.take(43)));
    assert(accepts(s, h.take(44)));
    assert(accepts(s, h.take(45)));
    assert(accepts(s, h.take(46)));
    assert(accepts(s, h.take(47)));
    assert(accepts(s, h.take(48)));
    assert(accepts(s, h.take(49)));
    assert(accepts(s, h.take(50)));
    law_sorting_rearranges(h[49]->Ids_0@);
}

/// Answers like these are accepted.
pub proof fn law_only_files_of_the_first_level_are_new_which_is_enough(h: Seq<Reply>)
    requires
        h.len() > 48,
        h[39] is ObjectStoreIds && h[39]->ObjectStoreIds_0@.len() == 1,
        h[40] is File,
        h[41] is Ids && h[41]->Ids_0@.len() == 0,
        h[42] is ObjectStoreIds && h[42]->ObjectStoreIds_0@.len() == 1,
        h[43] is File,
        h[44] is Ids && h[44]->Ids_0@ == seq![expect::partition(h, PARTITION_2).id],
        h[45] is Ids && h[45]->Ids_0@.len() == 0,
        h[46] is Partition,
        h[47] is ObjectStoreIds && h[47]->ObjectStoreIds_0@.len() == 1,
        h[48] is File,
    ensures
        accepts(ScenarioView::PartitionsNewFileBetween, h.take(40)),
        accepts(ScenarioView::PartitionsNewFileBetween, h.take(41)),
        accepts(ScenarioView::PartitionsNewFileBetween, h.take(42)),
        accepts(ScenarioView::PartitionsNewFileBetween, h.take(43)),
        accepts(ScenarioView::PartitionsNewFileBetween, h.take(44)),
        accepts(ScenarioView::PartitionsNewFileBetween, h.take(45)),
        accepts(ScenarioView::PartitionsNewFileBetween, h.take(46)),
        accepts(ScenarioView::PartitionsNewFileBetween, h.take(47)),
        accepts(ScenarioView::PartitionsNewFileBetween, h.take(48)),
        accepts(ScenarioView::PartitionsNewFileBetween, h.take(49)),
{
    assert(h.take(40).last() == h[39]);
    assert(h.take(41).last() == h[40]);
    assert(h.take(42).last() == h[41]);
    assert(h.take(43).last() == h[42]);
    assert(h.take(44).last() == h[43]);
    assert(h.take(45).last() == h[44]);
    assert(h.take(46).last() == h[45]);
    assert(h.take(47).last() == h[46]);
    assert(h.take(48).last() == h[47]);
    assert(h.take(49).last() == h[48]);
}

/// What the parameters of the files are that are created.
pub proof fn law_parameters_of_new_files(h: Seq<Reply>)
    ensures
        active_params(h) == (
            ParquetFileParamsView {
                object_store_id: expect::uuid(h, ACTIVE_ID),
                ..expect::params(h, PARAMS)
            }
        ),
        params_2(h) == (
            ParquetFileParamsView {
                object_store_id: expect::uuid(h, ID_2),
                partition_id: expect::partition(h, PARTITION_2).id,
                partition_hash_id: expect::partition(h, PARTITION_2).hash_id,
                ..expect::params(h, PARAMS)
            }
        ),
        level_1_params(h) == (
            ParquetFileParamsView {
                object_store_id: expect::uuid(h, LEVEL_1_ID),
                partition_id: expect::partition(h, PARTITION_2).id,
                partition_hash_id: expect::partition(h, PARTITION_2).hash_id,
                compaction_level: CompactionLevel::FileNonOverlapped,
                ..expect::params(h, PARAMS)
            }
        ),
        update_params(h) == (
            ParquetFileParamsView {
                object_store_id: expect::uuid(h, UPDATE_ID),
                partition_id: expect::partition(h, PARTITION_2).id,
                partition_hash_id: expect::partition(h, PARTITION_2).hash_id,
                compaction_level: CompactionLevel::Initial,
                ..expect::params(h, PARAMS)
            }
        ),
        level_2_params(h) == (
            ParquetFileParamsView {
                object_store_id: expect::uuid(h, LEVEL_2_ID),
                partition_id: expect::partition(h, PARTITION_3).id,
                partition_hash_id: expect::partition(h, PARTITION_3).hash_id,
                compaction_level: CompactionLevel::Final,
                ..expect::params(h, PARAMS)
            }
        ),
{
}

} // verus!
