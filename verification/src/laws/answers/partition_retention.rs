//! What is asked of a catalog before partitions are removed because their data is too old.
use crate::expect;
use crate::reply::Reply;
use crate::request::{
    CatalogRequestView, HelperRequestView, NamespacesRequestView, ParquetFilesRequestView,
    PartitionsRequestView, RequestView, ScenarioView, ValueRequestView,
};
use crate::run;
use crate::run::{accepts, passes};
use crate::scenarios::test_partition_retention::{
    DATE_0, DATE_1, DATE_10, DATE_11, DATE_2, DATE_3, DATE_4, DATE_5, DATE_6, DATE_7, DATE_8,
    DATE_9, DAY, HOURS_25, NAMESPACE, NOW_1, NOW_2, PARAMS_10, PARAMS_11, PARAMS_15, PARAMS_16,
    PARAMS_17, PARAMS_6, PARAMS_7, PARAMS_8, PARAMS_9, PARTITION_10, PARTITION_11, PARTITION_15,
    PARTITION_16, PARTITION_17, PARTITION_6, PARTITION_7, PARTITION_8, PARTITION_9, TABLE,
    TWO_WEEKS, WEEK,
};
use vstd::prelude::*;

verus! {

/// What step `k` asks for.
pub open spec fn asked(h: Seq<Reply>, k: int) -> RequestView {
    run::request(ScenarioView::PartitionRetention, h.take(k))
}

/// A namespace that keeps data for a week gets a table with partitions whose keys show dates.
pub proof fn law_candidates_with_dates_are_created(h: Seq<Reply>)
    requires
        passes(ScenarioView::PartitionRetention, h),
    ensures
        asked(h, 0) == RequestView::Catalog(CatalogRequestView::Now),
        h[0] is Time && i64::MIN <= expect::time(h, NOW_1) + -TWO_WEEKS <= i64::MAX,
        asked(h, 1) == RequestView::Catalog(CatalogRequestView::Now),
        h[1] is Time && i64::MIN <= expect::time(h, NOW_2) + -HOURS_25 <= i64::MAX,
        asked(h, 2) == RequestView::Namespaces(
            NamespacesRequestView::Create {
                name: "test_partition_retention"@,
                partition_template: None,
                retention_period_ns: Some(WEEK),
            },
        ),
        h[2] is Namespace,
        asked(h, 3) == RequestView::Helper(
            HelperRequestView::ArbitraryTable {
                name: "test_partition_retention"@,
                namespace: expect::namespace(h, NAMESPACE),
            },
        ),
        h[3] is Table,
        asked(h, 4) == RequestView::Value(
            ValueRequestView::DateText { time: (expect::time(h, NOW_1) - 2 * DAY) as i64 },
        ),
        h[4] is Text,
        asked(h, 5) == RequestView::Helper(
            HelperRequestView::PartitionWithCreatedAt {
                key: expect::text(h, DATE_0),
                table_id: expect::table(h, TABLE).id,
                created_at: Some(expect::time(h, NOW_1)),
            },
        ),
        h[5] is Partition,
        asked(h, 6) == RequestView::Value(
            ValueRequestView::DateText { time: (expect::time(h, NOW_1) - 3 * DAY) as i64 },
        ),
        h[6] is Text,
        asked(h, 7) == RequestView::Helper(
            HelperRequestView::PartitionWithCreatedAt {
                key: expect::text(h, DATE_1),
                table_id: expect::table(h, TABLE).id,
                created_at: Some((expect::time(h, NOW_2) - HOURS_25) as i64),
            },
        ),
        h[7] is Partition,
        asked(h, 8) == RequestView::Value(
            ValueRequestView::DateText { time: (expect::time(h, NOW_1) - 4 * DAY) as i64 },
        ),
        h[8] is Text,
        asked(h, 9) == RequestView::Helper(
            HelperRequestView::PartitionWithCreatedAt {
                key: expect::text(h, DATE_2),
                table_id: expect::table(h, TABLE).id,
                created_at: None,
            },
        ),
        h[9] is Partition,
        asked(h, 10) == RequestView::Value(
            ValueRequestView::DateText { time: (expect::time(h, NOW_1) - 9 * DAY) as i64 },
        ),
        h[10] is Text,
        asked(h, 11) == RequestView::Helper(
            HelperRequestView::PartitionWithCreatedAt {
                key: expect::text(h, DATE_3),
                table_id: expect::table(h, TABLE).id,
                created_at: Some(expect::time(h, NOW_1)),
            },
        ),
        h[11] is Partition,
        asked(h, 12) == RequestView::Value(
            ValueRequestView::DateText { time: (expect::time(h, NOW_1) - 10 * DAY) as i64 },
        ),
        h[12] is Text,
        asked(h, 13) == RequestView::Helper(
            HelperRequestView::PartitionWithCreatedAt {
                key: expect::text(h, DATE_4),
                table_id: expect::table(h, TABLE).id,
                created_at: Some((expect::time(h, NOW_2) - HOURS_25) as i64),
            },
        ),
        h[13] is Partition,
        asked(h, 14) == RequestView::Value(
            ValueRequestView::DateText { time: (expect::time(h, NOW_1) - 11 * DAY) as i64 },
        ),
        h[14] is Text,
        asked(h, 15) == RequestView::Helper(
            HelperRequestView::PartitionWithCreatedAt {
                key: expect::text(h, DATE_5),
                table_id: expect::table(h, TABLE).id,
                created_at: None,
            },
        ),
        h[15] is Partition,
        asked(h, 16) == RequestView::Value(
            ValueRequestView::DateText { time: (expect::time(h, NOW_1) - 5 * DAY) as i64 },
        ),
        h[16] is Text,
        asked(h, 17) == RequestView::Helper(
            HelperRequestView::PartitionWithCreatedAt {
                key: expect::text(h, DATE_6),
                table_id: expect::table(h, TABLE).id,
                created_at: Some(expect::time(h, NOW_1)),
            },
        ),
        h[17] is Partition,
        WEEK == 7 * DAY && TWO_WEEKS == 14 * DAY && HOURS_25 == DAY + 60 * 60 * 1_000_000_000,
        DAY == 24 * 60 * 60 * 1_000_000_000,
{
    let s = ScenarioView::PartitionRetention;
    assert(accepts(s, h.take(1)));
    assert(accepts(s, h.take(2)));
    assert(accepts(s, h.take(3)));
    assert(accepts(s, h.take(4)));
    assert(accepts(s, h.take(5)));
    assert(accepts(s, h.take(6)));
    assert(accepts(s, h.take(7)));
    assert(accepts(s, h.take(8)));
    assert(accepts(s, h.take(9)));
    assert(accepts(s, h.take(10)));
    assert(accepts(s, h.take(11)));
    assert(accepts(s, h.take(12)));
    assert(accepts(s, h.take(13)));
    assert(accepts(s, h.take(14)));
    assert(accepts(s, h.take(15)));
    assert(accepts(s, h.take(16)));
    assert(accepts(s, h.take(17)));
    assert(accepts(s, h.take(18)));
}

/// Answers like these are accepted.
pub proof fn law_candidates_with_dates_are_created_which_is_enough(h: Seq<Reply>)
    requires
        h.len() > 17,
        h[0] is Time && i64::MIN <= expect::time(h, NOW_1) + -TWO_WEEKS <= i64::MAX,
        h[1] is Time && i64::MIN <= expect::time(h, NOW_2) + -HOURS_25 <= i64::MAX,
        h[2] is Namespace,
        h[3] is Table,
        h[4] is Text,
        h[5] is Partition,
        h[6] is Text,
        h[7] is Partition,
        h[8] is Text,
        h[9] is Partition,
        h[10] is Text,
        h[11] is Partition,
        h[12] is Text,
        h[13] is Partition,
        h[14] is Text,
        h[15] is Partition,
        h[16] is Text,
        h[17] is Partition,
    ensures
        accepts(ScenarioView::PartitionRetention, h.take(1)),
        accepts(ScenarioView::PartitionRetention, h.take(2)),
        accepts(ScenarioView::PartitionRetention, h.take(3)),
        accepts(ScenarioView::PartitionRetention, h.take(4)),
        accepts(ScenarioView::PartitionRetention, h.take(5)),
        accepts(ScenarioView::PartitionRetention, h.take(6)),
        accepts(ScenarioView::PartitionRetention, h.take(7)),
        accepts(ScenarioView::PartitionRetention, h.take(8)),
        accepts(ScenarioView::PartitionRetention, h.take(9)),
        accepts(ScenarioView::PartitionRetention, h.take(10)),
        accepts(ScenarioView::PartitionRetention, h.take(11)),
        accepts(ScenarioView::PartitionRetention, h.take(12)),
        accepts(ScenarioView::PartitionRetention, h.take(13)),
        accepts(ScenarioView::PartitionRetention, h.take(14)),
        accepts(ScenarioView::PartitionRetention, h.take(15)),
        accepts(ScenarioView::PartitionRetention, h.take(16)),
        accepts(ScenarioView::PartitionRetention, h.take(17)),
        accepts(ScenarioView::PartitionRetention, h.take(18)),
{
    assert(h.take(1).last() == h[0]);
    assert(h.take(2).last() == h[1]);
    assert(h.take(3).last() == h[2]);
    assert(h.take(4).last() == h[3]);
    assert(h.take(5).last() == h[4]);
    assert(h.take(6).last() == h[5]);
    assert(h.take(7).last() == h[6]);
    assert(h.take(8).last() == h[7]);
    assert(h.take(9).last() == h[8]);
    assert(h.take(10).last() == h[9]);
    assert(h.take(11).last() == h[10]);
    assert(h.take(12).last() == h[11]);
    assert(h.take(13).last() == h[12]);
    assert(h.take(14).last() == h[13]);
    assert(h.take(15).last() == h[14]);
    assert(h.take(16).last() == h[15]);
    assert(h.take(17).last() == h[16]);
    assert(h.take(18).last() == h[17]);
}

/// Others get a file.
pub proof fn law_candidates_with_files_are_created(h: Seq<Reply>)
    requires
        passes(ScenarioView::PartitionRetention, h),
    ensures
        asked(h, 18) == RequestView::Helper(
            HelperRequestView::ArbitraryParquetFileParams {
                namespace: expect::namespace(h, NAMESPACE),
                table: expect::table(h, TABLE),
                partition: expect::partition(h, PARTITION_6),
            },
        ),
        h[18] is Params,
        asked(h, 19) == RequestView::ParquetFiles(
            ParquetFilesRequestView::Create { params: expect::params(h, PARAMS_6) },
        ),
        h[19] is File,
        asked(h, 20) == RequestView::Value(
            ValueRequestView::DateText { time: (expect::time(h, NOW_1) - 6 * DAY) as i64 },
        ),
        h[20] is Text,
        asked(h, 21) == RequestView::Helper(
            HelperRequestView::PartitionWithCreatedAt {
                key: expect::text(h, DATE_7),
                table_id: expect::table(h, TABLE).id,
                created_at: Some((expect::time(h, NOW_2) - HOURS_25) as i64),
            },
        ),
        h[21] is Partition,
        asked(h, 22) == RequestView::Helper(
            HelperRequestView::ArbitraryParquetFileParams {
                namespace: expect::namespace(h, NAMESPACE),
                table: expect::table(h, TABLE),
                partition: expect::partition(h, PARTITION_7),
            },
        ),
        h[22] is Params,
        asked(h, 23) == RequestView::ParquetFiles(
            ParquetFilesRequestView::Create { params: expect::params(h, PARAMS_7) },
        ),
        h[23] is File,
        asked(h, 24) == RequestView::Value(
            ValueRequestView::DateText { time: (expect::time(h, NOW_1) - 7 * DAY) as i64 },
        ),
        h[24] is Text,
        asked(h, 25) == RequestView::Helper(
            HelperRequestView::PartitionWithCreatedAt {
                key: expect::text(h, DATE_8),
                table_id: expect::table(h, TABLE).id,
                created_at: None,
            },
        ),
        h[25] is Partition,
        asked(h, 26) == RequestView::Helper(
            HelperRequestView::ArbitraryParquetFileParams {
                namespace: expect::namespace(h, NAMESPACE),
                table: expect::table(h, TABLE),
                partition: expect::partition(h, PARTITION_8),
            },
        ),
        h[26] is Params,
        asked(h, 27) == RequestView::ParquetFiles(
            ParquetFilesRequestView::Create { params: expect::params(h, PARAMS_8) },
        ),
        h[27] is File,
        asked(h, 28) == RequestView::Value(
            ValueRequestView::DateText { time: (expect::time(h, NOW_1) - 12 * DAY) as i64 },
        ),
        h[28] is Text,
        asked(h, 29) == RequestView::Helper(
            HelperRequestView::PartitionWithCreatedAt {
                key: expect::text(h, DATE_9),
                table_id: expect::table(h, TABLE).id,
                created_at: Some(expect::time(h, NOW_1)),
            },
        ),
        h[29] is Partition,
        asked(h, 30) == RequestView::Helper(
            HelperRequestView::ArbitraryParquetFileParams {
                namespace: expect::namespace(h, NAMESPACE),
                table: expect::table(h, TABLE),
                partition: expect::partition(h, PARTITION_9),
            },
        ),
        h[30] is Params,
        asked(h, 31) == RequestView::ParquetFiles(
            ParquetFilesRequestView::Create { params: expect::params(h, PARAMS_9) },
        ),
        h[31] is File,
        asked(h, 32) == RequestView::Value(
            ValueRequestView::DateText { time: (expect::time(h, NOW_1) - 13 * DAY) as i64 },
        ),
        h[32] is Text,
        asked(h, 33) == RequestView::Helper(
            HelperRequestView::PartitionWithCreatedAt {
                key: expect::text(h, DATE_10),
                table_id: expect::table(h, TABLE).id,
                created_at: Some((expect::time(h, NOW_2) - HOURS_25) as i64),
            },
        ),
        h[33] is Partition,
        asked(h, 34) == RequestView::Helper(
            HelperRequestView::ArbitraryParquetFileParams {
                namespace: expect::namespace(h, NAMESPACE),
                table: expect::table(h, TABLE),
                partition: expect::partition(h, PARTITION_10),
            },
        ),
        h[34] is Params,
        asked(h, 35) == RequestView::ParquetFiles(
            ParquetFilesRequestView::Create { params: expect::params(h, PARAMS_10) },
        ),
        h[35] is File,
        asked(h, 36) == RequestView::Value(
            ValueRequestView::DateText { time: (expect::time(h, NOW_1) - 14 * DAY) as i64 },
        ),
        h[36] is Text,
        asked(h, 37) == RequestView::Helper(
            HelperRequestView::PartitionWithCreatedAt {
                key: expect::text(h, DATE_11),
                table_id: expect::table(h, TABLE).id,
                created_at: None,
            },
        ),
        h[37] is Partition,
        asked(h, 38) == RequestView::Helper(
            HelperRequestView::ArbitraryParquetFileParams {
                namespace: expect::namespace(h, NAMESPACE),
                table: expect::table(h, TABLE),
                partition: expect::partition(h, PARTITION_11),
            },
        ),
        h[38] is Params,
        asked(h, 39) == RequestView::ParquetFiles(
            ParquetFilesRequestView::Create { params: expect::params(h, PARAMS_11) },
        ),
        h[39] is File,
{
    let s = ScenarioView::PartitionRetention;
    assert(accepts(s, h.take(19)));
    assert(accepts(s, h.take(20)));
    assert(accepts(s, h.take(21)));
    assert(accepts(s, h.take(22)));
    assert(accepts(s, h.take(23)));
    assert(accepts(s, h.take(24)));
    assert(accepts(s, h.take(25)));
    assert(accepts(s, h.take(26)));
    assert(accepts(s, h.take(27)));
    assert(accepts(s, h.take(28)));
    assert(accepts(s, h.take(29)));
    assert(accepts(s, h.take(30)));
    assert(accepts(s, h.take(31)));
    assert(accepts(s, h.take(32)));
    assert(accepts(s, h.take(33)));
    assert(accepts(s, h.take(34)));
    assert(accepts(s, h.take(35)));
    assert(accepts(s, h.take(36)));
    assert(accepts(s, h.take(37)));
    assert(accepts(s, h.take(38)));
    assert(accepts(s, h.take(39)));
    assert(accepts(s, h.take(40)));
}

/// Answers like these are accepted.
pub proof fn law_candidates_with_files_are_created_which_is_enough(h: Seq<Reply>)
    requires
        h.len() > 39,
        h[18] is Params,
        h[19] is File,
        h[20] is Text,
        h[21] is Partition,
        h[22] is Params,
        h[23] is File,
        h[24] is Text,
        h[25] is Partition,
        h[26] is Params,
        h[27] is File,
        h[28] is Text,
        h[29] is Partition,
        h[30] is Params,
        h[31] is File,
        h[32] is Text,
        h[33] is Partition,
        h[34] is Params,
        h[35] is File,
        h[36] is Text,
        h[37] is Partition,
        h[38] is Params,
        h[39] is File,
    ensures
        accepts(ScenarioView::PartitionRetention, h.take(19)),
        accepts(ScenarioView::PartitionRetention, h.take(20)),
        accepts(ScenarioView::PartitionRetention, h.take(21)),
        accepts(ScenarioView::PartitionRetention, h.take(22)),
        accepts(ScenarioView::PartitionRetention, h.take(23)),
        accepts(ScenarioView::PartitionRetention, h.take(24)),
        accepts(ScenarioView::PartitionRetention, h.take(25)),
        accepts(ScenarioView::PartitionRetention, h.take(26)),
        accepts(ScenarioView::PartitionRetention, h.take(27)),
        accepts(ScenarioView::PartitionRetention, h.take(28)),
        accepts(ScenarioView::PartitionRetention, h.take(29)),
        accepts(ScenarioView::PartitionRetention, h.take(30)),
        accepts(ScenarioView::PartitionRetention, h.take(31)),
        accepts(ScenarioView::PartitionRetention, h.take(32)),
        accepts(ScenarioView::PartitionRetention, h.take(33)),
        accepts(ScenarioView::PartitionRetention, h.take(34)),
        accepts(ScenarioView::PartitionRetention, h.take(35)),
        accepts(ScenarioView::PartitionRetention, h.take(36)),
        accepts(ScenarioView::PartitionRetention, h.take(37)),
        accepts(ScenarioView::PartitionRetention, h.take(38)),
        accepts(ScenarioView::PartitionRetention, h.take(39)),
        accepts(ScenarioView::PartitionRetention, h.take(40)),
{
    assert(h.take(19).last() == h[18]);
    assert(h.take(20).last() == h[19]);
    assert(h.take(21).last() == h[20]);
    assert(h.take(22).last() == h[21]);
    assert(h.take(23).last() == h[22]);
    assert(h.take(24).last() == h[23]);
    assert(h.take(25).last() == h[24]);
    assert(h.take(26).last() == h[25]);
    assert(h.take(27).last() == h[26]);
    assert(h.take(28).last() == h[27]);
    assert(h.take(29).last() == h[28]);
    assert(h.take(30).last() == h[29]);
    assert(h.take(31).last() == h[30]);
    assert(h.take(32).last() == h[31]);
    assert(h.take(33).last() == h[32]);
    assert(h.take(34).last() == h[33]);
    assert(h.take(35).last() == h[34]);
    assert(h.take(36).last() == h[35]);
    assert(h.take(37).last() == h[36]);
    assert(h.take(38).last() == h[37]);
    assert(h.take(39).last() == h[38]);
    assert(h.take(40).last() == h[39]);
}

/// The keys of others show no date. Then partitions are removed, and those that are left are
/// listed.
pub proof fn law_candidates_without_dates_are_created(h: Seq<Reply>)
    requires
        passes(ScenarioView::PartitionRetention, h),
    ensures
        asked(h, 40) == RequestView::Helper(
            HelperRequestView::PartitionWithCreatedAt {
                key: "0"@,
                table_id: expect::table(h, TABLE).id,
                created_at: Some(expect::time(h, NOW_1)),
            },
        ),
        h[40] is Partition,
        asked(h, 41) == RequestView::Helper(
            HelperRequestView::PartitionWithCreatedAt {
                key: "1"@,
                table_id: expect::table(h, TABLE).id,
                created_at: Some((expect::time(h, NOW_2) - HOURS_25) as i64),
            },
        ),
        h[41] is Partition,
        asked(h, 42) == RequestView::Helper(
            HelperRequestView::PartitionWithCreatedAt {
                key: "2"@,
                table_id: expect::table(h, TABLE).id,
                created_at: None,
            },
        ),
        h[42] is Partition,
        asked(h, 43) == RequestView::Helper(
            HelperRequestView::PartitionWithCreatedAt {
                key: "3"@,
                table_id: expect::table(h, TABLE).id,
                created_at: Some(expect::time(h, NOW_1)),
            },
        ),
        h[43] is Partition,
        asked(h, 44) == RequestView::Helper(
            HelperRequestView::ArbitraryParquetFileParams {
                namespace: expect::namespace(h, NAMESPACE),
                table: expect::table(h, TABLE),
                partition: expect::partition(h, PARTITION_15),
            },
        ),
        h[44] is Params,
        asked(h, 45) == RequestView::ParquetFiles(
            ParquetFilesRequestView::Create { params: expect::params(h, PARAMS_15) },
        ),
        h[45] is File,
        asked(h, 46) == RequestView::Helper(
            HelperRequestView::PartitionWithCreatedAt {
                key: "4"@,
                table_id: expect::table(h, TABLE).id,
                created_at: Some((expect::time(h, NOW_2) - HOURS_25) as i64),
            },
        ),
        h[46] is Partition,
        asked(h, 47) == RequestView::Helper(
            HelperRequestView::ArbitraryParquetFileParams {
                namespace: expect::namespace(h, NAMESPACE),
                table: expect::table(h, TABLE),
                partition: expect::partition(h, PARTITION_16),
            },
        ),
        h[47] is Params,
        asked(h, 48) == RequestView::ParquetFiles(
            ParquetFilesRequestView::Create { params: expect::params(h, PARAMS_16) },
        ),
        h[48] is File,
        asked(h, 49) == RequestView::Helper(
            HelperRequestView::PartitionWithCreatedAt {
                key: "5"@,
                table_id: expect::table(h, TABLE).id,
                created_at: None,
            },
        ),
        h[49] is Partition,
        asked(h, 50) == RequestView::Helper(
            HelperRequestView::ArbitraryParquetFileParams {
                namespace: expect::namespace(h, NAMESPACE),
                table: expect::table(h, TABLE),
                partition: expect::partition(h, PARTITION_17),
            },
        ),
        h[50] is Params,
        asked(h, 51) == RequestView::ParquetFiles(
            ParquetFilesRequestView::Create { params: expect::params(h, PARAMS_17) },
        ),
        h[51] is File,
        asked(h, 52) == RequestView::Partitions(PartitionsRequestView::DeleteByRetention),
        asked(h, 53) == RequestView::Partitions(PartitionsRequestView::ListIds),
        h[52] is Retired && h[53] is Ids,
{
    let s = ScenarioView::PartitionRetention;
    assert(accepts(s, h.take(41)));
    assert(accepts(s, h.take(42)));
    assert(accepts(s, h.take(43)));
    assert(accepts(s, h.take(44)));
    assert(accepts(s, h.take(45)));
    assert(accepts(s, h.take(46)));
    assert(accepts(s, h.take(47)));
    assert(accepts(s, h.take(48)));
    assert(accepts(s, h.take(49)));
    assert(accepts(s, h.take(50)));
    assert(accepts(s, h.take(51)));
    assert(accepts(s, h.take(52)));
    assert(accepts(s, h.take(53)));
    assert(accepts(s, h.take(54)));
}

/// Answers like these are accepted.
pub proof fn law_candidates_without_dates_are_created_which_is_enough(h: Seq<Reply>)
    requires
        h.len() > 51,
        h[40] is Partition,
        h[41] is Partition,
        h[42] is Partition,
        h[43] is Partition,
        h[44] is Params,
        h[45] is File,
        h[46] is Partition,
        h[47] is Params,
        h[48] is File,
        h[49] is Partition,
        h[50] is Params,
        h[51] is File,
    ensures
        accepts(ScenarioView::PartitionRetention, h.take(41)),
        accepts(ScenarioView::PartitionRetention, h.take(42)),
        accepts(ScenarioView::PartitionRetention, h.take(43)),
        accepts(ScenarioView::PartitionRetention, h.take(44)),
        accepts(ScenarioView::PartitionRetention, h.take(45)),
        accepts(ScenarioView::PartitionRetention, h.take(46)),
        accepts(ScenarioView::PartitionRetention, h.take(47)),
        accepts(ScenarioView::PartitionRetention, h.take(48)),
        accepts(ScenarioView::PartitionRetention, h.take(49)),
        accepts(ScenarioView::PartitionRetention, h.take(50)),
        accepts(ScenarioView::PartitionRetention, h.take(51)),
        accepts(ScenarioView::PartitionRetention, h.take(52)),
{
    assert(h.take(41).last() == h[40]);
    assert(h.take(42).last() == h[41]);
    assert(h.take(43).last() == h[42]);
    assert(h.take(44).last() == h[43]);
    assert(h.take(45).last() == h[44]);
    assert(h.take(46).last() == h[45]);
    assert(h.take(47).last() == h[46]);
    assert(h.take(48).last() == h[47]);
    assert(h.take(49).last() == h[48]);
    assert(h.take(50).last() == h[49]);
    assert(h.take(51).last() == h[50]);
    assert(h.take(52).last() == h[51]);
}

} // verus!
