//! Partitions that hold nothing and never will again are removed.
use crate::check;
use crate::expect;
use crate::reply::Reply;
use crate::request::{
    CatalogRequest, CatalogRequestView, HelperRequest, HelperRequestView, NamespacesRequest,
    NamespacesRequestView, ParquetFilesRequest, ParquetFilesRequestView, PartitionsRequest,
    PartitionsRequestView, Request, RequestView, ScenarioView, ValueRequest, ValueRequestView,
};
use crate::retention::{candidate, get_candidate, Created, CANDIDATES};
use crate::run;
use crate::run::accepted;
use vstd::prelude::*;

verus! {

/// The step that gives the time.
pub const NOW_1: usize = 0;

/// The step that gives the time once more.
pub const NOW_2: usize = 1;

/// The step that gives a namespace that keeps its data for a week.
pub const NAMESPACE: usize = 2;

/// The step that gives its table.
pub const TABLE: usize = 3;

/// The step that gives the date 2 days ago.
pub const DATE_0: usize = 4;

/// The step that gives the partition of candidate 0.
pub const PARTITION_0: usize = 5;

/// The step that gives the date 3 days ago.
pub const DATE_1: usize = 6;

/// The step that gives the partition of candidate 1.
pub const PARTITION_1: usize = 7;

/// The step that gives the date 4 days ago.
pub const DATE_2: usize = 8;

/// The step that gives the partition of candidate 2.
pub const PARTITION_2: usize = 9;

/// The step that gives the date 9 days ago.
pub const DATE_3: usize = 10;

/// The step that gives the partition of candidate 3.
pub const PARTITION_3: usize = 11;

/// The step that gives the date 10 days ago.
pub const DATE_4: usize = 12;

/// The step that gives the partition of candidate 4.
pub const PARTITION_4: usize = 13;

/// The step that gives the date 11 days ago.
pub const DATE_5: usize = 14;

/// The step that gives the partition of candidate 5.
pub const PARTITION_5: usize = 15;

/// The step that gives the date 5 days ago.
pub const DATE_6: usize = 16;

/// The step that gives the partition of candidate 6.
pub const PARTITION_6: usize = 17;

/// The step that gives the parameters of its file.
pub const PARAMS_6: usize = 18;

/// The step that gives the date 6 days ago.
pub const DATE_7: usize = 20;

/// The step that gives the partition of candidate 7.
pub const PARTITION_7: usize = 21;

/// The step that gives the parameters of its file.
pub const PARAMS_7: usize = 22;

/// The step that gives the date 7 days ago.
pub const DATE_8: usize = 24;

/// The step that gives the partition of candidate 8.
pub const PARTITION_8: usize = 25;

/// The step that gives the parameters of its file.
pub const PARAMS_8: usize = 26;

/// The step that gives the date 12 days ago.
pub const DATE_9: usize = 28;

/// The step that gives the partition of candidate 9.
pub const PARTITION_9: usize = 29;

/// The step that gives the parameters of its file.
pub const PARAMS_9: usize = 30;

/// The step that gives the date 13 days ago.
pub const DATE_10: usize = 32;

/// The step that gives the partition of candidate 10.
pub const PARTITION_10: usize = 33;

/// The step that gives the parameters of its file.
pub const PARAMS_10: usize = 34;

/// The step that gives the date 14 days ago.
pub const DATE_11: usize = 36;

/// The step that gives the partition of candidate 11.
pub const PARTITION_11: usize = 37;

/// The step that gives the parameters of its file.
pub const PARAMS_11: usize = 38;

/// The step that gives the partition of candidate 12.
pub const PARTITION_12: usize = 40;

/// The step that gives the partition of candidate 13.
pub const PARTITION_13: usize = 41;

/// The step that gives the partition of candidate 14.
pub const PARTITION_14: usize = 42;

/// The step that gives the partition of candidate 15.
pub const PARTITION_15: usize = 43;

/// The step that gives the parameters of its file.
pub const PARAMS_15: usize = 44;

/// The step that gives the partition of candidate 16.
pub const PARTITION_16: usize = 46;

/// The step that gives the parameters of its file.
pub const PARAMS_16: usize = 47;

/// The step that gives the partition of candidate 17.
pub const PARTITION_17: usize = 49;

/// The step that gives the parameters of its file.
pub const PARAMS_17: usize = 50;

/// A day.
pub const DAY: i64 = 86_400_000_000_000;

/// A week.
pub const WEEK: i64 = 604_800_000_000_000;

/// Two weeks, the age of the oldest date.
pub const TWO_WEEKS: i64 = 1_209_600_000_000_000;

/// A bit over a day.
pub const HOURS_25: i64 = 90_000_000_000_000;

/// How many requests there are.
pub const LENGTH: usize = 54;

/// When a partition was created, in nanoseconds.
pub open spec fn created_at(h: Seq<Reply>, created: Created) -> Option<i64> {
    match created {
        Created::Now => Some(expect::time(h, NOW_1)),
        Created::OverOneDayAgo => Some(expect::shifted(h, NOW_2, (-HOURS_25) as i64)),
        Created::Unknown => None,
    }
}

/// The time some days ago.
pub open spec fn days_before(h: Seq<Reply>, days: i64) -> i64 {
    (expect::time(h, NOW_1) - DAY * days) as i64
}

/// The step that creates the partition of the `i`-th candidate.
pub open spec fn partition_step(i: int) -> usize {
    if i == 0 {
        PARTITION_0
    } else if i == 1 {
        PARTITION_1
    } else if i == 2 {
        PARTITION_2
    } else if i == 3 {
        PARTITION_3
    } else if i == 4 {
        PARTITION_4
    } else if i == 5 {
        PARTITION_5
    } else if i == 6 {
        PARTITION_6
    } else if i == 7 {
        PARTITION_7
    } else if i == 8 {
        PARTITION_8
    } else if i == 9 {
        PARTITION_9
    } else if i == 10 {
        PARTITION_10
    } else if i == 11 {
        PARTITION_11
    } else if i == 12 {
        PARTITION_12
    } else if i == 13 {
        PARTITION_13
    } else if i == 14 {
        PARTITION_14
    } else if i == 15 {
        PARTITION_15
    } else if i == 16 {
        PARTITION_16
    } else {
        PARTITION_17
    }
}

/// The ids of the partitions of the first `count` candidates that have to be retained, or of those
/// that have not.
pub open spec fn first_candidates(h: Seq<Reply>, retain: bool, count: int) -> Seq<i64>
    decreases count,
{
    if count <= 0 {
        Seq::empty()
    } else if candidate(count - 1).retain == retain {
        first_candidates(h, retain, count - 1).push(
            expect::partition(h, partition_step(count - 1)).id,
        )
    } else {
        first_candidates(h, retain, count - 1)
    }
}

/// The ids of the partitions of all candidates that have to be retained, or of those that have not.
pub open spec fn candidates(h: Seq<Reply>, retain: bool) -> Seq<i64> {
    first_candidates(h, retain, CANDIDATES as int)
}

/// What is asked for when the replies so far are `h`.
pub open spec fn request(h: Seq<Reply>) -> RequestView {
    let n = h.len();
    if n == NOW_1 {
        // the time
        RequestView::Catalog(CatalogRequestView::Now)
    } else if n == NOW_2 {
        // the time once more
        RequestView::Catalog(CatalogRequestView::Now)
    } else if n == NAMESPACE {
        // a namespace that keeps its data for a week
        RequestView::Namespaces(
            NamespacesRequestView::Create {
                name: "test_partition_retention"@,
                partition_template: None,
                retention_period_ns: Some(WEEK),
            },
        )
    } else if n == TABLE {
        // its table
        RequestView::Helper(
            HelperRequestView::ArbitraryTable {
                name: "test_partition_retention"@,
                namespace: expect::namespace(h, NAMESPACE),
            },
        )
    } else if n == DATE_0 {
        // the date 2 days ago
        RequestView::Value(ValueRequestView::DateText { time: days_before(h, 2) })
    } else if n == PARTITION_0 {
        // the partition of candidate 0
        RequestView::Helper(
            HelperRequestView::PartitionWithCreatedAt {
                key: expect::text(h, DATE_0),
                table_id: expect::table(h, TABLE).id,
                created_at: created_at(h, candidate(0).created),
            },
        )
    } else if n == DATE_1 {
        // the date 3 days ago
        RequestView::Value(ValueRequestView::DateText { time: days_before(h, 3) })
    } else if n == PARTITION_1 {
        // the partition of candidate 1
        RequestView::Helper(
            HelperRequestView::PartitionWithCreatedAt {
                key: expect::text(h, DATE_1),
                table_id: expect::table(h, TABLE).id,
                created_at: created_at(h, candidate(1).created),
            },
        )
    } else if n == DATE_2 {
        // the date 4 days ago
        RequestView::Value(ValueRequestView::DateText { time: days_before(h, 4) })
    } else if n == PARTITION_2 {
        // the partition of candidate 2
        RequestView::Helper(
            HelperRequestView::PartitionWithCreatedAt {
                key: expect::text(h, DATE_2),
                table_id: expect::table(h, TABLE).id,
                created_at: created_at(h, candidate(2).created),
            },
        )
    } else if n == DATE_3 {
        // the date 9 days ago
        RequestView::Value(ValueRequestView::DateText { time: days_before(h, 9) })
    } else if n == PARTITION_3 {
        // the partition of candidate 3
        RequestView::Helper(
            HelperRequestView::PartitionWithCreatedAt {
                key: expect::text(h, DATE_3),
                table_id: expect::table(h, TABLE).id,
                created_at: created_at(h, candidate(3).created),
            },
        )
    } else if n == DATE_4 {
        // the date 10 days ago
        RequestView::Value(ValueRequestView::DateText { time: days_before(h, 10) })
    } else if n == PARTITION_4 {
        // the partition of candidate 4
        RequestView::Helper(
            HelperRequestView::PartitionWithCreatedAt {
                key: expect::text(h, DATE_4),
                table_id: expect::table(h, TABLE).id,
                created_at: created_at(h, candidate(4).created),
            },
        )
    } else if n == DATE_5 {
        // the date 11 days ago
        RequestView::Value(ValueRequestView::DateText { time: days_before(h, 11) })
    } else if n == PARTITION_5 {
        // the partition of candidate 5
        RequestView::Helper(
            HelperRequestView::PartitionWithCreatedAt {
                key: expect::text(h, DATE_5),
                table_id: expect::table(h, TABLE).id,
                created_at: created_at(h, candidate(5).created),
            },
        )
    } else if n == DATE_6 {
        // the date 5 days ago
        RequestView::Value(ValueRequestView::DateText { time: days_before(h, 5) })
    } else if n == PARTITION_6 {
        // the partition of candidate 6
        RequestView::Helper(
            HelperRequestView::PartitionWithCreatedAt {
                key: expect::text(h, DATE_6),
                table_id: expect::table(h, TABLE).id,
                created_at: created_at(h, candidate(6).created),
            },
        )
    } else if n == PARAMS_6 {
        // the parameters of its file
        RequestView::Helper(
            HelperRequestView::ArbitraryParquetFileParams {
                namespace: expect::namespace(h, NAMESPACE),
                table: expect::table(h, TABLE),
                partition: expect::partition(h, PARTITION_6),
            },
        )
    } else if n == 19 {
        RequestView::ParquetFiles(
            ParquetFilesRequestView::Create { params: expect::params(h, PARAMS_6) },
        )
    } else if n == DATE_7 {
        // the date 6 days ago
        RequestView::Value(ValueRequestView::DateText { time: days_before(h, 6) })
    } else if n == PARTITION_7 {
        // the partition of candidate 7
        RequestView::Helper(
            HelperRequestView::PartitionWithCreatedAt {
                key: expect::text(h, DATE_7),
                table_id: expect::table(h, TABLE).id,
                created_at: created_at(h, candidate(7).created),
            },
        )
    } else if n == PARAMS_7 {
        // the parameters of its file
        RequestView::Helper(
            HelperRequestView::ArbitraryParquetFileParams {
                namespace: expect::namespace(h, NAMESPACE),
                table: expect::table(h, TABLE),
                partition: expect::partition(h, PARTITION_7),
            },
        )
    } else if n == 23 {
        RequestView::ParquetFiles(
            ParquetFilesRequestView::Create { params: expect::params(h, PARAMS_7) },
        )
    } else if n == DATE_8 {
        // the date 7 days ago
        RequestView::Value(ValueRequestView::DateText { time: days_before(h, 7) })
    } else if n == PARTITION_8 {
        // the partition of candidate 8
        RequestView::Helper(
            HelperRequestView::PartitionWithCreatedAt {
                key: expect::text(h, DATE_8),
                table_id: expect::table(h, TABLE).id,
                created_at: created_at(h, candidate(8).created),
            },
        )
    } else if n == PARAMS_8 {
        // the parameters of its file
        RequestView::Helper(
            HelperRequestView::ArbitraryParquetFileParams {
                namespace: expect::namespace(h, NAMESPACE),
                table: expect::table(h, TABLE),
                partition: expect::partition(h, PARTITION_8),
            },
        )
    } else if n == 27 {
        RequestView::ParquetFiles(
            ParquetFilesRequestView::Create { params: expect::params(h, PARAMS_8) },
        )
    } else if n == DATE_9 {
        // the date 12 days ago
        RequestView::Value(ValueRequestView::DateText { time: days_before(h, 12) })
    } else if n == PARTITION_9 {
        // the partition of candidate 9
        RequestView::Helper(
            HelperRequestView::PartitionWithCreatedAt {
                key: expect::text(h, DATE_9),
                table_id: expect::table(h, TABLE).id,
                created_at: created_at(h, candidate(9).created),
            },
        )
    } else if n == PARAMS_9 {
        // the parameters of its file
        RequestView::Helper(
            HelperRequestView::ArbitraryParquetFileParams {
                namespace: expect::namespace(h, NAMESPACE),
                table: expect::table(h, TABLE),
                partition: expect::partition(h, PARTITION_9),
            },
        )
    } else if n == 31 {
        RequestView::ParquetFiles(
            ParquetFilesRequestView::Create { params: expect::params(h, PARAMS_9) },
        )
    } else if n == DATE_10 {
        // the date 13 days ago
        RequestView::Value(ValueRequestView::DateText { time: days_before(h, 13) })
    } else if n == PARTITION_10 {
        // the partition of candidate 10
        RequestView::Helper(
            HelperRequestView::PartitionWithCreatedAt {
                key: expect::text(h, DATE_10),
                table_id: expect::table(h, TABLE).id,
                created_at: created_at(h, candidate(10).created),
            },
        )
    } else if n == PARAMS_10 {
        // the parameters of its file
        RequestView::Helper(
            HelperRequestView::ArbitraryParquetFileParams {
                namespace: expect::namespace(h, NAMESPACE),
                table: expect::table(h, TABLE),
                partition: expect::partition(h, PARTITION_10),
            },
        )
    } else if n == 35 {
        RequestView::ParquetFiles(
            ParquetFilesRequestView::Create { params: expect::params(h, PARAMS_10) },
        )
    } else if n == DATE_11 {
        // the date 14 days ago
        RequestView::Value(ValueRequestView::DateText { time: days_before(h, 14) })
    } else if n == PARTITION_11 {
        // the partition of candidate 11
        RequestView::Helper(
            HelperRequestView::PartitionWithCreatedAt {
                key: expect::text(h, DATE_11),
                table_id: expect::table(h, TABLE).id,
                created_at: created_at(h, candidate(11).created),
            },
        )
    } else if n == PARAMS_11 {
        // the parameters of its file
        RequestView::Helper(
            HelperRequestView::ArbitraryParquetFileParams {
                namespace: expect::namespace(h, NAMESPACE),
                table: expect::table(h, TABLE),
                partition: expect::partition(h, PARTITION_11),
            },
        )
    } else if n == 39 {
        RequestView::ParquetFiles(
            ParquetFilesRequestView::Create { params: expect::params(h, PARAMS_11) },
        )
    } else if n == PARTITION_12 {
        // the partition of candidate 12
        RequestView::Helper(
            HelperRequestView::PartitionWithCreatedAt {
                key: "0"@,
                table_id: expect::table(h, TABLE).id,
                created_at: created_at(h, candidate(12).created),
            },
        )
    } else if n == PARTITION_13 {
        // the partition of candidate 13
        RequestView::Helper(
            HelperRequestView::PartitionWithCreatedAt {
                key: "1"@,
                table_id: expect::table(h, TABLE).id,
                created_at: created_at(h, candidate(13).created),
            },
        )
    } else if n == PARTITION_14 {
        // the partition of candidate 14
        RequestView::Helper(
            HelperRequestView::PartitionWithCreatedAt {
                key: "2"@,
                table_id: expect::table(h, TABLE).id,
                created_at: created_at(h, candidate(14).created),
            },
        )
    } else if n == PARTITION_15 {
        // the partition of candidate 15
        RequestView::Helper(
            HelperRequestView::PartitionWithCreatedAt {
                key: "3"@,
                table_id: expect::table(h, TABLE).id,
                created_at: created_at(h, candidate(15).created),
            },
        )
    } else if n == PARAMS_15 {
        // the parameters of its file
        RequestView::Helper(
            HelperRequestView::ArbitraryParquetFileParams {
                namespace: expect::namespace(h, NAMESPACE),
                table: expect::table(h, TABLE),
                partition: expect::partition(h, PARTITION_15),
            },
        )
    } else if n == 45 {
        RequestView::ParquetFiles(
            ParquetFilesRequestView::Create { params: expect::params(h, PARAMS_15) },
        )
    } else if n == PARTITION_16 {
        // the partition of candidate 16
        RequestView::Helper(
            HelperRequestView::PartitionWithCreatedAt {
                key: "4"@,
                table_id: expect::table(h, TABLE).id,
                created_at: created_at(h, candidate(16).created),
            },
        )
    } else if n == PARAMS_16 {
        // the parameters of its file
        RequestView::Helper(
            HelperRequestView::ArbitraryParquetFileParams {
                namespace: expect::namespace(h, NAMESPACE),
                table: expect::table(h, TABLE),
                partition: expect::partition(h, PARTITION_16),
            },
        )
    } else if n == 48 {
        RequestView::ParquetFiles(
            ParquetFilesRequestView::Create { params: expect::params(h, PARAMS_16) },
        )
    } else if n == PARTITION_17 {
        // the partition of candidate 17
        RequestView::Helper(
            HelperRequestView::PartitionWithCreatedAt {
                key: "5"@,
                table_id: expect::table(h, TABLE).id,
                created_at: created_at(h, candidate(17).created),
            },
        )
    } else if n == PARAMS_17 {
        // the parameters of its file
        RequestView::Helper(
            HelperRequestView::ArbitraryParquetFileParams {
                namespace: expect::namespace(h, NAMESPACE),
                table: expect::table(h, TABLE),
                partition: expect::partition(h, PARTITION_17),
            },
        )
    } else if n == 51 {
        RequestView::ParquetFiles(
            ParquetFilesRequestView::Create { params: expect::params(h, PARAMS_17) },
        )
    } else if n == 52 {
        // what has to go is removed
        RequestView::Partitions(PartitionsRequestView::DeleteByRetention)
    } else {
        // what has to be retained is there
        RequestView::Partitions(PartitionsRequestView::ListIds)
    }
}

/// The last of the replies `h` is as it has to be, where the ones before it were.
pub open spec fn accepts(h: Seq<Reply>) -> bool {
    let n = h.len() - 1;
    if n == NOW_1 {
        expect::got_time(h) && expect::shifts_by(h, NOW_1, (-TWO_WEEKS) as i64)
    } else if n == NOW_2 {
        expect::got_time(h) && expect::shifts_by(h, NOW_2, (-HOURS_25) as i64)
    } else if n == NAMESPACE {
        expect::got_namespace(h)
    } else if n == TABLE {
        expect::got_table(h)
    } else if n == DATE_0 {
        expect::got_text(h)
    } else if n == PARTITION_0 {
        expect::got_partition(h)
    } else if n == DATE_1 {
        expect::got_text(h)
    } else if n == PARTITION_1 {
        expect::got_partition(h)
    } else if n == DATE_2 {
        expect::got_text(h)
    } else if n == PARTITION_2 {
        expect::got_partition(h)
    } else if n == DATE_3 {
        expect::got_text(h)
    } else if n == PARTITION_3 {
        expect::got_partition(h)
    } else if n == DATE_4 {
        expect::got_text(h)
    } else if n == PARTITION_4 {
        expect::got_partition(h)
    } else if n == DATE_5 {
        expect::got_text(h)
    } else if n == PARTITION_5 {
        expect::got_partition(h)
    } else if n == DATE_6 {
        expect::got_text(h)
    } else if n == PARTITION_6 {
        expect::got_partition(h)
    } else if n == PARAMS_6 {
        expect::got_params(h)
    } else if n == 19 {
        expect::got_file(h)
    } else if n == DATE_7 {
        expect::got_text(h)
    } else if n == PARTITION_7 {
        expect::got_partition(h)
    } else if n == PARAMS_7 {
        expect::got_params(h)
    } else if n == 23 {
        expect::got_file(h)
    } else if n == DATE_8 {
        expect::got_text(h)
    } else if n == PARTITION_8 {
        expect::got_partition(h)
    } else if n == PARAMS_8 {
        expect::got_params(h)
    } else if n == 27 {
        expect::got_file(h)
    } else if n == DATE_9 {
        expect::got_text(h)
    } else if n == PARTITION_9 {
        expect::got_partition(h)
    } else if n == PARAMS_9 {
        expect::got_params(h)
    } else if n == 31 {
        expect::got_file(h)
    } else if n == DATE_10 {
        expect::got_text(h)
    } else if n == PARTITION_10 {
        expect::got_partition(h)
    } else if n == PARAMS_10 {
        expect::got_params(h)
    } else if n == 35 {
        expect::got_file(h)
    } else if n == DATE_11 {
        expect::got_text(h)
    } else if n == PARTITION_11 {
        expect::got_partition(h)
    } else if n == PARAMS_11 {
        expect::got_params(h)
    } else if n == 39 {
        expect::got_file(h)
    } else if n == PARTITION_12 {
        expect::got_partition(h)
    } else if n == PARTITION_13 {
        expect::got_partition(h)
    } else if n == PARTITION_14 {
        expect::got_partition(h)
    } else if n == PARTITION_15 {
        expect::got_partition(h)
    } else if n == PARAMS_15 {
        expect::got_params(h)
    } else if n == 45 {
        expect::got_file(h)
    } else if n == PARTITION_16 {
        expect::got_partition(h)
    } else if n == PARAMS_16 {
        expect::got_params(h)
    } else if n == 48 {
        expect::got_file(h)
    } else if n == PARTITION_17 {
        expect::got_partition(h)
    } else if n == PARAMS_17 {
        expect::got_params(h)
    } else if n == 51 {
        expect::got_file(h)
    } else if n == 52 {
        expect::removed_are(h, candidates(h, false))
    } else if n == 53 {
        expect::remaining_are(h, candidates(h, true))
    } else {
        false
    }
}

/// With the replies `h` everything has been asked for.
pub open spec fn finished(h: Seq<Reply>) -> bool {
    h.len() >= LENGTH
}

/// What is known of the first `m` replies once they have been accepted.
#[verifier::rlimit(100)]
pub proof fn lemma_known(h: Seq<Reply>, m: int)
    requires
        0 <= m <= h.len(),
        accepted(ScenarioView::PartitionRetention, h, m),
    ensures
        m > NOW_1 ==> expect::is_time(h, NOW_1),
        m > NOW_1 ==> expect::shifts_by(h, NOW_1, (-TWO_WEEKS) as i64),
        m > NOW_2 ==> expect::is_time(h, NOW_2),
        m > NOW_2 ==> expect::shifts_by(h, NOW_2, (-HOURS_25) as i64),
        m > NAMESPACE ==> expect::is_namespace(h, NAMESPACE),
        m > TABLE ==> expect::is_table(h, TABLE),
        m > DATE_0 ==> expect::is_text(h, DATE_0),
        m > PARTITION_0 ==> expect::is_partition(h, PARTITION_0),
        m > DATE_1 ==> expect::is_text(h, DATE_1),
        m > PARTITION_1 ==> expect::is_partition(h, PARTITION_1),
        m > DATE_2 ==> expect::is_text(h, DATE_2),
        m > PARTITION_2 ==> expect::is_partition(h, PARTITION_2),
        m > DATE_3 ==> expect::is_text(h, DATE_3),
        m > PARTITION_3 ==> expect::is_partition(h, PARTITION_3),
        m > DATE_4 ==> expect::is_text(h, DATE_4),
        m > PARTITION_4 ==> expect::is_partition(h, PARTITION_4),
        m > DATE_5 ==> expect::is_text(h, DATE_5),
        m > PARTITION_5 ==> expect::is_partition(h, PARTITION_5),
        m > DATE_6 ==> expect::is_text(h, DATE_6),
        m > PARTITION_6 ==> expect::is_partition(h, PARTITION_6),
        m > PARAMS_6 ==> expect::is_params(h, PARAMS_6),
        m > DATE_7 ==> expect::is_text(h, DATE_7),
        m > PARTITION_7 ==> expect::is_partition(h, PARTITION_7),
        m > PARAMS_7 ==> expect::is_params(h, PARAMS_7),
        m > DATE_8 ==> expect::is_text(h, DATE_8),
        m > PARTITION_8 ==> expect::is_partition(h, PARTITION_8),
        m > PARAMS_8 ==> expect::is_params(h, PARAMS_8),
        m > DATE_9 ==> expect::is_text(h, DATE_9),
        m > PARTITION_9 ==> expect::is_partition(h, PARTITION_9),
        m > PARAMS_9 ==> expect::is_params(h, PARAMS_9),
        m > DATE_10 ==> expect::is_text(h, DATE_10),
        m > PARTITION_10 ==> expect::is_partition(h, PARTITION_10),
        m > PARAMS_10 ==> expect::is_params(h, PARAMS_10),
        m > DATE_11 ==> expect::is_text(h, DATE_11),
        m > PARTITION_11 ==> expect::is_partition(h, PARTITION_11),
        m > PARAMS_11 ==> expect::is_params(h, PARAMS_11),
        m > PARTITION_12 ==> expect::is_partition(h, PARTITION_12),
        m > PARTITION_13 ==> expect::is_partition(h, PARTITION_13),
        m > PARTITION_14 ==> expect::is_partition(h, PARTITION_14),
        m > PARTITION_15 ==> expect::is_partition(h, PARTITION_15),
        m > PARAMS_15 ==> expect::is_params(h, PARAMS_15),
        m > PARTITION_16 ==> expect::is_partition(h, PARTITION_16),
        m > PARAMS_16 ==> expect::is_params(h, PARAMS_16),
        m > PARTITION_17 ==> expect::is_partition(h, PARTITION_17),
        m > PARAMS_17 ==> expect::is_params(h, PARAMS_17),
{
    let s = ScenarioView::PartitionRetention;
    assert(m > NOW_1 ==> expect::is_time(h, NOW_1)
        && expect::shifts_by(h, NOW_1, (-TWO_WEEKS) as i64)) by {
        if m > NOW_1 {
            assert(run::accepts(s, h.take(NOW_1 + 1)));
        }
    }
    assert(m > NOW_2 ==> expect::is_time(h, NOW_2)
        && expect::shifts_by(h, NOW_2, (-HOURS_25) as i64)) by {
        if m > NOW_2 {
            assert(run::accepts(s, h.take(NOW_2 + 1)));
        }
    }
    assert(m > NAMESPACE ==> expect::is_namespace(h, NAMESPACE)) by {
        if m > NAMESPACE {
            assert(run::accepts(s, h.take(NAMESPACE + 1)));
        }
    }
    assert(m > TABLE ==> expect::is_table(h, TABLE)) by {
        if m > TABLE {
            assert(run::accepts(s, h.take(TABLE + 1)));
        }
    }
    assert(m > DATE_0 ==> expect::is_text(h, DATE_0)) by {
        if m > DATE_0 {
            assert(run::accepts(s, h.take(DATE_0 + 1)));
        }
    }
    assert(m > PARTITION_0 ==> expect::is_partition(h, PARTITION_0)) by {
        if m > PARTITION_0 {
            assert(run::accepts(s, h.take(PARTITION_0 + 1)));
        }
    }
    assert(m > DATE_1 ==> expect::is_text(h, DATE_1)) by {
        if m > DATE_1 {
            assert(run::accepts(s, h.take(DATE_1 + 1)));
        }
    }
    assert(m > PARTITION_1 ==> expect::is_partition(h, PARTITION_1)) by {
        if m > PARTITION_1 {
            assert(run::accepts(s, h.take(PARTITION_1 + 1)));
        }
    }
    assert(m > DATE_2 ==> expect::is_text(h, DATE_2)) by {
        if m > DATE_2 {
            assert(run::accepts(s, h.take(DATE_2 + 1)));
        }
    }
    assert(m > PARTITION_2 ==> expect::is_partition(h, PARTITION_2)) by {
        if m > PARTITION_2 {
            assert(run::accepts(s, h.take(PARTITION_2 + 1)));
        }
    }
    assert(m > DATE_3 ==> expect::is_text(h, DATE_3)) by {
        if m > DATE_3 {
            assert(run::accepts(s, h.take(DATE_3 + 1)));
        }
    }
    assert(m > PARTITION_3 ==> expect::is_partition(h, PARTITION_3)) by {
        if m > PARTITION_3 {
            assert(run::accepts(s, h.take(PARTITION_3 + 1)));
        }
    }
    assert(m > DATE_4 ==> expect::is_text(h, DATE_4)) by {
        if m > DATE_4 {
            assert(run::accepts(s, h.take(DATE_4 + 1)));
        }
    }
    assert(m > PARTITION_4 ==> expect::is_partition(h, PARTITION_4)) by {
        if m > PARTITION_4 {
            assert(run::accepts(s, h.take(PARTITION_4 + 1)));
        }
    }
    assert(m > DATE_5 ==> expect::is_text(h, DATE_5)) by {
        if m > DATE_5 {
            assert(run::accepts(s, h.take(DATE_5 + 1)));
        }
    }
    assert(m > PARTITION_5 ==> expect::is_partition(h, PARTITION_5)) by {
        if m > PARTITION_5 {
            assert(run::accepts(s, h.take(PARTITION_5 + 1)));
        }
    }
    assert(m > DATE_6 ==> expect::is_text(h, DATE_6)) by {
        if m > DATE_6 {
            assert(run::accepts(s, h.take(DATE_6 + 1)));
        }
    }
    assert(m > PARTITION_6 ==> expect::is_partition(h, PARTITION_6)) by {
        if m > PARTITION_6 {
            assert(run::accepts(s, h.take(PARTITION_6 + 1)));
        }
    }
    assert(m > PARAMS_6 ==> expect::is_params(h, PARAMS_6)) by {
        if m > PARAMS_6 {
            assert(run::accepts(s, h.take(PARAMS_6 + 1)));
        }
    }
    assert(m > DATE_7 ==> expect::is_text(h, DATE_7)) by {
        if m > DATE_7 {
            assert(run::accepts(s, h.take(DATE_7 + 1)));
        }
    }
    assert(m > PARTITION_7 ==> expect::is_partition(h, PARTITION_7)) by {
        if m > PARTITION_7 {
            assert(run::accepts(s, h.take(PARTITION_7 + 1)));
        }
    }
    assert(m > PARAMS_7 ==> expect::is_params(h, PARAMS_7)) by {
        if m > PARAMS_7 {
            assert(run::accepts(s, h.take(PARAMS_7 + 1)));
        }
    }
    assert(m > DATE_8 ==> expect::is_text(h, DATE_8)) by {
        if m > DATE_8 {
            assert(run::accepts(s, h.take(DATE_8 + 1)));
        }
    }
    assert(m > PARTITION_8 ==> expect::is_partition(h, PARTITION_8)) by {
        if m > PARTITION_8 {
            assert(run::accepts(s, h.take(PARTITION_8 + 1)));
        }
    }
    assert(m > PARAMS_8 ==> expect::is_params(h, PARAMS_8)) by {
        if m > PARAMS_8 {
            assert(run::accepts(s, h.take(PARAMS_8 + 1)));
        }
    }
    assert(m > DATE_9 ==> expect::is_text(h, DATE_9)) by {
        if m > DATE_9 {
            assert(run::accepts(s, h.take(DATE_9 + 1)));
        }
    }
    assert(m > PARTITION_9 ==> expect::is_partition(h, PARTITION_9)) by {
        if m > PARTITION_9 {
            assert(run::accepts(s, h.take(PARTITION_9 + 1)));
        }
    }
    assert(m > PARAMS_9 ==> expect::is_params(h, PARAMS_9)) by {
        if m > PARAMS_9 {
            assert(run::accepts(s, h.take(PARAMS_9 + 1)));
        }
    }
    assert(m > DATE_10 ==> expect::is_text(h, DATE_10)) by {
        if m > DATE_10 {
            assert(run::accepts(s, h.take(DATE_10 + 1)));
        }
    }
    assert(m > PARTITION_10 ==> expect::is_partition(h, PARTITION_10)) by {
        if m > PARTITION_10 {
            assert(run::accepts(s, h.take(PARTITION_10 + 1)));
        }
    }
    assert(m > PARAMS_10 ==> expect::is_params(h, PARAMS_10)) by {
        if m > PARAMS_10 {
            assert(run::accepts(s, h.take(PARAMS_10 + 1)));
        }
    }
    assert(m > DATE_11 ==> expect::is_text(h, DATE_11)) by {
        if m > DATE_11 {
            assert(run::accepts(s, h.take(DATE_11 + 1)));
        }
    }
    assert(m > PARTITION_11 ==> expect::is_partition(h, PARTITION_11)) by {
        if m > PARTITION_11 {
            assert(run::accepts(s, h.take(PARTITION_11 + 1)));
        }
    }
    assert(m > PARAMS_11 ==> expect::is_params(h, PARAMS_11)) by {
        if m > PARAMS_11 {
            assert(run::accepts(s, h.take(PARAMS_11 + 1)));
        }
    }
    assert(m > PARTITION_12 ==> expect::is_partition(h, PARTITION_12)) by {
        if m > PARTITION_12 {
            assert(run::accepts(s, h.take(PARTITION_12 + 1)));
        }
    }
    assert(m > PARTITION_13 ==> expect::is_partition(h, PARTITION_13)) by {
        if m > PARTITION_13 {
            assert(run::accepts(s, h.take(PARTITION_13 + 1)));
        }
    }
    assert(m > PARTITION_14 ==> expect::is_partition(h, PARTITION_14)) by {
        if m > PARTITION_14 {
            assert(run::accepts(s, h.take(PARTITION_14 + 1)));
        }
    }
    assert(m > PARTITION_15 ==> expect::is_partition(h, PARTITION_15)) by {
        if m > PARTITION_15 {
            assert(run::accepts(s, h.take(PARTITION_15 + 1)));
        }
    }
    assert(m > PARAMS_15 ==> expect::is_params(h, PARAMS_15)) by {
        if m > PARAMS_15 {
            assert(run::accepts(s, h.take(PARAMS_15 + 1)));
        }
    }
    assert(m > PARTITION_16 ==> expect::is_partition(h, PARTITION_16)) by {
        if m > PARTITION_16 {
            assert(run::accepts(s, h.take(PARTITION_16 + 1)));
        }
    }
    assert(m > PARAMS_16 ==> expect::is_params(h, PARAMS_16)) by {
        if m > PARAMS_16 {
            assert(run::accepts(s, h.take(PARAMS_16 + 1)));
        }
    }
    assert(m > PARTITION_17 ==> expect::is_partition(h, PARTITION_17)) by {
        if m > PARTITION_17 {
            assert(run::accepts(s, h.take(PARTITION_17 + 1)));
        }
    }
    assert(m > PARAMS_17 ==> expect::is_params(h, PARAMS_17)) by {
        if m > PARAMS_17 {
            assert(run::accepts(s, h.take(PARAMS_17 + 1)));
        }
    }
}

/// When a partition was created, in nanoseconds.
fn do_created_at(h: &Vec<Reply>, created: Created) -> (r: Option<i64>)
    requires
        expect::is_time(h@, NOW_1),
        expect::is_time(h@, NOW_2),
        expect::shifts_by(h@, NOW_2, (-HOURS_25) as i64),
    ensures
        r == created_at(h@, created),
{
    match created {
        Created::Now => Some(check::time(h, NOW_1)),
        Created::OverOneDayAgo => Some(check::shifted(h, NOW_2, -HOURS_25)),
        Created::Unknown => None,
    }
}

/// The time some days ago.
fn do_days_before(h: &Vec<Reply>, days: i64) -> (r: i64)
    requires
        0 <= days <= 14,
        expect::is_time(h@, NOW_1),
        expect::shifts_by(h@, NOW_1, (-TWO_WEEKS) as i64),
    ensures
        r == days_before(h@, days),
{
    check::time(h, NOW_1) - DAY * days
}

/// The step that creates the partition of the `i`-th candidate.
fn do_partition_step(i: usize) -> (k: usize)
    ensures
        k == partition_step(i as int),
{
    match i {
        0 => PARTITION_0,
        1 => PARTITION_1,
        2 => PARTITION_2,
        3 => PARTITION_3,
        4 => PARTITION_4,
        5 => PARTITION_5,
        6 => PARTITION_6,
        7 => PARTITION_7,
        8 => PARTITION_8,
        9 => PARTITION_9,
        10 => PARTITION_10,
        11 => PARTITION_11,
        12 => PARTITION_12,
        13 => PARTITION_13,
        14 => PARTITION_14,
        15 => PARTITION_15,
        16 => PARTITION_16,
        _ => PARTITION_17,
    }
}

/// The ids of the partitions of all candidates that have to be retained, or of those that have not.
fn do_candidates(h: &Vec<Reply>, retain: bool) -> (ids: Vec<i64>)
    requires
        forall|i: int|
            0 <= i < CANDIDATES ==> expect::is_partition(h@, #[trigger] partition_step(i)),
    ensures
        ids@ == candidates(h@, retain),
{
    let mut ids: Vec<i64> = Vec::new();
    let mut i: usize = 0;
    while i < CANDIDATES
        invariant
            i <= CANDIDATES,
            forall|j: int|
                0 <= j < CANDIDATES ==> expect::is_partition(h@, #[trigger] partition_step(j)),
            ids@ == first_candidates(h@, retain, i as int),
        decreases CANDIDATES - i,
    {
        let k: usize = do_partition_step(i);
        proof {
            assert(expect::is_partition(h@, partition_step(i as int)));
        }
        if get_candidate(i).retain == retain {
            ids.push(check::partition(h, k).id);
        }
        i += 1;
    }
    ids
}

/// What is asked for when the replies so far are `h`.
pub fn next_request<'a>(h: &'a Vec<Reply>) -> (r: Request<'a>)
    requires
        accepted(ScenarioView::PartitionRetention, h@, h@.len() as int),
        !finished(h@),
    ensures
        r@ =~~= request(h@),
{
    let n: usize = h.len();
    proof {
        lemma_known(h@, n as int);
    }
    if n == NOW_1 {
        Request::Catalog(CatalogRequest::Now)
    } else if n == NOW_2 {
        Request::Catalog(CatalogRequest::Now)
    } else if n == NAMESPACE {
        Request::Namespaces(
            NamespacesRequest::Create {
                name: "test_partition_retention",
                partition_template: None,
                retention_period_ns: Some(WEEK),
            },
        )
    } else if n == TABLE {
        Request::Helper(
            HelperRequest::ArbitraryTable {
                name: "test_partition_retention",
                namespace: check::namespace(h, NAMESPACE),
            },
        )
    } else if n == DATE_0 {
        Request::Value(ValueRequest::DateText { time: do_days_before(h, 2) })
    } else if n == PARTITION_0 {
        Request::Helper(
            HelperRequest::PartitionWithCreatedAt {
                key: check::text(h, DATE_0),
                table_id: check::table(h, TABLE).id,
                created_at: do_created_at(h, get_candidate(0).created),
            },
        )
    } else if n == DATE_1 {
        Request::Value(ValueRequest::DateText { time: do_days_before(h, 3) })
    } else if n == PARTITION_1 {
        Request::Helper(
            HelperRequest::PartitionWithCreatedAt {
                key: check::text(h, DATE_1),
                table_id: check::table(h, TABLE).id,
                created_at: do_created_at(h, get_candidate(1).created),
            },
        )
    } else if n == DATE_2 {
        Request::Value(ValueRequest::DateText { time: do_days_before(h, 4) })
    } else if n == PARTITION_2 {
        Request::Helper(
            HelperRequest::PartitionWithCreatedAt {
                key: check::text(h, DATE_2),
                table_id: check::table(h, TABLE).id,
                created_at: do_created_at(h, get_candidate(2).created),
            },
        )
    } else if n == DATE_3 {
        Request::Value(ValueRequest::DateText { time: do_days_before(h, 9) })
    } else if n == PARTITION_3 {
        Request::Helper(
            HelperRequest::PartitionWithCreatedAt {
                key: check::text(h, DATE_3),
                table_id: check::table(h, TABLE).id,
                created_at: do_created_at(h, get_candidate(3).created),
            },
        )
    } else if n == DATE_4 {
        Request::Value(ValueRequest::DateText { time: do_days_before(h, 10) })
    } else if n == PARTITION_4 {
        Request::Helper(
            HelperRequest::PartitionWithCreatedAt {
                key: check::text(h, DATE_4),
                table_id: check::table(h, TABLE).id,
                created_at: do_created_at(h, get_candidate(4).created),
            },
        )
    } else if n == DATE_5 {
        Request::Value(ValueRequest::DateText { time: do_days_before(h, 11) })
    } else if n == PARTITION_5 {
        Request::Helper(
            HelperRequest::PartitionWithCreatedAt {
                key: check::text(h, DATE_5),
                table_id: check::table(h, TABLE).id,
                created_at: do_created_at(h, get_candidate(5).created),
            },
        )
    } else if n == DATE_6 {
        Request::Value(ValueRequest::DateText { time: do_days_before(h, 5) })
    } else if n == PARTITION_6 {
        Request::Helper(
            HelperRequest::PartitionWithCreatedAt {
                key: check::text(h, DATE_6),
                table_id: check::table(h, TABLE).id,
                created_at: do_created_at(h, get_candidate(6).created),
            },
        )
    } else if n == PARAMS_6 {
        Request::Helper(
            HelperRequest::ArbitraryParquetFileParams {
                namespace: check::namespace(h, NAMESPACE),
                table: check::table(h, TABLE),
                partition: check::partition(h, PARTITION_6),
            },
        )
    } else if n == 19 {
        Request::ParquetFiles(
            ParquetFilesRequest::Create { params: check::params(h, PARAMS_6).copy() },
        )
    } else if n == DATE_7 {
        Request::Value(ValueRequest::DateText { time: do_days_before(h, 6) })
    } else if n == PARTITION_7 {
        Request::Helper(
            HelperRequest::PartitionWithCreatedAt {
                key: check::text(h, DATE_7),
                table_id: check::table(h, TABLE).id,
                created_at: do_created_at(h, get_candidate(7).created),
            },
        )
    } else if n == PARAMS_7 {
        Request::Helper(
            HelperRequest::ArbitraryParquetFileParams {
                namespace: check::namespace(h, NAMESPACE),
                table: check::table(h, TABLE),
                partition: check::partition(h, PARTITION_7),
            },
        )
    } else if n == 23 {
        Request::ParquetFiles(
            ParquetFilesRequest::Create { params: check::params(h, PARAMS_7).copy() },
        )
    } else if n == DATE_8 {
        Request::Value(ValueRequest::DateText { time: do_days_before(h, 7) })
    } else if n == PARTITION_8 {
        Request::Helper(
            HelperRequest::PartitionWithCreatedAt {
                key: check::text(h, DATE_8),
                table_id: check::table(h, TABLE).id,
                created_at: do_created_at(h, get_candidate(8).created),
            },
        )
    } else if n == PARAMS_8 {
        Request::Helper(
            HelperRequest::ArbitraryParquetFileParams {
                namespace: check::namespace(h, NAMESPACE),
                table: check::table(h, TABLE),
                partition: check::partition(h, PARTITION_8),
            },
        )
    } else if n == 27 {
        Request::ParquetFiles(
            ParquetFilesRequest::Create { params: check::params(h, PARAMS_8).copy() },
        )
    } else if n == DATE_9 {
        Request::Value(ValueRequest::DateText { time: do_days_before(h, 12) })
    } else if n == PARTITION_9 {
        Request::Helper(
            HelperRequest::PartitionWithCreatedAt {
                key: check::text(h, DATE_9),
                table_id: check::table(h, TABLE).id,
                created_at: do_created_at(h, get_candidate(9).created),
            },
        )
    } else if n == PARAMS_9 {
        Request::Helper(
            HelperRequest::ArbitraryParquetFileParams {
                namespace: check::namespace(h, NAMESPACE),
                table: check::table(h, TABLE),
                partition: check::partition(h, PARTITION_9),
            },
        )
    } else if n == 31 {
        Request::ParquetFiles(
            ParquetFilesRequest::Create { params: check::params(h, PARAMS_9).copy() },
        )
    } else if n == DATE_10 {
        Request::Value(ValueRequest::DateText { time: do_days_before(h, 13) })
    } else if n == PARTITION_10 {
        Request::Helper(
            HelperRequest::PartitionWithCreatedAt {
                key: check::text(h, DATE_10),
                table_id: check::table(h, TABLE).id,
                created_at: do_created_at(h, get_candidate(10).created),
            },
        )
    } else if n == PARAMS_10 {
        Request::Helper(
            HelperRequest::ArbitraryParquetFileParams {
                namespace: check::namespace(h, NAMESPACE),
                table: check::table(h, TABLE),
                partition: check::partition(h, PARTITION_10),
            },
        )
    } else if n == 35 {
        Request::ParquetFiles(
            ParquetFilesRequest::Create { params: check::params(h, PARAMS_10).copy() },
        )
    } else if n == DATE_11 {
        Request::Value(ValueRequest::DateText { time: do_days_before(h, 14) })
    } else if n == PARTITION_11 {
        Request::Helper(
            HelperRequest::PartitionWithCreatedAt {
                key: check::text(h, DATE_11),
                table_id: check::table(h, TABLE).id,
                created_at: do_created_at(h, get_candidate(11).created),
            },
        )
    } else if n == PARAMS_11 {
        Request::Helper(
            HelperRequest::ArbitraryParquetFileParams {
                namespace: check::namespace(h, NAMESPACE),
                table: check::table(h, TABLE),
                partition: check::partition(h, PARTITION_11),
            },
        )
    } else if n == 39 {
        Request::ParquetFiles(
            ParquetFilesRequest::Create { params: check::params(h, PARAMS_11).copy() },
        )
    } else if n == PARTITION_12 {
        Request::Helper(
            HelperRequest::PartitionWithCreatedAt {
                key: "0",
                table_id: check::table(h, TABLE).id,
                created_at: do_created_at(h, get_candidate(12).created),
            },
        )
    } else if n == PARTITION_13 {
        Request::Helper(
            HelperRequest::PartitionWithCreatedAt {
                key: "1",
                table_id: check::table(h, TABLE).id,
                created_at: do_created_at(h, get_candidate(13).created),
            },
        )
    } else if n == PARTITION_14 {
        Request::Helper(
            HelperRequest::PartitionWithCreatedAt {
                key: "2",
                table_id: check::table(h, TABLE).id,
                created_at: do_created_at(h, get_candidate(14).created),
            },
        )
    } else if n == PARTITION_15 {
        Request::Helper(
            HelperRequest::PartitionWithCreatedAt {
                key: "3",
                table_id: check::table(h, TABLE).id,
                created_at: do_created_at(h, get_candidate(15).created),
            },
        )
    } else if n == PARAMS_15 {
        Request::Helper(
            HelperRequest::ArbitraryParquetFileParams {
                namespace: check::namespace(h, NAMESPACE),
                table: check::table(h, TABLE),
                partition: check::partition(h, PARTITION_15),
            },
        )
    } else if n == 45 {
        Request::ParquetFiles(
            ParquetFilesRequest::Create { params: check::params(h, PARAMS_15).copy() },
        )
    } else if n == PARTITION_16 {
        Request::Helper(
            HelperRequest::PartitionWithCreatedAt {
                key: "4",
                table_id: check::table(h, TABLE).id,
                created_at: do_created_at(h, get_candidate(16).created),
            },
        )
    } else if n == PARAMS_16 {
        Request::Helper(
            HelperRequest::ArbitraryParquetFileParams {
                namespace: check::namespace(h, NAMESPACE),
                table: check::table(h, TABLE),
                partition: check::partition(h, PARTITION_16),
            },
        )
    } else if n == 48 {
        Request::ParquetFiles(
            ParquetFilesRequest::Create { params: check::params(h, PARAMS_16).copy() },
        )
    } else if n == PARTITION_17 {
        Request::Helper(
            HelperRequest::PartitionWithCreatedAt {
                key: "5",
                table_id: check::table(h, TABLE).id,
                created_at: do_created_at(h, get_candidate(17).created),
            },
        )
    } else if n == PARAMS_17 {
        Request::Helper(
            HelperRequest::ArbitraryParquetFileParams {
                namespace: check::namespace(h, NAMESPACE),
                table: check::table(h, TABLE),
                partition: check::partition(h, PARTITION_17),
            },
        )
    } else if n == 51 {
        Request::ParquetFiles(
            ParquetFilesRequest::Create { params: check::params(h, PARAMS_17).copy() },
        )
    } else if n == 52 {
        Request::Partitions(PartitionsRequest::DeleteByRetention)
    } else {
        Request::Partitions(PartitionsRequest::ListIds)
    }
}

/// Whether the last of the replies `h` is as it has to be.
pub fn accepts_last(h: &Vec<Reply>) -> (b: bool)
    requires
        h.len() > 0,
        accepted(ScenarioView::PartitionRetention, h@, h@.len() - 1),
        !finished(h@.drop_last()),
    ensures
        b == accepts(h@),
{
    let n: usize = h.len() - 1;
    proof {
        lemma_known(h@, n as int);
    }
    if n == NOW_1 {
        check::got_time(h) && check::shifts_by(h, NOW_1, -TWO_WEEKS)
    } else if n == NOW_2 {
        check::got_time(h) && check::shifts_by(h, NOW_2, -HOURS_25)
    } else if n == NAMESPACE {
        check::got_namespace(h)
    } else if n == TABLE {
        check::got_table(h)
    } else if n == DATE_0 {
        check::got_text(h)
    } else if n == PARTITION_0 {
        check::got_partition(h)
    } else if n == DATE_1 {
        check::got_text(h)
    } else if n == PARTITION_1 {
        check::got_partition(h)
    } else if n == DATE_2 {
        check::got_text(h)
    } else if n == PARTITION_2 {
        check::got_partition(h)
    } else if n == DATE_3 {
        check::got_text(h)
    } else if n == PARTITION_3 {
        check::got_partition(h)
    } else if n == DATE_4 {
        check::got_text(h)
    } else if n == PARTITION_4 {
        check::got_partition(h)
    } else if n == DATE_5 {
        check::got_text(h)
    } else if n == PARTITION_5 {
        check::got_partition(h)
    } else if n == DATE_6 {
        check::got_text(h)
    } else if n == PARTITION_6 {
        check::got_partition(h)
    } else if n == PARAMS_6 {
        check::got_params(h)
    } else if n == 19 {
        check::got_file(h)
    } else if n == DATE_7 {
        check::got_text(h)
    } else if n == PARTITION_7 {
        check::got_partition(h)
    } else if n == PARAMS_7 {
        check::got_params(h)
    } else if n == 23 {
        check::got_file(h)
    } else if n == DATE_8 {
        check::got_text(h)
    } else if n == PARTITION_8 {
        check::got_partition(h)
    } else if n == PARAMS_8 {
        check::got_params(h)
    } else if n == 27 {
        check::got_file(h)
    } else if n == DATE_9 {
        check::got_text(h)
    } else if n == PARTITION_9 {
        check::got_partition(h)
    } else if n == PARAMS_9 {
        check::got_params(h)
    } else if n == 31 {
        check::got_file(h)
    } else if n == DATE_10 {
        check::got_text(h)
    } else if n == PARTITION_10 {
        check::got_partition(h)
    } else if n == PARAMS_10 {
        check::got_params(h)
    } else if n == 35 {
        check::got_file(h)
    } else if n == DATE_11 {
        check::got_text(h)
    } else if n == PARTITION_11 {
        check::got_partition(h)
    } else if n == PARAMS_11 {
        check::got_params(h)
    } else if n == 39 {
        check::got_file(h)
    } else if n == PARTITION_12 {
        check::got_partition(h)
    } else if n == PARTITION_13 {
        check::got_partition(h)
    } else if n == PARTITION_14 {
        check::got_partition(h)
    } else if n == PARTITION_15 {
        check::got_partition(h)
    } else if n == PARAMS_15 {
        check::got_params(h)
    } else if n == 45 {
        check::got_file(h)
    } else if n == PARTITION_16 {
        check::got_partition(h)
    } else if n == PARAMS_16 {
        check::got_params(h)
    } else if n == 48 {
        check::got_file(h)
    } else if n == PARTITION_17 {
        check::got_partition(h)
    } else if n == PARAMS_17 {
        check::got_params(h)
    } else if n == 51 {
        check::got_file(h)
    } else if n == 52 {
        check::removed_are(h, do_candidates(h, false))
    } else if n == 53 {
        check::remaining_are(h, do_candidates(h, true))
    } else {
        false
    }
}

/// Whether everything has been asked for.
pub fn is_finished(h: &Vec<Reply>) -> (b: bool)
    ensures
        b == finished(h@),
{
    h.len() >= LENGTH
}

} // verus!
