//! Files can be added, found, compacted and deleted.
use crate::check;
use crate::expect;
use crate::reply::Reply;
use crate::request::{
    CatalogRequest, CatalogRequestView, HelperRequest, HelperRequestView, NamespacesRequest,
    NamespacesRequestView, ParquetFilesRequest, ParquetFilesRequestView, PartitionsRequest,
    PartitionsRequestView, Request, RequestView, Scenario, ScenarioView, TablesRequest,
    TablesRequestView, ValueRequest, ValueRequestView,
};
use crate::run;
use crate::run::accepted;
use crate::same::views;
use crate::types::{
    copy_hash, CompactionLevel, ErrorKind, MaxL0CreatedAt, ParquetFileParams, ParquetFileParamsView,
    ParquetFileSource, SoftDeletedRows,
};
use vstd::prelude::*;

verus! {

/// The step that gives a namespace.
pub const NAMESPACE: usize = 0;

/// The step that gives a table.
pub const TABLE: usize = 1;

/// The step that gives another table.
pub const OTHER_TABLE: usize = 2;

/// The step that gives a partition.
pub const PARTITION: usize = 3;

/// The step that gives a partition of the other table.
pub const OTHER_PARTITION: usize = 4;

/// The step that gives a snapshot of the table.
pub const TS1: usize = 5;

/// The step that gives a snapshot of the other table.
pub const TS2: usize = 7;

/// The step that gives the parameters of a file.
pub const PARAMS: usize = 9;

/// The step that gives the file.
pub const FILE: usize = 11;

/// The step that gives the id of a second file.
pub const OTHER_ID: usize = 19;

/// The step that gives the second file.
pub const OTHER_FILE: usize = 21;

/// The step that gives the time.
pub const NOW_1: usize = 22;

/// The step that gives the time when the file is marked.
pub const NOW_2: usize = 28;

/// The step that gives a second namespace.
pub const NAMESPACE_2: usize = 34;

/// The step that gives its table.
pub const TABLE_2: usize = 35;

/// The step that gives its partition.
pub const PARTITION_2: usize = 36;

/// The step that gives a snapshot of its table.
pub const TS3: usize = 38;

/// The step that gives the id of file 1.
pub const ID_1: usize = 40;

/// The step that gives file 1.
pub const FILE_1: usize = 42;

/// The step that gives the id of file 2.
pub const ID_2: usize = 43;

/// The step that gives file 2.
pub const FILE_2: usize = 45;

/// The step that gives the id of file 3.
pub const ID_3: usize = 50;

/// The step that gives file 3.
pub const FILE_3: usize = 52;

/// The step that gives a snapshot with three files.
pub const S1: usize = 54;

/// The step that gives the files before requests that fail.
pub const BEFORE_FAILURES: usize = 57;

/// The step that gives the files after requests that fail.
pub const AFTER_FAILURES: usize = 61;

/// The step that gives a snapshot with two files.
pub const S2: usize = 62;

/// The step that gives the time when file 2 is marked.
pub const NOW_3: usize = 65;

/// The step that gives a snapshot after that.
pub const S3: usize = 67;

/// The step that gives all namespaces.
pub const NAMESPACES: usize = 69;

/// The step that gives the id of file 4.
pub const ID_4: usize = 73;

/// The step that gives the time when file 4 is added.
pub const NOW_4: usize = 74;

/// The step that gives the id of file 5.
pub const ID_5: usize = 76;

/// The step that gives the time when file 5 is added.
pub const NOW_5: usize = 77;

/// The step that gives file 5, whose data is not too old.
pub const FILE_5: usize = 81;

/// The step that gives a snapshot after that.
pub const S4: usize = 82;

/// The step that gives the time.
pub const NOW_6: usize = 85;

/// The step that gives the ids of many files.
pub const OLD_IDS: usize = 86;

/// The step that gives the id of file 6.
pub const ID_6: usize = 91;

/// The step that gives the id of file 7.
pub const ID_7: usize = 93;

/// The step that gives the id of file 8.
pub const ID_8: usize = 94;

/// The step that gives file 5, which is now marked for deletion.
pub const FILE_5_MARKED: usize = 97;

/// The step that gives file 7, which was added at that moment.
pub const FILE_7: usize = 99;

/// The step that gives the id of file 7 as it is shown.
pub const ID_7_TEXT: usize = 100;

/// The step that gives an id that no file has.
pub const SPARE_ID: usize = 104;

/// The step that gives a snapshot after that.
pub const S5: usize = 107;

/// The step that gives a third partition.
pub const PARTITION_3: usize = 109;

/// The step that gives a snapshot of its table.
pub const TS4: usize = 110;

/// The step that gives the id of file 9.
pub const ID_9: usize = 112;

/// The step that gives the files of the third partition.
pub const LISTED_3: usize = 116;

/// The step that gives the parameters of a file, which is given a source.
pub const SOURCED: usize = 124;

/// The step that gives a partition that gets more files than can be listed.
pub const PARTITION_4: usize = 127;

/// A hundred seconds.
pub const SECONDS_100: i64 = 100_000_000_000;

/// An hour.
pub const HOUR: i64 = 3_600_000_000_000;

/// A bit over an hour.
pub const MINUTES_65: i64 = 3_900_000_000_000;

/// A bit under an hour.
pub const MINUTES_55: i64 = 3_300_000_000_000;

/// The first step of those that add files to the last partition, two for each file.
pub const FILLING: usize = 128;

/// How many files more than can be listed are added.
pub const EXCESS: usize = 10;

/// The parameters of the second file.
pub open spec fn other_params(h: Seq<Reply>) -> ParquetFileParamsView {
    ParquetFileParamsView {
        table_id: expect::partition(h, OTHER_PARTITION).table_id,
        partition_id: expect::partition(h, OTHER_PARTITION).id,
        partition_hash_id: expect::partition(h, OTHER_PARTITION).hash_id,
        object_store_id: expect::uuid(h, OTHER_ID),
        min_time: 50,
        max_time: 60,
        ..expect::params(h, PARAMS)
    }
}

/// The parameters of file 1.
pub open spec fn params_1(h: Seq<Reply>) -> ParquetFileParamsView {
    ParquetFileParamsView {
        table_id: expect::partition(h, PARTITION_2).table_id,
        partition_id: expect::partition(h, PARTITION_2).id,
        partition_hash_id: expect::partition(h, PARTITION_2).hash_id,
        namespace_id: expect::namespace(h, NAMESPACE_2).id,
        object_store_id: expect::uuid(h, ID_1),
        min_time: 1,
        max_time: 10,
        ..expect::params(h, PARAMS)
    }
}

/// The parameters of file 2.
pub open spec fn params_2(h: Seq<Reply>) -> ParquetFileParamsView {
    ParquetFileParamsView {
        object_store_id: expect::uuid(h, ID_2),
        min_time: 50,
        max_time: 60,
        ..params_1(h)
    }
}

/// Other parameters under the id of file 2.
pub open spec fn conflicting_params(h: Seq<Reply>) -> ParquetFileParamsView {
    ParquetFileParamsView {
        row_count: 200,
        ..params_2(h)
    }
}

/// The parameters of file 3.
pub open spec fn params_3(h: Seq<Reply>) -> ParquetFileParamsView {
    ParquetFileParamsView {
        object_store_id: expect::uuid(h, ID_3),
        min_time: 50,
        max_time: 60,
        ..params_2(h)
    }
}

/// The parameters of file 4, whose data is a bit over an hour old.
pub open spec fn params_4(h: Seq<Reply>) -> ParquetFileParamsView {
    ParquetFileParamsView {
        object_store_id: expect::uuid(h, ID_4),
        max_time: expect::shifted(h, NOW_4, (-MINUTES_65) as i64),
        ..params_3(h)
    }
}

/// The parameters of file 5, whose data is a bit under an hour old.
pub open spec fn params_5(h: Seq<Reply>) -> ParquetFileParamsView {
    ParquetFileParamsView {
        object_store_id: expect::uuid(h, ID_5),
        max_time: expect::shifted(h, NOW_5, (-MINUTES_55) as i64),
        ..params_4(h)
    }
}

/// The parameters of the `i`-th of many files whose data is a bit over an hour old.
pub open spec fn old_params(h: Seq<Reply>, i: int) -> ParquetFileParamsView {
    ParquetFileParamsView {
        object_store_id: expect::uuids(h, OLD_IDS)[i],
        max_time: expect::shifted(h, NOW_6, (-MINUTES_65) as i64),
        ..params_1(h)
    }
}

/// The parameters of file 6.
pub open spec fn params_6(h: Seq<Reply>) -> ParquetFileParamsView {
    ParquetFileParamsView {
        object_store_id: expect::uuid(h, ID_6),
        ..params_5(h)
    }
}

/// The parameters of file 7.
pub open spec fn params_7(h: Seq<Reply>) -> ParquetFileParamsView {
    ParquetFileParamsView {
        object_store_id: expect::uuid(h, ID_7),
        ..params_6(h)
    }
}

/// The parameters of file 8, which belongs to another partition.
pub open spec fn params_8(h: Seq<Reply>) -> ParquetFileParamsView {
    ParquetFileParamsView {
        object_store_id: expect::uuid(h, ID_8),
        partition_id: expect::partition(h, PARTITION).id,
        ..params_7(h)
    }
}

/// The parameters of file 9, which belongs to the third partition.
pub open spec fn params_9(h: Seq<Reply>) -> ParquetFileParamsView {
    ParquetFileParamsView {
        object_store_id: expect::uuid(h, ID_9),
        partition_id: expect::partition(h, PARTITION_3).id,
        ..params_7(h)
    }
}

/// The parameters of a file with a source.
pub open spec fn sourced_params(h: Seq<Reply>) -> ParquetFileParamsView {
    ParquetFileParamsView {
        source: Some(ParquetFileSource::BulkIngest),
        ..expect::params(h, SOURCED)
    }
}

/// The parameters of the `i`-th file of the last partition, whose id step `k` gives.
pub open spec fn filling_params(h: Seq<Reply>, k: usize, i: i64) -> ParquetFileParamsView {
    ParquetFileParamsView {
        object_store_id: expect::uuid(h, k),
        partition_id: expect::partition(h, PARTITION_4).id,
        max_l0_created_at: MaxL0CreatedAt::Computed(i),
        min_time: 0,
        max_time: 10,
        compaction_level: CompactionLevel::Initial,
        ..params_9(h)
    }
}

/// The parameters of many files whose data is a bit over an hour old.
pub open spec fn old_files(h: Seq<Reply>) -> Seq<ParquetFileParamsView> {
    Seq::new(1_042, |i: int| old_params(h, i))
}

/// How many files are added to the last partition.
pub open spec fn filling(max_l0_files: u32) -> int {
    max_l0_files + EXCESS
}

/// What is asked for when the replies so far are `h`.
pub open spec fn request(h: Seq<Reply>, max_l0_files: u32) -> RequestView {
    let n = h.len();
    if n == NAMESPACE {
        // a namespace
        RequestView::Helper(
            HelperRequestView::ArbitraryNamespace { name: "namespace_parquet_file_test"@ },
        )
    } else if n == TABLE {
        // a table
        RequestView::Helper(
            HelperRequestView::ArbitraryTable {
                name: "test_table"@,
                namespace: expect::namespace(h, NAMESPACE),
            },
        )
    } else if n == OTHER_TABLE {
        // another table
        RequestView::Helper(
            HelperRequestView::ArbitraryTable {
                name: "other"@,
                namespace: expect::namespace(h, NAMESPACE),
            },
        )
    } else if n == PARTITION {
        // a partition
        RequestView::Partitions(
            PartitionsRequestView::CreateOrGet {
                key: "one"@,
                table_id: expect::table(h, TABLE).id,
            },
        )
    } else if n == OTHER_PARTITION {
        // a partition of the other table
        RequestView::Partitions(
            PartitionsRequestView::CreateOrGet {
                key: "one"@,
                table_id: expect::table(h, OTHER_TABLE).id,
            },
        )
    } else if n == TS1 {
        // a snapshot of the table
        RequestView::Tables(TablesRequestView::Snapshot { id: expect::table(h, TABLE).id })
    } else if n == 6 {
        RequestView::Run(
            ScenarioView::ValidateTableSnapshot { table_snapshot: expect::table_snapshot(h, TS1) },
        )
    } else if n == TS2 {
        // a snapshot of the other table
        RequestView::Tables(TablesRequestView::Snapshot { id: expect::table(h, OTHER_TABLE).id })
    } else if n == 8 {
        RequestView::Run(
            ScenarioView::ValidateTableSnapshot { table_snapshot: expect::table_snapshot(h, TS2) },
        )
    } else if n == PARAMS {
        // the parameters of a file
        RequestView::Helper(
            HelperRequestView::ArbitraryParquetFileParams {
                namespace: expect::namespace(h, NAMESPACE),
                table: expect::table(h, TABLE),
                partition: expect::partition(h, PARTITION),
            },
        )
    } else if n == 10 {
        // the file is added
        RequestView::ParquetFiles(
            ParquetFilesRequestView::Create { params: expect::params(h, PARAMS) },
        )
    } else if n == FILE {
        // the file
        RequestView::ParquetFiles(
            ParquetFilesRequestView::GetByObjectStoreId {
                object_store_id: expect::params(h, PARAMS).object_store_id,
            },
        )
    } else if n == 12 {
        // it is in its table
        RequestView::ParquetFiles(
            ParquetFilesRequestView::ListByTableId {
                table_id: expect::params(h, PARAMS).table_id,
                level: None,
            },
        )
    } else if n == 13 {
        // and in its namespace
        RequestView::ParquetFiles(
            ParquetFilesRequestView::ListByNamespaceId {
                namespace_id: expect::params(h, PARAMS).namespace_id,
                rows: SoftDeletedRows::ExcludeDeleted,
            },
        )
    } else if n == 14 {
        // it is of the first level
        RequestView::ParquetFiles(
            ParquetFilesRequestView::ListByTableId {
                table_id: expect::params(h, PARAMS).table_id,
                level: Some(CompactionLevel::Initial),
            },
        )
    } else if n == 15 {
        RequestView::ParquetFiles(
            ParquetFilesRequestView::ListByTableId {
                table_id: expect::params(h, PARAMS).table_id,
                level: Some(CompactionLevel::FileNonOverlapped),
            },
        )
    } else if n == 16 {
        RequestView::ParquetFiles(
            ParquetFilesRequestView::ListByTableId {
                table_id: expect::params(h, PARAMS).table_id,
                level: Some(CompactionLevel::Final),
            },
        )
    } else if n == 17 {
        RequestView::ParquetFiles(
            ParquetFilesRequestView::GetByObjectStoreId {
                object_store_id: expect::file(h, FILE).object_store_id,
            },
        )
    } else if n == 18 {
        // its id is taken
        RequestView::ParquetFiles(
            ParquetFilesRequestView::Create { params: expect::params(h, PARAMS) },
        )
    } else if n == OTHER_ID {
        // the id of a second file
        RequestView::Value(ValueRequestView::NewObjectStoreIds { count: 1 })
    } else if n == 20 {
        RequestView::ParquetFiles(ParquetFilesRequestView::Create { params: other_params(h) })
    } else if n == OTHER_FILE {
        // the second file
        RequestView::ParquetFiles(
            ParquetFilesRequestView::GetByObjectStoreId {
                object_store_id: expect::uuid(h, OTHER_ID),
            },
        )
    } else if n == NOW_1 {
        // the time
        RequestView::Catalog(CatalogRequestView::Now)
    } else if n == 23 {
        // files that are not marked are not removed
        RequestView::ParquetFiles(
            ParquetFilesRequestView::DeleteOldIdsCount {
                older_than: expect::shifted(h, NOW_1, SECONDS_100),
            },
        )
    } else if n == 24 {
        RequestView::Run(
            ScenarioView::ListParquetFiles { namespace_id: expect::namespace(h, NAMESPACE).id },
        )
    } else if n == 25 {
        // the first file is marked for deletion
        RequestView::ParquetFiles(
            ParquetFilesRequestView::CreateUpgradeDelete {
                partition_id: expect::file(h, FILE).partition_id,
                delete: seq![expect::file(h, FILE).object_store_id],
                upgrade: Seq::empty(),
                create: Seq::empty(),
                target_level: CompactionLevel::Initial,
            },
        )
    } else if n == 26 {
        // it is not listed any more
        RequestView::Run(
            ScenarioView::ListParquetFiles { namespace_id: expect::namespace(h, NAMESPACE).id },
        )
    } else if n == 27 {
        // but can still be read, with the time when it was marked
        RequestView::ParquetFiles(
            ParquetFilesRequestView::GetByObjectStoreId {
                object_store_id: expect::file(h, FILE).object_store_id,
            },
        )
    } else if n == NOW_2 {
        // the time when the file is marked
        RequestView::Catalog(CatalogRequestView::Now)
    } else if n == 29 {
        // it was not marked before that
        RequestView::ParquetFiles(
            ParquetFilesRequestView::DeleteOldIdsCount {
                older_than: expect::shifted(h, NOW_2, (-SECONDS_100) as i64),
            },
        )
    } else if n == 30 {
        RequestView::ParquetFiles(
            ParquetFilesRequestView::GetByObjectStoreId {
                object_store_id: expect::file(h, FILE).object_store_id,
            },
        )
    } else if n == 31 {
        // it was marked before this
        RequestView::ParquetFiles(
            ParquetFilesRequestView::DeleteOldIdsCount {
                older_than: expect::shifted(h, NOW_1, SECONDS_100),
            },
        )
    } else if n == 32 {
        // it is removed
        RequestView::ParquetFiles(
            ParquetFilesRequestView::GetByObjectStoreId {
                object_store_id: expect::file(h, FILE).object_store_id,
            },
        )
    } else if n == 33 {
        RequestView::Run(
            ScenarioView::ListParquetFiles { namespace_id: expect::namespace(h, NAMESPACE).id },
        )
    } else if n == NAMESPACE_2 {
        // a second namespace
        RequestView::Helper(
            HelperRequestView::ArbitraryNamespace { name: "namespace_parquet_file_test1"@ },
        )
    } else if n == TABLE_2 {
        // its table
        RequestView::Helper(
            HelperRequestView::ArbitraryTable {
                name: "test_table2"@,
                namespace: expect::namespace(h, NAMESPACE_2),
            },
        )
    } else if n == PARTITION_2 {
        // its partition
        RequestView::Partitions(
            PartitionsRequestView::CreateOrGet {
                key: "foo"@,
                table_id: expect::table(h, TABLE_2).id,
            },
        )
    } else if n == 37 {
        RequestView::Run(
            ScenarioView::ListParquetFiles { namespace_id: expect::namespace(h, NAMESPACE_2).id },
        )
    } else if n == TS3 {
        // a snapshot of its table
        RequestView::Tables(TablesRequestView::Snapshot { id: expect::table(h, TABLE_2).id })
    } else if n == 39 {
        RequestView::Run(
            ScenarioView::ValidateTableSnapshot { table_snapshot: expect::table_snapshot(h, TS3) },
        )
    } else if n == ID_1 {
        // the id of file 1
        RequestView::Value(ValueRequestView::NewObjectStoreIds { count: 1 })
    } else if n == 41 {
        RequestView::ParquetFiles(ParquetFilesRequestView::Create { params: params_1(h) })
    } else if n == FILE_1 {
        // file 1
        RequestView::ParquetFiles(
            ParquetFilesRequestView::GetByObjectStoreId { object_store_id: expect::uuid(h, ID_1) },
        )
    } else if n == ID_2 {
        // the id of file 2
        RequestView::Value(ValueRequestView::NewObjectStoreIds { count: 1 })
    } else if n == 44 {
        RequestView::ParquetFiles(ParquetFilesRequestView::Create { params: params_2(h) })
    } else if n == FILE_2 {
        // file 2
        RequestView::ParquetFiles(
            ParquetFilesRequestView::GetByObjectStoreId { object_store_id: expect::uuid(h, ID_2) },
        )
    } else if n == 46 {
        RequestView::Run(
            ScenarioView::ListParquetFiles { namespace_id: expect::namespace(h, NAMESPACE_2).id },
        )
    } else if n == 47 {
        // a file is not added twice
        RequestView::ParquetFiles(ParquetFilesRequestView::Create { params: params_2(h) })
    } else if n == 48 {
        // but adding it again can be asked for
        RequestView::ParquetFiles(ParquetFilesRequestView::Upsert { params: params_2(h) })
    } else if n == 49 {
        // not so another file of the same id
        RequestView::ParquetFiles(ParquetFilesRequestView::Upsert { params: conflicting_params(h) })
    } else if n == ID_3 {
        // the id of file 3
        RequestView::Value(ValueRequestView::NewObjectStoreIds { count: 1 })
    } else if n == 51 {
        RequestView::ParquetFiles(ParquetFilesRequestView::Create { params: params_3(h) })
    } else if n == FILE_3 {
        // file 3
        RequestView::ParquetFiles(
            ParquetFilesRequestView::GetByObjectStoreId { object_store_id: expect::uuid(h, ID_3) },
        )
    } else if n == 53 {
        RequestView::Run(
            ScenarioView::ListParquetFiles { namespace_id: expect::namespace(h, NAMESPACE_2).id },
        )
    } else if n == S1 {
        // a snapshot with three files
        RequestView::Partitions(
            PartitionsRequestView::Snapshot { id: expect::partition(h, PARTITION_2).id },
        )
    } else if n == 55 {
        RequestView::Run(
            ScenarioView::ValidatePartitionSnapshot {
                partition_snapshot: expect::partition_snapshot(h, S1),
            },
        )
    } else if n == 56 {
        // file 2 is marked for deletion
        RequestView::ParquetFiles(
            ParquetFilesRequestView::CreateUpgradeDelete {
                partition_id: expect::file(h, FILE_2).partition_id,
                delete: seq![expect::file(h, FILE_2).object_store_id],
                upgrade: Seq::empty(),
                create: Seq::empty(),
                target_level: CompactionLevel::Initial,
            },
        )
    } else if n == BEFORE_FAILURES {
        // the files before requests that fail
        RequestView::Run(
            ScenarioView::ListParquetFiles { namespace_id: expect::namespace(h, NAMESPACE_2).id },
        )
    } else if n == 58 {
        // a file is not marked twice
        RequestView::ParquetFiles(
            ParquetFilesRequestView::CreateUpgradeDelete {
                partition_id: expect::partition(h, PARTITION_2).id,
                delete: seq![
                    expect::file(h, FILE_2).object_store_id,
                    expect::file(h, FILE_3).object_store_id,
                ],
                upgrade: Seq::empty(),
                create: Seq::empty(),
                target_level: CompactionLevel::Initial,
            },
        )
    } else if n == 59 {
        RequestView::ParquetFiles(
            ParquetFilesRequestView::CreateUpgradeDelete {
                partition_id: expect::partition(h, PARTITION_2).id,
                delete: seq![expect::file(h, FILE_2).object_store_id],
                upgrade: seq![expect::file(h, FILE_3).object_store_id],
                create: Seq::empty(),
                target_level: CompactionLevel::Initial,
            },
        )
    } else if n == 60 {
        // nor raised once it is marked
        RequestView::ParquetFiles(
            ParquetFilesRequestView::CreateUpgradeDelete {
                partition_id: expect::partition(h, PARTITION_2).id,
                delete: seq![expect::file(h, FILE_3).object_store_id],
                upgrade: seq![expect::file(h, FILE_2).object_store_id],
                create: Seq::empty(),
                target_level: CompactionLevel::Initial,
            },
        )
    } else if n == AFTER_FAILURES {
        // requests that fail change nothing
        RequestView::Run(
            ScenarioView::ListParquetFiles { namespace_id: expect::namespace(h, NAMESPACE_2).id },
        )
    } else if n == S2 {
        // a snapshot with two files
        RequestView::Partitions(
            PartitionsRequestView::Snapshot { id: expect::partition(h, PARTITION_2).id },
        )
    } else if n == 63 {
        RequestView::Run(
            ScenarioView::ValidatePartitionSnapshot {
                partition_snapshot: expect::partition_snapshot(h, S2),
            },
        )
    } else if n == 64 {
        // there is no such namespace
        RequestView::Run(ScenarioView::ListParquetFiles { namespace_id: i64::MAX })
    } else if n == NOW_3 {
        // the time when file 2 is marked
        RequestView::Catalog(CatalogRequestView::Now)
    } else if n == 66 {
        // file 2 is removed
        RequestView::ParquetFiles(
            ParquetFilesRequestView::DeleteOldIdsCount {
                older_than: expect::shifted(h, NOW_3, SECONDS_100),
            },
        )
    } else if n == S3 {
        // a snapshot after that
        RequestView::Partitions(
            PartitionsRequestView::Snapshot { id: expect::partition(h, PARTITION_2).id },
        )
    } else if n == 68 {
        RequestView::Run(
            ScenarioView::ValidatePartitionSnapshot {
                partition_snapshot: expect::partition_snapshot(h, S3),
            },
        )
    } else if n == NAMESPACES {
        // all namespaces
        RequestView::Namespaces(NamespacesRequestView::List { rows: SoftDeletedRows::AllRows })
    } else if n == 70 {
        // they keep their data for ever
        RequestView::Run(
            ScenarioView::KeepForEver { namespaces: expect::namespaces(h, NAMESPACES) },
        )
    } else if n == 71 {
        // so that no file is too old
        RequestView::ParquetFiles(ParquetFilesRequestView::FlagForDeleteByRetention)
    } else if n == 72 {
        // now one keeps its data for an hour
        RequestView::Namespaces(
            NamespacesRequestView::UpdateRetentionPeriod {
                id: expect::namespace(h, NAMESPACE_2).id,
                retention_period_ns: Some(HOUR),
            },
        )
    } else if n == ID_4 {
        // the id of file 4
        RequestView::Value(ValueRequestView::NewObjectStoreIds { count: 1 })
    } else if n == NOW_4 {
        // the time when file 4 is added
        RequestView::Catalog(CatalogRequestView::Now)
    } else if n == 75 {
        RequestView::ParquetFiles(ParquetFilesRequestView::Create { params: params_4(h) })
    } else if n == ID_5 {
        // the id of file 5
        RequestView::Value(ValueRequestView::NewObjectStoreIds { count: 1 })
    } else if n == NOW_5 {
        // the time when file 5 is added
        RequestView::Catalog(CatalogRequestView::Now)
    } else if n == 78 {
        RequestView::ParquetFiles(ParquetFilesRequestView::Create { params: params_5(h) })
    } else if n == 79 {
        // files whose data is too old are marked for deletion
        RequestView::ParquetFiles(ParquetFilesRequestView::FlagForDeleteByRetention)
    } else if n == 80 {
        // such as file 4
        RequestView::ParquetFiles(
            ParquetFilesRequestView::GetByObjectStoreId { object_store_id: expect::uuid(h, ID_4) },
        )
    } else if n == FILE_5 {
        // file 5, which is not
        RequestView::ParquetFiles(
            ParquetFilesRequestView::GetByObjectStoreId { object_store_id: expect::uuid(h, ID_5) },
        )
    } else if n == S4 {
        // a snapshot after that
        RequestView::Partitions(
            PartitionsRequestView::Snapshot { id: expect::partition(h, PARTITION_2).id },
        )
    } else if n == 83 {
        RequestView::Run(
            ScenarioView::ValidatePartitionSnapshot {
                partition_snapshot: expect::partition_snapshot(h, S4),
            },
        )
    } else if n == 84 {
        // no file is marked twice
        RequestView::ParquetFiles(ParquetFilesRequestView::FlagForDeleteByRetention)
    } else if n == NOW_6 {
        // the time
        RequestView::Catalog(CatalogRequestView::Now)
    } else if n == OLD_IDS {
        // the ids of many files
        RequestView::Value(ValueRequestView::NewObjectStoreIds { count: 1_042 })
    } else if n == 87 {
        // their data is too old
        RequestView::ParquetFiles(
            ParquetFilesRequestView::CreateUpgradeDelete {
                partition_id: params_1(h).partition_id,
                delete: Seq::empty(),
                upgrade: Seq::empty(),
                create: old_files(h),
                target_level: CompactionLevel::Initial,
            },
        )
    } else if n == 88 {
        // they are marked, but not more than a thousand at once
        RequestView::ParquetFiles(ParquetFilesRequestView::FlagForDeleteByRetention)
    } else if n == 89 {
        RequestView::ParquetFiles(ParquetFilesRequestView::FlagForDeleteByRetention)
    } else if n == 90 {
        RequestView::ParquetFiles(ParquetFilesRequestView::FlagForDeleteByRetention)
    } else if n == ID_6 {
        // the id of file 6
        RequestView::Value(ValueRequestView::NewObjectStoreIds { count: 1 })
    } else if n == 92 {
        RequestView::ParquetFiles(ParquetFilesRequestView::Create { params: params_6(h) })
    } else if n == ID_7 {
        // the id of file 7
        RequestView::Value(ValueRequestView::NewObjectStoreIds { count: 1 })
    } else if n == ID_8 {
        // the id of file 8
        RequestView::Value(ValueRequestView::NewObjectStoreIds { count: 1 })
    } else if n == 95 {
        // file 5 is marked, file 6 raised and file 7 added
        RequestView::ParquetFiles(
            ParquetFilesRequestView::CreateUpgradeDelete {
                partition_id: expect::file(h, FILE_5).partition_id,
                delete: seq![expect::file(h, FILE_5).object_store_id],
                upgrade: seq![expect::uuid(h, ID_6)],
                create: seq![params_7(h)],
                target_level: CompactionLevel::Final,
            },
        )
    } else if n == 96 {
        // file 8 is added to another partition
        RequestView::ParquetFiles(
            ParquetFilesRequestView::CreateUpgradeDelete {
                partition_id: params_8(h).partition_id,
                delete: Seq::empty(),
                upgrade: Seq::empty(),
                create: seq![params_8(h)],
                target_level: CompactionLevel::Final,
            },
        )
    } else if n == FILE_5_MARKED {
        // file 5, which is now marked for deletion
        RequestView::ParquetFiles(
            ParquetFilesRequestView::GetByObjectStoreId {
                object_store_id: expect::file(h, FILE_5).object_store_id,
            },
        )
    } else if n == 98 {
        RequestView::ParquetFiles(
            ParquetFilesRequestView::GetByObjectStoreId { object_store_id: expect::uuid(h, ID_6) },
        )
    } else if n == FILE_7 {
        // file 7, which was added at that moment
        RequestView::ParquetFiles(
            ParquetFilesRequestView::GetByObjectStoreId { object_store_id: expect::uuid(h, ID_7) },
        )
    } else if n == ID_7_TEXT {
        // how its id is shown
        RequestView::Value(
            ValueRequestView::ObjectStoreIdText { object_store_id: expect::uuid(h, ID_7) },
        )
    } else if n == 101 {
        // its id is taken
        RequestView::ParquetFiles(
            ParquetFilesRequestView::CreateUpgradeDelete {
                partition_id: expect::partition(h, PARTITION_2).id,
                delete: Seq::empty(),
                upgrade: Seq::empty(),
                create: seq![params_7(h)],
                target_level: CompactionLevel::Final,
            },
        )
    } else if n == 102 {
        RequestView::ParquetFiles(
            ParquetFilesRequestView::GetByObjectStoreId {
                object_store_id: expect::file(h, FILE_1).object_store_id,
            },
        )
    } else if n == 103 {
        RequestView::ParquetFiles(
            ParquetFilesRequestView::GetByObjectStoreId {
                object_store_id: expect::file(h, FILE_7).object_store_id,
            },
        )
    } else if n == SPARE_ID {
        // an id that no file has
        RequestView::Value(ValueRequestView::NewObjectStoreIds { count: 1 })
    } else if n == 105 {
        // which files there are can be asked
        RequestView::ParquetFiles(
            ParquetFilesRequestView::ExistsByObjectStoreIdBatch {
                ids: seq![
                    expect::file(h, FILE_1).object_store_id,
                    expect::file(h, FILE_7).object_store_id,
                    expect::uuid(h, SPARE_ID),
                ],
            },
        )
    } else if n == 106 {
        // also by partition
        RequestView::ParquetFiles(
            ParquetFilesRequestView::ExistsByPartitionAndObjectStoreIdBatch {
                located: seq![
                    (expect::partition(h, PARTITION_2).id, expect::file(h, FILE_1).object_store_id),
                    (expect::partition(h, PARTITION).id, expect::uuid(h, ID_6)),
                    (expect::partition(h, PARTITION_2).id, expect::file(h, FILE_7).object_store_id),
                    (expect::partition(h, PARTITION).id, expect::uuid(h, ID_8)),
                    (expect::partition(h, PARTITION).id, expect::uuid(h, SPARE_ID)),
                ],
            },
        )
    } else if n == S5 {
        // a snapshot after that
        RequestView::Partitions(
            PartitionsRequestView::Snapshot { id: expect::partition(h, PARTITION_2).id },
        )
    } else if n == 108 {
        RequestView::Run(
            ScenarioView::ValidatePartitionSnapshot {
                partition_snapshot: expect::partition_snapshot(h, S5),
            },
        )
    } else if n == PARTITION_3 {
        // a third partition
        RequestView::Partitions(
            PartitionsRequestView::CreateOrGet {
                key: "three"@,
                table_id: expect::table(h, TABLE).id,
            },
        )
    } else if n == TS4 {
        // a snapshot of its table
        RequestView::Tables(TablesRequestView::Snapshot { id: expect::table(h, TABLE).id })
    } else if n == 111 {
        RequestView::Run(
            ScenarioView::ValidateTableSnapshot { table_snapshot: expect::table_snapshot(h, TS4) },
        )
    } else if n == ID_9 {
        // the id of file 9
        RequestView::Value(ValueRequestView::NewObjectStoreIds { count: 1 })
    } else if n == 113 {
        // partitions cannot be mixed
        RequestView::ParquetFiles(
            ParquetFilesRequestView::CreateUpgradeDelete {
                partition_id: expect::partition(h, PARTITION_2).id,
                delete: seq![expect::file(h, FILE_7).object_store_id],
                upgrade: Seq::empty(),
                create: seq![params_9(h)],
                target_level: CompactionLevel::Final,
            },
        )
    } else if n == 114 {
        RequestView::ParquetFiles(
            ParquetFilesRequestView::ListByPartitionNotToDeleteBatch {
                partition_ids: seq![expect::partition(h, PARTITION_2).id],
            },
        )
    } else if n == 115 {
        // each takes its own files
        RequestView::ParquetFiles(
            ParquetFilesRequestView::CreateUpgradeDelete {
                partition_id: expect::partition(h, PARTITION_3).id,
                delete: Seq::empty(),
                upgrade: Seq::empty(),
                create: seq![params_9(h)],
                target_level: CompactionLevel::Final,
            },
        )
    } else if n == LISTED_3 {
        // the files of the third partition
        RequestView::ParquetFiles(
            ParquetFilesRequestView::ListByPartitionNotToDeleteBatch {
                partition_ids: seq![expect::partition(h, PARTITION_3).id],
            },
        )
    } else if n == 117 {
        // several partitions can be listed
        RequestView::ParquetFiles(
            ParquetFilesRequestView::ListByPartitionNotToDeleteBatch {
                partition_ids: Seq::empty(),
            },
        )
    } else if n == 118 {
        RequestView::ParquetFiles(
            ParquetFilesRequestView::ListByPartitionNotToDeleteBatch {
                partition_ids: seq![
                    expect::partition(h, PARTITION_2).id,
                    expect::partition(h, PARTITION_3).id,
                ],
            },
        )
    } else if n == 119 {
        RequestView::ParquetFiles(
            ParquetFilesRequestView::ListByPartitionNotToDeleteBatch {
                partition_ids: seq![
                    expect::partition(h, PARTITION_2).id,
                    i64::MAX,
                    expect::partition(h, PARTITION_3).id,
                    expect::partition(h, PARTITION_2).id,
                ],
            },
        )
    } else if n == 120 {
        // a file is changed only through its own partition
        RequestView::ParquetFiles(
            ParquetFilesRequestView::CreateUpgradeDelete {
                partition_id: expect::partition(h, PARTITION_2).id,
                delete: seq![expect::first_file(h, LISTED_3).object_store_id],
                upgrade: Seq::empty(),
                create: Seq::empty(),
                target_level: CompactionLevel::Final,
            },
        )
    } else if n == 121 {
        RequestView::ParquetFiles(
            ParquetFilesRequestView::CreateUpgradeDelete {
                partition_id: expect::partition(h, PARTITION_2).id,
                delete: Seq::empty(),
                upgrade: seq![expect::first_file(h, LISTED_3).object_store_id],
                create: Seq::empty(),
                target_level: CompactionLevel::Final,
            },
        )
    } else if n == 122 {
        RequestView::ParquetFiles(
            ParquetFilesRequestView::CreateUpgradeDelete {
                partition_id: expect::partition(h, PARTITION_3).id,
                delete: seq![expect::first_file(h, LISTED_3).object_store_id],
                upgrade: Seq::empty(),
                create: Seq::empty(),
                target_level: CompactionLevel::Final,
            },
        )
    } else if n == 123 {
        // there is no such partition
        RequestView::Partitions(PartitionsRequestView::Snapshot { id: i64::MAX })
    } else if n == SOURCED {
        // the parameters of a file, which is given a source
        RequestView::Helper(
            HelperRequestView::ArbitraryParquetFileParams {
                namespace: expect::namespace(h, NAMESPACE),
                table: expect::table(h, TABLE),
                partition: expect::partition(h, PARTITION),
            },
        )
    } else if n == 125 {
        RequestView::ParquetFiles(ParquetFilesRequestView::Create { params: sourced_params(h) })
    } else if n == 126 {
        // the source is kept
        RequestView::ParquetFiles(
            ParquetFilesRequestView::GetByObjectStoreId {
                object_store_id: expect::params(h, SOURCED).object_store_id,
            },
        )
    } else if n == PARTITION_4 {
        // a partition that gets more files than can be listed
        RequestView::Partitions(
            PartitionsRequestView::CreateOrGet {
                key: "four"@,
                table_id: expect::table(h, TABLE).id,
            },
        )
    } else {
        let i = (n - FILLING) / 2;
        if i >= filling(max_l0_files) {
            // not more files are listed than may be, and those that were created first
            RequestView::ParquetFiles(
                ParquetFilesRequestView::ListByPartitionNotToDeleteBatch {
                    partition_ids: seq![expect::partition(h, PARTITION_4).id],
                },
            )
        } else if (n - FILLING) % 2 == 0 {
            RequestView::Value(ValueRequestView::NewObjectStoreIds { count: 1 })
        } else {
            RequestView::ParquetFiles(
                ParquetFilesRequestView::CreateUpgradeDelete {
                    partition_id: expect::partition(h, PARTITION_4).id,
                    delete: Seq::empty(),
                    upgrade: Seq::empty(),
                    create: seq![filling_params(h, (n - 1) as usize, i as i64)],
                    target_level: CompactionLevel::Initial,
                },
            )
        }
    }
}

/// The last of the replies `h` is as it has to be, where the ones before it were.
pub open spec fn accepts(h: Seq<Reply>, max_l0_files: u32) -> bool {
    let n = h.len() - 1;
    if n == NAMESPACE {
        expect::got_namespace(h)
    } else if n == TABLE {
        expect::got_table(h)
    } else if n == OTHER_TABLE {
        expect::got_table(h)
    } else if n == PARTITION {
        expect::got_partition(h)
    } else if n == OTHER_PARTITION {
        expect::got_partition(h)
    } else if n == TS1 {
        expect::got_table_snapshot(h)
    } else if n == 6 {
        expect::passed(h)
    } else if n == TS2 {
        expect::got_table_snapshot(h)
    } else if n == 8 {
        expect::passed(h)
    } else if n == PARAMS {
        expect::got_params(h)
    } else if n == 10 {
        expect::got_file(h)
    } else if n == FILE {
        expect::got_file(h)
    } else if n == 12 {
        expect::only_file(h, FILE)
    } else if n == 13 {
        expect::only_file(h, FILE)
    } else if n == 14 {
        expect::files_of_level(h, CompactionLevel::Initial, 1)
    } else if n == 15 {
        expect::files_of_level(h, CompactionLevel::FileNonOverlapped, 0)
    } else if n == 16 {
        expect::files_of_level(h, CompactionLevel::Final, 0)
    } else if n == 17 {
        expect::same_file(h, FILE)
    } else if n == 18 {
        expect::refused_with(h, ErrorKind::AlreadyExists)
    } else if n == OTHER_ID {
        expect::got_uuid(h)
    } else if n == 20 {
        expect::got_file(h)
    } else if n == OTHER_FILE {
        expect::got_file(h)
            && expect::spare_id(h, FILE, OTHER_FILE)
            && expect::was_unmarked(h, FILE)
    } else if n == NOW_1 {
        expect::got_time(h) && expect::shifts_by(h, NOW_1, SECONDS_100)
    } else if n == 23 {
        expect::count_is(h, 0)
    } else if n == 24 {
        expect::file_count(h, 2)
    } else if n == 25 {
        expect::got_ids(h)
    } else if n == 26 {
        expect::file_count(h, 1)
    } else if n == 27 {
        expect::marked(h)
    } else if n == NOW_2 {
        expect::got_time(h) && expect::shifts_by(h, NOW_2, (-SECONDS_100) as i64)
    } else if n == 29 {
        expect::count_is(h, 0)
    } else if n == 30 {
        expect::got_file(h)
    } else if n == 31 {
        expect::count_is(h, 1)
    } else if n == 32 {
        expect::nothing(h)
    } else if n == 33 {
        expect::only_file(h, OTHER_FILE)
    } else if n == NAMESPACE_2 {
        expect::got_namespace(h)
    } else if n == TABLE_2 {
        expect::got_table(h)
    } else if n == PARTITION_2 {
        expect::got_partition(h)
    } else if n == 37 {
        expect::file_count(h, 0)
    } else if n == TS3 {
        expect::got_table_snapshot(h)
    } else if n == 39 {
        expect::passed(h)
    } else if n == ID_1 {
        expect::got_uuid(h)
    } else if n == 41 {
        expect::got_file(h)
    } else if n == FILE_1 {
        expect::got_file(h)
    } else if n == ID_2 {
        expect::got_uuid(h)
    } else if n == 44 {
        expect::got_file(h)
    } else if n == FILE_2 {
        expect::got_file(h)
    } else if n == 46 {
        expect::two_files(h, FILE_1, FILE_2)
    } else if n == 47 {
        expect::refused_with(h, ErrorKind::AlreadyExists)
    } else if n == 48 {
        expect::same_file(h, FILE_2)
    } else if n == 49 {
        expect::refused_with(h, ErrorKind::AlreadyExists)
    } else if n == ID_3 {
        expect::got_uuid(h)
    } else if n == 51 {
        expect::got_file(h)
    } else if n == FILE_3 {
        expect::got_file(h)
    } else if n == 53 {
        expect::three_files(h, FILE_1, FILE_2, FILE_3)
    } else if n == S1 {
        expect::got_partition_snapshot(h)
    } else if n == 55 {
        expect::passed(h)
    } else if n == 56 {
        expect::got_ids(h)
    } else if n == BEFORE_FAILURES {
        expect::got_files(h) && expect::two_files(h, FILE_1, FILE_3)
    } else if n == 58 {
        expect::refused_with(h, ErrorKind::NotFound)
    } else if n == 59 {
        expect::refused_with(h, ErrorKind::NotFound)
    } else if n == 60 {
        expect::refused_with(h, ErrorKind::NotFound)
    } else if n == AFTER_FAILURES {
        expect::got_files(h) && expect::two_files(h, FILE_1, FILE_3)
    } else if n == S2 {
        expect::got_partition_snapshot(h) && expect::newer(h, S2, S1)
    } else if n == 63 {
        expect::passed(h)
    } else if n == 64 {
        expect::file_count(h, 0)
    } else if n == NOW_3 {
        expect::got_time(h) && expect::shifts_by(h, NOW_3, SECONDS_100)
    } else if n == 66 {
        expect::count_is(h, 1)
    } else if n == S3 {
        expect::got_partition_snapshot(h) && expect::not_older(h, S3, S2)
    } else if n == 68 {
        expect::passed(h)
    } else if n == NAMESPACES {
        expect::got_namespaces(h)
    } else if n == 70 {
        expect::passed(h)
    } else if n == 71 {
        expect::located_count(h, 0)
    } else if n == 72 {
        expect::got_namespace(h)
    } else if n == ID_4 {
        expect::got_uuid(h)
    } else if n == NOW_4 {
        expect::got_time(h) && expect::shifts_by(h, NOW_4, (-MINUTES_65) as i64)
    } else if n == 75 {
        expect::got_file(h)
    } else if n == ID_5 {
        expect::got_uuid(h)
    } else if n == NOW_5 {
        expect::got_time(h) && expect::shifts_by(h, NOW_5, (-MINUTES_55) as i64)
    } else if n == 78 {
        expect::got_file(h)
    } else if n == 79 {
        expect::several_located(h)
    } else if n == 80 {
        expect::marked(h)
    } else if n == FILE_5 {
        expect::got_file(h) && expect::unmarked(h)
    } else if n == S4 {
        expect::got_partition_snapshot(h) && expect::newer(h, S4, S3)
    } else if n == 83 {
        expect::passed(h)
    } else if n == 84 {
        expect::located_count(h, 0)
    } else if n == NOW_6 {
        expect::got_time(h) && expect::shifts_by(h, NOW_6, (-MINUTES_65) as i64)
    } else if n == OLD_IDS {
        expect::drew(h, 1_042)
    } else if n == 87 {
        expect::got_ids(h)
    } else if n == 88 {
        expect::located_count(h, 1_000)
    } else if n == 89 {
        expect::located_count(h, 42)
    } else if n == 90 {
        expect::located_count(h, 0)
    } else if n == ID_6 {
        expect::got_uuid(h)
    } else if n == 92 {
        expect::got_file(h)
    } else if n == ID_7 {
        expect::got_uuid(h)
    } else if n == ID_8 {
        expect::got_uuid(h)
    } else if n == 95 {
        expect::id_count(h, 1)
    } else if n == 96 {
        expect::id_count(h, 1)
    } else if n == FILE_5_MARKED {
        expect::got_file(h) && expect::marked(h)
    } else if n == 98 {
        expect::has_level(h, CompactionLevel::Final)
    } else if n == FILE_7 {
        expect::got_file(h) && expect::created_when_marked(h, FILE_5_MARKED)
    } else if n == ID_7_TEXT {
        expect::got_text(h)
    } else if n == 101 {
        expect::refused_about(h, ErrorKind::AlreadyExists, expect::text(h, ID_7_TEXT))
    } else if n == 102 {
        expect::marked(h)
    } else if n == 103 {
        expect::unmarked(h)
    } else if n == SPARE_ID {
        expect::got_uuid(h)
    } else if n == 105 {
        expect::uuids_are(
            h,
            expect::file(h, FILE_1).object_store_id,
            expect::file(h, FILE_7).object_store_id,
        )
    } else if n == 106 {
        expect::located_are(
            h,
            (expect::partition(h, PARTITION_2).id, expect::file(h, FILE_1).object_store_id),
            (expect::partition(h, PARTITION_2).id, expect::file(h, FILE_7).object_store_id),
            (expect::partition(h, PARTITION).id, expect::uuid(h, ID_8)),
        )
    } else if n == S5 {
        expect::got_partition_snapshot(h) && expect::newer(h, S5, S4)
    } else if n == 108 {
        expect::passed(h)
    } else if n == PARTITION_3 {
        expect::got_partition(h)
    } else if n == TS4 {
        expect::got_table_snapshot(h)
    } else if n == 111 {
        expect::passed(h) && expect::newer(h, TS4, TS1)
    } else if n == ID_9 {
        expect::got_uuid(h)
    } else if n == 113 {
        expect::refused_saying(h, "Inconsistent ParquetFileParams, expected PartitionId"@)
    } else if n == 114 {
        expect::file_count(h, 2)
    } else if n == 115 {
        expect::got_ids(h)
    } else if n == LISTED_3 {
        expect::got_files(h) && expect::file_count(h, 1)
    } else if n == 117 {
        expect::file_count(h, 0)
    } else if n == 118 {
        expect::file_count(h, 3)
    } else if n == 119 {
        expect::file_count(h, 3)
    } else if n == 120 {
        expect::refused_with(h, ErrorKind::NotFound)
    } else if n == 121 {
        expect::refused_with(h, ErrorKind::NotFound)
    } else if n == 122 {
        expect::got_ids(h)
    } else if n == 123 {
        expect::refused_with(h, ErrorKind::NotFound)
    } else if n == SOURCED {
        expect::got_params(h)
    } else if n == 125 {
        expect::got_file(h)
    } else if n == 126 {
        expect::has_source(h, Some(ParquetFileSource::BulkIngest))
    } else if n == PARTITION_4 {
        expect::got_partition(h)
    } else {
        let i = (n - FILLING) / 2;
        if i >= filling(max_l0_files) {
            expect::oldest_files(h, max_l0_files as int)
        } else if (n - FILLING) % 2 == 0 {
            expect::got_uuid(h)
        } else {
            expect::got_ids(h)
        }
    }
}

/// With the replies `h` everything has been asked for.
pub open spec fn finished(h: Seq<Reply>, max_l0_files: u32) -> bool {
    h.len() > FILLING && (h.len() - FILLING - 1) / 2 >= filling(max_l0_files)
}

/// What is known of the first `m` replies once they have been accepted.
#[verifier::rlimit(100)]
pub proof fn lemma_known(h: Seq<Reply>, m: int, max_l0_files: u32)
    requires
        0 <= m <= h.len(),
        accepted(ScenarioView::ParquetFile { max_l0_files }, h, m),
    ensures
        m > NAMESPACE ==> expect::is_namespace(h, NAMESPACE),
        m > TABLE ==> expect::is_table(h, TABLE),
        m > OTHER_TABLE ==> expect::is_table(h, OTHER_TABLE),
        m > PARTITION ==> expect::is_partition(h, PARTITION),
        m > OTHER_PARTITION ==> expect::is_partition(h, OTHER_PARTITION),
        m > TS1 ==> expect::is_table_snapshot(h, TS1),
        m > TS2 ==> expect::is_table_snapshot(h, TS2),
        m > PARAMS ==> expect::is_params(h, PARAMS),
        m > FILE ==> expect::is_file(h, FILE),
        m > OTHER_ID ==> expect::is_uuid(h, OTHER_ID),
        m > OTHER_FILE ==> expect::is_file(h, OTHER_FILE),
        m > NOW_1 ==> expect::is_time(h, NOW_1),
        m > NOW_1 ==> expect::shifts_by(h, NOW_1, SECONDS_100),
        m > NOW_2 ==> expect::is_time(h, NOW_2),
        m > NOW_2 ==> expect::shifts_by(h, NOW_2, (-SECONDS_100) as i64),
        m > NAMESPACE_2 ==> expect::is_namespace(h, NAMESPACE_2),
        m > TABLE_2 ==> expect::is_table(h, TABLE_2),
        m > PARTITION_2 ==> expect::is_partition(h, PARTITION_2),
        m > TS3 ==> expect::is_table_snapshot(h, TS3),
        m > ID_1 ==> expect::is_uuid(h, ID_1),
        m > FILE_1 ==> expect::is_file(h, FILE_1),
        m > ID_2 ==> expect::is_uuid(h, ID_2),
        m > FILE_2 ==> expect::is_file(h, FILE_2),
        m > ID_3 ==> expect::is_uuid(h, ID_3),
        m > FILE_3 ==> expect::is_file(h, FILE_3),
        m > S1 ==> expect::is_partition_snapshot(h, S1),
        m > BEFORE_FAILURES ==> expect::is_files(h, BEFORE_FAILURES),
        m > AFTER_FAILURES ==> expect::is_files(h, AFTER_FAILURES),
        m > S2 ==> expect::is_partition_snapshot(h, S2),
        m > NOW_3 ==> expect::is_time(h, NOW_3),
        m > NOW_3 ==> expect::shifts_by(h, NOW_3, SECONDS_100),
        m > S3 ==> expect::is_partition_snapshot(h, S3),
        m > NAMESPACES ==> expect::is_namespaces(h, NAMESPACES),
        m > ID_4 ==> expect::is_uuid(h, ID_4),
        m > NOW_4 ==> expect::is_time(h, NOW_4),
        m > NOW_4 ==> expect::shifts_by(h, NOW_4, (-MINUTES_65) as i64),
        m > ID_5 ==> expect::is_uuid(h, ID_5),
        m > NOW_5 ==> expect::is_time(h, NOW_5),
        m > NOW_5 ==> expect::shifts_by(h, NOW_5, (-MINUTES_55) as i64),
        m > FILE_5 ==> expect::is_file(h, FILE_5),
        m > S4 ==> expect::is_partition_snapshot(h, S4),
        m > NOW_6 ==> expect::is_time(h, NOW_6),
        m > NOW_6 ==> expect::shifts_by(h, NOW_6, (-MINUTES_65) as i64),
        m > OLD_IDS ==> expect::is_uuids(h, OLD_IDS),
        m > OLD_IDS ==> expect::uuids(h, OLD_IDS).len() == 1_042,
        m > ID_6 ==> expect::is_uuid(h, ID_6),
        m > ID_7 ==> expect::is_uuid(h, ID_7),
        m > ID_8 ==> expect::is_uuid(h, ID_8),
        m > FILE_5_MARKED ==> expect::is_file(h, FILE_5_MARKED),
        m > FILE_7 ==> expect::is_file(h, FILE_7),
        m > ID_7_TEXT ==> expect::is_text(h, ID_7_TEXT),
        m > SPARE_ID ==> expect::is_uuid(h, SPARE_ID),
        m > S5 ==> expect::is_partition_snapshot(h, S5),
        m > PARTITION_3 ==> expect::is_partition(h, PARTITION_3),
        m > TS4 ==> expect::is_table_snapshot(h, TS4),
        m > ID_9 ==> expect::is_uuid(h, ID_9),
        m > LISTED_3 ==> expect::is_files(h, LISTED_3),
        m > LISTED_3 ==> expect::files(h, LISTED_3).len() == 1,
        m > SOURCED ==> expect::is_params(h, SOURCED),
        m > PARTITION_4 ==> expect::is_partition(h, PARTITION_4),
{
    let s = ScenarioView::ParquetFile { max_l0_files };
    assert(m > NAMESPACE ==> expect::is_namespace(h, NAMESPACE)) by {
        if m > NAMESPACE {
            assert(run::accepts(s, h.take(NAMESPACE + 1)));
        }
    }
    assert(m > TABLE ==> expect::is_table(h, TABLE)) by {
        if m > TABLE {
            assert(run::accepts(s, h.take(TABLE + 1)));
        }
    }
    assert(m > OTHER_TABLE ==> expect::is_table(h, OTHER_TABLE)) by {
        if m > OTHER_TABLE {
            assert(run::accepts(s, h.take(OTHER_TABLE + 1)));
        }
    }
    assert(m > PARTITION ==> expect::is_partition(h, PARTITION)) by {
        if m > PARTITION {
            assert(run::accepts(s, h.take(PARTITION + 1)));
        }
    }
    assert(m > OTHER_PARTITION ==> expect::is_partition(h, OTHER_PARTITION)) by {
        if m > OTHER_PARTITION {
            assert(run::accepts(s, h.take(OTHER_PARTITION + 1)));
        }
    }
    assert(m > TS1 ==> expect::is_table_snapshot(h, TS1)) by {
        if m > TS1 {
            assert(run::accepts(s, h.take(TS1 + 1)));
        }
    }
    assert(m > TS2 ==> expect::is_table_snapshot(h, TS2)) by {
        if m > TS2 {
            assert(run::accepts(s, h.take(TS2 + 1)));
        }
    }
    assert(m > PARAMS ==> expect::is_params(h, PARAMS)) by {
        if m > PARAMS {
            assert(run::accepts(s, h.take(PARAMS + 1)));
        }
    }
    assert(m > FILE ==> expect::is_file(h, FILE)) by {
        if m > FILE {
            assert(run::accepts(s, h.take(FILE + 1)));
        }
    }
    assert(m > OTHER_ID ==> expect::is_uuid(h, OTHER_ID)) by {
        if m > OTHER_ID {
            assert(run::accepts(s, h.take(OTHER_ID + 1)));
        }
    }
    assert(m > OTHER_FILE ==> expect::is_file(h, OTHER_FILE)) by {
        if m > OTHER_FILE {
            assert(run::accepts(s, h.take(OTHER_FILE + 1)));
        }
    }
    assert(m > NOW_1 ==> expect::is_time(h, NOW_1)
        && expect::shifts_by(h, NOW_1, SECONDS_100)) by {
        if m > NOW_1 {
            assert(run::accepts(s, h.take(NOW_1 + 1)));
        }
    }
    assert(m > NOW_2 ==> expect::is_time(h, NOW_2)
        && expect::shifts_by(h, NOW_2, (-SECONDS_100) as i64)) by {
        if m > NOW_2 {
            assert(run::accepts(s, h.take(NOW_2 + 1)));
        }
    }
    assert(m > NAMESPACE_2 ==> expect::is_namespace(h, NAMESPACE_2)) by {
        if m > NAMESPACE_2 {
            assert(run::accepts(s, h.take(NAMESPACE_2 + 1)));
        }
    }
    assert(m > TABLE_2 ==> expect::is_table(h, TABLE_2)) by {
        if m > TABLE_2 {
            assert(run::accepts(s, h.take(TABLE_2 + 1)));
        }
    }
    assert(m > PARTITION_2 ==> expect::is_partition(h, PARTITION_2)) by {
        if m > PARTITION_2 {
            assert(run::accepts(s, h.take(PARTITION_2 + 1)));
        }
    }
    assert(m > TS3 ==> expect::is_table_snapshot(h, TS3)) by {
        if m > TS3 {
            assert(run::accepts(s, h.take(TS3 + 1)));
        }
    }
    assert(m > ID_1 ==> expect::is_uuid(h, ID_1)) by {
        if m > ID_1 {
            assert(run::accepts(s, h.take(ID_1 + 1)));
        }
    }
    assert(m > FILE_1 ==> expect::is_file(h, FILE_1)) by {
        if m > FILE_1 {
            assert(run::accepts(s, h.take(FILE_1 + 1)));
        }
    }
    assert(m > ID_2 ==> expect::is_uuid(h, ID_2)) by {
        if m > ID_2 {
            assert(run::accepts(s, h.take(ID_2 + 1)));
        }
    }
    assert(m > FILE_2 ==> expect::is_file(h, FILE_2)) by {
        if m > FILE_2 {
            assert(run::accepts(s, h.take(FILE_2 + 1)));
        }
    }
    assert(m > ID_3 ==> expect::is_uuid(h, ID_3)) by {
        if m > ID_3 {
            assert(run::accepts(s, h.take(ID_3 + 1)));
        }
    }
    assert(m > FILE_3 ==> expect::is_file(h, FILE_3)) by {
        if m > FILE_3 {
            assert(run::accepts(s, h.take(FILE_3 + 1)));
        }
    }
    assert(m > S1 ==> expect::is_partition_snapshot(h, S1)) by {
        if m > S1 {
            assert(run::accepts(s, h.take(S1 + 1)));
        }
    }
    assert(m > BEFORE_FAILURES ==> expect::is_files(h, BEFORE_FAILURES)) by {
        if m > BEFORE_FAILURES {
            assert(run::accepts(s, h.take(BEFORE_FAILURES + 1)));
        }
    }
    assert(m > AFTER_FAILURES ==> expect::is_files(h, AFTER_FAILURES)) by {
        if m > AFTER_FAILURES {
            assert(run::accepts(s, h.take(AFTER_FAILURES + 1)));
        }
    }
    assert(m > S2 ==> expect::is_partition_snapshot(h, S2)) by {
        if m > S2 {
            assert(run::accepts(s, h.take(S2 + 1)));
        }
    }
    assert(m > NOW_3 ==> expect::is_time(h, NOW_3)
        && expect::shifts_by(h, NOW_3, SECONDS_100)) by {
        if m > NOW_3 {
            assert(run::accepts(s, h.take(NOW_3 + 1)));
        }
    }
    assert(m > S3 ==> expect::is_partition_snapshot(h, S3)) by {
        if m > S3 {
            assert(run::accepts(s, h.take(S3 + 1)));
        }
    }
    assert(m > NAMESPACES ==> expect::is_namespaces(h, NAMESPACES)) by {
        if m > NAMESPACES {
            assert(run::accepts(s, h.take(NAMESPACES + 1)));
        }
    }
    assert(m > ID_4 ==> expect::is_uuid(h, ID_4)) by {
        if m > ID_4 {
            assert(run::accepts(s, h.take(ID_4 + 1)));
        }
    }
    assert(m > NOW_4 ==> expect::is_time(h, NOW_4)
        && expect::shifts_by(h, NOW_4, (-MINUTES_65) as i64)) by {
        if m > NOW_4 {
            assert(run::accepts(s, h.take(NOW_4 + 1)));
        }
    }
    assert(m > ID_5 ==> expect::is_uuid(h, ID_5)) by {
        if m > ID_5 {
            assert(run::accepts(s, h.take(ID_5 + 1)));
        }
    }
    assert(m > NOW_5 ==> expect::is_time(h, NOW_5)
        && expect::shifts_by(h, NOW_5, (-MINUTES_55) as i64)) by {
        if m > NOW_5 {
            assert(run::accepts(s, h.take(NOW_5 + 1)));
        }
    }
    assert(m > FILE_5 ==> expect::is_file(h, FILE_5)) by {
        if m > FILE_5 {
            assert(run::accepts(s, h.take(FILE_5 + 1)));
        }
    }
    assert(m > S4 ==> expect::is_partition_snapshot(h, S4)) by {
        if m > S4 {
            assert(run::accepts(s, h.take(S4 + 1)));
        }
    }
    assert(m > NOW_6 ==> expect::is_time(h, NOW_6)
        && expect::shifts_by(h, NOW_6, (-MINUTES_65) as i64)) by {
        if m > NOW_6 {
            assert(run::accepts(s, h.take(NOW_6 + 1)));
        }
    }
    assert(m > OLD_IDS ==> expect::is_uuids(h, OLD_IDS)
        && expect::uuids(h, OLD_IDS).len() == 1_042) by {
        if m > OLD_IDS {
            assert(run::accepts(s, h.take(OLD_IDS + 1)));
        }
    }
    assert(m > ID_6 ==> expect::is_uuid(h, ID_6)) by {
        if m > ID_6 {
            assert(run::accepts(s, h.take(ID_6 + 1)));
        }
    }
    assert(m > ID_7 ==> expect::is_uuid(h, ID_7)) by {
        if m > ID_7 {
            assert(run::accepts(s, h.take(ID_7 + 1)));
        }
    }
    assert(m > ID_8 ==> expect::is_uuid(h, ID_8)) by {
        if m > ID_8 {
            assert(run::accepts(s, h.take(ID_8 + 1)));
        }
    }
    assert(m > FILE_5_MARKED ==> expect::is_file(h, FILE_5_MARKED)) by {
        if m > FILE_5_MARKED {
            assert(run::accepts(s, h.take(FILE_5_MARKED + 1)));
        }
    }
    assert(m > FILE_7 ==> expect::is_file(h, FILE_7)) by {
        if m > FILE_7 {
            assert(run::accepts(s, h.take(FILE_7 + 1)));
        }
    }
    assert(m > ID_7_TEXT ==> expect::is_text(h, ID_7_TEXT)) by {
        if m > ID_7_TEXT {
            assert(run::accepts(s, h.take(ID_7_TEXT + 1)));
        }
    }
    assert(m > SPARE_ID ==> expect::is_uuid(h, SPARE_ID)) by {
        if m > SPARE_ID {
            assert(run::accepts(s, h.take(SPARE_ID + 1)));
        }
    }
    assert(m > S5 ==> expect::is_partition_snapshot(h, S5)) by {
        if m > S5 {
            assert(run::accepts(s, h.take(S5 + 1)));
        }
    }
    assert(m > PARTITION_3 ==> expect::is_partition(h, PARTITION_3)) by {
        if m > PARTITION_3 {
            assert(run::accepts(s, h.take(PARTITION_3 + 1)));
        }
    }
    assert(m > TS4 ==> expect::is_table_snapshot(h, TS4)) by {
        if m > TS4 {
            assert(run::accepts(s, h.take(TS4 + 1)));
        }
    }
    assert(m > ID_9 ==> expect::is_uuid(h, ID_9)) by {
        if m > ID_9 {
            assert(run::accepts(s, h.take(ID_9 + 1)));
        }
    }
    assert(m > LISTED_3 ==> expect::is_files(h, LISTED_3)
        && expect::files(h, LISTED_3).len() == 1) by {
        if m > LISTED_3 {
            assert(run::accepts(s, h.take(LISTED_3 + 1)));
        }
    }
    assert(m > SOURCED ==> expect::is_params(h, SOURCED)) by {
        if m > SOURCED {
            assert(run::accepts(s, h.take(SOURCED + 1)));
        }
    }
    assert(m > PARTITION_4 ==> expect::is_partition(h, PARTITION_4)) by {
        if m > PARTITION_4 {
            assert(run::accepts(s, h.take(PARTITION_4 + 1)));
        }
    }
}

proof fn lemma_drawn(h: Seq<Reply>, m: int, k: int, max_l0_files: u32)
    requires
        FILLING <= k < m <= h.len(),
        (k - FILLING) % 2 == 0,
        (k - FILLING) / 2 < filling(max_l0_files),
        accepted(ScenarioView::ParquetFile { max_l0_files }, h, m),
    ensures
        h[k] is ObjectStoreIds,
        h[k]->ObjectStoreIds_0@.len() == 1,
{
    let t = h.take(k + 1);
    assert(run::accepts(ScenarioView::ParquetFile { max_l0_files }, t));
    assert(t.last() == h[k]);
}

/// The parameters of the second file.
fn do_other_params(h: &Vec<Reply>) -> (r: ParquetFileParams)
    requires
        expect::is_params(h@, PARAMS),
        expect::is_partition(h@, OTHER_PARTITION),
        expect::is_uuid(h@, OTHER_ID),
    ensures
        r@ == other_params(h@),
{
    let mut p: ParquetFileParams = check::params(h, PARAMS).copy();
    p.table_id = check::partition(h, OTHER_PARTITION).table_id;
    p.partition_id = check::partition(h, OTHER_PARTITION).id;
    p.partition_hash_id = copy_hash(&check::partition(h, OTHER_PARTITION).hash_id);
    p.object_store_id = check::uuid(h, OTHER_ID);
    p.min_time = 50;
    p.max_time = 60;
    p
}

/// The parameters of file 1.
fn do_params_1(h: &Vec<Reply>) -> (r: ParquetFileParams)
    requires
        expect::is_params(h@, PARAMS),
        expect::is_partition(h@, PARTITION_2),
        expect::is_namespace(h@, NAMESPACE_2),
        expect::is_uuid(h@, ID_1),
    ensures
        r@ == params_1(h@),
{
    let mut p: ParquetFileParams = check::params(h, PARAMS).copy();
    p.table_id = check::partition(h, PARTITION_2).table_id;
    p.partition_id = check::partition(h, PARTITION_2).id;
    p.partition_hash_id = copy_hash(&check::partition(h, PARTITION_2).hash_id);
    p.namespace_id = check::namespace(h, NAMESPACE_2).id;
    p.object_store_id = check::uuid(h, ID_1);
    p.min_time = 1;
    p.max_time = 10;
    p
}

/// The parameters of file 2.
fn do_params_2(h: &Vec<Reply>) -> (r: ParquetFileParams)
    requires
        expect::is_params(h@, PARAMS),
        expect::is_partition(h@, PARTITION_2),
        expect::is_namespace(h@, NAMESPACE_2),
        expect::is_uuid(h@, ID_1),
        expect::is_uuid(h@, ID_2),
    ensures
        r@ == params_2(h@),
{
    let mut p: ParquetFileParams = do_params_1(h);
    p.object_store_id = check::uuid(h, ID_2);
    p.min_time = 50;
    p.max_time = 60;
    p
}

/// Other parameters under the id of file 2.
fn do_conflicting_params(h: &Vec<Reply>) -> (r: ParquetFileParams)
    requires
        expect::is_params(h@, PARAMS),
        expect::is_partition(h@, PARTITION_2),
        expect::is_namespace(h@, NAMESPACE_2),
        expect::is_uuid(h@, ID_1),
        expect::is_uuid(h@, ID_2),
    ensures
        r@ == conflicting_params(h@),
{
    let mut p: ParquetFileParams = do_params_2(h);
    p.row_count = 200;
    p
}

/// The parameters of file 3.
fn do_params_3(h: &Vec<Reply>) -> (r: ParquetFileParams)
    requires
        expect::is_params(h@, PARAMS),
        expect::is_partition(h@, PARTITION_2),
        expect::is_namespace(h@, NAMESPACE_2),
        expect::is_uuid(h@, ID_1),
        expect::is_uuid(h@, ID_2),
        expect::is_uuid(h@, ID_3),
    ensures
        r@ == params_3(h@),
{
    let mut p: ParquetFileParams = do_params_2(h);
    p.object_store_id = check::uuid(h, ID_3);
    p.min_time = 50;
    p.max_time = 60;
    p
}

/// The parameters of file 4, whose data is a bit over an hour old.
fn do_params_4(h: &Vec<Reply>) -> (r: ParquetFileParams)
    requires
        expect::is_params(h@, PARAMS),
        expect::is_partition(h@, PARTITION_2),
        expect::is_namespace(h@, NAMESPACE_2),
        expect::is_uuid(h@, ID_1),
        expect::is_uuid(h@, ID_2),
        expect::is_uuid(h@, ID_3),
        expect::is_uuid(h@, ID_4),
        expect::is_time(h@, NOW_4),
        expect::shifts_by(h@, NOW_4, (-MINUTES_65) as i64),
    ensures
        r@ == params_4(h@),
{
    let mut p: ParquetFileParams = do_params_3(h);
    p.object_store_id = check::uuid(h, ID_4);
    p.max_time = check::shifted(h, NOW_4, -MINUTES_65);
    p
}

/// The parameters of file 5, whose data is a bit under an hour old.
fn do_params_5(h: &Vec<Reply>) -> (r: ParquetFileParams)
    requires
        expect::is_params(h@, PARAMS),
        expect::is_partition(h@, PARTITION_2),
        expect::is_namespace(h@, NAMESPACE_2),
        expect::is_uuid(h@, ID_1),
        expect::is_uuid(h@, ID_2),
        expect::is_uuid(h@, ID_3),
        expect::is_uuid(h@, ID_4),
        expect::is_time(h@, NOW_4),
        expect::shifts_by(h@, NOW_4, (-MINUTES_65) as i64),
        expect::is_uuid(h@, ID_5),
        expect::is_time(h@, NOW_5),
        expect::shifts_by(h@, NOW_5, (-MINUTES_55) as i64),
    ensures
        r@ == params_5(h@),
{
    let mut p: ParquetFileParams = do_params_4(h);
    p.object_store_id = check::uuid(h, ID_5);
    p.max_time = check::shifted(h, NOW_5, -MINUTES_55);
    p
}

/// The parameters of the `i`-th of many files whose data is a bit over an hour old.
fn do_old_params(h: &Vec<Reply>, i: usize) -> (r: ParquetFileParams)
    requires
        i < expect::uuids(h@, OLD_IDS).len(),
        expect::is_params(h@, PARAMS),
        expect::is_partition(h@, PARTITION_2),
        expect::is_namespace(h@, NAMESPACE_2),
        expect::is_uuid(h@, ID_1),
        expect::is_uuids(h@, OLD_IDS),
        expect::is_time(h@, NOW_6),
        expect::shifts_by(h@, NOW_6, (-MINUTES_65) as i64),
    ensures
        r@ == old_params(h@, i as int),
{
    let mut p: ParquetFileParams = do_params_1(h);
    p.object_store_id = check::uuids(h, OLD_IDS)[i];
    p.max_time = check::shifted(h, NOW_6, -MINUTES_65);
    p
}

/// The parameters of file 6.
fn do_params_6(h: &Vec<Reply>) -> (r: ParquetFileParams)
    requires
        expect::is_params(h@, PARAMS),
        expect::is_partition(h@, PARTITION_2),
        expect::is_namespace(h@, NAMESPACE_2),
        expect::is_uuid(h@, ID_1),
        expect::is_uuid(h@, ID_2),
        expect::is_uuid(h@, ID_3),
        expect::is_uuid(h@, ID_4),
        expect::is_time(h@, NOW_4),
        expect::shifts_by(h@, NOW_4, (-MINUTES_65) as i64),
        expect::is_uuid(h@, ID_5),
        expect::is_time(h@, NOW_5),
        expect::shifts_by(h@, NOW_5, (-MINUTES_55) as i64),
        expect::is_uuid(h@, ID_6),
    ensures
        r@ == params_6(h@),
{
    let mut p: ParquetFileParams = do_params_5(h);
    p.object_store_id = check::uuid(h, ID_6);
    p
}

/// The parameters of file 7.
fn do_params_7(h: &Vec<Reply>) -> (r: ParquetFileParams)
    requires
        expect::is_params(h@, PARAMS),
        expect::is_partition(h@, PARTITION_2),
        expect::is_namespace(h@, NAMESPACE_2),
        expect::is_uuid(h@, ID_1),
        expect::is_uuid(h@, ID_2),
        expect::is_uuid(h@, ID_3),
        expect::is_uuid(h@, ID_4),
        expect::is_time(h@, NOW_4),
        expect::shifts_by(h@, NOW_4, (-MINUTES_65) as i64),
        expect::is_uuid(h@, ID_5),
        expect::is_time(h@, NOW_5),
        expect::shifts_by(h@, NOW_5, (-MINUTES_55) as i64),
        expect::is_uuid(h@, ID_6),
        expect::is_uuid(h@, ID_7),
    ensures
        r@ == params_7(h@),
{
    let mut p: ParquetFileParams = do_params_6(h);
    p.object_store_id = check::uuid(h, ID_7);
    p
}

/// The parameters of file 8, which belongs to another partition.
fn do_params_8(h: &Vec<Reply>) -> (r: ParquetFileParams)
    requires
        expect::is_params(h@, PARAMS),
        expect::is_partition(h@, PARTITION_2),
        expect::is_namespace(h@, NAMESPACE_2),
        expect::is_uuid(h@, ID_1),
        expect::is_uuid(h@, ID_2),
        expect::is_uuid(h@, ID_3),
        expect::is_uuid(h@, ID_4),
        expect::is_time(h@, NOW_4),
        expect::shifts_by(h@, NOW_4, (-MINUTES_65) as i64),
        expect::is_uuid(h@, ID_5),
        expect::is_time(h@, NOW_5),
        expect::shifts_by(h@, NOW_5, (-MINUTES_55) as i64),
        expect::is_uuid(h@, ID_6),
        expect::is_uuid(h@, ID_7),
        expect::is_uuid(h@, ID_8),
        expect::is_partition(h@, PARTITION),
    ensures
        r@ == params_8(h@),
{
    let mut p: ParquetFileParams = do_params_7(h);
    p.object_store_id = check::uuid(h, ID_8);
    p.partition_id = check::partition(h, PARTITION).id;
    p
}

/// The parameters of file 9, which belongs to the third partition.
fn do_params_9(h: &Vec<Reply>) -> (r: ParquetFileParams)
    requires
        expect::is_params(h@, PARAMS),
        expect::is_partition(h@, PARTITION_2),
        expect::is_namespace(h@, NAMESPACE_2),
        expect::is_uuid(h@, ID_1),
        expect::is_uuid(h@, ID_2),
        expect::is_uuid(h@, ID_3),
        expect::is_uuid(h@, ID_4),
        expect::is_time(h@, NOW_4),
        expect::shifts_by(h@, NOW_4, (-MINUTES_65) as i64),
        expect::is_uuid(h@, ID_5),
        expect::is_time(h@, NOW_5),
        expect::shifts_by(h@, NOW_5, (-MINUTES_55) as i64),
        expect::is_uuid(h@, ID_6),
        expect::is_uuid(h@, ID_7),
        expect::is_uuid(h@, ID_9),
        expect::is_partition(h@, PARTITION_3),
    ensures
        r@ == params_9(h@),
{
    let mut p: ParquetFileParams = do_params_7(h);
    p.object_store_id = check::uuid(h, ID_9);
    p.partition_id = check::partition(h, PARTITION_3).id;
    p
}

/// The parameters of a file with a source.
fn do_sourced_params(h: &Vec<Reply>) -> (r: ParquetFileParams)
    requires
        expect::is_params(h@, SOURCED),
    ensures
        r@ == sourced_params(h@),
{
    let mut p: ParquetFileParams = check::params(h, SOURCED).copy();
    p.source = Some(ParquetFileSource::BulkIngest);
    p
}

/// The parameters of the `i`-th file of the last partition, whose id step `k` gives.
fn do_filling_params(h: &Vec<Reply>, k: usize, i: i64) -> (r: ParquetFileParams)
    requires
        expect::is_uuid(h@, k),
        expect::is_params(h@, PARAMS),
        expect::is_partition(h@, PARTITION_2),
        expect::is_namespace(h@, NAMESPACE_2),
        expect::is_uuid(h@, ID_1),
        expect::is_uuid(h@, ID_2),
        expect::is_uuid(h@, ID_3),
        expect::is_uuid(h@, ID_4),
        expect::is_time(h@, NOW_4),
        expect::shifts_by(h@, NOW_4, (-MINUTES_65) as i64),
        expect::is_uuid(h@, ID_5),
        expect::is_time(h@, NOW_5),
        expect::shifts_by(h@, NOW_5, (-MINUTES_55) as i64),
        expect::is_uuid(h@, ID_6),
        expect::is_uuid(h@, ID_7),
        expect::is_uuid(h@, ID_9),
        expect::is_partition(h@, PARTITION_3),
        expect::is_partition(h@, PARTITION_4),
    ensures
        r@ == filling_params(h@, k, i),
{
    let mut p: ParquetFileParams = do_params_9(h);
    p.object_store_id = check::uuid(h, k);
    p.partition_id = check::partition(h, PARTITION_4).id;
    p.max_l0_created_at = MaxL0CreatedAt::Computed(i);
    p.min_time = 0;
    p.max_time = 10;
    p.compaction_level = CompactionLevel::Initial;
    p
}

/// The parameters of many files whose data is a bit over an hour old.
fn do_old_files(h: &Vec<Reply>) -> (list: Vec<ParquetFileParams>)
    requires
        expect::uuids(h@, OLD_IDS).len() == 1_042,
        expect::is_params(h@, PARAMS),
        expect::is_partition(h@, PARTITION_2),
        expect::is_namespace(h@, NAMESPACE_2),
        expect::is_uuid(h@, ID_1),
        expect::is_uuids(h@, OLD_IDS),
        expect::is_time(h@, NOW_6),
        expect::shifts_by(h@, NOW_6, (-MINUTES_65) as i64),
    ensures
        views(list@) == old_files(h@),
{
    let mut list: Vec<ParquetFileParams> = Vec::new();
    let mut i: usize = 0;
    while i < 1_042
        invariant
            i <= 1_042,
            list@.len() == i,
            expect::uuids(h@, OLD_IDS).len() == 1_042,
            expect::is_params(h@, PARAMS),
            expect::is_partition(h@, PARTITION_2),
            expect::is_namespace(h@, NAMESPACE_2),
            expect::is_uuid(h@, ID_1),
            expect::is_uuids(h@, OLD_IDS),
            expect::is_time(h@, NOW_6),
            expect::shifts_by(h@, NOW_6, (-MINUTES_65) as i64),
            forall|j: int| 0 <= j < i ==> (#[trigger] list@[j])@ == old_params(h@, j),
        decreases 1_042 - i,
    {
        list.push(do_old_params(h, i));
        i += 1;
    }
    proof {
        assert(views(list@) =~= old_files(h@));
    }
    list
}

/// What is asked for when the replies so far are `h`.
pub fn next_request<'a>(h: &'a Vec<Reply>, max_l0_files: u32) -> (r: Request<'a>)
    requires
        accepted(ScenarioView::ParquetFile { max_l0_files }, h@, h@.len() as int),
        !finished(h@, max_l0_files),
    ensures
        r@ =~~= request(h@, max_l0_files),
{
    let n: usize = h.len();
    proof {
        lemma_known(h@, n as int, max_l0_files);
    }
    if n == NAMESPACE {
        Request::Helper(HelperRequest::ArbitraryNamespace { name: "namespace_parquet_file_test" })
    } else if n == TABLE {
        Request::Helper(
            HelperRequest::ArbitraryTable {
                name: "test_table",
                namespace: check::namespace(h, NAMESPACE),
            },
        )
    } else if n == OTHER_TABLE {
        Request::Helper(
            HelperRequest::ArbitraryTable {
                name: "other",
                namespace: check::namespace(h, NAMESPACE),
            },
        )
    } else if n == PARTITION {
        Request::Partitions(
            PartitionsRequest::CreateOrGet { key: "one", table_id: check::table(h, TABLE).id },
        )
    } else if n == OTHER_PARTITION {
        Request::Partitions(
            PartitionsRequest::CreateOrGet {
                key: "one",
                table_id: check::table(h, OTHER_TABLE).id,
            },
        )
    } else if n == TS1 {
        Request::Tables(TablesRequest::Snapshot { id: check::table(h, TABLE).id })
    } else if n == 6 {
        Request::Run(
            Scenario::ValidateTableSnapshot { table_snapshot: check::table_snapshot(h, TS1) },
        )
    } else if n == TS2 {
        Request::Tables(TablesRequest::Snapshot { id: check::table(h, OTHER_TABLE).id })
    } else if n == 8 {
        Request::Run(
            Scenario::ValidateTableSnapshot { table_snapshot: check::table_snapshot(h, TS2) },
        )
    } else if n == PARAMS {
        Request::Helper(
            HelperRequest::ArbitraryParquetFileParams {
                namespace: check::namespace(h, NAMESPACE),
                table: check::table(h, TABLE),
                partition: check::partition(h, PARTITION),
            },
        )
    } else if n == 10 {
        Request::ParquetFiles(
            ParquetFilesRequest::Create { params: check::params(h, PARAMS).copy() },
        )
    } else if n == FILE {
        Request::ParquetFiles(
            ParquetFilesRequest::GetByObjectStoreId {
                object_store_id: check::params(h, PARAMS).object_store_id,
            },
        )
    } else if n == 12 {
        Request::ParquetFiles(
            ParquetFilesRequest::ListByTableId {
                table_id: check::params(h, PARAMS).table_id,
                level: None,
            },
        )
    } else if n == 13 {
        Request::ParquetFiles(
            ParquetFilesRequest::ListByNamespaceId {
                namespace_id: check::params(h, PARAMS).namespace_id,
                rows: SoftDeletedRows::ExcludeDeleted,
            },
        )
    } else if n == 14 {
        Request::ParquetFiles(
            ParquetFilesRequest::ListByTableId {
                table_id: check::params(h, PARAMS).table_id,
                level: Some(CompactionLevel::Initial),
            },
        )
    } else if n == 15 {
        Request::ParquetFiles(
            ParquetFilesRequest::ListByTableId {
                table_id: check::params(h, PARAMS).table_id,
                level: Some(CompactionLevel::FileNonOverlapped),
            },
        )
    } else if n == 16 {
        Request::ParquetFiles(
            ParquetFilesRequest::ListByTableId {
                table_id: check::params(h, PARAMS).table_id,
                level: Some(CompactionLevel::Final),
            },
        )
    } else if n == 17 {
        Request::ParquetFiles(
            ParquetFilesRequest::GetByObjectStoreId {
                object_store_id: check::file(h, FILE).object_store_id,
            },
        )
    } else if n == 18 {
        Request::ParquetFiles(
            ParquetFilesRequest::Create { params: check::params(h, PARAMS).copy() },
        )
    } else if n == OTHER_ID {
        Request::Value(ValueRequest::NewObjectStoreIds { count: 1 })
    } else if n == 20 {
        Request::ParquetFiles(ParquetFilesRequest::Create { params: do_other_params(h) })
    } else if n == OTHER_FILE {
        Request::ParquetFiles(
            ParquetFilesRequest::GetByObjectStoreId { object_store_id: check::uuid(h, OTHER_ID) },
        )
    } else if n == NOW_1 {
        Request::Catalog(CatalogRequest::Now)
    } else if n == 23 {
        Request::ParquetFiles(
            ParquetFilesRequest::DeleteOldIdsCount {
                older_than: check::shifted(h, NOW_1, SECONDS_100),
            },
        )
    } else if n == 24 {
        Request::Run(Scenario::ListParquetFiles { namespace_id: check::namespace(h, NAMESPACE).id })
    } else if n == 25 {
        Request::ParquetFiles(
            ParquetFilesRequest::CreateUpgradeDelete {
                partition_id: check::file(h, FILE).partition_id,
                delete: vec![check::file(h, FILE).object_store_id],
                upgrade: Vec::new(),
                create: Vec::new(),
                target_level: CompactionLevel::Initial,
            },
        )
    } else if n == 26 {
        Request::Run(Scenario::ListParquetFiles { namespace_id: check::namespace(h, NAMESPACE).id })
    } else if n == 27 {
        Request::ParquetFiles(
            ParquetFilesRequest::GetByObjectStoreId {
                object_store_id: check::file(h, FILE).object_store_id,
            },
        )
    } else if n == NOW_2 {
        Request::Catalog(CatalogRequest::Now)
    } else if n == 29 {
        Request::ParquetFiles(
            ParquetFilesRequest::DeleteOldIdsCount {
                older_than: check::shifted(h, NOW_2, -SECONDS_100),
            },
        )
    } else if n == 30 {
        Request::ParquetFiles(
            ParquetFilesRequest::GetByObjectStoreId {
                object_store_id: check::file(h, FILE).object_store_id,
            },
        )
    } else if n == 31 {
        Request::ParquetFiles(
            ParquetFilesRequest::DeleteOldIdsCount {
                older_than: check::shifted(h, NOW_1, SECONDS_100),
            },
        )
    } else if n == 32 {
        Request::ParquetFiles(
            ParquetFilesRequest::GetByObjectStoreId {
                object_store_id: check::file(h, FILE).object_store_id,
            },
        )
    } else if n == 33 {
        Request::Run(Scenario::ListParquetFiles { namespace_id: check::namespace(h, NAMESPACE).id })
    } else if n == NAMESPACE_2 {
        Request::Helper(HelperRequest::ArbitraryNamespace { name: "namespace_parquet_file_test1" })
    } else if n == TABLE_2 {
        Request::Helper(
            HelperRequest::ArbitraryTable {
                name: "test_table2",
                namespace: check::namespace(h, NAMESPACE_2),
            },
        )
    } else if n == PARTITION_2 {
        Request::Partitions(
            PartitionsRequest::CreateOrGet { key: "foo", table_id: check::table(h, TABLE_2).id },
        )
    } else if n == 37 {
        Request::Run(
            Scenario::ListParquetFiles { namespace_id: check::namespace(h, NAMESPACE_2).id },
        )
    } else if n == TS3 {
        Request::Tables(TablesRequest::Snapshot { id: check::table(h, TABLE_2).id })
    } else if n == 39 {
        Request::Run(
            Scenario::ValidateTableSnapshot { table_snapshot: check::table_snapshot(h, TS3) },
        )
    } else if n == ID_1 {
        Request::Value(ValueRequest::NewObjectStoreIds { count: 1 })
    } else if n == 41 {
        Request::ParquetFiles(ParquetFilesRequest::Create { params: do_params_1(h) })
    } else if n == FILE_1 {
        Request::ParquetFiles(
            ParquetFilesRequest::GetByObjectStoreId { object_store_id: check::uuid(h, ID_1) },
        )
    } else if n == ID_2 {
        Request::Value(ValueRequest::NewObjectStoreIds { count: 1 })
    } else if n == 44 {
        Request::ParquetFiles(ParquetFilesRequest::Create { params: do_params_2(h) })
    } else if n == FILE_2 {
        Request::ParquetFiles(
            ParquetFilesRequest::GetByObjectStoreId { object_store_id: check::uuid(h, ID_2) },
        )
    } else if n == 46 {
        Request::Run(
            Scenario::ListParquetFiles { namespace_id: check::namespace(h, NAMESPACE_2).id },
        )
    } else if n == 47 {
        Request::ParquetFiles(ParquetFilesRequest::Create { params: do_params_2(h) })
    } else if n == 48 {
        Request::ParquetFiles(ParquetFilesRequest::Upsert { params: do_params_2(h) })
    } else if n == 49 {
        Request::ParquetFiles(ParquetFilesRequest::Upsert { params: do_conflicting_params(h) })
    } else if n == ID_3 {
        Request::Value(ValueRequest::NewObjectStoreIds { count: 1 })
    } else if n == 51 {
        Request::ParquetFiles(ParquetFilesRequest::Create { params: do_params_3(h) })
    } else if n == FILE_3 {
        Request::ParquetFiles(
            ParquetFilesRequest::GetByObjectStoreId { object_store_id: check::uuid(h, ID_3) },
        )
    } else if n == 53 {
        Request::Run(
            Scenario::ListParquetFiles { namespace_id: check::namespace(h, NAMESPACE_2).id },
        )
    } else if n == S1 {
        Request::Partitions(PartitionsRequest::Snapshot { id: check::partition(h, PARTITION_2).id })
    } else if n == 55 {
        Request::Run(
            Scenario::ValidatePartitionSnapshot {
                partition_snapshot: check::partition_snapshot(h, S1),
            },
        )
    } else if n == 56 {
        Request::ParquetFiles(
            ParquetFilesRequest::CreateUpgradeDelete {
                partition_id: check::file(h, FILE_2).partition_id,
                delete: vec![check::file(h, FILE_2).object_store_id],
                upgrade: Vec::new(),
                create: Vec::new(),
                target_level: CompactionLevel::Initial,
            },
        )
    } else if n == BEFORE_FAILURES {
        Request::Run(
            Scenario::ListParquetFiles { namespace_id: check::namespace(h, NAMESPACE_2).id },
        )
    } else if n == 58 {
        Request::ParquetFiles(
            ParquetFilesRequest::CreateUpgradeDelete {
                partition_id: check::partition(h, PARTITION_2).id,
                delete: vec![
                    check::file(h, FILE_2).object_store_id,
                    check::file(h, FILE_3).object_store_id,
                ],
                upgrade: Vec::new(),
                create: Vec::new(),
                target_level: CompactionLevel::Initial,
            },
        )
    } else if n == 59 {
        Request::ParquetFiles(
            ParquetFilesRequest::CreateUpgradeDelete {
                partition_id: check::partition(h, PARTITION_2).id,
                delete: vec![check::file(h, FILE_2).object_store_id],
                upgrade: vec![check::file(h, FILE_3).object_store_id],
                create: Vec::new(),
                target_level: CompactionLevel::Initial,
            },
        )
    } else if n == 60 {
        Request::ParquetFiles(
            ParquetFilesRequest::CreateUpgradeDelete {
                partition_id: check::partition(h, PARTITION_2).id,
                delete: vec![check::file(h, FILE_3).object_store_id],
                upgrade: vec![check::file(h, FILE_2).object_store_id],
                create: Vec::new(),
                target_level: CompactionLevel::Initial,
            },
        )
    } else if n == AFTER_FAILURES {
        Request::Run(
            Scenario::ListParquetFiles { namespace_id: check::namespace(h, NAMESPACE_2).id },
        )
    } else if n == S2 {
        Request::Partitions(PartitionsRequest::Snapshot { id: check::partition(h, PARTITION_2).id })
    } else if n == 63 {
        Request::Run(
            Scenario::ValidatePartitionSnapshot {
                partition_snapshot: check::partition_snapshot(h, S2),
            },
        )
    } else if n == 64 {
        Request::Run(Scenario::ListParquetFiles { namespace_id: i64::MAX })
    } else if n == NOW_3 {
        Request::Catalog(CatalogRequest::Now)
    } else if n == 66 {
        Request::ParquetFiles(
            ParquetFilesRequest::DeleteOldIdsCount {
                older_than: check::shifted(h, NOW_3, SECONDS_100),
            },
        )
    } else if n == S3 {
        Request::Partitions(PartitionsRequest::Snapshot { id: check::partition(h, PARTITION_2).id })
    } else if n == 68 {
        Request::Run(
            Scenario::ValidatePartitionSnapshot {
                partition_snapshot: check::partition_snapshot(h, S3),
            },
        )
    } else if n == NAMESPACES {
        Request::Namespaces(NamespacesRequest::List { rows: SoftDeletedRows::AllRows })
    } else if n == 70 {
        Request::Run(Scenario::KeepForEver { namespaces: check::namespaces(h, NAMESPACES) })
    } else if n == 71 {
        Request::ParquetFiles(ParquetFilesRequest::FlagForDeleteByRetention)
    } else if n == 72 {
        Request::Namespaces(
            NamespacesRequest::UpdateRetentionPeriod {
                id: check::namespace(h, NAMESPACE_2).id,
                retention_period_ns: Some(HOUR),
            },
        )
    } else if n == ID_4 {
        Request::Value(ValueRequest::NewObjectStoreIds { count: 1 })
    } else if n == NOW_4 {
        Request::Catalog(CatalogRequest::Now)
    } else if n == 75 {
        Request::ParquetFiles(ParquetFilesRequest::Create { params: do_params_4(h) })
    } else if n == ID_5 {
        Request::Value(ValueRequest::NewObjectStoreIds { count: 1 })
    } else if n == NOW_5 {
        Request::Catalog(CatalogRequest::Now)
    } else if n == 78 {
        Request::ParquetFiles(ParquetFilesRequest::Create { params: do_params_5(h) })
    } else if n == 79 {
        Request::ParquetFiles(ParquetFilesRequest::FlagForDeleteByRetention)
    } else if n == 80 {
        Request::ParquetFiles(
            ParquetFilesRequest::GetByObjectStoreId { object_store_id: check::uuid(h, ID_4) },
        )
    } else if n == FILE_5 {
        Request::ParquetFiles(
            ParquetFilesRequest::GetByObjectStoreId { object_store_id: check::uuid(h, ID_5) },
        )
    } else if n == S4 {
        Request::Partitions(PartitionsRequest::Snapshot { id: check::partition(h, PARTITION_2).id })
    } else if n == 83 {
        Request::Run(
            Scenario::ValidatePartitionSnapshot {
                partition_snapshot: check::partition_snapshot(h, S4),
            },
        )
    } else if n == 84 {
        Request::ParquetFiles(ParquetFilesRequest::FlagForDeleteByRetention)
    } else if n == NOW_6 {
        Request::Catalog(CatalogRequest::Now)
    } else if n == OLD_IDS {
        Request::Value(ValueRequest::NewObjectStoreIds { count: 1_042 })
    } else if n == 87 {
        Request::ParquetFiles(
            ParquetFilesRequest::CreateUpgradeDelete {
                partition_id: do_params_1(h).partition_id,
                delete: Vec::new(),
                upgrade: Vec::new(),
                create: do_old_files(h),
                target_level: CompactionLevel::Initial,
            },
        )
    } else if n == 88 {
        Request::ParquetFiles(ParquetFilesRequest::FlagForDeleteByRetention)
    } else if n == 89 {
        Request::ParquetFiles(ParquetFilesRequest::FlagForDeleteByRetention)
    } else if n == 90 {
        Request::ParquetFiles(ParquetFilesRequest::FlagForDeleteByRetention)
    } else if n == ID_6 {
        Request::Value(ValueRequest::NewObjectStoreIds { count: 1 })
    } else if n == 92 {
        Request::ParquetFiles(ParquetFilesRequest::Create { params: do_params_6(h) })
    } else if n == ID_7 {
        Request::Value(ValueRequest::NewObjectStoreIds { count: 1 })
    } else if n == ID_8 {
        Request::Value(ValueRequest::NewObjectStoreIds { count: 1 })
    } else if n == 95 {
        Request::ParquetFiles(
            ParquetFilesRequest::CreateUpgradeDelete {
                partition_id: check::file(h, FILE_5).partition_id,
                delete: vec![check::file(h, FILE_5).object_store_id],
                upgrade: vec![check::uuid(h, ID_6)],
                create: vec![do_params_7(h)],
                target_level: CompactionLevel::Final,
            },
        )
    } else if n == 96 {
        Request::ParquetFiles(
            ParquetFilesRequest::CreateUpgradeDelete {
                partition_id: do_params_8(h).partition_id,
                delete: Vec::new(),
                upgrade: Vec::new(),
                create: vec![do_params_8(h)],
                target_level: CompactionLevel::Final,
            },
        )
    } else if n == FILE_5_MARKED {
        Request::ParquetFiles(
            ParquetFilesRequest::GetByObjectStoreId {
                object_store_id: check::file(h, FILE_5).object_store_id,
            },
        )
    } else if n == 98 {
        Request::ParquetFiles(
            ParquetFilesRequest::GetByObjectStoreId { object_store_id: check::uuid(h, ID_6) },
        )
    } else if n == FILE_7 {
        Request::ParquetFiles(
            ParquetFilesRequest::GetByObjectStoreId { object_store_id: check::uuid(h, ID_7) },
        )
    } else if n == ID_7_TEXT {
        Request::Value(ValueRequest::ObjectStoreIdText { object_store_id: check::uuid(h, ID_7) })
    } else if n == 101 {
        Request::ParquetFiles(
            ParquetFilesRequest::CreateUpgradeDelete {
                partition_id: check::partition(h, PARTITION_2).id,
                delete: Vec::new(),
                upgrade: Vec::new(),
                create: vec![do_params_7(h)],
                target_level: CompactionLevel::Final,
            },
        )
    } else if n == 102 {
        Request::ParquetFiles(
            ParquetFilesRequest::GetByObjectStoreId {
                object_store_id: check::file(h, FILE_1).object_store_id,
            },
        )
    } else if n == 103 {
        Request::ParquetFiles(
            ParquetFilesRequest::GetByObjectStoreId {
                object_store_id: check::file(h, FILE_7).object_store_id,
            },
        )
    } else if n == SPARE_ID {
        Request::Value(ValueRequest::NewObjectStoreIds { count: 1 })
    } else if n == 105 {
        Request::ParquetFiles(
            ParquetFilesRequest::ExistsByObjectStoreIdBatch {
                ids: vec![
                    check::file(h, FILE_1).object_store_id,
                    check::file(h, FILE_7).object_store_id,
                    check::uuid(h, SPARE_ID),
                ],
            },
        )
    } else if n == 106 {
        Request::ParquetFiles(
            ParquetFilesRequest::ExistsByPartitionAndObjectStoreIdBatch {
                located: vec![
                    (check::partition(h, PARTITION_2).id, check::file(h, FILE_1).object_store_id),
                    (check::partition(h, PARTITION).id, check::uuid(h, ID_6)),
                    (check::partition(h, PARTITION_2).id, check::file(h, FILE_7).object_store_id),
                    (check::partition(h, PARTITION).id, check::uuid(h, ID_8)),
                    (check::partition(h, PARTITION).id, check::uuid(h, SPARE_ID)),
                ],
            },
        )
    } else if n == S5 {
        Request::Partitions(PartitionsRequest::Snapshot { id: check::partition(h, PARTITION_2).id })
    } else if n == 108 {
        Request::Run(
            Scenario::ValidatePartitionSnapshot {
                partition_snapshot: check::partition_snapshot(h, S5),
            },
        )
    } else if n == PARTITION_3 {
        Request::Partitions(
            PartitionsRequest::CreateOrGet { key: "three", table_id: check::table(h, TABLE).id },
        )
    } else if n == TS4 {
        Request::Tables(TablesRequest::Snapshot { id: check::table(h, TABLE).id })
    } else if n == 111 {
        Request::Run(
            Scenario::ValidateTableSnapshot { table_snapshot: check::table_snapshot(h, TS4) },
        )
    } else if n == ID_9 {
        Request::Value(ValueRequest::NewObjectStoreIds { count: 1 })
    } else if n == 113 {
        Request::ParquetFiles(
            ParquetFilesRequest::CreateUpgradeDelete {
                partition_id: check::partition(h, PARTITION_2).id,
                delete: vec![check::file(h, FILE_7).object_store_id],
                upgrade: Vec::new(),
                create: vec![do_params_9(h)],
                target_level: CompactionLevel::Final,
            },
        )
    } else if n == 114 {
        Request::ParquetFiles(
            ParquetFilesRequest::ListByPartitionNotToDeleteBatch {
                partition_ids: vec![check::partition(h, PARTITION_2).id],
            },
        )
    } else if n == 115 {
        Request::ParquetFiles(
            ParquetFilesRequest::CreateUpgradeDelete {
                partition_id: check::partition(h, PARTITION_3).id,
                delete: Vec::new(),
                upgrade: Vec::new(),
                create: vec![do_params_9(h)],
                target_level: CompactionLevel::Final,
            },
        )
    } else if n == LISTED_3 {
        Request::ParquetFiles(
            ParquetFilesRequest::ListByPartitionNotToDeleteBatch {
                partition_ids: vec![check::partition(h, PARTITION_3).id],
            },
        )
    } else if n == 117 {
        Request::ParquetFiles(
            ParquetFilesRequest::ListByPartitionNotToDeleteBatch { partition_ids: Vec::new() },
        )
    } else if n == 118 {
        Request::ParquetFiles(
            ParquetFilesRequest::ListByPartitionNotToDeleteBatch {
                partition_ids: vec![
                    check::partition(h, PARTITION_2).id,
                    check::partition(h, PARTITION_3).id,
                ],
            },
        )
    } else if n == 119 {
        Request::ParquetFiles(
            ParquetFilesRequest::ListByPartitionNotToDeleteBatch {
                partition_ids: vec![
                    check::partition(h, PARTITION_2).id,
                    i64::MAX,
                    check::partition(h, PARTITION_3).id,
                    check::partition(h, PARTITION_2).id,
                ],
            },
        )
    } else if n == 120 {
        Request::ParquetFiles(
            ParquetFilesRequest::CreateUpgradeDelete {
                partition_id: check::partition(h, PARTITION_2).id,
                delete: vec![check::first_file(h, LISTED_3).object_store_id],
                upgrade: Vec::new(),
                create: Vec::new(),
                target_level: CompactionLevel::Final,
            },
        )
    } else if n == 121 {
        Request::ParquetFiles(
            ParquetFilesRequest::CreateUpgradeDelete {
                partition_id: check::partition(h, PARTITION_2).id,
                delete: Vec::new(),
                upgrade: vec![check::first_file(h, LISTED_3).object_store_id],
                create: Vec::new(),
                target_level: CompactionLevel::Final,
            },
        )
    } else if n == 122 {
        Request::ParquetFiles(
            ParquetFilesRequest::CreateUpgradeDelete {
                partition_id: check::partition(h, PARTITION_3).id,
                delete: vec![check::first_file(h, LISTED_3).object_store_id],
                upgrade: Vec::new(),
                create: Vec::new(),
                target_level: CompactionLevel::Final,
            },
        )
    } else if n == 123 {
        Request::Partitions(PartitionsRequest::Snapshot { id: i64::MAX })
    } else if n == SOURCED {
        Request::Helper(
            HelperRequest::ArbitraryParquetFileParams {
                namespace: check::namespace(h, NAMESPACE),
                table: check::table(h, TABLE),
                partition: check::partition(h, PARTITION),
            },
        )
    } else if n == 125 {
        Request::ParquetFiles(ParquetFilesRequest::Create { params: do_sourced_params(h) })
    } else if n == 126 {
        Request::ParquetFiles(
            ParquetFilesRequest::GetByObjectStoreId {
                object_store_id: check::params(h, SOURCED).object_store_id,
            },
        )
    } else if n == PARTITION_4 {
        Request::Partitions(
            PartitionsRequest::CreateOrGet { key: "four", table_id: check::table(h, TABLE).id },
        )
    } else {
        let i: usize = (n - FILLING) / 2;
        if i as u64 >= max_l0_files as u64 + EXCESS as u64 {
            Request::ParquetFiles(
                ParquetFilesRequest::ListByPartitionNotToDeleteBatch {
                    partition_ids: vec![check::partition(h, PARTITION_4).id],
                },
            )
        } else if (n - FILLING) % 2 == 0 {
            Request::Value(ValueRequest::NewObjectStoreIds { count: 1 })
        } else {
            proof {
                lemma_drawn(h@, n as int, n - 1, max_l0_files);
            }
            Request::ParquetFiles(
                ParquetFilesRequest::CreateUpgradeDelete {
                    partition_id: check::partition(h, PARTITION_4).id,
                    delete: Vec::new(),
                    upgrade: Vec::new(),
                    create: vec![do_filling_params(h, n - 1, i as i64)],
                    target_level: CompactionLevel::Initial,
                },
            )
        }
    }
}

/// Whether the last of the replies `h` is as it has to be.
pub fn accepts_last(h: &Vec<Reply>, max_l0_files: u32) -> (b: bool)
    requires
        h.len() > 0,
        accepted(ScenarioView::ParquetFile { max_l0_files }, h@, h@.len() - 1),
        !finished(h@.drop_last(), max_l0_files),
    ensures
        b == accepts(h@, max_l0_files),
{
    let n: usize = h.len() - 1;
    proof {
        lemma_known(h@, n as int, max_l0_files);
    }
    if n == NAMESPACE {
        check::got_namespace(h)
    } else if n == TABLE {
        check::got_table(h)
    } else if n == OTHER_TABLE {
        check::got_table(h)
    } else if n == PARTITION {
        check::got_partition(h)
    } else if n == OTHER_PARTITION {
        check::got_partition(h)
    } else if n == TS1 {
        check::got_table_snapshot(h)
    } else if n == 6 {
        check::passed(h)
    } else if n == TS2 {
        check::got_table_snapshot(h)
    } else if n == 8 {
        check::passed(h)
    } else if n == PARAMS {
        check::got_params(h)
    } else if n == 10 {
        check::got_file(h)
    } else if n == FILE {
        check::got_file(h)
    } else if n == 12 {
        check::only_file(h, FILE)
    } else if n == 13 {
        check::only_file(h, FILE)
    } else if n == 14 {
        check::files_of_level(h, CompactionLevel::Initial, 1)
    } else if n == 15 {
        check::files_of_level(h, CompactionLevel::FileNonOverlapped, 0)
    } else if n == 16 {
        check::files_of_level(h, CompactionLevel::Final, 0)
    } else if n == 17 {
        check::same_file(h, FILE)
    } else if n == 18 {
        check::refused_with(h, ErrorKind::AlreadyExists)
    } else if n == OTHER_ID {
        check::got_uuid(h)
    } else if n == 20 {
        check::got_file(h)
    } else if n == OTHER_FILE {
        check::got_file(h) && check::spare_id(h, FILE, OTHER_FILE) && check::was_unmarked(h, FILE)
    } else if n == NOW_1 {
        check::got_time(h) && check::shifts_by(h, NOW_1, SECONDS_100)
    } else if n == 23 {
        check::count_is(h, 0)
    } else if n == 24 {
        check::file_count(h, 2)
    } else if n == 25 {
        check::got_ids(h)
    } else if n == 26 {
        check::file_count(h, 1)
    } else if n == 27 {
        check::marked(h)
    } else if n == NOW_2 {
        check::got_time(h) && check::shifts_by(h, NOW_2, -SECONDS_100)
    } else if n == 29 {
        check::count_is(h, 0)
    } else if n == 30 {
        check::got_file(h)
    } else if n == 31 {
        check::count_is(h, 1)
    } else if n == 32 {
        check::nothing(h)
    } else if n == 33 {
        check::only_file(h, OTHER_FILE)
    } else if n == NAMESPACE_2 {
        check::got_namespace(h)
    } else if n == TABLE_2 {
        check::got_table(h)
    } else if n == PARTITION_2 {
        check::got_partition(h)
    } else if n == 37 {
        check::file_count(h, 0)
    } else if n == TS3 {
        check::got_table_snapshot(h)
    } else if n == 39 {
        check::passed(h)
    } else if n == ID_1 {
        check::got_uuid(h)
    } else if n == 41 {
        check::got_file(h)
    } else if n == FILE_1 {
        check::got_file(h)
    } else if n == ID_2 {
        check::got_uuid(h)
    } else if n == 44 {
        check::got_file(h)
    } else if n == FILE_2 {
        check::got_file(h)
    } else if n == 46 {
        check::two_files(h, FILE_1, FILE_2)
    } else if n == 47 {
        check::refused_with(h, ErrorKind::AlreadyExists)
    } else if n == 48 {
        check::same_file(h, FILE_2)
    } else if n == 49 {
        check::refused_with(h, ErrorKind::AlreadyExists)
    } else if n == ID_3 {
        check::got_uuid(h)
    } else if n == 51 {
        check::got_file(h)
    } else if n == FILE_3 {
        check::got_file(h)
    } else if n == 53 {
        check::three_files(h, FILE_1, FILE_2, FILE_3)
    } else if n == S1 {
        check::got_partition_snapshot(h)
    } else if n == 55 {
        check::passed(h)
    } else if n == 56 {
        check::got_ids(h)
    } else if n == BEFORE_FAILURES {
        check::got_files(h) && check::two_files(h, FILE_1, FILE_3)
    } else if n == 58 {
        check::refused_with(h, ErrorKind::NotFound)
    } else if n == 59 {
        check::refused_with(h, ErrorKind::NotFound)
    } else if n == 60 {
        check::refused_with(h, ErrorKind::NotFound)
    } else if n == AFTER_FAILURES {
        check::got_files(h) && check::two_files(h, FILE_1, FILE_3)
    } else if n == S2 {
        check::got_partition_snapshot(h) && check::newer(h, S2, S1)
    } else if n == 63 {
        check::passed(h)
    } else if n == 64 {
        check::file_count(h, 0)
    } else if n == NOW_3 {
        check::got_time(h) && check::shifts_by(h, NOW_3, SECONDS_100)
    } else if n == 66 {
        check::count_is(h, 1)
    } else if n == S3 {
        check::got_partition_snapshot(h) && check::not_older(h, S3, S2)
    } else if n == 68 {
        check::passed(h)
    } else if n == NAMESPACES {
        check::got_namespaces(h)
    } else if n == 70 {
        check::passed(h)
    } else if n == 71 {
        check::located_count(h, 0)
    } else if n == 72 {
        check::got_namespace(h)
    } else if n == ID_4 {
        check::got_uuid(h)
    } else if n == NOW_4 {
        check::got_time(h) && check::shifts_by(h, NOW_4, -MINUTES_65)
    } else if n == 75 {
        check::got_file(h)
    } else if n == ID_5 {
        check::got_uuid(h)
    } else if n == NOW_5 {
        check::got_time(h) && check::shifts_by(h, NOW_5, -MINUTES_55)
    } else if n == 78 {
        check::got_file(h)
    } else if n == 79 {
        check::several_located(h)
    } else if n == 80 {
        check::marked(h)
    } else if n == FILE_5 {
        check::got_file(h) && check::unmarked(h)
    } else if n == S4 {
        check::got_partition_snapshot(h) && check::newer(h, S4, S3)
    } else if n == 83 {
        check::passed(h)
    } else if n == 84 {
        check::located_count(h, 0)
    } else if n == NOW_6 {
        check::got_time(h) && check::shifts_by(h, NOW_6, -MINUTES_65)
    } else if n == OLD_IDS {
        check::drew(h, 1_042)
    } else if n == 87 {
        check::got_ids(h)
    } else if n == 88 {
        check::located_count(h, 1_000)
    } else if n == 89 {
        check::located_count(h, 42)
    } else if n == 90 {
        check::located_count(h, 0)
    } else if n == ID_6 {
        check::got_uuid(h)
    } else if n == 92 {
        check::got_file(h)
    } else if n == ID_7 {
        check::got_uuid(h)
    } else if n == ID_8 {
        check::got_uuid(h)
    } else if n == 95 {
        check::id_count(h, 1)
    } else if n == 96 {
        check::id_count(h, 1)
    } else if n == FILE_5_MARKED {
        check::got_file(h) && check::marked(h)
    } else if n == 98 {
        check::has_level(h, CompactionLevel::Final)
    } else if n == FILE_7 {
        check::got_file(h) && check::created_when_marked(h, FILE_5_MARKED)
    } else if n == ID_7_TEXT {
        check::got_text(h)
    } else if n == 101 {
        check::refused_about(h, ErrorKind::AlreadyExists, check::text(h, ID_7_TEXT))
    } else if n == 102 {
        check::marked(h)
    } else if n == 103 {
        check::unmarked(h)
    } else if n == SPARE_ID {
        check::got_uuid(h)
    } else if n == 105 {
        check::uuids_are(
            h,
            check::file(h, FILE_1).object_store_id,
            check::file(h, FILE_7).object_store_id,
        )
    } else if n == 106 {
        check::located_are(
            h,
            (check::partition(h, PARTITION_2).id, check::file(h, FILE_1).object_store_id),
            (check::partition(h, PARTITION_2).id, check::file(h, FILE_7).object_store_id),
            (check::partition(h, PARTITION).id, check::uuid(h, ID_8)),
        )
    } else if n == S5 {
        check::got_partition_snapshot(h) && check::newer(h, S5, S4)
    } else if n == 108 {
        check::passed(h)
    } else if n == PARTITION_3 {
        check::got_partition(h)
    } else if n == TS4 {
        check::got_table_snapshot(h)
    } else if n == 111 {
        check::passed(h) && check::newer(h, TS4, TS1)
    } else if n == ID_9 {
        check::got_uuid(h)
    } else if n == 113 {
        check::refused_saying(h, "Inconsistent ParquetFileParams, expected PartitionId")
    } else if n == 114 {
        check::file_count(h, 2)
    } else if n == 115 {
        check::got_ids(h)
    } else if n == LISTED_3 {
        check::got_files(h) && check::file_count(h, 1)
    } else if n == 117 {
        check::file_count(h, 0)
    } else if n == 118 {
        check::file_count(h, 3)
    } else if n == 119 {
        check::file_count(h, 3)
    } else if n == 120 {
        check::refused_with(h, ErrorKind::NotFound)
    } else if n == 121 {
        check::refused_with(h, ErrorKind::NotFound)
    } else if n == 122 {
        check::got_ids(h)
    } else if n == 123 {
        check::refused_with(h, ErrorKind::NotFound)
    } else if n == SOURCED {
        check::got_params(h)
    } else if n == 125 {
        check::got_file(h)
    } else if n == 126 {
        check::has_source(h, Some(ParquetFileSource::BulkIngest))
    } else if n == PARTITION_4 {
        check::got_partition(h)
    } else {
        let i: usize = (n - FILLING) / 2;
        if i as u64 >= max_l0_files as u64 + EXCESS as u64 {
            check::oldest_files(h, max_l0_files)
        } else if (n - FILLING) % 2 == 0 {
            check::got_uuid(h)
        } else {
            check::got_ids(h)
        }
    }
}

/// Whether everything has been asked for.
pub fn is_finished(h: &Vec<Reply>, max_l0_files: u32) -> (b: bool)
    ensures
        b == finished(h@, max_l0_files),
{
    h.len() > FILLING && ((h.len() - FILLING - 1) / 2) as u64 >= max_l0_files as u64 + EXCESS as u64
}

} // verus!
