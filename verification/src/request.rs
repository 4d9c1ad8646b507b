//! What a scenario asks for.
use crate::same::{view_option, view_option_list, views};
use crate::types::{
    Batch, BatchView, ColumnType, CompactionLevel, Namespace, NamespaceSchema, NamespaceSchemaView,
    NamespaceSnapshot, NamespaceSnapshotView, NamespaceView, ParquetFile, ParquetFileParams,
    ParquetFileParamsView, ParquetFileView, Partition, PartitionSnapshot, PartitionSnapshotView,
    PartitionView, RootSnapshot, RootSnapshotView, SoftDeletedRows, Table, TableSnapshot,
    TableSnapshotView, TableView, Template, TemplatePart, TemplatePartView, TemplateView,
};
use vstd::prelude::*;

verus! {

/// The model of a list of named columns.
pub open spec fn column_views(columns: Seq<(&str, ColumnType)>) -> Seq<(Seq<char>, ColumnType)> {
    columns.map_values(|c: (&str, ColumnType)| (c.0@, c.1))
}

/// The model of a list of such lists.
pub open spec fn call_views(calls: Seq<Vec<(&str, ColumnType)>>) -> Seq<
    Seq<(Seq<char>, ColumnType)>,
> {
    calls.map_values(|c: Vec<(&str, ColumnType)>| column_views(c@))
}

/// What has to come of the last call of [`Scenario::ManyColumns`].
#[derive(Debug, Clone, Copy)]
pub enum Want<'a> {
    /// the columns
    Columns,
    /// that it is refused because there is a column, which the text describes
    Refusal(&'a str),
}

/// The model of a [`Want`].
#[verifier::ext_equal]
pub enum WantView {
    Columns,
    Refusal(Seq<char>),
}

impl<'a> View for Want<'a> {
    type V = WantView;

    open spec fn view(&self) -> WantView {
        match *self {
            Want::Columns => WantView::Columns,
            Want::Refusal(descr) => WantView::Refusal(descr@),
        }
    }
}

/// What can be asked of a catalog as a whole.
#[derive(Debug)]
pub enum CatalogRequest<'a> {
    /// prepares the catalog for use
    Setup,
    /// asks for the kind of catalog
    Name,
    /// asks for the catalog's time
    GetTime,
    /// asks the catalog's time provider for the time, in nanoseconds
    Now,
    /// asks for what all metrics tell
    MetricReport,
    /// asks for the number of samples of a duration histogram
    HistogramSamples { metric: &'a str, catalog_type: &'a str, op: &'a str, result: &'a str },
    /// asks for all active namespaces with their schemas
    ListSchemas,
    /// gets two sets of repositories, through which the requests that follow are made
    OpenRepositories,
    /// gives the repositories back that requests were made through so far
    ReleaseRepositories,
}

/// The model of a [`CatalogRequest`].
#[verifier::ext_equal]
pub enum CatalogRequestView {
    Setup,
    Name,
    GetTime,
    Now,
    MetricReport,
    HistogramSamples {
        metric: Seq<char>,
        catalog_type: Seq<char>,
        op: Seq<char>,
        result: Seq<char>,
    },
    ListSchemas,
    OpenRepositories,
    ReleaseRepositories,
}

impl<'a> View for CatalogRequest<'a> {
    type V = CatalogRequestView;

    open spec fn view(&self) -> CatalogRequestView {
        match *self {
            CatalogRequest::Setup => CatalogRequestView::Setup,
            CatalogRequest::Name => CatalogRequestView::Name,
            CatalogRequest::GetTime => CatalogRequestView::GetTime,
            CatalogRequest::Now => CatalogRequestView::Now,
            CatalogRequest::MetricReport => CatalogRequestView::MetricReport,
            CatalogRequest::HistogramSamples { metric, catalog_type, op, result } => {
                CatalogRequestView::HistogramSamples {
                    metric: metric@,
                    catalog_type: catalog_type@,
                    op: op@,
                    result: result@,
                }
            },
            CatalogRequest::ListSchemas => CatalogRequestView::ListSchemas,
            CatalogRequest::OpenRepositories => CatalogRequestView::OpenRepositories,
            CatalogRequest::ReleaseRepositories => CatalogRequestView::ReleaseRepositories,
        }
    }
}

/// What can be asked of all namespaces together.
#[derive(Debug)]
pub enum RootRequest<'a> {
    /// takes a snapshot
    Snapshot,
    /// looks a namespace up in a snapshot
    LookupNamespace { handle: u64, name: &'a str },
}

/// The model of a [`RootRequest`].
#[verifier::ext_equal]
pub enum RootRequestView {
    Snapshot,
    LookupNamespace { handle: u64, name: Seq<char> },
}

impl<'a> View for RootRequest<'a> {
    type V = RootRequestView;

    open spec fn view(&self) -> RootRequestView {
        match *self {
            RootRequest::Snapshot => RootRequestView::Snapshot,
            RootRequest::LookupNamespace { handle, name } => RootRequestView::LookupNamespace {
                handle,
                name: name@,
            },
        }
    }
}

/// What can be asked of the namespaces.
#[derive(Debug)]
pub enum NamespacesRequest<'a> {
    /// creates a namespace; whatever is not given takes its default
    Create {
        name: &'a str,
        partition_template: Option<&'a Template>,
        retention_period_ns: Option<i64>,
    },
    /// reads a namespace
    GetById { id: i64, rows: SoftDeletedRows },
    /// reads a namespace
    GetByName { name: &'a str, rows: SoftDeletedRows },
    /// reads all namespaces
    List { rows: SoftDeletedRows },
    /// sets how many tables a namespace may have
    UpdateTableLimit { id: i64, max_tables: i32 },
    /// sets how many columns each table of a namespace may have
    UpdateColumnLimit { id: i64, max_columns_per_table: i32 },
    /// sets for how long a namespace keeps its data
    UpdateRetentionPeriod { id: i64, retention_period_ns: Option<i64> },
    /// marks a namespace as deleted
    SoftDelete { id: i64 },
    /// asks for the size of a namespace's files
    GetStorageById { id: i64 },
    /// takes a snapshot
    Snapshot { id: i64 },
    /// takes a snapshot
    SnapshotByName { name: &'a str },
    /// looks a table up in a snapshot
    LookupTable { handle: u64, name: &'a str },
}

/// The model of a [`NamespacesRequest`].
#[verifier::ext_equal]
pub enum NamespacesRequestView {
    Create {
        name: Seq<char>,
        partition_template: Option<TemplateView>,
        retention_period_ns: Option<i64>,
    },
    GetById { id: i64, rows: SoftDeletedRows },
    GetByName { name: Seq<char>, rows: SoftDeletedRows },
    List { rows: SoftDeletedRows },
    UpdateTableLimit { id: i64, max_tables: i32 },
    UpdateColumnLimit { id: i64, max_columns_per_table: i32 },
    UpdateRetentionPeriod { id: i64, retention_period_ns: Option<i64> },
    SoftDelete { id: i64 },
    GetStorageById { id: i64 },
    Snapshot { id: i64 },
    SnapshotByName { name: Seq<char> },
    LookupTable { handle: u64, name: Seq<char> },
}

impl<'a> View for NamespacesRequest<'a> {
    type V = NamespacesRequestView;

    open spec fn view(&self) -> NamespacesRequestView {
        match *self {
            NamespacesRequest::Create { name, partition_template, retention_period_ns } => {
                NamespacesRequestView::Create {
                    name: name@,
                    partition_template: view_option(partition_template),
                    retention_period_ns,
                }
            },
            NamespacesRequest::GetById { id, rows } => NamespacesRequestView::GetById { id, rows },
            NamespacesRequest::GetByName { name, rows } => NamespacesRequestView::GetByName {
                name: name@,
                rows,
            },
            NamespacesRequest::List { rows } => NamespacesRequestView::List { rows },
            NamespacesRequest::UpdateTableLimit { id, max_tables } => {
                NamespacesRequestView::UpdateTableLimit { id, max_tables }
            },
            NamespacesRequest::UpdateColumnLimit { id, max_columns_per_table } => {
                NamespacesRequestView::UpdateColumnLimit { id, max_columns_per_table }
            },
            NamespacesRequest::UpdateRetentionPeriod { id, retention_period_ns } => {
                NamespacesRequestView::UpdateRetentionPeriod { id, retention_period_ns }
            },
            NamespacesRequest::SoftDelete { id } => NamespacesRequestView::SoftDelete { id },
            NamespacesRequest::GetStorageById { id } => NamespacesRequestView::GetStorageById {
                id,
            },
            NamespacesRequest::Snapshot { id } => NamespacesRequestView::Snapshot { id },
            NamespacesRequest::SnapshotByName { name } => NamespacesRequestView::SnapshotByName {
                name: name@,
            },
            NamespacesRequest::LookupTable { handle, name } => NamespacesRequestView::LookupTable {
                handle,
                name: name@,
            },
        }
    }
}

/// What can be asked of the tables.
#[derive(Debug)]
pub enum TablesRequest<'a> {
    /// creates a table
    Create { name: &'a str, partition_template: &'a Template, namespace_id: i64 },
    /// reads a table
    GetById { id: i64 },
    /// reads a table
    GetByNamespaceAndName { namespace_id: i64, name: &'a str },
    /// reads the tables of a namespace
    ListByNamespaceId { namespace_id: i64 },
    /// reads all tables
    List,
    /// asks for the sizes of the tables of a namespace
    ListStorageByNamespaceId { namespace_id: i64 },
    /// asks for the size of a table's files
    GetStorageById { id: i64 },
    /// takes a snapshot
    Snapshot { id: i64 },
}

/// The model of a [`TablesRequest`].
#[verifier::ext_equal]
pub enum TablesRequestView {
    Create { name: Seq<char>, partition_template: TemplateView, namespace_id: i64 },
    GetById { id: i64 },
    GetByNamespaceAndName { namespace_id: i64, name: Seq<char> },
    ListByNamespaceId { namespace_id: i64 },
    List,
    ListStorageByNamespaceId { namespace_id: i64 },
    GetStorageById { id: i64 },
    Snapshot { id: i64 },
}

impl<'a> View for TablesRequest<'a> {
    type V = TablesRequestView;

    open spec fn view(&self) -> TablesRequestView {
        match *self {
            TablesRequest::Create { name, partition_template, namespace_id } => {
                TablesRequestView::Create {
                    name: name@,
                    partition_template: partition_template@,
                    namespace_id,
                }
            },
            TablesRequest::GetById { id } => TablesRequestView::GetById { id },
            TablesRequest::GetByNamespaceAndName { namespace_id, name } => {
                TablesRequestView::GetByNamespaceAndName { namespace_id, name: name@ }
            },
            TablesRequest::ListByNamespaceId { namespace_id } => {
                TablesRequestView::ListByNamespaceId { namespace_id }
            },
            TablesRequest::List => TablesRequestView::List,
            TablesRequest::ListStorageByNamespaceId { namespace_id } => {
                TablesRequestView::ListStorageByNamespaceId { namespace_id }
            },
            TablesRequest::GetStorageById { id } => TablesRequestView::GetStorageById { id },
            TablesRequest::Snapshot { id } => TablesRequestView::Snapshot { id },
        }
    }
}

/// What can be asked of the columns.
#[derive(Debug)]
pub enum ColumnsRequest<'a> {
    /// reads a column, and creates it first if need be
    CreateOrGet { name: &'a str, table_id: i64, column_type: ColumnType },
    /// reads columns, and creates those that are missing, whatever the limit
    CreateOrGetManyUnchecked { table_id: i64, columns: Vec<(&'a str, ColumnType)> },
    /// reads the columns of a namespace
    ListByNamespaceId { namespace_id: i64 },
    /// reads the columns of a table
    ListByTableId { table_id: i64 },
    /// reads all columns
    List,
}

/// The model of a [`ColumnsRequest`].
#[verifier::ext_equal]
pub enum ColumnsRequestView {
    CreateOrGet { name: Seq<char>, table_id: i64, column_type: ColumnType },
    CreateOrGetManyUnchecked { table_id: i64, columns: Seq<(Seq<char>, ColumnType)> },
    ListByNamespaceId { namespace_id: i64 },
    ListByTableId { table_id: i64 },
    List,
}

impl<'a> View for ColumnsRequest<'a> {
    type V = ColumnsRequestView;

    open spec fn view(&self) -> ColumnsRequestView {
        match *self {
            ColumnsRequest::CreateOrGet { name, table_id, column_type } => {
                ColumnsRequestView::CreateOrGet { name: name@, table_id, column_type }
            },
            ColumnsRequest::CreateOrGetManyUnchecked { table_id, columns } => {
                ColumnsRequestView::CreateOrGetManyUnchecked {
                    table_id,
                    columns: column_views(columns@),
                }
            },
            ColumnsRequest::ListByNamespaceId { namespace_id } => {
                ColumnsRequestView::ListByNamespaceId { namespace_id }
            },
            ColumnsRequest::ListByTableId { table_id } => ColumnsRequestView::ListByTableId {
                table_id,
            },
            ColumnsRequest::List => ColumnsRequestView::List,
        }
    }
}

/// What can be asked of the partitions.
#[derive(Debug)]
pub enum PartitionsRequest<'a> {
    /// reads a partition, and creates it first if need be
    CreateOrGet { key: &'a str, table_id: i64 },
    /// reads a partition
    GetById { id: i64 },
    /// reads partitions
    GetByIdBatch { ids: Vec<i64> },
    /// reads the partitions of a table
    ListByTableId { table_id: i64 },
    /// reads the ids of all partitions
    ListIds,
    /// reads the partitions that have no hash
    ListOldStyle,
    /// takes a snapshot
    Snapshot { id: i64 },
    /// replaces the sort key, if it is the one that the caller knows
    CasSortKey { id: i64, old: Option<Vec<i64>>, new: Vec<i64> },
    /// reads all skipped compactions
    ListSkippedCompactions,
    /// records a skipped compaction
    RecordSkippedCompaction {
        id: i64,
        reason: &'a str,
        num_files: i64,
        limit_num_files: i64,
        limit_num_files_first_in_partition: i64,
        estimated_bytes: i64,
        limit_bytes: i64,
    },
    /// reads the skipped compactions of some partitions
    GetInSkippedCompactions { ids: Vec<i64> },
    /// removes the skipped compaction of a partition
    DeleteSkippedCompactions { id: i64 },
    /// reads the partitions that were created last
    MostRecentN { n: usize },
    /// asks for the partitions whose last new file came in between two times
    NewFileBetween { minimum_time: i64, maximum_time: Option<i64> },
    /// removes the partitions that hold nothing and never will again
    DeleteByRetention,
}

/// The model of a [`PartitionsRequest`].
#[verifier::ext_equal]
pub enum PartitionsRequestView {
    CreateOrGet { key: Seq<char>, table_id: i64 },
    GetById { id: i64 },
    GetByIdBatch { ids: Seq<i64> },
    ListByTableId { table_id: i64 },
    ListIds,
    ListOldStyle,
    Snapshot { id: i64 },
    CasSortKey { id: i64, old: Option<Seq<i64>>, new: Seq<i64> },
    ListSkippedCompactions,
    RecordSkippedCompaction {
        id: i64,
        reason: Seq<char>,
        num_files: i64,
        limit_num_files: i64,
        limit_num_files_first_in_partition: i64,
        estimated_bytes: i64,
        limit_bytes: i64,
    },
    GetInSkippedCompactions { ids: Seq<i64> },
    DeleteSkippedCompactions { id: i64 },
    MostRecentN { n: usize },
    NewFileBetween { minimum_time: i64, maximum_time: Option<i64> },
    DeleteByRetention,
}

impl<'a> View for PartitionsRequest<'a> {
    type V = PartitionsRequestView;

    open spec fn view(&self) -> PartitionsRequestView {
        match *self {
            PartitionsRequest::CreateOrGet { key, table_id } => PartitionsRequestView::CreateOrGet {
                key: key@,
                table_id,
            },
            PartitionsRequest::GetById { id } => PartitionsRequestView::GetById { id },
            PartitionsRequest::GetByIdBatch { ids } => PartitionsRequestView::GetByIdBatch {
                ids: ids@,
            },
            PartitionsRequest::ListByTableId { table_id } => PartitionsRequestView::ListByTableId {
                table_id,
            },
            PartitionsRequest::ListIds => PartitionsRequestView::ListIds,
            PartitionsRequest::ListOldStyle => PartitionsRequestView::ListOldStyle,
            PartitionsRequest::Snapshot { id } => PartitionsRequestView::Snapshot { id },
            PartitionsRequest::CasSortKey { id, old, new } => PartitionsRequestView::CasSortKey {
                id,
                old: view_option(old),
                new: new@,
            },
            PartitionsRequest::ListSkippedCompactions => {
                PartitionsRequestView::ListSkippedCompactions
            },
            PartitionsRequest::RecordSkippedCompaction {
                id,
                reason,
                num_files,
                limit_num_files,
                limit_num_files_first_in_partition,
                estimated_bytes,
                limit_bytes,
            } => {
                PartitionsRequestView::RecordSkippedCompaction {
                    id,
                    reason: reason@,
                    num_files,
                    limit_num_files,
                    limit_num_files_first_in_partition,
                    estimated_bytes,
                    limit_bytes,
                }
            },
            PartitionsRequest::GetInSkippedCompactions { ids } => {
                PartitionsRequestView::GetInSkippedCompactions { ids: ids@ }
            },
            PartitionsRequest::DeleteSkippedCompactions { id } => {
                PartitionsRequestView::DeleteSkippedCompactions { id }
            },
            PartitionsRequest::MostRecentN { n } => PartitionsRequestView::MostRecentN { n },
            PartitionsRequest::NewFileBetween { minimum_time, maximum_time } => {
                PartitionsRequestView::NewFileBetween { minimum_time, maximum_time }
            },
            PartitionsRequest::DeleteByRetention => PartitionsRequestView::DeleteByRetention,
        }
    }
}

/// What can be asked of the files.
#[derive(Debug)]
pub enum ParquetFilesRequest {
    /// adds a file
    Create { params: ParquetFileParams },
    /// adds a file, or reads it if it is there already
    Upsert { params: ParquetFileParams },
    /// reads a file
    GetByObjectStoreId { object_store_id: u128 },
    /// reads the files of a table
    ListByTableId { table_id: i64, level: Option<CompactionLevel> },
    /// reads the files of a namespace
    ListByNamespaceId { namespace_id: i64, rows: SoftDeletedRows },
    /// reads the files of some partitions that are not marked for deletion
    ListByPartitionNotToDeleteBatch { partition_ids: Vec<i64> },
    /// marks files for deletion, raises the level of others and adds new ones, all or nothing
    CreateUpgradeDelete {
        partition_id: i64,
        delete: Vec<u128>,
        upgrade: Vec<u128>,
        create: Vec<ParquetFileParams>,
        target_level: CompactionLevel,
    },
    /// removes the files that were marked for deletion before a time, and counts them
    DeleteOldIdsCount { older_than: i64 },
    /// marks files for deletion whose data is older than it is kept
    FlagForDeleteByRetention,
    /// asks which of some files there are
    ExistsByObjectStoreIdBatch { ids: Vec<u128> },
    /// asks which of some files there are in the partitions given
    ExistsByPartitionAndObjectStoreIdBatch { located: Vec<(i64, u128)> },
}

/// The model of a [`ParquetFilesRequest`].
#[verifier::ext_equal]
pub enum ParquetFilesRequestView {
    Create { params: ParquetFileParamsView },
    Upsert { params: ParquetFileParamsView },
    GetByObjectStoreId { object_store_id: u128 },
    ListByTableId { table_id: i64, level: Option<CompactionLevel> },
    ListByNamespaceId { namespace_id: i64, rows: SoftDeletedRows },
    ListByPartitionNotToDeleteBatch { partition_ids: Seq<i64> },
    CreateUpgradeDelete {
        partition_id: i64,
        delete: Seq<u128>,
        upgrade: Seq<u128>,
        create: Seq<ParquetFileParamsView>,
        target_level: CompactionLevel,
    },
    DeleteOldIdsCount { older_than: i64 },
    FlagForDeleteByRetention,
    ExistsByObjectStoreIdBatch { ids: Seq<u128> },
    ExistsByPartitionAndObjectStoreIdBatch { located: Seq<(i64, u128)> },
}

impl View for ParquetFilesRequest {
    type V = ParquetFilesRequestView;

    open spec fn view(&self) -> ParquetFilesRequestView {
        match *self {
            ParquetFilesRequest::Create { params } => ParquetFilesRequestView::Create {
                params: params@,
            },
            ParquetFilesRequest::Upsert { params } => ParquetFilesRequestView::Upsert {
                params: params@,
            },
            ParquetFilesRequest::GetByObjectStoreId { object_store_id } => {
                ParquetFilesRequestView::GetByObjectStoreId { object_store_id }
            },
            ParquetFilesRequest::ListByTableId { table_id, level } => {
                ParquetFilesRequestView::ListByTableId { table_id, level }
            },
            ParquetFilesRequest::ListByNamespaceId { namespace_id, rows } => {
                ParquetFilesRequestView::ListByNamespaceId { namespace_id, rows }
            },
            ParquetFilesRequest::ListByPartitionNotToDeleteBatch { partition_ids } => {
                ParquetFilesRequestView::ListByPartitionNotToDeleteBatch {
                    partition_ids: partition_ids@,
                }
            },
            ParquetFilesRequest::CreateUpgradeDelete {
                partition_id,
                delete,
                upgrade,
                create,
                target_level,
            } => {
                ParquetFilesRequestView::CreateUpgradeDelete {
                    partition_id,
                    delete: delete@,
                    upgrade: upgrade@,
                    create: views(create@),
                    target_level,
                }
            },
            ParquetFilesRequest::DeleteOldIdsCount { older_than } => {
                ParquetFilesRequestView::DeleteOldIdsCount { older_than }
            },
            ParquetFilesRequest::FlagForDeleteByRetention => {
                ParquetFilesRequestView::FlagForDeleteByRetention
            },
            ParquetFilesRequest::ExistsByObjectStoreIdBatch { ids } => {
                ParquetFilesRequestView::ExistsByObjectStoreIdBatch { ids: ids@ }
            },
            ParquetFilesRequest::ExistsByPartitionAndObjectStoreIdBatch { located } => {
                ParquetFilesRequestView::ExistsByPartitionAndObjectStoreIdBatch {
                    located: located@,
                }
            },
        }
    }
}

/// What helpers of a catalog's tests do in one step.
#[derive(Debug)]
pub enum HelperRequest<'a> {
    /// creates a namespace
    ArbitraryNamespace { name: &'a str },
    /// creates a table
    ArbitraryTable { name: &'a str, namespace: &'a Namespace },
    /// makes parameters of a new file
    ArbitraryParquetFileParams {
        namespace: &'a Namespace,
        table: &'a Table,
        partition: &'a Partition,
    },
    /// creates a table with one partition
    SetupTableAndPartition { name: &'a str, namespace: &'a Namespace },
    /// adds a file and reads it
    CreateAndGetFile { namespace: &'a Namespace, table: &'a Table, partition: &'a Partition },
    /// marks a file for deletion
    DeleteFile { file: &'a ParquetFile },
    /// creates a partition as if at another time
    PartitionWithCreatedAt { key: &'a str, table_id: i64, created_at: Option<i64> },
    /// parses line protocol
    LinesToBatches { lines: &'a str, default_time: i64 },
    /// holds batches to the schema of a namespace, and adds what is missing; replies with the
    /// tables of the schema if they changed
    ValidateOrInsertSchema { batches: &'a Vec<Batch>, schema: &'a NamespaceSchema },
}

/// The model of a [`HelperRequest`].
#[verifier::ext_equal]
pub enum HelperRequestView {
    ArbitraryNamespace { name: Seq<char> },
    ArbitraryTable { name: Seq<char>, namespace: NamespaceView },
    ArbitraryParquetFileParams {
        namespace: NamespaceView,
        table: TableView,
        partition: PartitionView,
    },
    SetupTableAndPartition { name: Seq<char>, namespace: NamespaceView },
    CreateAndGetFile { namespace: NamespaceView, table: TableView, partition: PartitionView },
    DeleteFile { file: ParquetFileView },
    PartitionWithCreatedAt { key: Seq<char>, table_id: i64, created_at: Option<i64> },
    LinesToBatches { lines: Seq<char>, default_time: i64 },
    ValidateOrInsertSchema { batches: Seq<BatchView>, schema: NamespaceSchemaView },
}

impl<'a> View for HelperRequest<'a> {
    type V = HelperRequestView;

    open spec fn view(&self) -> HelperRequestView {
        match *self {
            HelperRequest::ArbitraryNamespace { name } => HelperRequestView::ArbitraryNamespace {
                name: name@,
            },
            HelperRequest::ArbitraryTable { name, namespace } => HelperRequestView::ArbitraryTable {
                name: name@,
                namespace: namespace@,
            },
            HelperRequest::ArbitraryParquetFileParams { namespace, table, partition } => {
                HelperRequestView::ArbitraryParquetFileParams {
                    namespace: namespace@,
                    table: table@,
                    partition: partition@,
                }
            },
            HelperRequest::SetupTableAndPartition { name, namespace } => {
                HelperRequestView::SetupTableAndPartition { name: name@, namespace: namespace@ }
            },
            HelperRequest::CreateAndGetFile { namespace, table, partition } => {
                HelperRequestView::CreateAndGetFile {
                    namespace: namespace@,
                    table: table@,
                    partition: partition@,
                }
            },
            HelperRequest::DeleteFile { file } => HelperRequestView::DeleteFile { file: file@ },
            HelperRequest::PartitionWithCreatedAt { key, table_id, created_at } => {
                HelperRequestView::PartitionWithCreatedAt { key: key@, table_id, created_at }
            },
            HelperRequest::LinesToBatches { lines, default_time } => {
                HelperRequestView::LinesToBatches { lines: lines@, default_time }
            },
            HelperRequest::ValidateOrInsertSchema { batches, schema } => {
                HelperRequestView::ValidateOrInsertSchema {
                    batches: views(batches@),
                    schema: schema@,
                }
            },
        }
    }
}

/// What the data types of a catalog compute.
#[derive(Debug)]
pub enum ValueRequest<'a> {
    /// draws new ids
    NewObjectStoreIds { count: usize },
    /// computes the hash of a partition
    PartitionHashId { table_id: i64, key: &'a str },
    /// makes the template of a namespace
    NamespaceTemplate { parts: Vec<TemplatePart> },
    /// makes the template of a table, from its own parts or from its namespace
    TableTemplate { own_parts: Option<Vec<TemplatePart>>, namespace_template: &'a Template },
    /// asks for the defaults
    Defaults,
    /// asks how the id of a namespace is shown
    NamespaceIdText { id: i64 },
    /// asks how the id of a file in the object store is shown
    ObjectStoreIdText { object_store_id: u128 },
    /// asks how the date of a time is shown
    DateText { time: i64 },
    /// makes the schema of a namespace without tables
    EmptySchema { namespace: &'a Namespace },
}

/// The model of a [`ValueRequest`].
#[verifier::ext_equal]
pub enum ValueRequestView {
    NewObjectStoreIds { count: usize },
    PartitionHashId { table_id: i64, key: Seq<char> },
    NamespaceTemplate { parts: Seq<TemplatePartView> },
    TableTemplate { own_parts: Option<Seq<TemplatePartView>>, namespace_template: TemplateView },
    Defaults,
    NamespaceIdText { id: i64 },
    ObjectStoreIdText { object_store_id: u128 },
    DateText { time: i64 },
    EmptySchema { namespace: NamespaceView },
}

impl<'a> View for ValueRequest<'a> {
    type V = ValueRequestView;

    open spec fn view(&self) -> ValueRequestView {
        match *self {
            ValueRequest::NewObjectStoreIds { count } => ValueRequestView::NewObjectStoreIds {
                count,
            },
            ValueRequest::PartitionHashId { table_id, key } => ValueRequestView::PartitionHashId {
                table_id,
                key: key@,
            },
            ValueRequest::NamespaceTemplate { parts } => ValueRequestView::NamespaceTemplate {
                parts: views(parts@),
            },
            ValueRequest::TableTemplate { own_parts, namespace_template } => {
                ValueRequestView::TableTemplate {
                    own_parts: view_option_list(own_parts),
                    namespace_template: namespace_template@,
                }
            },
            ValueRequest::Defaults => ValueRequestView::Defaults,
            ValueRequest::NamespaceIdText { id } => ValueRequestView::NamespaceIdText { id },
            ValueRequest::ObjectStoreIdText { object_store_id } => {
                ValueRequestView::ObjectStoreIdText { object_store_id }
            },
            ValueRequest::DateText { time } => ValueRequestView::DateText { time },
            ValueRequest::EmptySchema { namespace } => ValueRequestView::EmptySchema {
                namespace: namespace@,
            },
        }
    }
}

/// What only the surroundings of a catalog can do.
#[derive(Debug)]
pub enum EnvironmentRequest {
    /// starts a new, empty catalog
    CleanState,
    /// waits
    Sleep { millis: u64 },
    /// asks the system for the second of the current minute
    SystemSecond,
    /// serves the catalog to a client of its own
    StartGrpcServer,
    /// asks the client's time provider for the second of the current minute
    GrpcSecond,
    /// asks for the catalog's time through the client
    GrpcGetTime,
}

/// The model of a [`EnvironmentRequest`].
#[verifier::ext_equal]
pub enum EnvironmentRequestView {
    CleanState,
    Sleep { millis: u64 },
    SystemSecond,
    StartGrpcServer,
    GrpcSecond,
    GrpcGetTime,
}

impl View for EnvironmentRequest {
    type V = EnvironmentRequestView;

    open spec fn view(&self) -> EnvironmentRequestView {
        match *self {
            EnvironmentRequest::CleanState => EnvironmentRequestView::CleanState,
            EnvironmentRequest::Sleep { millis } => EnvironmentRequestView::Sleep { millis },
            EnvironmentRequest::SystemSecond => EnvironmentRequestView::SystemSecond,
            EnvironmentRequest::StartGrpcServer => EnvironmentRequestView::StartGrpcServer,
            EnvironmentRequest::GrpcSecond => EnvironmentRequestView::GrpcSecond,
            EnvironmentRequest::GrpcGetTime => EnvironmentRequestView::GrpcGetTime,
        }
    }
}

/// One scenario of the conformance suite, or a part of one that runs on its own.
#[derive(Debug)]
pub enum Scenario<'a> {
    /// the whole suite
    Catalog { max_l0_files: u32 },
    /// a catalog can be set up, and again
    Setup,
    /// namespaces can be created, found, changed and deleted
    Namespace,
    /// the size of a namespace is that of its files
    NamespaceStorage,
    /// no change of a namespace is lost
    NamespaceRouterVersionAtomicity,
    /// reads respect soft deletion
    NamespaceSoftDeletion,
    /// tables can be created, found and limited
    Table,
    /// the size of a table is that of its files
    TableStorage,
    /// one table, or two of the same namespace, have the sizes given
    TableSize { namespace_id: i64, first: i64, first_size: i64, second: Option<(i64, i64)> },
    /// columns can be created, found and limited
    Column,
    /// partitions can be created, found, changed and skipped
    Partition,
    /// a snapshot agrees with the catalog
    ValidatePartitionSnapshot { partition_snapshot: &'a PartitionSnapshot },
    /// a snapshot agrees with the catalog
    ValidateTableSnapshot { table_snapshot: &'a TableSnapshot },
    /// a snapshot agrees with the catalog
    ValidateNamespaceSnapshot { namespace_snapshot: &'a NamespaceSnapshot },
    /// a snapshot agrees with the catalog
    ValidateRootSnapshot { root_snapshot: &'a RootSnapshot },
    /// all files of a namespace that are not marked for deletion
    ListParquetFiles { namespace_id: i64 },
    /// files can be added, found, compacted and deleted
    ParquetFile { max_l0_files: u32 },
    /// the namespaces given keep their data for ever
    KeepForEver { namespaces: &'a Vec<Namespace> },
    /// only files of namespaces with a retention period are flagged
    ParquetFileDeleteBroken,
    /// partitions are found by the time of their last new file
    PartitionsNewFileBetween,
    /// files are found by their partition
    ListByPartitionNotToDelete,
    /// the level of a file can be raised
    UpdateToCompactionLevel1,
    /// deleting a namespace deletes nothing else
    DeleteNamespace,
    /// partitions are removed once they hold nothing and never will again
    PartitionRetention,
    /// a namespace with the schema of some lines
    PopulateNamespace { name: &'a str, lines: &'a str },
    /// all schemas are listed
    ListSchemas,
    /// the schemas of deleted namespaces are not listed
    ListSchemasSoftDeletedRows,
    /// what one caller wrote another can read
    TwoRepos,
    /// a partition is created once
    PartitionCreateOrGetIdempotent,
    /// many columns can be created at once
    ColumnCreateOrGetManyUnchecked,
    /// the same, call after call
    ManyColumns { calls: Vec<Vec<(&'a str, ColumnType)>>, want: Want<'a> },
    /// the catalog tells the time
    GetTime,
    /// a client tells the time of its server
    GrpcGetTime,
}

/// The model of a [`Scenario`].
#[verifier::ext_equal]
pub enum ScenarioView {
    Catalog { max_l0_files: u32 },
    Setup,
    Namespace,
    NamespaceStorage,
    NamespaceRouterVersionAtomicity,
    NamespaceSoftDeletion,
    Table,
    TableStorage,
    TableSize { namespace_id: i64, first: i64, first_size: i64, second: Option<(i64, i64)> },
    Column,
    Partition,
    ValidatePartitionSnapshot { partition_snapshot: PartitionSnapshotView },
    ValidateTableSnapshot { table_snapshot: TableSnapshotView },
    ValidateNamespaceSnapshot { namespace_snapshot: NamespaceSnapshotView },
    ValidateRootSnapshot { root_snapshot: RootSnapshotView },
    ListParquetFiles { namespace_id: i64 },
    ParquetFile { max_l0_files: u32 },
    KeepForEver { namespaces: Seq<NamespaceView> },
    ParquetFileDeleteBroken,
    PartitionsNewFileBetween,
    ListByPartitionNotToDelete,
    UpdateToCompactionLevel1,
    DeleteNamespace,
    PartitionRetention,
    PopulateNamespace { name: Seq<char>, lines: Seq<char> },
    ListSchemas,
    ListSchemasSoftDeletedRows,
    TwoRepos,
    PartitionCreateOrGetIdempotent,
    ColumnCreateOrGetManyUnchecked,
    ManyColumns { calls: Seq<Seq<(Seq<char>, ColumnType)>>, want: WantView },
    GetTime,
    GrpcGetTime,
}

impl<'a> View for Scenario<'a> {
    type V = ScenarioView;

    open spec fn view(&self) -> ScenarioView {
        match *self {
            Scenario::Catalog { max_l0_files } => ScenarioView::Catalog { max_l0_files },
            Scenario::Setup => ScenarioView::Setup,
            Scenario::Namespace => ScenarioView::Namespace,
            Scenario::NamespaceStorage => ScenarioView::NamespaceStorage,
            Scenario::NamespaceRouterVersionAtomicity => {
                ScenarioView::NamespaceRouterVersionAtomicity
            },
            Scenario::NamespaceSoftDeletion => ScenarioView::NamespaceSoftDeletion,
            Scenario::Table => ScenarioView::Table,
            Scenario::TableStorage => ScenarioView::TableStorage,
            Scenario::TableSize { namespace_id, first, first_size, second } => {
                ScenarioView::TableSize { namespace_id, first, first_size, second }
            },
            Scenario::Column => ScenarioView::Column,
            Scenario::Partition => ScenarioView::Partition,
            Scenario::ValidatePartitionSnapshot { partition_snapshot } => {
                ScenarioView::ValidatePartitionSnapshot { partition_snapshot: partition_snapshot@ }
            },
            Scenario::ValidateTableSnapshot { table_snapshot } => {
                ScenarioView::ValidateTableSnapshot { table_snapshot: table_snapshot@ }
            },
            Scenario::ValidateNamespaceSnapshot { namespace_snapshot } => {
                ScenarioView::ValidateNamespaceSnapshot { namespace_snapshot: namespace_snapshot@ }
            },
            Scenario::ValidateRootSnapshot { root_snapshot } => ScenarioView::ValidateRootSnapshot {
                root_snapshot: root_snapshot@,
            },
            Scenario::ListParquetFiles { namespace_id } => ScenarioView::ListParquetFiles {
                namespace_id,
            },
            Scenario::ParquetFile { max_l0_files } => ScenarioView::ParquetFile { max_l0_files },
            Scenario::KeepForEver { namespaces } => ScenarioView::KeepForEver {
                namespaces: views(namespaces@),
            },
            Scenario::ParquetFileDeleteBroken => ScenarioView::ParquetFileDeleteBroken,
            Scenario::PartitionsNewFileBetween => ScenarioView::PartitionsNewFileBetween,
            Scenario::ListByPartitionNotToDelete => ScenarioView::ListByPartitionNotToDelete,
            Scenario::UpdateToCompactionLevel1 => ScenarioView::UpdateToCompactionLevel1,
            Scenario::DeleteNamespace => ScenarioView::DeleteNamespace,
            Scenario::PartitionRetention => ScenarioView::PartitionRetention,
            Scenario::PopulateNamespace { name, lines } => ScenarioView::PopulateNamespace {
                name: name@,
                lines: lines@,
            },
            Scenario::ListSchemas => ScenarioView::ListSchemas,
            Scenario::ListSchemasSoftDeletedRows => ScenarioView::ListSchemasSoftDeletedRows,
            Scenario::TwoRepos => ScenarioView::TwoRepos,
            Scenario::PartitionCreateOrGetIdempotent => {
                ScenarioView::PartitionCreateOrGetIdempotent
            },
            Scenario::ColumnCreateOrGetManyUnchecked => {
                ScenarioView::ColumnCreateOrGetManyUnchecked
            },
            Scenario::ManyColumns { calls, want } => ScenarioView::ManyColumns {
                calls: call_views(calls@),
                want: want@,
            },
            Scenario::GetTime => ScenarioView::GetTime,
            Scenario::GrpcGetTime => ScenarioView::GrpcGetTime,
        }
    }
}

/// What a scenario asks for next.
#[derive(Debug)]
pub enum Request<'a> {
    /// a request to the catalog
    Catalog(CatalogRequest<'a>),
    /// a request to the repository of all namespaces
    Root(RootRequest<'a>),
    /// a request to the repository of namespaces
    Namespaces(NamespacesRequest<'a>),
    /// the same, through a second set of repositories of the same catalog
    SecondNamespaces(NamespacesRequest<'a>),
    /// a request to the repository of tables
    Tables(TablesRequest<'a>),
    /// a request to the repository of columns
    Columns(ColumnsRequest<'a>),
    /// a request to the repository of partitions
    Partitions(PartitionsRequest<'a>),
    /// a request to the repository of files
    ParquetFiles(ParquetFilesRequest),
    /// a request to a helper
    Helper(HelperRequest<'a>),
    /// a request for a value
    Value(ValueRequest<'a>),
    /// a request to the surroundings
    Environment(EnvironmentRequest),
    /// a scenario that is run to its end on the same catalog
    Run(Scenario<'a>),
    /// requests that are made at the same time, each through repositories of its own; replies with
    /// what each of them returned, or with the first refusal
    Concurrently(Vec<NamespacesRequest<'a>>),
}

/// The model of a [`Request`].
#[verifier::ext_equal]
pub enum RequestView {
    Catalog(CatalogRequestView),
    Root(RootRequestView),
    Namespaces(NamespacesRequestView),
    SecondNamespaces(NamespacesRequestView),
    Tables(TablesRequestView),
    Columns(ColumnsRequestView),
    Partitions(PartitionsRequestView),
    ParquetFiles(ParquetFilesRequestView),
    Helper(HelperRequestView),
    Value(ValueRequestView),
    Environment(EnvironmentRequestView),
    Run(ScenarioView),
    Concurrently(Seq<NamespacesRequestView>),
}

impl<'a> View for Request<'a> {
    type V = RequestView;

    open spec fn view(&self) -> RequestView {
        match *self {
            Request::Catalog(r) => RequestView::Catalog(r@),
            Request::Root(r) => RequestView::Root(r@),
            Request::Namespaces(r) => RequestView::Namespaces(r@),
            Request::SecondNamespaces(r) => RequestView::SecondNamespaces(r@),
            Request::Tables(r) => RequestView::Tables(r@),
            Request::Columns(r) => RequestView::Columns(r@),
            Request::Partitions(r) => RequestView::Partitions(r@),
            Request::ParquetFiles(r) => RequestView::ParquetFiles(r@),
            Request::Helper(r) => RequestView::Helper(r@),
            Request::Value(r) => RequestView::Value(r@),
            Request::Environment(r) => RequestView::Environment(r@),
            Request::Run(r) => RequestView::Run(r@),
            Request::Concurrently(r) => RequestView::Concurrently(views(r@)),
        }
    }
}

} // verus!
