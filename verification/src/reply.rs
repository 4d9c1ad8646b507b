//! What a scenario hears back.
use crate::metrics::Metric;
use crate::types::{
    Batch, Column, Defaults, Entry, Error, Namespace, NamespaceSchema, NamespaceSnapshot,
    ParquetFile, ParquetFileParams, Partition, PartitionSnapshot, Populated, RootSnapshot,
    SkippedCompaction, Table, TableSchema, TableSnapshot, Template,
};
use vstd::prelude::*;

verus! {

/// The reply to a request.
#[derive(Debug, Clone)]
pub enum Reply {
    /// the request was refused
    Failed(Error),
    /// a namespace
    Namespace(Namespace),
    /// a table
    Table(Table),
    /// a column
    Column(Column),
    /// a partition
    Partition(Partition),
    /// a file
    File(ParquetFile),
    /// the parameters of a file
    Params(ParquetFileParams),
    /// a partition template
    Template(Template),
    /// the defaults
    Defaults(Defaults),
    /// a snapshot of all namespaces
    RootSnapshot(RootSnapshot),
    /// a snapshot of a namespace
    NamespaceSnapshot(NamespaceSnapshot),
    /// a snapshot of a table
    TableSnapshot(TableSnapshot),
    /// a snapshot of a partition
    PartitionSnapshot(PartitionSnapshot),
    /// a skipped compaction
    Skipped(SkippedCompaction),
    /// an entry of a snapshot
    Entry(Entry),
    /// a namespace with its schema
    Populated(Populated),
    /// the schema of a namespace
    Schema(NamespaceSchema),
    /// namespaces
    Namespaces(Vec<Namespace>),
    /// tables
    Tables(Vec<Table>),
    /// columns
    Columns(Vec<Column>),
    /// partitions
    Partitions(Vec<Partition>),
    /// files
    Files(Vec<ParquetFile>),
    /// skipped compactions
    SkippedList(Vec<SkippedCompaction>),
    /// the schemas of tables
    TableSchemas(Vec<TableSchema>),
    /// namespaces with their schemas
    Schemas(Vec<Populated>),
    /// parsed batches
    Batches(Vec<Batch>),
    /// what the metrics tell
    Metrics(Vec<Metric>),
    /// the id of what was changed
    Id(i64),
    /// a size in bytes
    Size(i64),
    /// how many there were
    Count(u64),
    /// a time in nanoseconds
    Time(i64),
    /// the second of a minute
    Second(u32),
    /// the number of samples
    Samples(u64),
    /// a text
    Text(String),
    /// bytes
    Bytes(Vec<u8>),
    /// ids
    Ids(Vec<i64>),
    /// sizes in bytes
    Sizes(Vec<i64>),
    /// ids in the object store
    ObjectStoreIds(Vec<u128>),
    /// ids in the object store, each behind the id of its partition
    Located(Vec<(i64, u128)>),
    /// ids of partitions, each behind the id of its table
    Retired(Vec<(i64, i64)>),
    /// the sort key, where it is not the one that the caller knows
    CasMismatch(Vec<i64>),
    /// a table with its only partition
    TableAndPartition(Table, Partition),
    /// the request was carried out
    Done,
    /// there is no such thing
    Nothing,
    /// a scenario passed
    Passed,
}

} // verus!
