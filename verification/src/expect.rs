//! What a scenario expects of the replies so far.
//!
//! Each function speaks of the sequence `h` of all replies that a scenario has heard, in the order
//! of its requests. The last of them is the one that is being judged.
use crate::expect;
use crate::metrics::metric_hit;
use crate::reply::Reply;
use crate::same::views;
use crate::sorting::{latest_by_id, same_by_id, sorted_by_id};
use crate::text::{occurs_in, text_before};
use crate::types::{
    BatchView, ColumnType, ColumnView, CompactionLevel, DefaultsView, EntryView, ErrorKind,
    NamespaceSchemaView, NamespaceSnapshotView, NamespaceView, ParquetFileParamsView,
    ParquetFileSource, ParquetFileView, PartitionSnapshotView, PartitionView, PopulatedView,
    RootSnapshotView, SkippedCompactionView, TableSchemaView, TableSnapshotView, TableView,
    TemplateView,
};
use vstd::prelude::*;
use vstd::utf8::encode_utf8;

verus! {

/// The last reply tells that the request was refused.
pub open spec fn got_error(h: Seq<Reply>) -> bool {
    h.len() > 0 && h.last() is Failed
}

/// Reply `k` is a namespace.
pub open spec fn is_namespace(h: Seq<Reply>, k: usize) -> bool {
    k < h.len() && h[k as int] is Namespace
}

/// What reply `k` holds, where it is a namespace.
pub open spec fn namespace(h: Seq<Reply>, k: usize) -> NamespaceView {
    h[k as int]->Namespace_0@
}

/// The last reply is a namespace.
pub open spec fn got_namespace(h: Seq<Reply>) -> bool {
    h.len() > 0 && h.last() is Namespace
}

/// Reply `k` is a table.
pub open spec fn is_table(h: Seq<Reply>, k: usize) -> bool {
    k < h.len() && h[k as int] is Table
}

/// What reply `k` holds, where it is a table.
pub open spec fn table(h: Seq<Reply>, k: usize) -> TableView {
    h[k as int]->Table_0@
}

/// The last reply is a table.
pub open spec fn got_table(h: Seq<Reply>) -> bool {
    h.len() > 0 && h.last() is Table
}

/// Reply `k` is a column.
pub open spec fn is_column(h: Seq<Reply>, k: usize) -> bool {
    k < h.len() && h[k as int] is Column
}

/// What reply `k` holds, where it is a column.
pub open spec fn column(h: Seq<Reply>, k: usize) -> ColumnView {
    h[k as int]->Column_0@
}

/// The last reply is a column.
pub open spec fn got_column(h: Seq<Reply>) -> bool {
    h.len() > 0 && h.last() is Column
}

/// Reply `k` is a partition.
pub open spec fn is_partition(h: Seq<Reply>, k: usize) -> bool {
    k < h.len() && h[k as int] is Partition
}

/// What reply `k` holds, where it is a partition.
pub open spec fn partition(h: Seq<Reply>, k: usize) -> PartitionView {
    h[k as int]->Partition_0@
}

/// The last reply is a partition.
pub open spec fn got_partition(h: Seq<Reply>) -> bool {
    h.len() > 0 && h.last() is Partition
}

/// Reply `k` is a file.
pub open spec fn is_file(h: Seq<Reply>, k: usize) -> bool {
    k < h.len() && h[k as int] is File
}

/// What reply `k` holds, where it is a file.
pub open spec fn file(h: Seq<Reply>, k: usize) -> ParquetFileView {
    h[k as int]->File_0@
}

/// The last reply is a file.
pub open spec fn got_file(h: Seq<Reply>) -> bool {
    h.len() > 0 && h.last() is File
}

/// Reply `k` is the parameters of a file.
pub open spec fn is_params(h: Seq<Reply>, k: usize) -> bool {
    k < h.len() && h[k as int] is Params
}

/// What reply `k` holds, where it is the parameters of a file.
pub open spec fn params(h: Seq<Reply>, k: usize) -> ParquetFileParamsView {
    h[k as int]->Params_0@
}

/// The last reply is the parameters of a file.
pub open spec fn got_params(h: Seq<Reply>) -> bool {
    h.len() > 0 && h.last() is Params
}

/// Reply `k` is a partition template.
pub open spec fn is_template(h: Seq<Reply>, k: usize) -> bool {
    k < h.len() && h[k as int] is Template
}

/// What reply `k` holds, where it is a partition template.
pub open spec fn template(h: Seq<Reply>, k: usize) -> TemplateView {
    h[k as int]->Template_0@
}

/// The last reply is a partition template.
pub open spec fn got_template(h: Seq<Reply>) -> bool {
    h.len() > 0 && h.last() is Template
}

/// Reply `k` is the defaults.
pub open spec fn is_defaults(h: Seq<Reply>, k: usize) -> bool {
    k < h.len() && h[k as int] is Defaults
}

/// What reply `k` holds, where it is the defaults.
pub open spec fn defaults(h: Seq<Reply>, k: usize) -> DefaultsView {
    h[k as int]->Defaults_0@
}

/// The last reply is the defaults.
pub open spec fn got_defaults(h: Seq<Reply>) -> bool {
    h.len() > 0 && h.last() is Defaults
}

/// Reply `k` is a snapshot of all namespaces.
pub open spec fn is_root_snapshot(h: Seq<Reply>, k: usize) -> bool {
    k < h.len() && h[k as int] is RootSnapshot
}

/// What reply `k` holds, where it is a snapshot of all namespaces.
pub open spec fn root_snapshot(h: Seq<Reply>, k: usize) -> RootSnapshotView {
    h[k as int]->RootSnapshot_0@
}

/// The last reply is a snapshot of all namespaces.
pub open spec fn got_root_snapshot(h: Seq<Reply>) -> bool {
    h.len() > 0 && h.last() is RootSnapshot
}

/// Reply `k` is a snapshot of a namespace.
pub open spec fn is_namespace_snapshot(h: Seq<Reply>, k: usize) -> bool {
    k < h.len() && h[k as int] is NamespaceSnapshot
}

/// What reply `k` holds, where it is a snapshot of a namespace.
pub open spec fn namespace_snapshot(h: Seq<Reply>, k: usize) -> NamespaceSnapshotView {
    h[k as int]->NamespaceSnapshot_0@
}

/// The last reply is a snapshot of a namespace.
pub open spec fn got_namespace_snapshot(h: Seq<Reply>) -> bool {
    h.len() > 0 && h.last() is NamespaceSnapshot
}

/// Reply `k` is a snapshot of a table.
pub open spec fn is_table_snapshot(h: Seq<Reply>, k: usize) -> bool {
    k < h.len() && h[k as int] is TableSnapshot
}

/// What reply `k` holds, where it is a snapshot of a table.
pub open spec fn table_snapshot(h: Seq<Reply>, k: usize) -> TableSnapshotView {
    h[k as int]->TableSnapshot_0@
}

/// The last reply is a snapshot of a table.
pub open spec fn got_table_snapshot(h: Seq<Reply>) -> bool {
    h.len() > 0 && h.last() is TableSnapshot
}

/// Reply `k` is a snapshot of a partition.
pub open spec fn is_partition_snapshot(h: Seq<Reply>, k: usize) -> bool {
    k < h.len() && h[k as int] is PartitionSnapshot
}

/// What reply `k` holds, where it is a snapshot of a partition.
pub open spec fn partition_snapshot(h: Seq<Reply>, k: usize) -> PartitionSnapshotView {
    h[k as int]->PartitionSnapshot_0@
}

/// The last reply is a snapshot of a partition.
pub open spec fn got_partition_snapshot(h: Seq<Reply>) -> bool {
    h.len() > 0 && h.last() is PartitionSnapshot
}

/// The last reply is a skipped compaction.
pub open spec fn got_skipped(h: Seq<Reply>) -> bool {
    h.len() > 0 && h.last() is Skipped
}

/// The last reply is an entry of a snapshot.
pub open spec fn got_entry(h: Seq<Reply>) -> bool {
    h.len() > 0 && h.last() is Entry
}

/// Reply `k` is a namespace with its schema.
pub open spec fn is_populated(h: Seq<Reply>, k: usize) -> bool {
    k < h.len() && h[k as int] is Populated
}

/// What reply `k` holds, where it is a namespace with its schema.
pub open spec fn populated(h: Seq<Reply>, k: usize) -> PopulatedView {
    h[k as int]->Populated_0@
}

/// The last reply is a namespace with its schema.
pub open spec fn got_populated(h: Seq<Reply>) -> bool {
    h.len() > 0 && h.last() is Populated
}

/// Reply `k` is the schema of a namespace.
pub open spec fn is_schema(h: Seq<Reply>, k: usize) -> bool {
    k < h.len() && h[k as int] is Schema
}

/// What reply `k` holds, where it is the schema of a namespace.
pub open spec fn schema(h: Seq<Reply>, k: usize) -> NamespaceSchemaView {
    h[k as int]->Schema_0@
}

/// The last reply is the schema of a namespace.
pub open spec fn got_schema(h: Seq<Reply>) -> bool {
    h.len() > 0 && h.last() is Schema
}

/// Reply `k` is namespaces.
pub open spec fn is_namespaces(h: Seq<Reply>, k: usize) -> bool {
    k < h.len() && h[k as int] is Namespaces
}

/// What reply `k` holds, where it is namespaces.
pub open spec fn namespaces(h: Seq<Reply>, k: usize) -> Seq<NamespaceView> {
    views(h[k as int]->Namespaces_0@)
}

/// The last reply is namespaces.
pub open spec fn got_namespaces(h: Seq<Reply>) -> bool {
    h.len() > 0 && h.last() is Namespaces
}

/// Reply `k` is tables.
pub open spec fn is_tables(h: Seq<Reply>, k: usize) -> bool {
    k < h.len() && h[k as int] is Tables
}

/// What reply `k` holds, where it is tables.
pub open spec fn tables(h: Seq<Reply>, k: usize) -> Seq<TableView> {
    views(h[k as int]->Tables_0@)
}

/// The last reply is tables.
pub open spec fn got_tables(h: Seq<Reply>) -> bool {
    h.len() > 0 && h.last() is Tables
}

/// Reply `k` is columns.
pub open spec fn is_columns(h: Seq<Reply>, k: usize) -> bool {
    k < h.len() && h[k as int] is Columns
}

/// What reply `k` holds, where it is columns.
pub open spec fn columns(h: Seq<Reply>, k: usize) -> Seq<ColumnView> {
    views(h[k as int]->Columns_0@)
}

/// The last reply is columns.
pub open spec fn got_columns(h: Seq<Reply>) -> bool {
    h.len() > 0 && h.last() is Columns
}

/// Reply `k` is partitions.
pub open spec fn is_partitions(h: Seq<Reply>, k: usize) -> bool {
    k < h.len() && h[k as int] is Partitions
}

/// What reply `k` holds, where it is partitions.
pub open spec fn partitions(h: Seq<Reply>, k: usize) -> Seq<PartitionView> {
    views(h[k as int]->Partitions_0@)
}

/// The last reply is partitions.
pub open spec fn got_partitions(h: Seq<Reply>) -> bool {
    h.len() > 0 && h.last() is Partitions
}

/// Reply `k` is files.
pub open spec fn is_files(h: Seq<Reply>, k: usize) -> bool {
    k < h.len() && h[k as int] is Files
}

/// What reply `k` holds, where it is files.
pub open spec fn files(h: Seq<Reply>, k: usize) -> Seq<ParquetFileView> {
    views(h[k as int]->Files_0@)
}

/// The last reply is files.
pub open spec fn got_files(h: Seq<Reply>) -> bool {
    h.len() > 0 && h.last() is Files
}

/// The last reply is skipped compactions.
pub open spec fn got_skipped_list(h: Seq<Reply>) -> bool {
    h.len() > 0 && h.last() is SkippedList
}

/// What reply `k` holds, where it is the schemas of tables.
pub open spec fn table_schemas(h: Seq<Reply>, k: usize) -> Seq<TableSchemaView> {
    views(h[k as int]->TableSchemas_0@)
}

/// The last reply is the schemas of tables.
pub open spec fn got_table_schemas(h: Seq<Reply>) -> bool {
    h.len() > 0 && h.last() is TableSchemas
}

/// What reply `k` holds, where it is namespaces with their schemas.
pub open spec fn schemas(h: Seq<Reply>, k: usize) -> Seq<PopulatedView> {
    views(h[k as int]->Schemas_0@)
}

/// The last reply is namespaces with their schemas.
pub open spec fn got_schemas(h: Seq<Reply>) -> bool {
    h.len() > 0 && h.last() is Schemas
}

/// Reply `k` is parsed batches.
pub open spec fn is_batches(h: Seq<Reply>, k: usize) -> bool {
    k < h.len() && h[k as int] is Batches
}

/// What reply `k` holds, where it is parsed batches.
pub open spec fn batches(h: Seq<Reply>, k: usize) -> Seq<BatchView> {
    views(h[k as int]->Batches_0@)
}

/// The last reply is parsed batches.
pub open spec fn got_batches(h: Seq<Reply>) -> bool {
    h.len() > 0 && h.last() is Batches
}

/// The last reply is what the metrics tell.
pub open spec fn got_metrics(h: Seq<Reply>) -> bool {
    h.len() > 0 && h.last() is Metrics
}

/// The last reply is the id of what was changed.
pub open spec fn got_id(h: Seq<Reply>) -> bool {
    h.len() > 0 && h.last() is Id
}

/// The last reply is a size in bytes.
pub open spec fn got_size(h: Seq<Reply>) -> bool {
    h.len() > 0 && h.last() is Size
}

/// The last reply is how many there were.
pub open spec fn got_count(h: Seq<Reply>) -> bool {
    h.len() > 0 && h.last() is Count
}

/// Reply `k` is a time in nanoseconds.
pub open spec fn is_time(h: Seq<Reply>, k: usize) -> bool {
    k < h.len() && h[k as int] is Time
}

/// What reply `k` holds, where it is a time in nanoseconds.
pub open spec fn time(h: Seq<Reply>, k: usize) -> i64 {
    h[k as int]->Time_0
}

/// The last reply is a time in nanoseconds.
pub open spec fn got_time(h: Seq<Reply>) -> bool {
    h.len() > 0 && h.last() is Time
}

/// Reply `k` is the second of a minute.
pub open spec fn is_second(h: Seq<Reply>, k: usize) -> bool {
    k < h.len() && h[k as int] is Second
}

/// What reply `k` holds, where it is the second of a minute.
pub open spec fn second(h: Seq<Reply>, k: usize) -> u32 {
    h[k as int]->Second_0
}

/// The last reply is the second of a minute.
pub open spec fn got_second(h: Seq<Reply>) -> bool {
    h.len() > 0 && h.last() is Second
}

/// The last reply is the number of samples.
pub open spec fn got_samples(h: Seq<Reply>) -> bool {
    h.len() > 0 && h.last() is Samples
}

/// Reply `k` is a text.
pub open spec fn is_text(h: Seq<Reply>, k: usize) -> bool {
    k < h.len() && h[k as int] is Text
}

/// What reply `k` holds, where it is a text.
pub open spec fn text(h: Seq<Reply>, k: usize) -> Seq<char> {
    h[k as int]->Text_0@
}

/// The last reply is a text.
pub open spec fn got_text(h: Seq<Reply>) -> bool {
    h.len() > 0 && h.last() is Text
}

/// Reply `k` is bytes.
pub open spec fn is_bytes(h: Seq<Reply>, k: usize) -> bool {
    k < h.len() && h[k as int] is Bytes
}

/// What reply `k` holds, where it is bytes.
pub open spec fn bytes(h: Seq<Reply>, k: usize) -> Seq<u8> {
    h[k as int]->Bytes_0@
}

/// The last reply is bytes.
pub open spec fn got_bytes(h: Seq<Reply>) -> bool {
    h.len() > 0 && h.last() is Bytes
}

/// The last reply is ids.
pub open spec fn got_ids(h: Seq<Reply>) -> bool {
    h.len() > 0 && h.last() is Ids
}

/// The last reply is sizes in bytes.
pub open spec fn got_sizes(h: Seq<Reply>) -> bool {
    h.len() > 0 && h.last() is Sizes
}

/// Reply `k` is ids in the object store.
pub open spec fn is_uuids(h: Seq<Reply>, k: usize) -> bool {
    k < h.len() && h[k as int] is ObjectStoreIds
}

/// What reply `k` holds, where it is ids in the object store.
pub open spec fn uuids(h: Seq<Reply>, k: usize) -> Seq<u128> {
    h[k as int]->ObjectStoreIds_0@
}

/// The last reply is ids in the object store.
pub open spec fn got_uuids(h: Seq<Reply>) -> bool {
    h.len() > 0 && h.last() is ObjectStoreIds
}

/// The last reply is ids in the object store, each behind the id of its partition.
pub open spec fn got_located(h: Seq<Reply>) -> bool {
    h.len() > 0 && h.last() is Located
}

/// The last reply is ids of partitions, each behind the id of its table.
pub open spec fn got_retired(h: Seq<Reply>) -> bool {
    h.len() > 0 && h.last() is Retired
}

/// The last reply is the sort key, where it is not the one that the caller knows.
pub open spec fn got_mismatch(h: Seq<Reply>) -> bool {
    h.len() > 0 && h.last() is CasMismatch
}

/// The last reply tells that the request was carried out.
pub open spec fn done(h: Seq<Reply>) -> bool {
    h.len() > 0 && h.last() is Done
}

/// The last reply tells that there is no such thing.
pub open spec fn nothing(h: Seq<Reply>) -> bool {
    h.len() > 0 && h.last() is Nothing
}

/// The last reply tells that a scenario passed.
pub open spec fn passed(h: Seq<Reply>) -> bool {
    h.len() > 0 && h.last() is Passed
}

/// The request was refused for a reason of this kind.
pub open spec fn refused_with(h: Seq<Reply>, kind: ErrorKind) -> bool {
    got_error(h) && h.last()->Failed_0.kind == kind
}

/// The request was refused for a reason of this kind, in these words.
pub open spec fn refused_about(h: Seq<Reply>, kind: ErrorKind, descr: Seq<char>) -> bool {
    refused_with(h, kind) && h.last()->Failed_0.descr@ == descr
}

/// The request was refused with a message in which these words stand.
pub open spec fn refused_saying(h: Seq<Reply>, words: Seq<char>) -> bool {
    got_error(h) && occurs_in(h.last()->Failed_0.message@, words)
}

/// Reply `k` is a snapshot.
pub open spec fn is_snapshot(h: Seq<Reply>, k: usize) -> bool {
    ||| is_root_snapshot(h, k)
    ||| is_namespace_snapshot(h, k)
    ||| is_table_snapshot(h, k)
    ||| is_partition_snapshot(h, k)
}

/// The generation of the snapshot that reply `k` is.
pub open spec fn generation(h: Seq<Reply>, k: usize) -> u64 {
    match h[k as int] {
        Reply::RootSnapshot(s) => s.generation,
        Reply::NamespaceSnapshot(s) => s.generation,
        Reply::TableSnapshot(s) => s.generation,
        Reply::PartitionSnapshot(s) => s.generation,
        _ => 0,
    }
}

/// Snapshot `a` is of a later generation than snapshot `b`.
pub open spec fn newer(h: Seq<Reply>, a: usize, b: usize) -> bool {
    generation(h, a) > generation(h, b)
}

/// Snapshot `a` is of the generation of snapshot `b` or of a later one.
pub open spec fn not_older(h: Seq<Reply>, a: usize, b: usize) -> bool {
    generation(h, a) >= generation(h, b)
}

/// Reply `k` is the text `text`.
pub open spec fn text_is(h: Seq<Reply>, k: usize, text: Seq<char>) -> bool {
    expect::text(h, k) == text
}

/// Reply `k` is one id in the object store.
pub open spec fn is_uuid(h: Seq<Reply>, k: usize) -> bool {
    is_uuids(h, k) && uuids(h, k).len() == 1
}

/// The id in the object store that reply `k` is.
pub open spec fn uuid(h: Seq<Reply>, k: usize) -> u128 {
    uuids(h, k)[0]
}

/// The last reply is one id in the object store.
pub open spec fn got_uuid(h: Seq<Reply>) -> bool {
    got_uuids(h) && h.last()->ObjectStoreIds_0@.len() == 1
}

/// The last reply is `count` ids in the object store.
pub open spec fn drew(h: Seq<Reply>, count: usize) -> bool {
    got_uuids(h) && h.last()->ObjectStoreIds_0@.len() == count
}

/// The namespace is the one of step `j`.
pub open spec fn same_namespace(h: Seq<Reply>, j: usize) -> bool {
    got_namespace(h) && h.last()->Namespace_0@ == namespace(h, j)
}

/// The namespace is another than the one of step `j`.
pub open spec fn other_namespace(h: Seq<Reply>, j: usize) -> bool {
    got_namespace(h) && h.last()->Namespace_0@ != namespace(h, j)
}

/// The namespace is new: it has a valid id, this name, the default template and version 0.
pub open spec fn fresh_namespace(h: Seq<Reply>, name: Seq<char>, defaults: usize) -> bool {
    got_namespace(h) && {
        let ns = h.last()->Namespace_0@;
        &&& ns.id > 0
        &&& ns.name == name
        &&& ns.partition_template == expect::defaults(h, defaults).namespace_template
        &&& ns.router_version == 0
    }
}

/// The namespace of step `j` has the default limits.
pub open spec fn has_default_limits(h: Seq<Reply>, j: usize, defaults: usize) -> bool {
    &&& namespace(h, j).max_tables == expect::defaults(h, defaults).max_tables
    &&& namespace(h, j).max_columns_per_table == expect::defaults(h, defaults).max_columns_per_table
}

/// The namespace has the version that it has at step `j`, advanced `by` times.
pub open spec fn version_follows(h: Seq<Reply>, j: usize, by: i64) -> bool {
    got_namespace(h) && h.last()->Namespace_0.router_version == namespace(h, j).router_version + by
}

/// The namespace has this version.
pub open spec fn has_version(h: Seq<Reply>, version: i64) -> bool {
    got_namespace(h) && h.last()->Namespace_0.router_version == version
}

/// The namespace may have this many tables.
pub open spec fn has_table_limit(h: Seq<Reply>, max_tables: i32) -> bool {
    got_namespace(h) && h.last()->Namespace_0.max_tables == max_tables
}

/// The tables of the namespace may have this many columns.
pub open spec fn has_column_limit(h: Seq<Reply>, max_columns: i32) -> bool {
    got_namespace(h) && h.last()->Namespace_0.max_columns_per_table == max_columns
}

/// The namespace keeps its data for this long.
pub open spec fn has_retention(h: Seq<Reply>, retention: Option<i64>) -> bool {
    got_namespace(h) && h.last()->Namespace_0.retention_period_ns == retention
}

/// The namespace has the template of step `k`.
pub open spec fn has_template(h: Seq<Reply>, k: usize) -> bool {
    got_namespace(h) && h.last()->Namespace_0@.partition_template == template(h, k)
}

/// The namespace has this name.
pub open spec fn is_named(h: Seq<Reply>, name: Seq<char>) -> bool {
    got_namespace(h) && h.last()->Namespace_0@.name == name
}

/// The namespace is soft-deleted.
pub open spec fn is_deleted(h: Seq<Reply>) -> bool {
    got_namespace(h) && h.last()->Namespace_0.deleted_at is Some
}

/// The names of the namespaces given.
pub open spec fn names_of(list: Seq<NamespaceView>) -> Seq<Seq<char>> {
    list.map_values(|ns: NamespaceView| ns.name)
}

/// The namespaces have these names and no others; it does not matter how often each occurs.
pub open spec fn are_named(h: Seq<Reply>, names: Set<Seq<char>>) -> bool {
    got_namespaces(h) && names_of(views(h.last()->Namespaces_0@)).to_set() == names
}

/// All namespaces have this name, and there is one.
pub open spec fn all_named(h: Seq<Reply>, name: Seq<char>) -> bool {
    are_named(h, set![name])
}

/// The namespaces have these two names, and there is one of each.
pub open spec fn both_named(h: Seq<Reply>, a: Seq<char>, b: Seq<char>) -> bool {
    are_named(h, set![a, b])
}

/// In the order of their names, the namespaces are those of steps `a` and `b`.
pub open spec fn in_name_order(h: Seq<Reply>, a: usize, b: usize) -> bool {
    got_namespaces(h) && {
        let list = views(h.last()->Namespaces_0@);
        &&& list.len() == 2
        &&& if text_before(list[1].name, list[0].name) {
            list[1] == namespace(h, a) && list[0] == namespace(h, b)
        } else {
            list[0] == namespace(h, a) && list[1] == namespace(h, b)
        }
    }
}

/// The namespace is the one of step `j`, but that it was deleted and that its version advanced.
pub open spec fn same_but_deleted(h: Seq<Reply>, j: usize, defaults: usize) -> bool {
    &&& got_namespace(h)
    &&& namespace(h, j) == (NamespaceView {
        deleted_at: None,
        router_version: expect::defaults(h, defaults).router_version,
        ..h.last()->Namespace_0@
    })
    &&& h.last()->Namespace_0.deleted_at is Some
    &&& h.last()->Namespace_0.router_version > namespace(h, j).router_version
}

/// The last reply tells a size, or that there is nothing to tell it of.
pub open spec fn got_storage(h: Seq<Reply>) -> bool {
    got_size(h) || nothing(h)
}

/// The last reply tells the size `size`.
pub open spec fn size_is(h: Seq<Reply>, size: i64) -> bool {
    got_size(h) && h.last()->Size_0 == size
}

/// The last reply tells the size of the file of step `a`.
pub open spec fn size_of(h: Seq<Reply>, a: usize) -> bool {
    size_is(h, file(h, a).file_size_bytes)
}

/// The files of steps `a` and `b` have a size together.
pub open spec fn sizes_add(h: Seq<Reply>, a: usize, b: usize) -> bool {
    i64::MIN <= file(h, a).file_size_bytes + file(h, b).file_size_bytes <= i64::MAX
}

/// The size that the files of steps `a` and `b` have together.
pub open spec fn total_size(h: Seq<Reply>, a: usize, b: usize) -> i64 {
    (file(h, a).file_size_bytes + file(h, b).file_size_bytes) as i64
}

/// The last reply tells the size of the files of steps `a` and `b` together.
pub open spec fn size_of_both(h: Seq<Reply>, a: usize, b: usize) -> bool {
    got_size(h) && h.last()->Size_0 == file(h, a).file_size_bytes + file(h, b).file_size_bytes
}

/// There are this many namespaces.
pub open spec fn namespace_count(h: Seq<Reply>, count: usize) -> bool {
    got_namespaces(h) && h.last()->Namespaces_0@.len() == count
}

/// The table is the one of step `j`.
pub open spec fn same_table(h: Seq<Reply>, j: usize) -> bool {
    got_table(h) && h.last()->Table_0@ == table(h, j)
}

/// The table is new: it has a valid id and the default template.
pub open spec fn fresh_table(h: Seq<Reply>, defaults: usize) -> bool {
    &&& got_table(h)
    &&& h.last()->Table_0.id > 0
    &&& h.last()->Table_0@.partition_template == expect::defaults(h, defaults).table_template
}

/// The table has the template of step `k`.
pub open spec fn table_has_template(h: Seq<Reply>, k: usize) -> bool {
    got_table(h) && h.last()->Table_0@.partition_template == template(h, k)
}

/// The table of step `j` has the template that the last reply is.
pub open spec fn is_template_of(h: Seq<Reply>, j: usize) -> bool {
    got_template(h) && table(h, j).partition_template == h.last()->Template_0@
}

/// The table has another id than the one of step `j` and belongs to the namespace of step `k`.
pub open spec fn other_table_in(h: Seq<Reply>, j: usize, k: usize) -> bool {
    &&& got_table(h)
    &&& h.last()->Table_0.id != table(h, j).id
    &&& h.last()->Table_0.namespace_id == namespace(h, k).id
}

/// The table belongs to the namespace of step `k`.
pub open spec fn table_in(h: Seq<Reply>, k: usize) -> bool {
    got_table(h) && h.last()->Table_0.namespace_id == namespace(h, k).id
}

/// There is one table, the one of step `j`.
pub open spec fn only_table(h: Seq<Reply>, j: usize) -> bool {
    got_tables(h) && views(h.last()->Tables_0@) == seq![table(h, j)]
}

/// There are no tables.
pub open spec fn no_tables(h: Seq<Reply>) -> bool {
    got_tables(h) && h.last()->Tables_0@.len() == 0
}

/// In the order of their ids, the tables are those of steps `a`, `b` and `c`.
pub open spec fn three_tables(h: Seq<Reply>, a: usize, b: usize, c: usize) -> bool {
    got_tables(h) && same_by_id(
        views(h.last()->Tables_0@),
        seq![table(h, a), table(h, b), table(h, c)],
    )
}

/// The snapshots of steps `a` and `b` are of the same namespace.
pub open spec fn same_snapshot_namespace(h: Seq<Reply>, a: usize, b: usize) -> bool {
    &&& namespace_snapshot(h, a).namespace is Some
    &&& namespace_snapshot(h, a).namespace == namespace_snapshot(h, b).namespace
}

/// The request was refused because there is such a table in the namespace, whose id is shown by
/// step `k`.
pub open spec fn refused_twice_in(h: Seq<Reply>, k: usize) -> bool {
    refused_about(h, ErrorKind::AlreadyExists, "table 'test_table' in namespace "@ + text(h, k))
}

/// The table of step `k`, which was created with one partition, belongs to the namespace of step
/// `j`.
pub open spec fn set_up_in(h: Seq<Reply>, j: usize) -> bool {
    got_table_and_partition(h) && h.last()->TableAndPartition_0.namespace_id == namespace(h, j).id
}

/// Reply `k` is a table with its only partition.
pub open spec fn is_table_and_partition(h: Seq<Reply>, k: usize) -> bool {
    k < h.len() && h[k as int] is TableAndPartition
}

/// The last reply is a table with its only partition.
pub open spec fn got_table_and_partition(h: Seq<Reply>) -> bool {
    h.len() > 0 && h.last() is TableAndPartition
}

/// The table of reply `k`, where it is a table with its only partition.
pub open spec fn new_table(h: Seq<Reply>, k: usize) -> TableView {
    h[k as int]->TableAndPartition_0@
}

/// The partition of reply `k`, where it is a table with its only partition.
pub open spec fn new_partition(h: Seq<Reply>, k: usize) -> PartitionView {
    h[k as int]->TableAndPartition_1@
}

/// The last reply tells one size.
pub open spec fn only_size(h: Seq<Reply>, size: i64) -> bool {
    got_sizes(h) && h.last()->Sizes_0@ == seq![size]
}

/// The last reply tells two sizes.
pub open spec fn two_sizes(h: Seq<Reply>, first: i64, second: i64) -> bool {
    got_sizes(h) && h.last()->Sizes_0@ == seq![first, second]
}

/// The column is the one of step `j`.
pub open spec fn same_column(h: Seq<Reply>, j: usize) -> bool {
    got_column(h) && h.last()->Column_0@ == column(h, j)
}

/// The column is another than the one of step `j`.
pub open spec fn other_column(h: Seq<Reply>, j: usize) -> bool {
    got_column(h) && h.last()->Column_0@ != column(h, j)
}

/// There are no columns.
pub open spec fn no_columns(h: Seq<Reply>) -> bool {
    got_columns(h) && h.last()->Columns_0@.len() == 0
}

/// There is one column, the one of step `a`.
pub open spec fn only_column(h: Seq<Reply>, a: usize) -> bool {
    got_columns(h) && views(h.last()->Columns_0@) == seq![column(h, a)]
}

/// The columns of step `k` are those of steps `a` and `b`.
pub open spec fn were_two_columns(h: Seq<Reply>, k: usize, a: usize, b: usize) -> bool {
    columns(h, k) == seq![column(h, a), column(h, b)]
}

/// The columns are those of steps `a`, `b` and `c`.
pub open spec fn three_columns(h: Seq<Reply>, a: usize, b: usize, c: usize) -> bool {
    got_columns(h) && views(h.last()->Columns_0@) == seq![column(h, a), column(h, b), column(h, c)]
}

/// There are this many columns.
pub open spec fn column_count(h: Seq<Reply>, count: usize) -> bool {
    got_columns(h) && h.last()->Columns_0@.len() == count
}

/// There are two columns, one of each name.
pub open spec fn columns_named(h: Seq<Reply>, a: Seq<char>, b: Seq<char>) -> bool {
    got_columns(h) && {
        let list = views(h.last()->Columns_0@);
        &&& list.len() == 2
        &&& (list[0].name == a && list[1].name == b) || (list[0].name == b && list[1].name == a)
    }
}

/// All columns are tags.
pub open spec fn all_tags(h: Seq<Reply>) -> bool {
    got_columns(h) && forall|i: int|
        0 <= i < h.last()->Columns_0@.len() ==> (#[trigger] h.last()->Columns_0@[i]).column_type
            == ColumnType::Tag
}

/// The table of a snapshot, where it can be decoded.
pub open spec fn snapshot_table(s: TableSnapshotView) -> TableView {
    s.table->0
}

/// The namespace of a snapshot, where it can be decoded.
pub open spec fn snapshot_namespace(s: NamespaceSnapshotView) -> NamespaceView {
    s.namespace->0
}

/// The files are those of the snapshot, in any order.
pub open spec fn files_match(h: Seq<Reply>, s: PartitionSnapshotView) -> bool {
    &&& got_files(h)
    &&& s.files is Some
    &&& same_by_id(views(h.last()->Files_0@), s.files->0)
}

/// The first skipped compaction, or the lack of one, is that of the snapshot.
pub open spec fn skipped_matches(h: Seq<Reply>, s: PartitionSnapshotView) -> bool {
    got_skipped_list(h) && {
        let list = views(h.last()->SkippedList_0@);
        s.skipped_compaction == if list.len() == 0 {
            None
        } else {
            Some(list[0])
        }
    }
}

/// The partition is that of the snapshot.
pub open spec fn partition_matches(h: Seq<Reply>, s: PartitionSnapshotView) -> bool {
    got_partition(h) && s.partition == Some(h.last()->Partition_0@)
}

/// The table is that of the snapshot.
pub open spec fn table_matches(h: Seq<Reply>, s: TableSnapshotView) -> bool {
    got_table(h) && h.last()->Table_0@ == snapshot_table(s)
}

/// The columns are those of the snapshot, in any order.
pub open spec fn columns_match(h: Seq<Reply>, s: TableSnapshotView) -> bool {
    &&& got_columns(h)
    &&& s.columns is Some
    &&& same_by_id(views(h.last()->Columns_0@), s.columns->0)
}

/// An entry of a snapshot has this id and this name.
pub open spec fn is_entry_of(e: EntryView, id: i64, name: Seq<char>) -> bool {
    e.id == id && e.name == encode_utf8(name)
}

/// In the order of their ids, the partitions have the ids and keys of the snapshot's.
pub open spec fn partitions_match(h: Seq<Reply>, s: TableSnapshotView) -> bool {
    got_partitions(h) && s.partitions is Some && {
        let wanted = sorted_by_id(views(h.last()->Partitions_0@));
        let entries = sorted_by_id(s.partitions->0);
        &&& wanted.len() == entries.len()
        &&& forall|i: int|
            0 <= i < wanted.len() ==> is_entry_of(
                #[trigger] entries[i],
                wanted[i].id,
                wanted[i].partition_key,
            )
    }
}

/// The namespace is that of the snapshot.
pub open spec fn namespace_matches(h: Seq<Reply>, s: NamespaceSnapshotView) -> bool {
    got_namespace(h) && h.last()->Namespace_0@ == snapshot_namespace(s)
}

/// There are as many tables as in the snapshot.
pub open spec fn tables_match(h: Seq<Reply>, s: NamespaceSnapshotView) -> bool {
    got_tables(h) && s.tables is Some && h.last()->Tables_0@.len() == s.tables->0
}

/// There are as many namespaces as in the snapshot.
pub open spec fn namespaces_match(h: Seq<Reply>, s: RootSnapshotView) -> bool {
    got_namespaces(h) && s.namespaces is Some && h.last()->Namespaces_0@.len() == s.namespaces->0
}

/// The `i`-th of the tables of step `k`, in the order of their ids.
pub open spec fn nth_table(h: Seq<Reply>, k: usize, i: int) -> TableView {
    sorted_by_id(tables(h, k))[i]
}

/// The `i`-th of the namespaces of step `k`, in the order of their ids.
pub open spec fn nth_namespace(h: Seq<Reply>, k: usize, i: int) -> NamespaceView {
    sorted_by_id(namespaces(h, k))[i]
}

/// The entry is that of the `i`-th of the tables of step `k`.
pub open spec fn entry_of_table(h: Seq<Reply>, k: usize, i: int) -> bool {
    got_entry(h) && is_entry_of(h.last()->Entry_0@, nth_table(h, k, i).id, nth_table(h, k, i).name)
}

/// The entry is that of the `i`-th of the namespaces of step `k`.
pub open spec fn entry_of_namespace(h: Seq<Reply>, k: usize, i: int) -> bool {
    got_entry(h) && is_entry_of(
        h.last()->Entry_0@,
        nth_namespace(h, k, i).id,
        nth_namespace(h, k, i).name,
    )
}

/// The partition is the one of step `j`.
pub open spec fn same_partition(h: Seq<Reply>, j: usize) -> bool {
    got_partition(h) && h.last()->Partition_0@ == partition(h, j)
}

/// The partition of step `k` has no sort key.
pub open spec fn unsorted(h: Seq<Reply>, k: usize) -> bool {
    partition(h, k).sort_key_ids is None
}

/// There are no partitions.
pub open spec fn no_partitions(h: Seq<Reply>) -> bool {
    got_partitions(h) && h.last()->Partitions_0@.len() == 0
}

/// The first of the partitions is the one of step `j`.
pub open spec fn first_is_partition(h: Seq<Reply>, j: usize) -> bool {
    &&& got_partitions(h)
    &&& h.last()->Partitions_0@.len() > 0
    &&& h.last()->Partitions_0@[0]@ == partition(h, j)
}

/// The first of the partitions has this sort key.
pub open spec fn first_has_sort_key(h: Seq<Reply>, key: Seq<i64>) -> bool {
    &&& got_partitions(h)
    &&& h.last()->Partitions_0@.len() > 0
    &&& h.last()->Partitions_0@[0]@.sort_key_ids == Some(key)
}

/// The partition has this sort key.
pub open spec fn has_sort_key(h: Seq<Reply>, key: Seq<i64>) -> bool {
    got_partition(h) && h.last()->Partition_0@.sort_key_ids == Some(key)
}

/// The sort key was not replaced, because it is this one.
pub open spec fn kept_sort_key(h: Seq<Reply>, key: Seq<i64>) -> bool {
    got_mismatch(h) && h.last()->CasMismatch_0@ == key
}

/// None of the partitions has a sort key.
pub open spec fn all_unsorted(h: Seq<Reply>) -> bool {
    got_partitions(h) && forall|i: int|
        0 <= i < h.last()->Partitions_0@.len() ==> (
        #[trigger] h.last()->Partitions_0@[i])@.sort_key_ids is None
}

/// None of the partitions that are left, where of those with the same id the last one is, has a
/// sort key.
pub open spec fn all_mapped_unsorted(h: Seq<Reply>) -> bool {
    got_partitions(h) && {
        let list = latest_by_id(views(h.last()->Partitions_0@));
        forall|i: int| 0 <= i < list.len() ==> (#[trigger] list[i]).sort_key_ids is None
    }
}

/// The partitions of steps `a` to `d` by their ids: where two have the same id, the later one.
pub open spec fn four_partitions(
    h: Seq<Reply>,
    a: usize,
    b: usize,
    c: usize,
    d: usize,
) -> Seq<PartitionView> {
    latest_by_id(seq![partition(h, a), partition(h, b), partition(h, c), partition(h, d)])
}

/// The ids of partitions.
pub open spec fn ids_of(list: Seq<PartitionView>) -> Seq<i64> {
    list.map_values(|p: PartitionView| p.id)
}

/// In the order of their ids, the partitions are those of steps `a` to `d`.
pub open spec fn are_four_partitions(
    h: Seq<Reply>,
    a: usize,
    b: usize,
    c: usize,
    d: usize,
) -> bool {
    got_partitions(h) && sorted_by_id(views(h.last()->Partitions_0@)) == four_partitions(
        h,
        a,
        b,
        c,
        d,
    )
}

/// By their ids, the partitions are those of steps `a` to `d`.
pub open spec fn map_to_four_partitions(
    h: Seq<Reply>,
    a: usize,
    b: usize,
    c: usize,
    d: usize,
) -> bool {
    got_partitions(h) && latest_by_id(views(h.last()->Partitions_0@)) == four_partitions(
        h,
        a,
        b,
        c,
        d,
    )
}

/// The ids are those of the partitions of steps `a` to `d`.
pub open spec fn ids_of_four_partitions(
    h: Seq<Reply>,
    a: usize,
    b: usize,
    c: usize,
    d: usize,
) -> bool {
    got_ids(h) && h.last()->Ids_0@.to_set() == ids_of(four_partitions(h, a, b, c, d)).to_set()
}

/// The ids of the partitions of steps `a` to `d`, then an id that none has, then the ids again.
pub open spec fn ids_twice(h: Seq<Reply>, a: usize, b: usize, c: usize, d: usize) -> Seq<i64> {
    let ids = ids_of(four_partitions(h, a, b, c, d));
    ids + seq![i64::MAX] + ids
}

/// A skipped compaction is of the partition of step `k`, for this reason.
pub open spec fn skips(
    h: Seq<Reply>,
    s: SkippedCompactionView,
    k: usize,
    reason: Seq<char>,
) -> bool {
    s.partition_id == partition(h, k).id && s.reason == reason
}

/// A skipped compaction has these numbers of files and bytes, each with its limit.
pub open spec fn skips_with(
    s: SkippedCompactionView,
    num_files: i64,
    limit_num_files: i64,
    estimated_bytes: i64,
    limit_bytes: i64,
) -> bool {
    &&& s.num_files == num_files
    &&& s.limit_num_files == limit_num_files
    &&& s.estimated_bytes == estimated_bytes
    &&& s.limit_bytes == limit_bytes
}

/// There are no skipped compactions.
pub open spec fn none_skipped(h: Seq<Reply>) -> bool {
    got_skipped_list(h) && h.last()->SkippedList_0@.len() == 0
}

/// One compaction was skipped, that of the partition of step `k`.
pub open spec fn only_skipped(
    h: Seq<Reply>,
    k: usize,
    reason: Seq<char>,
    num_files: i64,
    limit_num_files: i64,
    estimated_bytes: i64,
    limit_bytes: i64,
) -> bool {
    got_skipped_list(h) && {
        let list = h.last()->SkippedList_0@;
        &&& list.len() == 1
        &&& skips(h, list[0]@, k, reason)
        &&& skips_with(list[0]@, num_files, limit_num_files, estimated_bytes, limit_bytes)
    }
}

/// The first skipped compaction is that of the partition of step `k`.
pub open spec fn first_skipped(h: Seq<Reply>, k: usize, reason: Seq<char>) -> bool {
    got_skipped_list(h) && {
        let list = h.last()->SkippedList_0@;
        list.len() > 0 && skips(h, list[0]@, k, reason)
    }
}

/// Two compactions were skipped, those of the partitions of steps `a` and `b`.
pub open spec fn two_skipped(h: Seq<Reply>, a: usize, b: usize) -> bool {
    got_skipped_list(h) && {
        let list = h.last()->SkippedList_0@;
        &&& list.len() == 2
        &&& list[0].partition_id == partition(h, a).id
        &&& list[1].partition_id == partition(h, b).id
    }
}

/// One compaction was skipped.
pub open spec fn one_skipped(h: Seq<Reply>) -> bool {
    got_skipped_list(h) && h.last()->SkippedList_0@.len() == 1
}

/// One compaction was skipped, that of the partition of step `k`.
pub open spec fn one_skipped_of(h: Seq<Reply>, k: usize) -> bool {
    one_skipped(h) && h.last()->SkippedList_0@[0].partition_id == partition(h, k).id
}

/// The partitions of skipped compactions.
pub open spec fn skipped_ids(list: Seq<SkippedCompactionView>) -> Seq<i64> {
    list.map_values(|s: SkippedCompactionView| s.partition_id)
}

/// Compactions of the partitions of steps `a` and `b` were skipped, and of no others.
pub open spec fn skipped_both(h: Seq<Reply>, a: usize, b: usize) -> bool {
    got_skipped_list(h) && skipped_ids(views(h.last()->SkippedList_0@)).to_set() == seq![
        partition(h, a).id,
        partition(h, b).id,
    ].to_set()
}

/// The skipped compaction is that of the partition of step `k`, for this reason.
pub open spec fn was_skipped(h: Seq<Reply>, k: usize, reason: Seq<char>) -> bool {
    got_skipped(h) && skips(h, h.last()->Skipped_0@, k, reason)
}

/// The skipped compaction has these numbers of files and bytes, each with its limit.
pub open spec fn was_skipped_with(
    h: Seq<Reply>,
    num_files: i64,
    limit_num_files: i64,
    estimated_bytes: i64,
    limit_bytes: i64,
) -> bool {
    got_skipped(h) && skips_with(
        h.last()->Skipped_0@,
        num_files,
        limit_num_files,
        estimated_bytes,
        limit_bytes,
    )
}

/// There are this many partitions.
pub open spec fn partition_count(h: Seq<Reply>, count: usize) -> bool {
    got_partitions(h) && h.last()->Partitions_0@.len() == count
}

/// There are four partitions; the first two have these sort keys, and the others have none.
pub open spec fn sorted_first(h: Seq<Reply>, first: Seq<i64>, second: Seq<i64>) -> bool {
    partition_count(h, 4) && {
        let list = h.last()->Partitions_0@;
        &&& list[0]@.sort_key_ids == Some(first)
        &&& list[1]@.sort_key_ids == Some(second)
        &&& list[2]@.sort_key_ids is None
        &&& list[3]@.sort_key_ids is None
    }
}

/// The first two partitions are those of steps `a` and `b`, as their ids show.
pub open spec fn most_recent_are(h: Seq<Reply>, a: usize, b: usize) -> bool {
    got_partitions(h) && {
        let list = h.last()->Partitions_0@;
        &&& list.len() >= 2
        &&& list[0].id == partition(h, a).id
        &&& list[1].id == partition(h, b).id
    }
}

/// The time of step `k` can be moved by `by` nanoseconds.
pub open spec fn shifts_by(h: Seq<Reply>, k: usize, by: i64) -> bool {
    i64::MIN <= time(h, k) + by <= i64::MAX
}

/// The time of step `k`, moved by `by` nanoseconds.
pub open spec fn shifted(h: Seq<Reply>, k: usize, by: i64) -> i64 {
    (time(h, k) + by) as i64
}

/// The file is the one of step `j`.
pub open spec fn same_file(h: Seq<Reply>, j: usize) -> bool {
    got_file(h) && h.last()->File_0@ == file(h, j)
}

/// There are this many files.
pub open spec fn file_count(h: Seq<Reply>, count: usize) -> bool {
    got_files(h) && h.last()->Files_0@.len() == count
}

/// There is one file, the one of step `a`.
pub open spec fn only_file(h: Seq<Reply>, a: usize) -> bool {
    got_files(h) && views(h.last()->Files_0@) == seq![file(h, a)]
}

/// The files are those of steps `a` and `b`.
pub open spec fn two_files(h: Seq<Reply>, a: usize, b: usize) -> bool {
    got_files(h) && views(h.last()->Files_0@) == seq![file(h, a), file(h, b)]
}

/// The files are those of steps `a`, `b` and `c`.
pub open spec fn three_files(h: Seq<Reply>, a: usize, b: usize, c: usize) -> bool {
    got_files(h) && views(h.last()->Files_0@) == seq![file(h, a), file(h, b), file(h, c)]
}

/// There are this many files, all of this level.
pub open spec fn files_of_level(h: Seq<Reply>, level: CompactionLevel, count: usize) -> bool {
    file_count(h, count) && forall|i: int|
        0 <= i < h.last()->Files_0@.len() ==> (#[trigger] h.last()->Files_0@[i]).compaction_level
            == level
}

/// There is an id ten after that of the file of step `b`, which the file of step `a` does not have.
pub open spec fn spare_id(h: Seq<Reply>, a: usize, b: usize) -> bool {
    &&& file(h, b).id + 10 <= i64::MAX
    &&& file(h, a).id != file(h, b).id + 10
}

/// The file of step `k` is not marked for deletion.
pub open spec fn was_unmarked(h: Seq<Reply>, k: usize) -> bool {
    file(h, k).to_delete is None
}

/// The file is marked for deletion.
pub open spec fn marked(h: Seq<Reply>) -> bool {
    got_file(h) && h.last()->File_0.to_delete is Some
}

/// The file is not marked for deletion.
pub open spec fn unmarked(h: Seq<Reply>) -> bool {
    got_file(h) && h.last()->File_0.to_delete is None
}

/// The file has this level.
pub open spec fn has_level(h: Seq<Reply>, level: CompactionLevel) -> bool {
    got_file(h) && h.last()->File_0.compaction_level == level
}

/// The file has this source.
pub open spec fn has_source(h: Seq<Reply>, source: Option<ParquetFileSource>) -> bool {
    got_file(h) && h.last()->File_0.source == source
}

/// The file was added when the file of step `k` was marked for deletion.
pub open spec fn created_when_marked(h: Seq<Reply>, k: usize) -> bool {
    got_file(h) && file(h, k).to_delete == Some(h.last()->File_0.created_at)
}

/// The last reply counts this many.
pub open spec fn count_is(h: Seq<Reply>, count: u64) -> bool {
    got_count(h) && h.last()->Count_0 == count
}

/// There are this many ids.
pub open spec fn id_count(h: Seq<Reply>, count: usize) -> bool {
    got_ids(h) && h.last()->Ids_0@.len() == count
}

/// There are this many files with their partitions.
pub open spec fn located_count(h: Seq<Reply>, count: usize) -> bool {
    got_located(h) && h.last()->Located_0@.len() == count
}

/// There is more than one file with its partition.
pub open spec fn several_located(h: Seq<Reply>) -> bool {
    got_located(h) && h.last()->Located_0@.len() > 1
}

/// The ids in the object store are these two, in any order.
pub open spec fn uuids_are(h: Seq<Reply>, a: u128, b: u128) -> bool {
    got_uuids(h) && h.last()->ObjectStoreIds_0@.to_multiset() == seq![a, b].to_multiset()
}

/// The ids in the object store, with their partitions, are these three, in any order.
pub open spec fn located_are(
    h: Seq<Reply>,
    a: (i64, u128),
    b: (i64, u128),
    c: (i64, u128),
) -> bool {
    got_located(h) && h.last()->Located_0@.to_multiset() == seq![a, b, c].to_multiset()
}

/// The first of the files of step `k`.
pub open spec fn first_file(h: Seq<Reply>, k: usize) -> ParquetFileView {
    files(h, k)[0]
}

/// There are `count` files, and they were compacted from files created at times `0`, `1`, and so
/// on.
pub open spec fn oldest_files(h: Seq<Reply>, count: int) -> bool {
    got_files(h) && {
        let list = h.last()->Files_0@;
        &&& list.len() == count
        &&& forall|i: int| 0 <= i < list.len() ==> (#[trigger] list[i]).max_l0_created_at == i
    }
}

/// The file has this id in the object store.
pub open spec fn file_has_id(h: Seq<Reply>, object_store_id: u128) -> bool {
    got_file(h) && h.last()->File_0.object_store_id == object_store_id
}

/// There is one id, that of the partition of step `a`.
pub open spec fn only_id(h: Seq<Reply>, a: usize) -> bool {
    got_ids(h) && h.last()->Ids_0@ == seq![partition(h, a).id]
}

/// In their order, the ids are those of the partitions of steps `a` and `b`.
pub open spec fn sorted_ids_are(h: Seq<Reply>, a: usize, b: usize) -> bool {
    got_ids(h) && sorted_by_id(h.last()->Ids_0@) == seq![partition(h, a).id, partition(h, b).id]
}

/// There is a time right after the file of step `k` was added.
pub open spec fn has_next_time(h: Seq<Reply>, k: usize) -> bool {
    file(h, k).created_at < i64::MAX
}

/// The time right after the file of step `k` was added.
pub open spec fn next_time(h: Seq<Reply>, k: usize) -> i64 {
    (file(h, k).created_at + 1) as i64
}

/// There is one file with its partition, that of step `k`'s parameters.
pub open spec fn only_located(h: Seq<Reply>, k: usize) -> bool {
    got_located(h) && h.last()->Located_0@ == seq![
        (params(h, k).partition_id, params(h, k).object_store_id),
    ]
}

/// The files have these two ids in the object store, in any order.
pub open spec fn file_ids_are(h: Seq<Reply>, a: u128, b: u128) -> bool {
    got_files(h) && file_ids(views(h.last()->Files_0@)).to_multiset() == seq![a, b].to_multiset()
}

/// The ids in the object store of files.
pub open spec fn file_ids(list: Seq<ParquetFileView>) -> Seq<u128> {
    list.map_values(|f: ParquetFileView| f.object_store_id)
}

/// There is at least one partition.
pub open spec fn some_partition(h: Seq<Reply>) -> bool {
    got_partitions(h) && h.last()->Partitions_0@.len() > 0
}

/// The partitions that were removed, in the order of their ids.
pub open spec fn removed_are(h: Seq<Reply>, ids: Seq<i64>) -> bool {
    got_retired(h) && sorted_by_id(seconds(h.last()->Retired_0@)) == ids
}

/// The second ids of pairs.
pub open spec fn seconds(list: Seq<(i64, i64)>) -> Seq<i64> {
    list.map_values(|p: (i64, i64)| p.1)
}

/// The ids, in their order, are these.
pub open spec fn remaining_are(h: Seq<Reply>, ids: Seq<i64>) -> bool {
    got_ids(h) && sorted_by_id(h.last()->Ids_0@) == ids
}

/// The partition has the hash of step `k`, and no sort key.
pub open spec fn hashed_unsorted(h: Seq<Reply>, k: usize) -> bool {
    &&& got_partition(h)
    &&& h.last()->Partition_0@.hash_id == Some(bytes(h, k))
    &&& h.last()->Partition_0@.sort_key_ids is None
}

/// There is one partition, with the hash of step `k` and no sort key.
pub open spec fn only_hashed_unsorted(h: Seq<Reply>, k: usize) -> bool {
    partition_count(h, 1) && {
        let p = h.last()->Partitions_0@[0]@;
        p.hash_id == Some(bytes(h, k)) && p.sort_key_ids is None
    }
}

/// The namespace of step `k` is listed with its schema.
pub open spec fn lists(h: Seq<Reply>, k: usize) -> bool {
    got_schemas(h) && views(h.last()->Schemas_0@).contains(populated(h, k))
}

/// The namespace of step `k` is not listed with its schema.
pub open spec fn lists_not(h: Seq<Reply>, k: usize) -> bool {
    got_schemas(h) && !views(h.last()->Schemas_0@).contains(populated(h, k))
}

/// The metrics tell of successful calls of an operation.
pub open spec fn hit(h: Seq<Reply>, operation: Seq<char>) -> bool {
    got_metrics(h) && metric_hit(views(h.last()->Metrics_0@), operation) is Ok
}

/// The second of the minute is at most one away from that of step `k`.
pub open spec fn near(h: Seq<Reply>, k: usize) -> bool {
    &&& got_second(h)
    &&& h.last()->Second_0 <= second(h, k) + 1
    &&& second(h, k) <= h.last()->Second_0 + 1
}

/// There are this many samples.
pub open spec fn samples_are(h: Seq<Reply>, count: u64) -> bool {
    got_samples(h) && h.last()->Samples_0 == count
}

/// The columns that are asked for, by name: of those with the same name the last.
pub open spec fn requested_types(requested: Seq<(Seq<char>, ColumnType)>) -> Map<
    Seq<char>,
    ColumnType,
>
    decreases requested.len(),
{
    if requested.len() == 0 {
        Map::empty()
    } else {
        requested_types(requested.drop_last()).insert(requested.last().0, requested.last().1)
    }
}

/// No two columns have the same name.
pub open spec fn names_distinct(list: Seq<ColumnView>) -> bool {
    forall|i: int, j: int| 0 <= i < j < list.len() ==> (#[trigger] list[i]).name != (
    #[trigger] list[j]).name
}

/// The columns are those that were asked for, each name once and with its type, and in the table of
/// step `k`.
pub open spec fn as_requested(
    h: Seq<Reply>,
    k: usize,
    requested: Seq<(Seq<char>, ColumnType)>,
) -> bool {
    got_columns(h) && {
        let list = views(h.last()->Columns_0@);
        let types = requested_types(requested);
        &&& list.len() == types.len()
        &&& names_distinct(list)
        &&& forall|i: int|
            0 <= i < list.len() ==> (#[trigger] list[i]).table_id == table(h, k).id
                && types.contains_pair(list[i].name, list[i].column_type)
    }
}

} // verus!
