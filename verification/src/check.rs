//! The checks of [`crate::expect`], carried out.
use crate::check;
use crate::expect;
use crate::metrics::assert_metric_hit;
use crate::order::{assert_ge, assert_gt};
use crate::reply::Reply;
use crate::request::column_views;
use crate::same::{
    list_contains, same_bytes, same_elements, same_ints, same_refs, same_set, views, Same,
};
use crate::sorting::{
    check_same_by_id, keep_latest_by_id, latest_by_id, law_sorting_rearranges, refs, sort_by_id,
    sorted_by_id,
};
use crate::text::{assert_string_set_eq, contains_text, is_before, is_utf8_of, text_eq};
use crate::types::{
    Batch, Column, ColumnType, ColumnView, CompactionLevel, Defaults, Entry, ErrorKind, Namespace,
    NamespaceSchema, NamespaceSnapshot, ParquetFile, ParquetFileParams, ParquetFileSource,
    Partition, PartitionSnapshot, Populated, RootSnapshot, SkippedCompaction, Table, TableSnapshot,
    Template,
};
use vstd::prelude::*;

verus! {

/// Whether the last reply tells that the request was refused.
pub fn got_error(h: &Vec<Reply>) -> (b: bool)
    ensures
        b == expect::got_error(h@),
{
    h.len() > 0 && matches!(&h[h.len() - 1], Reply::Failed(_))
}

/// What reply `k` holds, where it is a namespace.
pub fn namespace<'a>(h: &'a Vec<Reply>, k: usize) -> (r: &'a Namespace)
    requires
        expect::is_namespace(h@, k),
    ensures
        r@ == expect::namespace(h@, k),
        *r == h@[k as int]->Namespace_0,
{
    match &h[k] {
        Reply::Namespace(x) => x,
        _ => vstd::pervasive::unreached(),
    }
}

/// Whether the last reply is a namespace.
pub fn got_namespace(h: &Vec<Reply>) -> (b: bool)
    ensures
        b == expect::got_namespace(h@),
{
    h.len() > 0 && matches!(&h[h.len() - 1], Reply::Namespace(_))
}

/// What reply `k` holds, where it is a table.
pub fn table<'a>(h: &'a Vec<Reply>, k: usize) -> (r: &'a Table)
    requires
        expect::is_table(h@, k),
    ensures
        r@ == expect::table(h@, k),
        *r == h@[k as int]->Table_0,
{
    match &h[k] {
        Reply::Table(x) => x,
        _ => vstd::pervasive::unreached(),
    }
}

/// Whether the last reply is a table.
pub fn got_table(h: &Vec<Reply>) -> (b: bool)
    ensures
        b == expect::got_table(h@),
{
    h.len() > 0 && matches!(&h[h.len() - 1], Reply::Table(_))
}

/// What reply `k` holds, where it is a column.
pub fn column<'a>(h: &'a Vec<Reply>, k: usize) -> (r: &'a Column)
    requires
        expect::is_column(h@, k),
    ensures
        r@ == expect::column(h@, k),
        *r == h@[k as int]->Column_0,
{
    match &h[k] {
        Reply::Column(x) => x,
        _ => vstd::pervasive::unreached(),
    }
}

/// Whether the last reply is a column.
pub fn got_column(h: &Vec<Reply>) -> (b: bool)
    ensures
        b == expect::got_column(h@),
{
    h.len() > 0 && matches!(&h[h.len() - 1], Reply::Column(_))
}

/// What reply `k` holds, where it is a partition.
pub fn partition<'a>(h: &'a Vec<Reply>, k: usize) -> (r: &'a Partition)
    requires
        expect::is_partition(h@, k),
    ensures
        r@ == expect::partition(h@, k),
        *r == h@[k as int]->Partition_0,
{
    match &h[k] {
        Reply::Partition(x) => x,
        _ => vstd::pervasive::unreached(),
    }
}

/// Whether the last reply is a partition.
pub fn got_partition(h: &Vec<Reply>) -> (b: bool)
    ensures
        b == expect::got_partition(h@),
{
    h.len() > 0 && matches!(&h[h.len() - 1], Reply::Partition(_))
}

/// What reply `k` holds, where it is a file.
pub fn file<'a>(h: &'a Vec<Reply>, k: usize) -> (r: &'a ParquetFile)
    requires
        expect::is_file(h@, k),
    ensures
        r@ == expect::file(h@, k),
        *r == h@[k as int]->File_0,
{
    match &h[k] {
        Reply::File(x) => x,
        _ => vstd::pervasive::unreached(),
    }
}

/// Whether the last reply is a file.
pub fn got_file(h: &Vec<Reply>) -> (b: bool)
    ensures
        b == expect::got_file(h@),
{
    h.len() > 0 && matches!(&h[h.len() - 1], Reply::File(_))
}

/// What reply `k` holds, where it is the parameters of a file.
pub fn params<'a>(h: &'a Vec<Reply>, k: usize) -> (r: &'a ParquetFileParams)
    requires
        expect::is_params(h@, k),
    ensures
        r@ == expect::params(h@, k),
        *r == h@[k as int]->Params_0,
{
    match &h[k] {
        Reply::Params(x) => x,
        _ => vstd::pervasive::unreached(),
    }
}

/// Whether the last reply is the parameters of a file.
pub fn got_params(h: &Vec<Reply>) -> (b: bool)
    ensures
        b == expect::got_params(h@),
{
    h.len() > 0 && matches!(&h[h.len() - 1], Reply::Params(_))
}

/// What reply `k` holds, where it is a partition template.
pub fn template<'a>(h: &'a Vec<Reply>, k: usize) -> (r: &'a Template)
    requires
        expect::is_template(h@, k),
    ensures
        r@ == expect::template(h@, k),
        *r == h@[k as int]->Template_0,
{
    match &h[k] {
        Reply::Template(x) => x,
        _ => vstd::pervasive::unreached(),
    }
}

/// Whether the last reply is a partition template.
pub fn got_template(h: &Vec<Reply>) -> (b: bool)
    ensures
        b == expect::got_template(h@),
{
    h.len() > 0 && matches!(&h[h.len() - 1], Reply::Template(_))
}

/// What reply `k` holds, where it is the defaults.
pub fn defaults<'a>(h: &'a Vec<Reply>, k: usize) -> (r: &'a Defaults)
    requires
        expect::is_defaults(h@, k),
    ensures
        r@ == expect::defaults(h@, k),
        *r == h@[k as int]->Defaults_0,
{
    match &h[k] {
        Reply::Defaults(x) => x,
        _ => vstd::pervasive::unreached(),
    }
}

/// Whether the last reply is the defaults.
pub fn got_defaults(h: &Vec<Reply>) -> (b: bool)
    ensures
        b == expect::got_defaults(h@),
{
    h.len() > 0 && matches!(&h[h.len() - 1], Reply::Defaults(_))
}

/// What reply `k` holds, where it is a snapshot of all namespaces.
pub fn root_snapshot<'a>(h: &'a Vec<Reply>, k: usize) -> (r: &'a RootSnapshot)
    requires
        expect::is_root_snapshot(h@, k),
    ensures
        r@ == expect::root_snapshot(h@, k),
        *r == h@[k as int]->RootSnapshot_0,
{
    match &h[k] {
        Reply::RootSnapshot(x) => x,
        _ => vstd::pervasive::unreached(),
    }
}

/// Whether the last reply is a snapshot of all namespaces.
pub fn got_root_snapshot(h: &Vec<Reply>) -> (b: bool)
    ensures
        b == expect::got_root_snapshot(h@),
{
    h.len() > 0 && matches!(&h[h.len() - 1], Reply::RootSnapshot(_))
}

/// What reply `k` holds, where it is a snapshot of a namespace.
pub fn namespace_snapshot<'a>(h: &'a Vec<Reply>, k: usize) -> (r: &'a NamespaceSnapshot)
    requires
        expect::is_namespace_snapshot(h@, k),
    ensures
        r@ == expect::namespace_snapshot(h@, k),
        *r == h@[k as int]->NamespaceSnapshot_0,
{
    match &h[k] {
        Reply::NamespaceSnapshot(x) => x,
        _ => vstd::pervasive::unreached(),
    }
}

/// Whether the last reply is a snapshot of a namespace.
pub fn got_namespace_snapshot(h: &Vec<Reply>) -> (b: bool)
    ensures
        b == expect::got_namespace_snapshot(h@),
{
    h.len() > 0 && matches!(&h[h.len() - 1], Reply::NamespaceSnapshot(_))
}

/// What reply `k` holds, where it is a snapshot of a table.
pub fn table_snapshot<'a>(h: &'a Vec<Reply>, k: usize) -> (r: &'a TableSnapshot)
    requires
        expect::is_table_snapshot(h@, k),
    ensures
        r@ == expect::table_snapshot(h@, k),
        *r == h@[k as int]->TableSnapshot_0,
{
    match &h[k] {
        Reply::TableSnapshot(x) => x,
        _ => vstd::pervasive::unreached(),
    }
}

/// Whether the last reply is a snapshot of a table.
pub fn got_table_snapshot(h: &Vec<Reply>) -> (b: bool)
    ensures
        b == expect::got_table_snapshot(h@),
{
    h.len() > 0 && matches!(&h[h.len() - 1], Reply::TableSnapshot(_))
}

/// What reply `k` holds, where it is a snapshot of a partition.
pub fn partition_snapshot<'a>(h: &'a Vec<Reply>, k: usize) -> (r: &'a PartitionSnapshot)
    requires
        expect::is_partition_snapshot(h@, k),
    ensures
        r@ == expect::partition_snapshot(h@, k),
        *r == h@[k as int]->PartitionSnapshot_0,
{
    match &h[k] {
        Reply::PartitionSnapshot(x) => x,
        _ => vstd::pervasive::unreached(),
    }
}

/// Whether the last reply is a snapshot of a partition.
pub fn got_partition_snapshot(h: &Vec<Reply>) -> (b: bool)
    ensures
        b == expect::got_partition_snapshot(h@),
{
    h.len() > 0 && matches!(&h[h.len() - 1], Reply::PartitionSnapshot(_))
}

/// What reply `k` holds, where it is a namespace with its schema.
pub fn populated<'a>(h: &'a Vec<Reply>, k: usize) -> (r: &'a Populated)
    requires
        expect::is_populated(h@, k),
    ensures
        r@ == expect::populated(h@, k),
        *r == h@[k as int]->Populated_0,
{
    match &h[k] {
        Reply::Populated(x) => x,
        _ => vstd::pervasive::unreached(),
    }
}

/// Whether the last reply is a namespace with its schema.
pub fn got_populated(h: &Vec<Reply>) -> (b: bool)
    ensures
        b == expect::got_populated(h@),
{
    h.len() > 0 && matches!(&h[h.len() - 1], Reply::Populated(_))
}

/// What reply `k` holds, where it is the schema of a namespace.
pub fn schema<'a>(h: &'a Vec<Reply>, k: usize) -> (r: &'a NamespaceSchema)
    requires
        expect::is_schema(h@, k),
    ensures
        r@ == expect::schema(h@, k),
        *r == h@[k as int]->Schema_0,
{
    match &h[k] {
        Reply::Schema(x) => x,
        _ => vstd::pervasive::unreached(),
    }
}

/// Whether the last reply is the schema of a namespace.
pub fn got_schema(h: &Vec<Reply>) -> (b: bool)
    ensures
        b == expect::got_schema(h@),
{
    h.len() > 0 && matches!(&h[h.len() - 1], Reply::Schema(_))
}

/// What reply `k` holds, where it is namespaces.
pub fn namespaces<'a>(h: &'a Vec<Reply>, k: usize) -> (r: &'a Vec<Namespace>)
    requires
        expect::is_namespaces(h@, k),
    ensures
        *r == h@[k as int]->Namespaces_0,
        views(r@) == expect::namespaces(h@, k),
{
    match &h[k] {
        Reply::Namespaces(x) => x,
        _ => vstd::pervasive::unreached(),
    }
}

/// Whether the last reply is namespaces.
pub fn got_namespaces(h: &Vec<Reply>) -> (b: bool)
    ensures
        b == expect::got_namespaces(h@),
{
    h.len() > 0 && matches!(&h[h.len() - 1], Reply::Namespaces(_))
}

/// What reply `k` holds, where it is tables.
pub fn tables<'a>(h: &'a Vec<Reply>, k: usize) -> (r: &'a Vec<Table>)
    requires
        expect::is_tables(h@, k),
    ensures
        *r == h@[k as int]->Tables_0,
        views(r@) == expect::tables(h@, k),
{
    match &h[k] {
        Reply::Tables(x) => x,
        _ => vstd::pervasive::unreached(),
    }
}

/// Whether the last reply is tables.
pub fn got_tables(h: &Vec<Reply>) -> (b: bool)
    ensures
        b == expect::got_tables(h@),
{
    h.len() > 0 && matches!(&h[h.len() - 1], Reply::Tables(_))
}

/// What reply `k` holds, where it is columns.
pub fn columns<'a>(h: &'a Vec<Reply>, k: usize) -> (r: &'a Vec<Column>)
    requires
        expect::is_columns(h@, k),
    ensures
        *r == h@[k as int]->Columns_0,
        views(r@) == expect::columns(h@, k),
{
    match &h[k] {
        Reply::Columns(x) => x,
        _ => vstd::pervasive::unreached(),
    }
}

/// Whether the last reply is columns.
pub fn got_columns(h: &Vec<Reply>) -> (b: bool)
    ensures
        b == expect::got_columns(h@),
{
    h.len() > 0 && matches!(&h[h.len() - 1], Reply::Columns(_))
}

/// What reply `k` holds, where it is partitions.
pub fn partitions<'a>(h: &'a Vec<Reply>, k: usize) -> (r: &'a Vec<Partition>)
    requires
        expect::is_partitions(h@, k),
    ensures
        *r == h@[k as int]->Partitions_0,
        views(r@) == expect::partitions(h@, k),
{
    match &h[k] {
        Reply::Partitions(x) => x,
        _ => vstd::pervasive::unreached(),
    }
}

/// Whether the last reply is partitions.
pub fn got_partitions(h: &Vec<Reply>) -> (b: bool)
    ensures
        b == expect::got_partitions(h@),
{
    h.len() > 0 && matches!(&h[h.len() - 1], Reply::Partitions(_))
}

/// What reply `k` holds, where it is files.
pub fn files<'a>(h: &'a Vec<Reply>, k: usize) -> (r: &'a Vec<ParquetFile>)
    requires
        expect::is_files(h@, k),
    ensures
        *r == h@[k as int]->Files_0,
        views(r@) == expect::files(h@, k),
{
    match &h[k] {
        Reply::Files(x) => x,
        _ => vstd::pervasive::unreached(),
    }
}

/// Whether the last reply is files.
pub fn got_files(h: &Vec<Reply>) -> (b: bool)
    ensures
        b == expect::got_files(h@),
{
    h.len() > 0 && matches!(&h[h.len() - 1], Reply::Files(_))
}

/// Whether the last reply is the schemas of tables.
pub fn got_table_schemas(h: &Vec<Reply>) -> (b: bool)
    ensures
        b == expect::got_table_schemas(h@),
{
    h.len() > 0 && matches!(&h[h.len() - 1], Reply::TableSchemas(_))
}

/// What reply `k` holds, where it is parsed batches.
pub fn batches<'a>(h: &'a Vec<Reply>, k: usize) -> (r: &'a Vec<Batch>)
    requires
        expect::is_batches(h@, k),
    ensures
        *r == h@[k as int]->Batches_0,
        views(r@) == expect::batches(h@, k),
{
    match &h[k] {
        Reply::Batches(x) => x,
        _ => vstd::pervasive::unreached(),
    }
}

/// Whether the last reply is parsed batches.
pub fn got_batches(h: &Vec<Reply>) -> (b: bool)
    ensures
        b == expect::got_batches(h@),
{
    h.len() > 0 && matches!(&h[h.len() - 1], Reply::Batches(_))
}

/// Whether the last reply is the id of what was changed.
pub fn got_id(h: &Vec<Reply>) -> (b: bool)
    ensures
        b == expect::got_id(h@),
{
    h.len() > 0 && matches!(&h[h.len() - 1], Reply::Id(_))
}

/// Whether the last reply is a size in bytes.
pub fn got_size(h: &Vec<Reply>) -> (b: bool)
    ensures
        b == expect::got_size(h@),
{
    h.len() > 0 && matches!(&h[h.len() - 1], Reply::Size(_))
}

/// What reply `k` holds, where it is a time in nanoseconds.
pub fn time(h: &Vec<Reply>, k: usize) -> (r: i64)
    requires
        expect::is_time(h@, k),
    ensures
        r == expect::time(h@, k),
{
    match &h[k] {
        Reply::Time(x) => *x,
        _ => vstd::pervasive::unreached(),
    }
}

/// Whether the last reply is a time in nanoseconds.
pub fn got_time(h: &Vec<Reply>) -> (b: bool)
    ensures
        b == expect::got_time(h@),
{
    h.len() > 0 && matches!(&h[h.len() - 1], Reply::Time(_))
}

/// What reply `k` holds, where it is the second of a minute.
pub fn second(h: &Vec<Reply>, k: usize) -> (r: u32)
    requires
        expect::is_second(h@, k),
    ensures
        r == expect::second(h@, k),
{
    match &h[k] {
        Reply::Second(x) => *x,
        _ => vstd::pervasive::unreached(),
    }
}

/// Whether the last reply is the second of a minute.
pub fn got_second(h: &Vec<Reply>) -> (b: bool)
    ensures
        b == expect::got_second(h@),
{
    h.len() > 0 && matches!(&h[h.len() - 1], Reply::Second(_))
}

/// What reply `k` holds, where it is a text.
pub fn text<'a>(h: &'a Vec<Reply>, k: usize) -> (r: &'a str)
    requires
        expect::is_text(h@, k),
    ensures
        r@ == expect::text(h@, k),
{
    match &h[k] {
        Reply::Text(x) => x.as_str(),
        _ => vstd::pervasive::unreached(),
    }
}

/// Whether the last reply is a text.
pub fn got_text(h: &Vec<Reply>) -> (b: bool)
    ensures
        b == expect::got_text(h@),
{
    h.len() > 0 && matches!(&h[h.len() - 1], Reply::Text(_))
}

/// What reply `k` holds, where it is bytes.
pub fn bytes<'a>(h: &'a Vec<Reply>, k: usize) -> (r: &'a Vec<u8>)
    requires
        expect::is_bytes(h@, k),
    ensures
        r@ == expect::bytes(h@, k),
        *r == h@[k as int]->Bytes_0,
{
    match &h[k] {
        Reply::Bytes(x) => x,
        _ => vstd::pervasive::unreached(),
    }
}

/// Whether the last reply is bytes.
pub fn got_bytes(h: &Vec<Reply>) -> (b: bool)
    ensures
        b == expect::got_bytes(h@),
{
    h.len() > 0 && matches!(&h[h.len() - 1], Reply::Bytes(_))
}

/// Whether the last reply is ids.
pub fn got_ids(h: &Vec<Reply>) -> (b: bool)
    ensures
        b == expect::got_ids(h@),
{
    h.len() > 0 && matches!(&h[h.len() - 1], Reply::Ids(_))
}

/// What reply `k` holds, where it is ids in the object store.
pub fn uuids<'a>(h: &'a Vec<Reply>, k: usize) -> (r: &'a Vec<u128>)
    requires
        expect::is_uuids(h@, k),
    ensures
        r@ == expect::uuids(h@, k),
        *r == h@[k as int]->ObjectStoreIds_0,
{
    match &h[k] {
        Reply::ObjectStoreIds(x) => x,
        _ => vstd::pervasive::unreached(),
    }
}

/// Whether the last reply tells that the request was carried out.
pub fn done(h: &Vec<Reply>) -> (b: bool)
    ensures
        b == expect::done(h@),
{
    h.len() > 0 && matches!(&h[h.len() - 1], Reply::Done)
}

/// Whether the last reply tells that there is no such thing.
pub fn nothing(h: &Vec<Reply>) -> (b: bool)
    ensures
        b == expect::nothing(h@),
{
    h.len() > 0 && matches!(&h[h.len() - 1], Reply::Nothing)
}

/// Whether the last reply tells that a scenario passed.
pub fn passed(h: &Vec<Reply>) -> (b: bool)
    ensures
        b == expect::passed(h@),
{
    h.len() > 0 && matches!(&h[h.len() - 1], Reply::Passed)
}

/// Whether the request was refused for a reason of this kind.
pub fn refused_with(h: &Vec<Reply>, kind: ErrorKind) -> (b: bool)
    ensures
        b == expect::refused_with(h@, kind),
{
    h.len() > 0 && match &h[h.len() - 1] {
        Reply::Failed(e) => e.kind == kind,
        _ => false,
    }
}

/// Whether the request was refused for a reason of this kind, in these words.
pub fn refused_about(h: &Vec<Reply>, kind: ErrorKind, descr: &str) -> (b: bool)
    ensures
        b == expect::refused_about(h@, kind, descr@),
{
    h.len() > 0 && match &h[h.len() - 1] {
        Reply::Failed(e) => e.kind == kind && text_eq(e.descr.as_str(), descr),
        _ => false,
    }
}

/// Whether the request was refused with a message in which these words stand.
pub fn refused_saying(h: &Vec<Reply>, words: &str) -> (b: bool)
    ensures
        b == expect::refused_saying(h@, words@),
{
    h.len() > 0 && match &h[h.len() - 1] {
        Reply::Failed(e) => contains_text(e.message.as_str(), words),
        _ => false,
    }
}

/// The generation of the snapshot that reply `k` is.
pub fn generation(h: &Vec<Reply>, k: usize) -> (g: u64)
    requires
        expect::is_snapshot(h@, k),
    ensures
        g == expect::generation(h@, k),
{
    match &h[k] {
        Reply::RootSnapshot(s) => s.generation,
        Reply::NamespaceSnapshot(s) => s.generation,
        Reply::TableSnapshot(s) => s.generation,
        Reply::PartitionSnapshot(s) => s.generation,
        _ => 0,
    }
}

/// Whether snapshot `a` is of a later generation than snapshot `b`.
pub fn newer(h: &Vec<Reply>, a: usize, b: usize) -> (r: bool)
    requires
        expect::is_snapshot(h@, a),
        expect::is_snapshot(h@, b),
    ensures
        r == expect::newer(h@, a, b),
{
    assert_gt(generation(h, a), generation(h, b)).is_ok()
}

/// Whether snapshot `a` is of the generation of snapshot `b` or of a later one.
pub fn not_older(h: &Vec<Reply>, a: usize, b: usize) -> (r: bool)
    requires
        expect::is_snapshot(h@, a),
        expect::is_snapshot(h@, b),
    ensures
        r == expect::not_older(h@, a, b),
{
    assert_ge(generation(h, a), generation(h, b)).is_ok()
}

/// Whether reply `k` is the text `text`.
pub fn text_is(h: &Vec<Reply>, k: usize, text: &str) -> (b: bool)
    requires
        expect::is_text(h@, k),
    ensures
        b == expect::text_is(h@, k, text@),
{
    text_eq(check::text(h, k), text)
}

/// The id in the object store that reply `k` is.
pub fn uuid(h: &Vec<Reply>, k: usize) -> (id: u128)
    requires
        expect::is_uuid(h@, k),
    ensures
        id == expect::uuid(h@, k),
{
    uuids(h, k)[0]
}

/// Whether the last reply is one id in the object store.
pub fn got_uuid(h: &Vec<Reply>) -> (b: bool)
    ensures
        b == expect::got_uuid(h@),
{
    drew(h, 1)
}

/// Whether the last reply is `count` ids in the object store.
pub fn drew(h: &Vec<Reply>, count: usize) -> (b: bool)
    ensures
        b == expect::drew(h@, count),
{
    h.len() > 0 && match &h[h.len() - 1] {
        Reply::ObjectStoreIds(ids) => ids.len() == count,
        _ => false,
    }
}

/// The namespace that the last reply is.
fn last_namespace(h: &Vec<Reply>) -> (r: Option<&Namespace>)
    ensures
        r is Some <==> expect::got_namespace(h@),
        r matches Some(ns) ==> *ns == h@.last()->Namespace_0,
{
    if h.len() == 0 {
        return None;
    }
    match &h[h.len() - 1] {
        Reply::Namespace(ns) => Some(ns),
        _ => None,
    }
}

/// The namespaces that the last reply is.
fn last_namespaces(h: &Vec<Reply>) -> (r: Option<&Vec<Namespace>>)
    ensures
        r is Some <==> expect::got_namespaces(h@),
        r matches Some(list) ==> *list == h@.last()->Namespaces_0,
{
    if h.len() == 0 {
        return None;
    }
    match &h[h.len() - 1] {
        Reply::Namespaces(list) => Some(list),
        _ => None,
    }
}

/// Whether the namespace is the one of step `j`.
pub fn same_namespace(h: &Vec<Reply>, j: usize) -> (b: bool)
    requires
        expect::is_namespace(h@, j),
    ensures
        b == expect::same_namespace(h@, j),
{
    match last_namespace(h) {
        Some(ns) => ns.same(namespace(h, j)),
        None => false,
    }
}

/// Whether the namespace is another than the one of step `j`.
pub fn other_namespace(h: &Vec<Reply>, j: usize) -> (b: bool)
    requires
        expect::is_namespace(h@, j),
    ensures
        b == expect::other_namespace(h@, j),
{
    match last_namespace(h) {
        Some(ns) => !ns.same(namespace(h, j)),
        None => false,
    }
}

/// Whether the namespace is new.
pub fn fresh_namespace(h: &Vec<Reply>, name: &str, defaults: usize) -> (b: bool)
    requires
        expect::is_defaults(h@, defaults),
    ensures
        b == expect::fresh_namespace(h@, name@, defaults),
{
    match last_namespace(h) {
        Some(ns) => ns.id > 0 && text_eq(ns.name.as_str(), name) && ns.partition_template.same(
            &check::defaults(h, defaults).namespace_template,
        ) && ns.router_version == 0,
        None => false,
    }
}

/// Whether the namespace of step `j` has the default limits.
pub fn has_default_limits(h: &Vec<Reply>, j: usize, defaults: usize) -> (b: bool)
    requires
        expect::is_namespace(h@, j),
        expect::is_defaults(h@, defaults),
    ensures
        b == expect::has_default_limits(h@, j, defaults),
{
    let ns: &Namespace = namespace(h, j);
    let d: &Defaults = check::defaults(h, defaults);
    ns.max_tables == d.max_tables && ns.max_columns_per_table == d.max_columns_per_table
}

/// Whether the namespace has the version that it has at step `j`, advanced `by` times.
pub fn version_follows(h: &Vec<Reply>, j: usize, by: i64) -> (b: bool)
    requires
        expect::is_namespace(h@, j),
    ensures
        b == expect::version_follows(h@, j, by),
{
    match last_namespace(h) {
        Some(ns) => match namespace(h, j).router_version.checked_add(by) {
            Some(version) => ns.router_version == version,
            None => false,
        },
        None => false,
    }
}

/// Whether the namespace has this version.
pub fn has_version(h: &Vec<Reply>, version: i64) -> (b: bool)
    ensures
        b == expect::has_version(h@, version),
{
    match last_namespace(h) {
        Some(ns) => ns.router_version == version,
        None => false,
    }
}

/// Whether the namespace may have this many tables.
pub fn has_table_limit(h: &Vec<Reply>, max_tables: i32) -> (b: bool)
    ensures
        b == expect::has_table_limit(h@, max_tables),
{
    match last_namespace(h) {
        Some(ns) => ns.max_tables == max_tables,
        None => false,
    }
}

/// Whether the tables of the namespace may have this many columns.
pub fn has_column_limit(h: &Vec<Reply>, max_columns: i32) -> (b: bool)
    ensures
        b == expect::has_column_limit(h@, max_columns),
{
    match last_namespace(h) {
        Some(ns) => ns.max_columns_per_table == max_columns,
        None => false,
    }
}

/// Whether the namespace keeps its data for this long.
pub fn has_retention(h: &Vec<Reply>, retention: Option<i64>) -> (b: bool)
    ensures
        b == expect::has_retention(h@, retention),
{
    match last_namespace(h) {
        Some(ns) => ns.retention_period_ns == retention,
        None => false,
    }
}

/// Whether the namespace has the template of step `k`.
pub fn has_template(h: &Vec<Reply>, k: usize) -> (b: bool)
    requires
        expect::is_template(h@, k),
    ensures
        b == expect::has_template(h@, k),
{
    match last_namespace(h) {
        Some(ns) => ns.partition_template.same(template(h, k)),
        None => false,
    }
}

/// Whether the namespace has this name.
pub fn is_named(h: &Vec<Reply>, name: &str) -> (b: bool)
    ensures
        b == expect::is_named(h@, name@),
{
    match last_namespace(h) {
        Some(ns) => text_eq(ns.name.as_str(), name),
        None => false,
    }
}

/// Whether the namespace is soft-deleted.
pub fn is_deleted(h: &Vec<Reply>) -> (b: bool)
    ensures
        b == expect::is_deleted(h@),
{
    match last_namespace(h) {
        Some(ns) => ns.deleted_at.is_some(),
        None => false,
    }
}

/// The names of the namespaces given.
fn names_of(list: &Vec<Namespace>) -> (names: Vec<String>)
    ensures
        names@.map_values(|s: String| s@) == expect::names_of(views(list@)),
{
    let mut names: Vec<String> = Vec::new();
    let mut i: usize = 0;
    while i < list.len()
        invariant
            i <= list.len(),
            names@.len() == i,
            forall|j: int| 0 <= j < i ==> (#[trigger] names@[j])@ == list@[j].name@,
        decreases list.len() - i,
    {
        names.push(list[i].name.as_str().to_owned());
        i += 1;
    }
    proof {
        assert(names@.map_values(|s: String| s@) =~= expect::names_of(views(list@)));
    }
    names
}

/// Whether all namespaces have this name, and there is one.
pub fn all_named(h: &Vec<Reply>, name: &str) -> (b: bool)
    ensures
        b == expect::all_named(h@, name@),
{
    match last_namespaces(h) {
        Some(list) => {
            let wanted: Vec<String> = vec![name.to_owned()];
            proof {
                assert(wanted@.map_values(|s: String| s@) =~= seq![name@]);
                lemma_set_of_one(name@);
            }
            assert_string_set_eq(&names_of(list), &wanted).is_ok()
        },
        None => false,
    }
}

/// Whether the namespaces have these two names, and there is one of each.
pub fn both_named(h: &Vec<Reply>, a: &str, b: &str) -> (r: bool)
    ensures
        r == expect::both_named(h@, a@, b@),
{
    match last_namespaces(h) {
        Some(list) => {
            let wanted: Vec<String> = vec![a.to_owned(), b.to_owned()];
            proof {
                assert(wanted@.map_values(|s: String| s@) =~= seq![a@, b@]);
                lemma_set_of_two(a@, b@);
            }
            assert_string_set_eq(&names_of(list), &wanted).is_ok()
        },
        None => false,
    }
}

proof fn lemma_set_of_one<A>(a: A)
    ensures
        seq![a].to_set() == set![a],
{
    let s = seq![a];
    assert(s[0] == a);
    assert(s.to_set() =~= set![a]);
}

proof fn lemma_set_of_two<A>(a: A, b: A)
    ensures
        seq![a, b].to_set() == set![a, b],
{
    let s = seq![a, b];
    assert(s[0] == a && s[1] == b);
    assert(s.to_set() =~= set![a, b]);
}

/// Whether, in the order of their names, the namespaces are those of steps `a` and `b`.
pub fn in_name_order(h: &Vec<Reply>, a: usize, b: usize) -> (r: bool)
    requires
        expect::is_namespace(h@, a),
        expect::is_namespace(h@, b),
    ensures
        r == expect::in_name_order(h@, a, b),
{
    match last_namespaces(h) {
        Some(list) => {
            if list.len() != 2 {
                return false;
            }
            let x: &Namespace = namespace(h, a);
            let y: &Namespace = namespace(h, b);
            if is_before(list[1].name.as_str(), list[0].name.as_str()) {
                list[1].same(x) && list[0].same(y)
            } else {
                list[0].same(x) && list[1].same(y)
            }
        },
        None => false,
    }
}

/// Whether the namespace is the one of step `j`, but that it was deleted and that its version
/// advanced.
pub fn same_but_deleted(h: &Vec<Reply>, j: usize, defaults: usize) -> (b: bool)
    requires
        expect::is_namespace(h@, j),
        expect::is_defaults(h@, defaults),
    ensures
        b == expect::same_but_deleted(h@, j, defaults),
{
    match last_namespace(h) {
        Some(ns) => {
            let known: &Namespace = namespace(h, j);
            known.id == ns.id && known.name.same(&ns.name) && known.retention_period_ns
                == ns.retention_period_ns && known.max_tables == ns.max_tables
                && known.max_columns_per_table == ns.max_columns_per_table
                && known.deleted_at.is_none() && known.partition_template.same(
                &ns.partition_template,
            ) && known.router_version == check::defaults(h, defaults).router_version
                && ns.deleted_at.is_some() && ns.router_version > known.router_version
        },
        None => false,
    }
}

/// Whether the last reply tells a size, or that there is nothing to tell it of.
pub fn got_storage(h: &Vec<Reply>) -> (b: bool)
    ensures
        b == expect::got_storage(h@),
{
    got_size(h) || nothing(h)
}

/// Whether the last reply tells the size `size`.
pub fn size_is(h: &Vec<Reply>, size: i64) -> (b: bool)
    ensures
        b == expect::size_is(h@, size),
{
    h.len() > 0 && match &h[h.len() - 1] {
        Reply::Size(s) => *s == size,
        _ => false,
    }
}

/// Whether the last reply tells the size of the file of step `a`.
pub fn size_of(h: &Vec<Reply>, a: usize) -> (b: bool)
    requires
        expect::is_file(h@, a),
    ensures
        b == expect::size_of(h@, a),
{
    size_is(h, file(h, a).file_size_bytes)
}

/// Whether the files of steps `a` and `b` have a size together.
pub fn sizes_add(h: &Vec<Reply>, a: usize, b: usize) -> (r: bool)
    requires
        expect::is_file(h@, a),
        expect::is_file(h@, b),
    ensures
        r == expect::sizes_add(h@, a, b),
{
    file(h, a).file_size_bytes.checked_add(file(h, b).file_size_bytes).is_some()
}

/// The size that the files of steps `a` and `b` have together.
pub fn total_size(h: &Vec<Reply>, a: usize, b: usize) -> (size: i64)
    requires
        expect::is_file(h@, a),
        expect::is_file(h@, b),
        expect::sizes_add(h@, a, b),
    ensures
        size == expect::total_size(h@, a, b),
{
    file(h, a).file_size_bytes + file(h, b).file_size_bytes
}

/// Whether the last reply tells the size of the files of steps `a` and `b` together.
pub fn size_of_both(h: &Vec<Reply>, a: usize, b: usize) -> (r: bool)
    requires
        expect::is_file(h@, a),
        expect::is_file(h@, b),
    ensures
        r == expect::size_of_both(h@, a, b),
{
    match file(h, a).file_size_bytes.checked_add(file(h, b).file_size_bytes) {
        Some(size) => size_is(h, size),
        None => false,
    }
}

/// Whether there are this many namespaces.
pub fn namespace_count(h: &Vec<Reply>, count: usize) -> (b: bool)
    ensures
        b == expect::namespace_count(h@, count),
{
    match last_namespaces(h) {
        Some(list) => list.len() == count,
        None => false,
    }
}

/// The table that the last reply is.
fn last_table(h: &Vec<Reply>) -> (r: Option<&Table>)
    ensures
        r is Some <==> expect::got_table(h@),
        r matches Some(t) ==> *t == h@.last()->Table_0,
{
    if h.len() == 0 {
        return None;
    }
    match &h[h.len() - 1] {
        Reply::Table(t) => Some(t),
        _ => None,
    }
}

/// The tables that the last reply is.
fn last_tables(h: &Vec<Reply>) -> (r: Option<&Vec<Table>>)
    ensures
        r is Some <==> expect::got_tables(h@),
        r matches Some(list) ==> *list == h@.last()->Tables_0,
{
    if h.len() == 0 {
        return None;
    }
    match &h[h.len() - 1] {
        Reply::Tables(list) => Some(list),
        _ => None,
    }
}

/// Whether the table is the one of step `j`.
pub fn same_table(h: &Vec<Reply>, j: usize) -> (b: bool)
    requires
        expect::is_table(h@, j),
    ensures
        b == expect::same_table(h@, j),
{
    match last_table(h) {
        Some(t) => t.same(table(h, j)),
        None => false,
    }
}

/// Whether the table is new.
pub fn fresh_table(h: &Vec<Reply>, defaults: usize) -> (b: bool)
    requires
        expect::is_defaults(h@, defaults),
    ensures
        b == expect::fresh_table(h@, defaults),
{
    match last_table(h) {
        Some(t) => t.id > 0 && t.partition_template.same(
            &check::defaults(h, defaults).table_template,
        ),
        None => false,
    }
}

/// Whether the table has the template of step `k`.
pub fn table_has_template(h: &Vec<Reply>, k: usize) -> (b: bool)
    requires
        expect::is_template(h@, k),
    ensures
        b == expect::table_has_template(h@, k),
{
    match last_table(h) {
        Some(t) => t.partition_template.same(template(h, k)),
        None => false,
    }
}

/// Whether the table of step `j` has the template that the last reply is.
pub fn is_template_of(h: &Vec<Reply>, j: usize) -> (b: bool)
    requires
        expect::is_table(h@, j),
    ensures
        b == expect::is_template_of(h@, j),
{
    h.len() > 0 && match &h[h.len() - 1] {
        Reply::Template(t) => table(h, j).partition_template.same(t),
        _ => false,
    }
}

/// Whether the table has another id than the one of step `j` and belongs to the namespace of step
/// `k`.
pub fn other_table_in(h: &Vec<Reply>, j: usize, k: usize) -> (b: bool)
    requires
        expect::is_table(h@, j),
        expect::is_namespace(h@, k),
    ensures
        b == expect::other_table_in(h@, j, k),
{
    match last_table(h) {
        Some(t) => t.id != table(h, j).id && t.namespace_id == namespace(h, k).id,
        None => false,
    }
}

/// Whether the table belongs to the namespace of step `k`.
pub fn table_in(h: &Vec<Reply>, k: usize) -> (b: bool)
    requires
        expect::is_namespace(h@, k),
    ensures
        b == expect::table_in(h@, k),
{
    match last_table(h) {
        Some(t) => t.namespace_id == namespace(h, k).id,
        None => false,
    }
}

/// Whether there is one table, the one of step `j`.
pub fn only_table(h: &Vec<Reply>, j: usize) -> (b: bool)
    requires
        expect::is_table(h@, j),
    ensures
        b == expect::only_table(h@, j),
{
    match last_tables(h) {
        Some(list) => {
            let wanted: Vec<&Table> = vec![table(h, j)];
            proof {
                assert(views(wanted@) =~= seq![expect::table(h@, j)]);
            }
            same_refs(&refs(list), &wanted)
        },
        None => false,
    }
}

/// Whether there are no tables.
pub fn no_tables(h: &Vec<Reply>) -> (b: bool)
    ensures
        b == expect::no_tables(h@),
{
    match last_tables(h) {
        Some(list) => list.len() == 0,
        None => false,
    }
}

/// Whether, in the order of their ids, the tables are those of steps `a`, `b` and `c`.
pub fn three_tables(h: &Vec<Reply>, a: usize, b: usize, c: usize) -> (r: bool)
    requires
        expect::is_table(h@, a),
        expect::is_table(h@, b),
        expect::is_table(h@, c),
    ensures
        r == expect::three_tables(h@, a, b, c),
{
    match last_tables(h) {
        Some(list) => {
            let wanted: Vec<&Table> = vec![table(h, a), table(h, b), table(h, c)];
            proof {
                assert(views(wanted@) =~= seq![
                    expect::table(h@, a),
                    expect::table(h@, b),
                    expect::table(h@, c),
                ]);
            }
            check_same_by_id(&refs(list), &wanted)
        },
        None => false,
    }
}

/// Whether the snapshots of steps `a` and `b` are of the same namespace.
pub fn same_snapshot_namespace(h: &Vec<Reply>, a: usize, b: usize) -> (r: bool)
    requires
        expect::is_namespace_snapshot(h@, a),
        expect::is_namespace_snapshot(h@, b),
    ensures
        r == expect::same_snapshot_namespace(h@, a, b),
{
    match (&namespace_snapshot(h, a).namespace, &namespace_snapshot(h, b).namespace) {
        (Some(x), Some(y)) => x.same(y),
        _ => false,
    }
}

/// Whether the request was refused because there is such a table in the namespace, whose id is
/// shown by step `k`.
pub fn refused_twice_in(h: &Vec<Reply>, k: usize) -> (b: bool)
    requires
        expect::is_text(h@, k),
    ensures
        b == expect::refused_twice_in(h@, k),
{
    let descr: String = "table 'test_table' in namespace ".to_owned().concat(text(h, k));
    refused_about(h, ErrorKind::AlreadyExists, descr.as_str())
}

/// Whether the last reply is a table with its only partition.
pub fn got_table_and_partition(h: &Vec<Reply>) -> (b: bool)
    ensures
        b == expect::got_table_and_partition(h@),
{
    h.len() > 0 && matches!(&h[h.len() - 1], Reply::TableAndPartition(_, _))
}

/// Whether the table that was created with one partition belongs to the namespace of step `j`.
pub fn set_up_in(h: &Vec<Reply>, j: usize) -> (b: bool)
    requires
        expect::is_namespace(h@, j),
    ensures
        b == expect::set_up_in(h@, j),
{
    h.len() > 0 && match &h[h.len() - 1] {
        Reply::TableAndPartition(t, _) => t.namespace_id == namespace(h, j).id,
        _ => false,
    }
}

/// The table of reply `k`, where it is a table with its only partition.
pub fn new_table<'a>(h: &'a Vec<Reply>, k: usize) -> (r: &'a Table)
    requires
        expect::is_table_and_partition(h@, k),
    ensures
        r@ == expect::new_table(h@, k),
{
    match &h[k] {
        Reply::TableAndPartition(t, _) => t,
        _ => vstd::pervasive::unreached(),
    }
}

/// The partition of reply `k`, where it is a table with its only partition.
pub fn new_partition<'a>(h: &'a Vec<Reply>, k: usize) -> (r: &'a Partition)
    requires
        expect::is_table_and_partition(h@, k),
    ensures
        r@ == expect::new_partition(h@, k),
{
    match &h[k] {
        Reply::TableAndPartition(_, p) => p,
        _ => vstd::pervasive::unreached(),
    }
}

/// Whether the last reply tells one size.
pub fn only_size(h: &Vec<Reply>, size: i64) -> (b: bool)
    ensures
        b == expect::only_size(h@, size),
{
    h.len() > 0 && match &h[h.len() - 1] {
        Reply::Sizes(list) => {
            let wanted: Vec<i64> = vec![size];
            proof {
                assert(wanted@ =~= seq![size]);
            }
            same_ints(list, &wanted)
        },
        _ => false,
    }
}

/// Whether the last reply tells two sizes.
pub fn two_sizes(h: &Vec<Reply>, first: i64, second: i64) -> (b: bool)
    ensures
        b == expect::two_sizes(h@, first, second),
{
    h.len() > 0 && match &h[h.len() - 1] {
        Reply::Sizes(list) => {
            let wanted: Vec<i64> = vec![first, second];
            proof {
                assert(wanted@ =~= seq![first, second]);
            }
            same_ints(list, &wanted)
        },
        _ => false,
    }
}

/// The column that the last reply is.
fn last_column(h: &Vec<Reply>) -> (r: Option<&Column>)
    ensures
        r is Some <==> expect::got_column(h@),
        r matches Some(c) ==> *c == h@.last()->Column_0,
{
    if h.len() == 0 {
        return None;
    }
    match &h[h.len() - 1] {
        Reply::Column(c) => Some(c),
        _ => None,
    }
}

/// The columns that the last reply is.
fn last_columns(h: &Vec<Reply>) -> (r: Option<&Vec<Column>>)
    ensures
        r is Some <==> expect::got_columns(h@),
        r matches Some(list) ==> *list == h@.last()->Columns_0,
{
    if h.len() == 0 {
        return None;
    }
    match &h[h.len() - 1] {
        Reply::Columns(list) => Some(list),
        _ => None,
    }
}

/// Whether the column is the one of step `j`.
pub fn same_column(h: &Vec<Reply>, j: usize) -> (b: bool)
    requires
        expect::is_column(h@, j),
    ensures
        b == expect::same_column(h@, j),
{
    match last_column(h) {
        Some(c) => c.same(column(h, j)),
        None => false,
    }
}

/// Whether the column is another than the one of step `j`.
pub fn other_column(h: &Vec<Reply>, j: usize) -> (b: bool)
    requires
        expect::is_column(h@, j),
    ensures
        b == expect::other_column(h@, j),
{
    match last_column(h) {
        Some(c) => !c.same(column(h, j)),
        None => false,
    }
}

/// Whether there are no columns.
pub fn no_columns(h: &Vec<Reply>) -> (b: bool)
    ensures
        b == expect::no_columns(h@),
{
    column_count(h, 0)
}

/// Whether there is one column, the one of step `a`.
pub fn only_column(h: &Vec<Reply>, a: usize) -> (r: bool)
    requires
        expect::is_column(h@, a),
    ensures
        r == expect::only_column(h@, a),
{
    match last_columns(h) {
        Some(list) => {
            let wanted: Vec<&Column> = vec![column(h, a)];
            proof {
                assert(views(wanted@) =~= seq![expect::column(h@, a)]);
            }
            same_refs(&refs(list), &wanted)
        },
        None => false,
    }
}

/// Whether the columns of step `k` are those of steps `a` and `b`.
pub fn were_two_columns(h: &Vec<Reply>, k: usize, a: usize, b: usize) -> (r: bool)
    requires
        expect::is_columns(h@, k),
        expect::is_column(h@, a),
        expect::is_column(h@, b),
    ensures
        r == expect::were_two_columns(h@, k, a, b),
{
    let wanted: Vec<&Column> = vec![column(h, a), column(h, b)];
    proof {
        assert(views(wanted@) =~= seq![expect::column(h@, a), expect::column(h@, b)]);
    }
    same_refs(&refs(columns(h, k)), &wanted)
}

/// Whether the columns are those of steps `a`, `b` and `c`.
pub fn three_columns(h: &Vec<Reply>, a: usize, b: usize, c: usize) -> (r: bool)
    requires
        expect::is_column(h@, a),
        expect::is_column(h@, b),
        expect::is_column(h@, c),
    ensures
        r == expect::three_columns(h@, a, b, c),
{
    match last_columns(h) {
        Some(list) => {
            let wanted: Vec<&Column> = vec![column(h, a), column(h, b), column(h, c)];
            proof {
                assert(views(wanted@) =~= seq![
                    expect::column(h@, a),
                    expect::column(h@, b),
                    expect::column(h@, c),
                ]);
            }
            same_refs(&refs(list), &wanted)
        },
        None => false,
    }
}

/// Whether there are this many columns.
pub fn column_count(h: &Vec<Reply>, count: usize) -> (b: bool)
    ensures
        b == expect::column_count(h@, count),
{
    match last_columns(h) {
        Some(list) => list.len() == count,
        None => false,
    }
}

/// Whether there are two columns, one of each name.
pub fn columns_named(h: &Vec<Reply>, a: &str, b: &str) -> (r: bool)
    ensures
        r == expect::columns_named(h@, a@, b@),
{
    match last_columns(h) {
        Some(list) => {
            if list.len() != 2 {
                return false;
            }
            let x: &str = list[0].name.as_str();
            let y: &str = list[1].name.as_str();
            (text_eq(x, a) && text_eq(y, b)) || (text_eq(x, b) && text_eq(y, a))
        },
        None => false,
    }
}

/// Whether all columns are tags.
pub fn all_tags(h: &Vec<Reply>) -> (b: bool)
    ensures
        b == expect::all_tags(h@),
{
    match last_columns(h) {
        Some(list) => {
            let mut i: usize = 0;
            while i < list.len()
                invariant
                    i <= list.len(),
                    expect::got_columns(h@),
                    *list == h@.last()->Columns_0,
                    forall|j: int|
                        0 <= j < i ==> (#[trigger] list@[j]).column_type == ColumnType::Tag,
                decreases list.len() - i,
            {
                if list[i].column_type != ColumnType::Tag {
                    return false;
                }
                i += 1;
            }
            true
        },
        None => false,
    }
}

/// The table of a snapshot, where it can be decoded.
pub fn snapshot_table<'a>(s: &'a TableSnapshot) -> (r: &'a Table)
    requires
        s@.table is Some,
    ensures
        r@ == expect::snapshot_table(s@),
{
    match &s.table {
        Some(t) => t,
        None => vstd::pervasive::unreached(),
    }
}

/// The namespace of a snapshot, where it can be decoded.
pub fn snapshot_namespace<'a>(s: &'a NamespaceSnapshot) -> (r: &'a Namespace)
    requires
        s@.namespace is Some,
    ensures
        r@ == expect::snapshot_namespace(s@),
{
    match &s.namespace {
        Some(ns) => ns,
        None => vstd::pervasive::unreached(),
    }
}

/// Whether the files are those of the snapshot, in any order.
pub fn files_match(h: &Vec<Reply>, s: &PartitionSnapshot) -> (b: bool)
    ensures
        b == expect::files_match(h@, s@),
{
    if h.len() == 0 {
        return false;
    }
    match (&h[h.len() - 1], &s.files) {
        (Reply::Files(list), Some(files)) => check_same_by_id(&refs(list), &refs(files)),
        _ => false,
    }
}

/// Whether the first skipped compaction, or the lack of one, is that of the snapshot.
pub fn skipped_matches(h: &Vec<Reply>, s: &PartitionSnapshot) -> (b: bool)
    ensures
        b == expect::skipped_matches(h@, s@),
{
    if h.len() == 0 {
        return false;
    }
    match &h[h.len() - 1] {
        Reply::SkippedList(list) => {
            proof {
                assert(views(list@).len() == list@.len());
                if list@.len() > 0 {
                    assert(views(list@)[0] == list@[0]@);
                }
            }
            match &s.skipped_compaction {
                Some(x) => list.len() > 0 && list[0].same(x),
                None => list.len() == 0,
            }
        },
        _ => false,
    }
}

/// Whether the partition is that of the snapshot.
pub fn partition_matches(h: &Vec<Reply>, s: &PartitionSnapshot) -> (b: bool)
    ensures
        b == expect::partition_matches(h@, s@),
{
    if h.len() == 0 {
        return false;
    }
    match (&h[h.len() - 1], &s.partition) {
        (Reply::Partition(p), Some(q)) => q.same(p),
        _ => false,
    }
}

/// Whether the table is that of the snapshot.
pub fn table_matches(h: &Vec<Reply>, s: &TableSnapshot) -> (b: bool)
    requires
        s@.table is Some,
    ensures
        b == expect::table_matches(h@, s@),
{
    match last_table(h) {
        Some(t) => t.same(snapshot_table(s)),
        None => false,
    }
}

/// Whether the columns are those of the snapshot, in any order.
pub fn columns_match(h: &Vec<Reply>, s: &TableSnapshot) -> (b: bool)
    ensures
        b == expect::columns_match(h@, s@),
{
    match (last_columns(h), &s.columns) {
        (Some(list), Some(columns)) => check_same_by_id(&refs(list), &refs(columns)),
        _ => false,
    }
}

/// Whether an entry of a snapshot has this id and this name.
fn is_entry_of(e: &Entry, id: i64, name: &str) -> (b: bool)
    ensures
        b == expect::is_entry_of(e@, id, name@),
{
    e.id == id && is_utf8_of(&e.name, name)
}

/// Whether, in the order of their ids, the partitions have the ids and keys of the snapshot's.
pub fn partitions_match(h: &Vec<Reply>, s: &TableSnapshot) -> (b: bool)
    ensures
        b == expect::partitions_match(h@, s@),
{
    if h.len() == 0 {
        return false;
    }
    match (&h[h.len() - 1], &s.partitions) {
        (Reply::Partitions(list), Some(partitions)) => {
            let wanted: Vec<&Partition> = sort_by_id(&refs(list));
            let entries: Vec<&Entry> = sort_by_id(&refs(partitions));
            proof {
                assert(views(wanted@).len() == wanted@.len());
                assert(views(entries@).len() == entries@.len());
            }
            if wanted.len() != entries.len() {
                return false;
            }
            let mut i: usize = 0;
            while i < wanted.len()
                invariant
                    i <= wanted.len(),
                    wanted.len() == entries.len(),
                    expect::got_partitions(h@),
                    s@.partitions is Some,
                    views(wanted@) == sorted_by_id(views(h@.last()->Partitions_0@)),
                    views(entries@) == sorted_by_id(s@.partitions->0),
                    forall|j: int|
                        0 <= j < i ==> expect::is_entry_of(
                            #[trigger] views(entries@)[j],
                            views(wanted@)[j].id,
                            views(wanted@)[j].partition_key,
                        ),
                decreases wanted.len() - i,
            {
                proof {
                    assert(views(wanted@)[i as int] == wanted@[i as int]@);
                    assert(views(entries@)[i as int] == entries@[i as int]@);
                }
                if !is_entry_of(entries[i], wanted[i].id, wanted[i].partition_key.as_str()) {
                    return false;
                }
                i += 1;
            }
            true
        },
        _ => false,
    }
}

/// Whether the namespace is that of the snapshot.
pub fn namespace_matches(h: &Vec<Reply>, s: &NamespaceSnapshot) -> (b: bool)
    requires
        s@.namespace is Some,
    ensures
        b == expect::namespace_matches(h@, s@),
{
    match last_namespace(h) {
        Some(ns) => ns.same(snapshot_namespace(s)),
        None => false,
    }
}

/// Whether there are as many tables as in the snapshot.
pub fn tables_match(h: &Vec<Reply>, s: &NamespaceSnapshot) -> (b: bool)
    ensures
        b == expect::tables_match(h@, s@),
{
    match (last_tables(h), s.tables) {
        (Some(list), Some(count)) => list.len() == count,
        _ => false,
    }
}

/// Whether there are as many namespaces as in the snapshot.
pub fn namespaces_match(h: &Vec<Reply>, s: &RootSnapshot) -> (b: bool)
    ensures
        b == expect::namespaces_match(h@, s@),
{
    match (last_namespaces(h), s.namespaces) {
        (Some(list), Some(count)) => list.len() == count,
        _ => false,
    }
}

/// The `i`-th of the tables of step `k`, in the order of their ids.
pub fn nth_table<'a>(h: &'a Vec<Reply>, k: usize, i: usize) -> (r: &'a Table)
    requires
        expect::is_tables(h@, k),
        i < expect::tables(h@, k).len(),
    ensures
        r@ == expect::nth_table(h@, k, i as int),
{
    let sorted: Vec<&'a Table> = sort_by_id(&refs(tables(h, k)));
    proof {
        law_sorting_rearranges(expect::tables(h@, k));
        assert(views(sorted@)[i as int] == sorted@[i as int]@);
    }
    sorted[i]
}

/// The `i`-th of the namespaces of step `k`, in the order of their ids.
pub fn nth_namespace<'a>(h: &'a Vec<Reply>, k: usize, i: usize) -> (r: &'a Namespace)
    requires
        expect::is_namespaces(h@, k),
        i < expect::namespaces(h@, k).len(),
    ensures
        r@ == expect::nth_namespace(h@, k, i as int),
{
    let sorted: Vec<&'a Namespace> = sort_by_id(&refs(namespaces(h, k)));
    proof {
        law_sorting_rearranges(expect::namespaces(h@, k));
        assert(views(sorted@)[i as int] == sorted@[i as int]@);
    }
    sorted[i]
}

/// Whether the entry is that of the `i`-th of the tables of step `k`.
pub fn entry_of_table(h: &Vec<Reply>, k: usize, i: usize) -> (b: bool)
    requires
        expect::is_tables(h@, k),
        i < expect::tables(h@, k).len(),
    ensures
        b == expect::entry_of_table(h@, k, i as int),
{
    let t: &Table = nth_table(h, k, i);
    match &h[h.len() - 1] {
        Reply::Entry(e) => is_entry_of(e, t.id, t.name.as_str()),
        _ => false,
    }
}

/// Whether the entry is that of the `i`-th of the namespaces of step `k`.
pub fn entry_of_namespace(h: &Vec<Reply>, k: usize, i: usize) -> (b: bool)
    requires
        expect::is_namespaces(h@, k),
        i < expect::namespaces(h@, k).len(),
    ensures
        b == expect::entry_of_namespace(h@, k, i as int),
{
    let ns: &Namespace = nth_namespace(h, k, i);
    match &h[h.len() - 1] {
        Reply::Entry(e) => is_entry_of(e, ns.id, ns.name.as_str()),
        _ => false,
    }
}

/// The partition that the last reply is.
fn last_partition(h: &Vec<Reply>) -> (r: Option<&Partition>)
    ensures
        r is Some <==> expect::got_partition(h@),
        r matches Some(p) ==> *p == h@.last()->Partition_0,
{
    if h.len() == 0 {
        return None;
    }
    match &h[h.len() - 1] {
        Reply::Partition(p) => Some(p),
        _ => None,
    }
}

/// The partitions that the last reply is.
fn last_partitions(h: &Vec<Reply>) -> (r: Option<&Vec<Partition>>)
    ensures
        r is Some <==> expect::got_partitions(h@),
        r matches Some(list) ==> *list == h@.last()->Partitions_0,
{
    if h.len() == 0 {
        return None;
    }
    match &h[h.len() - 1] {
        Reply::Partitions(list) => Some(list),
        _ => None,
    }
}

/// The skipped compactions that the last reply is.
fn last_skipped_list(h: &Vec<Reply>) -> (r: Option<&Vec<SkippedCompaction>>)
    ensures
        r is Some <==> expect::got_skipped_list(h@),
        r matches Some(list) ==> *list == h@.last()->SkippedList_0,
{
    if h.len() == 0 {
        return None;
    }
    match &h[h.len() - 1] {
        Reply::SkippedList(list) => Some(list),
        _ => None,
    }
}

/// Whether the partition is the one of step `j`.
pub fn same_partition(h: &Vec<Reply>, j: usize) -> (b: bool)
    requires
        expect::is_partition(h@, j),
    ensures
        b == expect::same_partition(h@, j),
{
    match last_partition(h) {
        Some(p) => p.same(partition(h, j)),
        None => false,
    }
}

/// Whether the partition of step `k` has no sort key.
pub fn unsorted(h: &Vec<Reply>, k: usize) -> (b: bool)
    requires
        expect::is_partition(h@, k),
    ensures
        b == expect::unsorted(h@, k),
{
    partition(h, k).sort_key_ids.is_none()
}

/// Whether there are no partitions.
pub fn no_partitions(h: &Vec<Reply>) -> (b: bool)
    ensures
        b == expect::no_partitions(h@),
{
    partition_count(h, 0)
}

/// Whether the first of the partitions is the one of step `j`.
pub fn first_is_partition(h: &Vec<Reply>, j: usize) -> (b: bool)
    requires
        expect::is_partition(h@, j),
    ensures
        b == expect::first_is_partition(h@, j),
{
    match last_partitions(h) {
        Some(list) => list.len() > 0 && list[0].same(partition(h, j)),
        None => false,
    }
}

/// Whether a sort key is this one.
fn sort_key_is(p: &Partition, key: &Vec<i64>) -> (b: bool)
    ensures
        b == (p@.sort_key_ids == Some(key@)),
{
    match &p.sort_key_ids {
        Some(ids) => same_ints(ids, key),
        None => false,
    }
}

/// Whether the first of the partitions has this sort key.
pub fn first_has_sort_key(h: &Vec<Reply>, key: Vec<i64>) -> (b: bool)
    ensures
        b == expect::first_has_sort_key(h@, key@),
{
    match last_partitions(h) {
        Some(list) => list.len() > 0 && sort_key_is(&list[0], &key),
        None => false,
    }
}

/// Whether the partition has this sort key.
pub fn has_sort_key(h: &Vec<Reply>, key: Vec<i64>) -> (b: bool)
    ensures
        b == expect::has_sort_key(h@, key@),
{
    match last_partition(h) {
        Some(p) => sort_key_is(p, &key),
        None => false,
    }
}

/// Whether the sort key was not replaced, because it is this one.
pub fn kept_sort_key(h: &Vec<Reply>, key: Vec<i64>) -> (b: bool)
    ensures
        b == expect::kept_sort_key(h@, key@),
{
    h.len() > 0 && match &h[h.len() - 1] {
        Reply::CasMismatch(ids) => same_ints(ids, &key),
        _ => false,
    }
}

/// Whether none of the partitions has a sort key.
pub fn all_unsorted(h: &Vec<Reply>) -> (b: bool)
    ensures
        b == expect::all_unsorted(h@),
{
    match last_partitions(h) {
        Some(list) => {
            let mut i: usize = 0;
            while i < list.len()
                invariant
                    i <= list.len(),
                    expect::got_partitions(h@),
                    *list == h@.last()->Partitions_0,
                    forall|j: int| 0 <= j < i ==> (#[trigger] list@[j])@.sort_key_ids is None,
                decreases list.len() - i,
            {
                if list[i].sort_key_ids.is_some() {
                    proof {
                        assert(list@[i as int]@.sort_key_ids is Some);
                    }
                    return false;
                }
                i += 1;
            }
            true
        },
        None => false,
    }
}

/// Whether none of the partitions that are left, where of those with the same id the last one is,
/// has a sort key.
pub fn all_mapped_unsorted(h: &Vec<Reply>) -> (b: bool)
    ensures
        b == expect::all_mapped_unsorted(h@),
{
    match last_partitions(h) {
        Some(all) => {
            let list: Vec<&Partition> = keep_latest_by_id(&refs(all));
            let mut i: usize = 0;
            while i < list.len()
                invariant
                    i <= list.len(),
                    expect::got_partitions(h@),
                    views(list@) == latest_by_id(views(h@.last()->Partitions_0@)),
                    forall|j: int|
                        0 <= j < i ==> (#[trigger] views(list@)[j]).sort_key_ids is None,
                decreases list.len() - i,
            {
                proof {
                    assert(views(list@)[i as int] == list@[i as int]@);
                }
                if list[i].sort_key_ids.is_some() {
                    return false;
                }
                i += 1;
            }
            true
        },
        None => false,
    }
}

/// The partitions of steps `a` to `d` by their ids: where two have the same id, the later one.
fn four_partitions<'a>(h: &'a Vec<Reply>, a: usize, b: usize, c: usize, d: usize) -> (r: Vec<
    &'a Partition,
>)
    requires
        expect::is_partition(h@, a),
        expect::is_partition(h@, b),
        expect::is_partition(h@, c),
        expect::is_partition(h@, d),
    ensures
        views(r@) == expect::four_partitions(h@, a, b, c, d),
{
    let list: Vec<&'a Partition> = vec![
        partition(h, a),
        partition(h, b),
        partition(h, c),
        partition(h, d),
    ];
    proof {
        assert(views(list@) =~= seq![
            expect::partition(h@, a),
            expect::partition(h@, b),
            expect::partition(h@, c),
            expect::partition(h@, d),
        ]);
    }
    keep_latest_by_id(&list)
}

/// The ids of partitions.
fn ids_of(list: &Vec<&Partition>) -> (ids: Vec<i64>)
    ensures
        ids@ == expect::ids_of(views(list@)),
{
    let mut ids: Vec<i64> = Vec::new();
    let mut i: usize = 0;
    while i < list.len()
        invariant
            i <= list.len(),
            ids@.len() == i,
            forall|j: int| 0 <= j < i ==> ids@[j] == (#[trigger] list@[j]).id,
        decreases list.len() - i,
    {
        ids.push(list[i].id);
        i += 1;
    }
    proof {
        assert(ids@ =~= expect::ids_of(views(list@)));
    }
    ids
}

/// Whether, in the order of their ids, the partitions are those of steps `a` to `d`.
pub fn are_four_partitions(h: &Vec<Reply>, a: usize, b: usize, c: usize, d: usize) -> (r: bool)
    requires
        expect::is_partition(h@, a),
        expect::is_partition(h@, b),
        expect::is_partition(h@, c),
        expect::is_partition(h@, d),
    ensures
        r == expect::are_four_partitions(h@, a, b, c, d),
{
    match last_partitions(h) {
        Some(list) => same_refs(&sort_by_id(&refs(list)), &four_partitions(h, a, b, c, d)),
        None => false,
    }
}

/// Whether, by their ids, the partitions are those of steps `a` to `d`.
pub fn map_to_four_partitions(h: &Vec<Reply>, a: usize, b: usize, c: usize, d: usize) -> (r: bool)
    requires
        expect::is_partition(h@, a),
        expect::is_partition(h@, b),
        expect::is_partition(h@, c),
        expect::is_partition(h@, d),
    ensures
        r == expect::map_to_four_partitions(h@, a, b, c, d),
{
    match last_partitions(h) {
        Some(list) => same_refs(&keep_latest_by_id(&refs(list)), &four_partitions(h, a, b, c, d)),
        None => false,
    }
}

/// Whether the ids are those of the partitions of steps `a` to `d`.
pub fn ids_of_four_partitions(h: &Vec<Reply>, a: usize, b: usize, c: usize, d: usize) -> (r: bool)
    requires
        expect::is_partition(h@, a),
        expect::is_partition(h@, b),
        expect::is_partition(h@, c),
        expect::is_partition(h@, d),
    ensures
        r == expect::ids_of_four_partitions(h@, a, b, c, d),
{
    h.len() > 0 && match &h[h.len() - 1] {
        Reply::Ids(ids) => same_set(ids, &ids_of(&four_partitions(h, a, b, c, d))),
        _ => false,
    }
}

/// The ids of the partitions of steps `a` to `d`, then an id that none has, then the ids again.
pub fn ids_twice(h: &Vec<Reply>, a: usize, b: usize, c: usize, d: usize) -> (r: Vec<i64>)
    requires
        expect::is_partition(h@, a),
        expect::is_partition(h@, b),
        expect::is_partition(h@, c),
        expect::is_partition(h@, d),
    ensures
        r@ == expect::ids_twice(h@, a, b, c, d),
{
    let list: Vec<&Partition> = four_partitions(h, a, b, c, d);
    let mut ids: Vec<i64> = ids_of(&list);
    let mut again: Vec<i64> = ids_of(&list);
    let ghost once: Seq<i64> = again@;
    ids.push(i64::MAX);
    ids.append(&mut again);
    proof {
        assert(ids@ =~= once + seq![i64::MAX] + once);
    }
    ids
}

/// Whether a skipped compaction is of the partition of step `k`, for this reason.
fn skips(h: &Vec<Reply>, s: &SkippedCompaction, k: usize, reason: &str) -> (b: bool)
    requires
        expect::is_partition(h@, k),
    ensures
        b == expect::skips(h@, s@, k, reason@),
{
    s.partition_id == partition(h, k).id && text_eq(s.reason.as_str(), reason)
}

/// Whether a skipped compaction has these numbers of files and bytes, each with its limit.
fn skips_with(
    s: &SkippedCompaction,
    num_files: i64,
    limit_num_files: i64,
    estimated_bytes: i64,
    limit_bytes: i64,
) -> (b: bool)
    ensures
        b == expect::skips_with(s@, num_files, limit_num_files, estimated_bytes, limit_bytes),
{
    s.num_files == num_files && s.limit_num_files == limit_num_files && s.estimated_bytes
        == estimated_bytes && s.limit_bytes == limit_bytes
}

/// Whether there are no skipped compactions.
pub fn none_skipped(h: &Vec<Reply>) -> (b: bool)
    ensures
        b == expect::none_skipped(h@),
{
    match last_skipped_list(h) {
        Some(list) => list.len() == 0,
        None => false,
    }
}

/// Whether one compaction was skipped, that of the partition of step `k`.
pub fn only_skipped(
    h: &Vec<Reply>,
    k: usize,
    reason: &str,
    num_files: i64,
    limit_num_files: i64,
    estimated_bytes: i64,
    limit_bytes: i64,
) -> (b: bool)
    requires
        expect::is_partition(h@, k),
    ensures
        b == expect::only_skipped(
            h@,
            k,
            reason@,
            num_files,
            limit_num_files,
            estimated_bytes,
            limit_bytes,
        ),
{
    match last_skipped_list(h) {
        Some(list) => list.len() == 1 && skips(h, &list[0], k, reason) && skips_with(
            &list[0],
            num_files,
            limit_num_files,
            estimated_bytes,
            limit_bytes,
        ),
        None => false,
    }
}

/// Whether the first skipped compaction is that of the partition of step `k`.
pub fn first_skipped(h: &Vec<Reply>, k: usize, reason: &str) -> (b: bool)
    requires
        expect::is_partition(h@, k),
    ensures
        b == expect::first_skipped(h@, k, reason@),
{
    match last_skipped_list(h) {
        Some(list) => list.len() > 0 && skips(h, &list[0], k, reason),
        None => false,
    }
}

/// Whether two compactions were skipped, those of the partitions of steps `a` and `b`.
pub fn two_skipped(h: &Vec<Reply>, a: usize, b: usize) -> (r: bool)
    requires
        expect::is_partition(h@, a),
        expect::is_partition(h@, b),
    ensures
        r == expect::two_skipped(h@, a, b),
{
    match last_skipped_list(h) {
        Some(list) => list.len() == 2 && list[0].partition_id == partition(h, a).id
            && list[1].partition_id == partition(h, b).id,
        None => false,
    }
}

/// Whether one compaction was skipped, that of the partition of step `k`.
pub fn one_skipped_of(h: &Vec<Reply>, k: usize) -> (b: bool)
    requires
        expect::is_partition(h@, k),
    ensures
        b == expect::one_skipped_of(h@, k),
{
    match last_skipped_list(h) {
        Some(list) => list.len() == 1 && list[0].partition_id == partition(h, k).id,
        None => false,
    }
}

/// The partitions of skipped compactions.
fn skipped_ids(list: &Vec<SkippedCompaction>) -> (ids: Vec<i64>)
    ensures
        ids@ == expect::skipped_ids(views(list@)),
{
    let mut ids: Vec<i64> = Vec::new();
    let mut i: usize = 0;
    while i < list.len()
        invariant
            i <= list.len(),
            ids@.len() == i,
            forall|j: int| 0 <= j < i ==> ids@[j] == (#[trigger] list@[j]).partition_id,
        decreases list.len() - i,
    {
        ids.push(list[i].partition_id);
        i += 1;
    }
    proof {
        assert(ids@ =~= expect::skipped_ids(views(list@)));
    }
    ids
}

/// Whether compactions of the partitions of steps `a` and `b` were skipped, and of no others.
pub fn skipped_both(h: &Vec<Reply>, a: usize, b: usize) -> (r: bool)
    requires
        expect::is_partition(h@, a),
        expect::is_partition(h@, b),
    ensures
        r == expect::skipped_both(h@, a, b),
{
    match last_skipped_list(h) {
        Some(list) => {
            let wanted: Vec<i64> = vec![partition(h, a).id, partition(h, b).id];
            proof {
                assert(wanted@ =~= seq![expect::partition(h@, a).id, expect::partition(h@, b).id]);
            }
            same_set(&skipped_ids(list), &wanted)
        },
        None => false,
    }
}

/// Whether the skipped compaction is that of the partition of step `k`, for this reason.
pub fn was_skipped(h: &Vec<Reply>, k: usize, reason: &str) -> (b: bool)
    requires
        expect::is_partition(h@, k),
    ensures
        b == expect::was_skipped(h@, k, reason@),
{
    h.len() > 0 && match &h[h.len() - 1] {
        Reply::Skipped(s) => skips(h, s, k, reason),
        _ => false,
    }
}

/// Whether the skipped compaction has these numbers of files and bytes, each with its limit.
pub fn was_skipped_with(
    h: &Vec<Reply>,
    num_files: i64,
    limit_num_files: i64,
    estimated_bytes: i64,
    limit_bytes: i64,
) -> (b: bool)
    ensures
        b == expect::was_skipped_with(
            h@,
            num_files,
            limit_num_files,
            estimated_bytes,
            limit_bytes,
        ),
{
    h.len() > 0 && match &h[h.len() - 1] {
        Reply::Skipped(s) => skips_with(
            s,
            num_files,
            limit_num_files,
            estimated_bytes,
            limit_bytes,
        ),
        _ => false,
    }
}

/// Whether there are this many partitions.
pub fn partition_count(h: &Vec<Reply>, count: usize) -> (b: bool)
    ensures
        b == expect::partition_count(h@, count),
{
    match last_partitions(h) {
        Some(list) => list.len() == count,
        None => false,
    }
}

/// Whether there are four partitions; the first two have these sort keys, and the others have none.
pub fn sorted_first(h: &Vec<Reply>, first: Vec<i64>, second: Vec<i64>) -> (b: bool)
    ensures
        b == expect::sorted_first(h@, first@, second@),
{
    match last_partitions(h) {
        Some(list) => list.len() == 4 && sort_key_is(&list[0], &first) && sort_key_is(
            &list[1],
            &second,
        ) && list[2].sort_key_ids.is_none() && list[3].sort_key_ids.is_none(),
        None => false,
    }
}

/// Whether the first two partitions are those of steps `a` and `b`, as their ids show.
pub fn most_recent_are(h: &Vec<Reply>, a: usize, b: usize) -> (r: bool)
    requires
        expect::is_partition(h@, a),
        expect::is_partition(h@, b),
    ensures
        r == expect::most_recent_are(h@, a, b),
{
    match last_partitions(h) {
        Some(list) => list.len() >= 2 && list[0].id == partition(h, a).id && list[1].id
            == partition(h, b).id,
        None => false,
    }
}

/// Whether the time of step `k` can be moved by `by` nanoseconds.
pub fn shifts_by(h: &Vec<Reply>, k: usize, by: i64) -> (b: bool)
    requires
        expect::is_time(h@, k),
    ensures
        b == expect::shifts_by(h@, k, by),
{
    time(h, k).checked_add(by).is_some()
}

/// The time of step `k`, moved by `by` nanoseconds.
pub fn shifted(h: &Vec<Reply>, k: usize, by: i64) -> (r: i64)
    requires
        expect::is_time(h@, k),
        expect::shifts_by(h@, k, by),
    ensures
        r == expect::shifted(h@, k, by),
{
    time(h, k) + by
}

/// The file that the last reply is.
fn last_file(h: &Vec<Reply>) -> (r: Option<&ParquetFile>)
    ensures
        r is Some <==> expect::got_file(h@),
        r matches Some(f) ==> *f == h@.last()->File_0,
{
    if h.len() == 0 {
        return None;
    }
    match &h[h.len() - 1] {
        Reply::File(f) => Some(f),
        _ => None,
    }
}

/// The files that the last reply is.
fn last_files(h: &Vec<Reply>) -> (r: Option<&Vec<ParquetFile>>)
    ensures
        r is Some <==> expect::got_files(h@),
        r matches Some(list) ==> *list == h@.last()->Files_0,
{
    if h.len() == 0 {
        return None;
    }
    match &h[h.len() - 1] {
        Reply::Files(list) => Some(list),
        _ => None,
    }
}

/// Whether the file is the one of step `j`.
pub fn same_file(h: &Vec<Reply>, j: usize) -> (b: bool)
    requires
        expect::is_file(h@, j),
    ensures
        b == expect::same_file(h@, j),
{
    match last_file(h) {
        Some(f) => f.same(file(h, j)),
        None => false,
    }
}

/// Whether there are this many files.
pub fn file_count(h: &Vec<Reply>, count: usize) -> (b: bool)
    ensures
        b == expect::file_count(h@, count),
{
    match last_files(h) {
        Some(list) => list.len() == count,
        None => false,
    }
}

/// Whether there is one file, the one of step `a`.
pub fn only_file(h: &Vec<Reply>, a: usize) -> (r: bool)
    requires
        expect::is_file(h@, a),
    ensures
        r == expect::only_file(h@, a),
{
    match last_files(h) {
        Some(list) => {
            let wanted: Vec<&ParquetFile> = vec![file(h, a)];
            proof {
                assert(views(wanted@) =~= seq![expect::file(h@, a)]);
            }
            same_refs(&refs(list), &wanted)
        },
        None => false,
    }
}

/// Whether the files are those of steps `a` and `b`.
pub fn two_files(h: &Vec<Reply>, a: usize, b: usize) -> (r: bool)
    requires
        expect::is_file(h@, a),
        expect::is_file(h@, b),
    ensures
        r == expect::two_files(h@, a, b),
{
    match last_files(h) {
        Some(list) => {
            let wanted: Vec<&ParquetFile> = vec![file(h, a), file(h, b)];
            proof {
                assert(views(wanted@) =~= seq![expect::file(h@, a), expect::file(h@, b)]);
            }
            same_refs(&refs(list), &wanted)
        },
        None => false,
    }
}

/// Whether the files are those of steps `a`, `b` and `c`.
pub fn three_files(h: &Vec<Reply>, a: usize, b: usize, c: usize) -> (r: bool)
    requires
        expect::is_file(h@, a),
        expect::is_file(h@, b),
        expect::is_file(h@, c),
    ensures
        r == expect::three_files(h@, a, b, c),
{
    match last_files(h) {
        Some(list) => {
            let wanted: Vec<&ParquetFile> = vec![file(h, a), file(h, b), file(h, c)];
            proof {
                assert(views(wanted@) =~= seq![
                    expect::file(h@, a),
                    expect::file(h@, b),
                    expect::file(h@, c),
                ]);
            }
            same_refs(&refs(list), &wanted)
        },
        None => false,
    }
}

/// Whether there are this many files, all of this level.
pub fn files_of_level(h: &Vec<Reply>, level: CompactionLevel, count: usize) -> (b: bool)
    ensures
        b == expect::files_of_level(h@, level, count),
{
    match last_files(h) {
        Some(list) => {
            let mut i: usize = 0;
            while i < list.len()
                invariant
                    i <= list.len(),
                    expect::got_files(h@),
                    *list == h@.last()->Files_0,
                    forall|j: int| 0 <= j < i ==> (#[trigger] list@[j]).compaction_level == level,
                decreases list.len() - i,
            {
                if list[i].compaction_level != level {
                    return false;
                }
                i += 1;
            }
            list.len() == count
        },
        None => false,
    }
}

/// Whether there is an id ten after that of the file of step `b`, which the file of step `a` does
/// not have.
pub fn spare_id(h: &Vec<Reply>, a: usize, b: usize) -> (r: bool)
    requires
        expect::is_file(h@, a),
        expect::is_file(h@, b),
    ensures
        r == expect::spare_id(h@, a, b),
{
    match file(h, b).id.checked_add(10) {
        Some(id) => file(h, a).id != id,
        None => false,
    }
}

/// Whether the file of step `k` is not marked for deletion.
pub fn was_unmarked(h: &Vec<Reply>, k: usize) -> (b: bool)
    requires
        expect::is_file(h@, k),
    ensures
        b == expect::was_unmarked(h@, k),
{
    file(h, k).to_delete.is_none()
}

/// Whether the file is marked for deletion.
pub fn marked(h: &Vec<Reply>) -> (b: bool)
    ensures
        b == expect::marked(h@),
{
    match last_file(h) {
        Some(f) => f.to_delete.is_some(),
        None => false,
    }
}

/// Whether the file is not marked for deletion.
pub fn unmarked(h: &Vec<Reply>) -> (b: bool)
    ensures
        b == expect::unmarked(h@),
{
    match last_file(h) {
        Some(f) => f.to_delete.is_none(),
        None => false,
    }
}

/// Whether the file has this level.
pub fn has_level(h: &Vec<Reply>, level: CompactionLevel) -> (b: bool)
    ensures
        b == expect::has_level(h@, level),
{
    match last_file(h) {
        Some(f) => f.compaction_level == level,
        None => false,
    }
}

/// Whether the file has this source.
pub fn has_source(h: &Vec<Reply>, source: Option<ParquetFileSource>) -> (b: bool)
    ensures
        b == expect::has_source(h@, source),
{
    match last_file(h) {
        Some(f) => f.source == source,
        None => false,
    }
}

/// Whether the file was added when the file of step `k` was marked for deletion.
pub fn created_when_marked(h: &Vec<Reply>, k: usize) -> (b: bool)
    requires
        expect::is_file(h@, k),
    ensures
        b == expect::created_when_marked(h@, k),
{
    match last_file(h) {
        Some(f) => file(h, k).to_delete == Some(f.created_at),
        None => false,
    }
}

/// Whether the last reply counts this many.
pub fn count_is(h: &Vec<Reply>, count: u64) -> (b: bool)
    ensures
        b == expect::count_is(h@, count),
{
    h.len() > 0 && match &h[h.len() - 1] {
        Reply::Count(c) => *c == count,
        _ => false,
    }
}

/// Whether there are this many ids.
pub fn id_count(h: &Vec<Reply>, count: usize) -> (b: bool)
    ensures
        b == expect::id_count(h@, count),
{
    h.len() > 0 && match &h[h.len() - 1] {
        Reply::Ids(list) => list.len() == count,
        _ => false,
    }
}

/// Whether there are this many files with their partitions.
pub fn located_count(h: &Vec<Reply>, count: usize) -> (b: bool)
    ensures
        b == expect::located_count(h@, count),
{
    h.len() > 0 && match &h[h.len() - 1] {
        Reply::Located(list) => list.len() == count,
        _ => false,
    }
}

/// Whether there is more than one file with its partition.
pub fn several_located(h: &Vec<Reply>) -> (b: bool)
    ensures
        b == expect::several_located(h@),
{
    h.len() > 0 && match &h[h.len() - 1] {
        Reply::Located(list) => list.len() > 1,
        _ => false,
    }
}

/// Whether the ids in the object store are these two, in any order.
pub fn uuids_are(h: &Vec<Reply>, a: u128, b: u128) -> (r: bool)
    ensures
        r == expect::uuids_are(h@, a, b),
{
    h.len() > 0 && match &h[h.len() - 1] {
        Reply::ObjectStoreIds(list) => {
            let wanted: Vec<u128> = vec![a, b];
            proof {
                assert(views(wanted@) =~= seq![a, b]);
                assert(views(list@) =~= list@);
            }
            same_elements(list, &wanted)
        },
        _ => false,
    }
}

/// Whether the ids in the object store, with their partitions, are these three, in any order.
pub fn located_are(h: &Vec<Reply>, a: (i64, u128), b: (i64, u128), c: (i64, u128)) -> (r: bool)
    ensures
        r == expect::located_are(h@, a, b, c),
{
    h.len() > 0 && match &h[h.len() - 1] {
        Reply::Located(list) => {
            let wanted: Vec<(i64, u128)> = vec![a, b, c];
            proof {
                assert(views(wanted@) =~= seq![a, b, c]);
                assert(views(list@) =~= list@);
            }
            same_elements(list, &wanted)
        },
        _ => false,
    }
}

/// The first of the files of step `k`.
pub fn first_file<'a>(h: &'a Vec<Reply>, k: usize) -> (r: &'a ParquetFile)
    requires
        expect::is_files(h@, k),
        expect::files(h@, k).len() > 0,
    ensures
        r@ == expect::first_file(h@, k),
{
    &files(h, k)[0]
}

/// Whether there are `count` files, and they were compacted from files created at times `0`, `1`,
/// and so on.
pub fn oldest_files(h: &Vec<Reply>, count: u32) -> (b: bool)
    ensures
        b == expect::oldest_files(h@, count as int),
{
    match last_files(h) {
        Some(list) => {
            if list.len() != count as usize {
                return false;
            }
            let mut i: usize = 0;
            while i < list.len()
                invariant
                    i <= list.len(),
                    list.len() == count,
                    expect::got_files(h@),
                    *list == h@.last()->Files_0,
                    forall|j: int| 0 <= j < i ==> (#[trigger] list@[j]).max_l0_created_at == j,
                decreases list.len() - i,
            {
                if list[i].max_l0_created_at != i as i64 {
                    return false;
                }
                i += 1;
            }
            true
        },
        None => false,
    }
}

/// Whether the file has this id in the object store.
pub fn file_has_id(h: &Vec<Reply>, object_store_id: u128) -> (b: bool)
    ensures
        b == expect::file_has_id(h@, object_store_id),
{
    match last_file(h) {
        Some(f) => f.object_store_id == object_store_id,
        None => false,
    }
}

/// Whether there is one id, that of the partition of step `a`.
pub fn only_id(h: &Vec<Reply>, a: usize) -> (r: bool)
    requires
        expect::is_partition(h@, a),
    ensures
        r == expect::only_id(h@, a),
{
    h.len() > 0 && match &h[h.len() - 1] {
        Reply::Ids(list) => {
            let wanted: Vec<i64> = vec![partition(h, a).id];
            proof {
                assert(wanted@ =~= seq![expect::partition(h@, a).id]);
            }
            same_ints(list, &wanted)
        },
        _ => false,
    }
}

/// Whether, in their order, the ids are those of the partitions of steps `a` and `b`.
pub fn sorted_ids_are(h: &Vec<Reply>, a: usize, b: usize) -> (r: bool)
    requires
        expect::is_partition(h@, a),
        expect::is_partition(h@, b),
    ensures
        r == expect::sorted_ids_are(h@, a, b),
{
    h.len() > 0 && match &h[h.len() - 1] {
        Reply::Ids(list) => {
            let x: i64 = partition(h, a).id;
            let y: i64 = partition(h, b).id;
            let wanted: Vec<&i64> = vec![&x, &y];
            proof {
                assert(views(wanted@) =~= seq![x, y]);
                assert(views(list@) =~= list@);
            }
            same_refs(&sort_by_id(&refs(list)), &wanted)
        },
        _ => false,
    }
}

/// Whether there is a time right after the file of step `k` was added.
pub fn has_next_time(h: &Vec<Reply>, k: usize) -> (b: bool)
    requires
        expect::is_file(h@, k),
    ensures
        b == expect::has_next_time(h@, k),
{
    file(h, k).created_at < i64::MAX
}

/// The time right after the file of step `k` was added.
pub fn next_time(h: &Vec<Reply>, k: usize) -> (r: i64)
    requires
        expect::is_file(h@, k),
        expect::has_next_time(h@, k),
    ensures
        r == expect::next_time(h@, k),
{
    file(h, k).created_at + 1
}

/// Whether there is one file with its partition, that of step `k`'s parameters.
pub fn only_located(h: &Vec<Reply>, k: usize) -> (b: bool)
    requires
        expect::is_params(h@, k),
    ensures
        b == expect::only_located(h@, k),
{
    h.len() > 0 && match &h[h.len() - 1] {
        Reply::Located(list) => {
            let p: &ParquetFileParams = params(h, k);
            let same: bool = list.len() == 1 && list[0].0 == p.partition_id && list[0].1
                == p.object_store_id;
            proof {
                let wanted = seq![(p@.partition_id, p@.object_store_id)];
                assert(wanted[0] == (p@.partition_id, p@.object_store_id));
                if same {
                    assert(list@ =~= wanted);
                }
            }
            same
        },
        _ => false,
    }
}

/// The ids in the object store of files.
fn file_ids(list: &Vec<ParquetFile>) -> (ids: Vec<u128>)
    ensures
        ids@ == expect::file_ids(views(list@)),
{
    let mut ids: Vec<u128> = Vec::new();
    let mut i: usize = 0;
    while i < list.len()
        invariant
            i <= list.len(),
            ids@.len() == i,
            forall|j: int| 0 <= j < i ==> ids@[j] == (#[trigger] list@[j]).object_store_id,
        decreases list.len() - i,
    {
        ids.push(list[i].object_store_id);
        i += 1;
    }
    proof {
        assert(ids@ =~= expect::file_ids(views(list@)));
    }
    ids
}

/// Whether the files have these two ids in the object store, in any order.
pub fn file_ids_are(h: &Vec<Reply>, a: u128, b: u128) -> (r: bool)
    ensures
        r == expect::file_ids_are(h@, a, b),
{
    match last_files(h) {
        Some(list) => {
            let ids: Vec<u128> = file_ids(list);
            let wanted: Vec<u128> = vec![a, b];
            proof {
                assert(views(wanted@) =~= seq![a, b]);
                assert(views(ids@) =~= ids@);
            }
            same_elements(&ids, &wanted)
        },
        None => false,
    }
}

/// Whether there is at least one partition.
pub fn some_partition(h: &Vec<Reply>) -> (b: bool)
    ensures
        b == expect::some_partition(h@),
{
    match last_partitions(h) {
        Some(list) => list.len() > 0,
        None => false,
    }
}

/// Whether, in their order, `ids` are `wanted`.
fn sorted_ids_same(ids: &Vec<i64>, wanted: &Vec<i64>) -> (b: bool)
    ensures
        b == (sorted_by_id(ids@) == wanted@),
{
    proof {
        assert(views(ids@) =~= ids@);
        assert(views(wanted@) =~= wanted@);
    }
    same_refs(&sort_by_id(&refs(ids)), &refs(wanted))
}

/// The second ids of pairs.
fn seconds(list: &Vec<(i64, i64)>) -> (ids: Vec<i64>)
    ensures
        ids@ == expect::seconds(list@),
{
    let mut ids: Vec<i64> = Vec::new();
    let mut i: usize = 0;
    while i < list.len()
        invariant
            i <= list.len(),
            ids@.len() == i,
            forall|j: int| 0 <= j < i ==> ids@[j] == (#[trigger] list@[j]).1,
        decreases list.len() - i,
    {
        ids.push(list[i].1);
        i += 1;
    }
    proof {
        assert(ids@ =~= expect::seconds(list@));
    }
    ids
}

/// Whether the partitions that were removed, in the order of their ids, are these.
pub fn removed_are(h: &Vec<Reply>, ids: Vec<i64>) -> (b: bool)
    ensures
        b == expect::removed_are(h@, ids@),
{
    h.len() > 0 && match &h[h.len() - 1] {
        Reply::Retired(list) => sorted_ids_same(&seconds(list), &ids),
        _ => false,
    }
}

/// Whether the ids, in their order, are these.
pub fn remaining_are(h: &Vec<Reply>, ids: Vec<i64>) -> (b: bool)
    ensures
        b == expect::remaining_are(h@, ids@),
{
    h.len() > 0 && match &h[h.len() - 1] {
        Reply::Ids(list) => sorted_ids_same(list, &ids),
        _ => false,
    }
}

/// Whether a partition has this hash, and no sort key.
fn is_hashed_unsorted(p: &Partition, hash: &Vec<u8>) -> (b: bool)
    ensures
        b == (p@.hash_id == Some(hash@) && p@.sort_key_ids is None),
{
    match &p.hash_id {
        Some(x) => same_bytes(x, hash) && p.sort_key_ids.is_none(),
        None => false,
    }
}

/// Whether the partition has the hash of step `k`, and no sort key.
pub fn hashed_unsorted(h: &Vec<Reply>, k: usize) -> (b: bool)
    requires
        expect::is_bytes(h@, k),
    ensures
        b == expect::hashed_unsorted(h@, k),
{
    match last_partition(h) {
        Some(p) => is_hashed_unsorted(p, bytes(h, k)),
        None => false,
    }
}

/// Whether there is one partition, with the hash of step `k` and no sort key.
pub fn only_hashed_unsorted(h: &Vec<Reply>, k: usize) -> (b: bool)
    requires
        expect::is_bytes(h@, k),
    ensures
        b == expect::only_hashed_unsorted(h@, k),
{
    match last_partitions(h) {
        Some(list) => list.len() == 1 && is_hashed_unsorted(&list[0], bytes(h, k)),
        None => false,
    }
}

/// Whether the namespace of step `k` is listed with its schema.
pub fn lists(h: &Vec<Reply>, k: usize) -> (b: bool)
    requires
        expect::is_populated(h@, k),
    ensures
        b == expect::lists(h@, k),
{
    h.len() > 0 && match &h[h.len() - 1] {
        Reply::Schemas(list) => list_contains(list, populated(h, k)),
        _ => false,
    }
}

/// Whether the namespace of step `k` is not listed with its schema.
pub fn lists_not(h: &Vec<Reply>, k: usize) -> (b: bool)
    requires
        expect::is_populated(h@, k),
    ensures
        b == expect::lists_not(h@, k),
{
    h.len() > 0 && match &h[h.len() - 1] {
        Reply::Schemas(list) => !list_contains(list, populated(h, k)),
        _ => false,
    }
}

/// Whether the metrics tell of successful calls of an operation.
pub fn hit(h: &Vec<Reply>, operation: &str) -> (b: bool)
    ensures
        b == expect::hit(h@, operation@),
{
    h.len() > 0 && match &h[h.len() - 1] {
        Reply::Metrics(list) => assert_metric_hit(list, operation).is_ok(),
        _ => false,
    }
}

/// Whether the second of the minute is at most one away from that of step `k`.
pub fn near(h: &Vec<Reply>, k: usize) -> (b: bool)
    requires
        expect::is_second(h@, k),
    ensures
        b == expect::near(h@, k),
{
    h.len() > 0 && match &h[h.len() - 1] {
        Reply::Second(s) => {
            let t: u32 = second(h, k);
            if *s <= t {
                t - *s <= 1
            } else {
                *s - t <= 1
            }
        },
        _ => false,
    }
}

/// Whether there are this many samples.
pub fn samples_are(h: &Vec<Reply>, count: u64) -> (b: bool)
    ensures
        b == expect::samples_are(h@, count),
{
    h.len() > 0 && match &h[h.len() - 1] {
        Reply::Samples(s) => *s == count,
        _ => false,
    }
}

/// The type that was asked for under a name, if any was.
fn requested_type(requested: &Vec<(&str, ColumnType)>, name: &str) -> (r: Option<ColumnType>)
    ensures
        r == expect::requested_types(column_views(requested@)).get(name@),
{
    let ghost all: Seq<(Seq<char>, ColumnType)> = column_views(requested@);
    let mut found: Option<ColumnType> = None;
    let mut i: usize = 0;
    while i < requested.len()
        invariant
            i <= requested.len(),
            all == column_views(requested@),
            found == expect::requested_types(all.take(i as int)).get(name@),
        decreases requested.len() - i,
    {
        proof {
            assert(all.take(i + 1).drop_last() =~= all.take(i as int));
            assert(all.take(i + 1).last() == (requested@[i as int].0@, requested@[i as int].1));
        }
        if text_eq(requested[i].0, name) {
            found = Some(requested[i].1);
        }
        i += 1;
    }
    proof {
        assert(all.take(requested@.len() as int) =~= all);
    }
    found
}

/// The names that are asked for are those that occur in the list.
pub proof fn lemma_requested_names(requested: Seq<(Seq<char>, ColumnType)>)
    ensures
        expect::requested_types(requested).dom().finite(),
        forall|name: Seq<char>|
            expect::requested_types(requested).dom().contains(name) <==> exists|i: int|
                0 <= i < requested.len() && (#[trigger] requested[i]).0 == name,
    decreases requested.len(),
{
    if requested.len() > 0 {
        let rest = requested.drop_last();
        lemma_requested_names(rest);
        assert forall|name: Seq<char>|
            expect::requested_types(requested).dom().contains(name) implies exists|i: int|
            0 <= i < requested.len() && (#[trigger] requested[i]).0 == name by {
            if name == requested.last().0 {
                assert(requested[requested.len() - 1].0 == name);
            } else {
                assert(expect::requested_types(rest).dom().contains(name));
                let i = choose|i: int| 0 <= i < rest.len() && (#[trigger] rest[i]).0 == name;
                assert(requested[i].0 == name);
            }
        }
        assert forall|name: Seq<char>|
            (exists|i: int|
                0 <= i < requested.len() && (#[trigger] requested[i]).0
                    == name) implies expect::requested_types(requested).dom().contains(name) by {
            let i = choose|i: int| 0 <= i < requested.len() && (#[trigger] requested[i]).0 == name;
            if i < rest.len() {
                assert(rest[i].0 == name);
            }
        }
    }
}

/// How many different names were asked for.
fn requested_count(requested: &Vec<(&str, ColumnType)>) -> (count: usize)
    ensures
        count == expect::requested_types(column_views(requested@)).len(),
{
    let ghost all: Seq<(Seq<char>, ColumnType)> = column_views(requested@);
    let mut count: usize = 0;
    let mut i: usize = 0;
    proof {
        assert(expect::requested_types(all.take(0)) =~= Map::empty());
    }
    while i < requested.len()
        invariant
            i <= requested.len(),
            all == column_views(requested@),
            count <= i,
            count == expect::requested_types(all.take(i as int)).len(),
        decreases requested.len() - i,
    {
        let ghost before: Seq<(Seq<char>, ColumnType)> = all.take(i as int);
        let mut known: bool = false;
        let mut j: usize = 0;
        while j < i
            invariant
                j <= i < requested.len(),
                all == column_views(requested@),
                known == (exists|m: int| 0 <= m < j && (#[trigger] all[m]).0 == all[i as int].0),
            decreases i - j,
        {
            proof {
                assert(all[j as int].0 == requested@[j as int].0@);
                assert(all[i as int].0 == requested@[i as int].0@);
            }
            if text_eq(requested[j].0, requested[i].0) {
                known = true;
            }
            j += 1;
        }
        proof {
            lemma_requested_names(before);
            let name = all[i as int].0;
            if known {
                let m = choose|m: int| 0 <= m < i && (#[trigger] all[m]).0 == name;
                assert(before[m].0 == name);
            } else {
                assert forall|m: int| 0 <= m < before.len() implies (#[trigger] before[m]).0
                    != name by {
                    assert(all[m].0 != name);
                }
            }
            assert(all.take(i + 1).drop_last() =~= before);
            assert(all.take(i + 1).last() == all[i as int]);
            assert(expect::requested_types(all.take(i + 1)).dom() =~= expect::requested_types(
                before,
            ).dom().insert(name));
        }
        if !known {
            count += 1;
        }
        i += 1;
    }
    proof {
        assert(all.take(requested@.len() as int) =~= all);
    }
    count
}

/// Whether no two columns have the same name.
fn names_distinct(list: &Vec<Column>) -> (b: bool)
    ensures
        b == expect::names_distinct(views(list@)),
{
    let ghost all: Seq<ColumnView> = views(list@);
    let mut j: usize = 0;
    while j < list.len()
        invariant
            j <= list.len(),
            all == views(list@),
            forall|a: int, b: int| 0 <= a < b < j ==> (#[trigger] all[a]).name != (
            #[trigger] all[b]).name,
        decreases list.len() - j,
    {
        let mut i: usize = 0;
        while i < j
            invariant
                i <= j < list.len(),
                all == views(list@),
                forall|a: int| 0 <= a < i ==> (#[trigger] all[a]).name != all[j as int].name,
            decreases j - i,
        {
            proof {
                assert(all[i as int] == list@[i as int]@);
                assert(all[j as int] == list@[j as int]@);
            }
            if text_eq(list[i].name.as_str(), list[j].name.as_str()) {
                return false;
            }
            i += 1;
        }
        j += 1;
    }
    true
}

/// Whether the columns are those that were asked for, each name once and with its type, and in the
/// table of step `k`.
pub fn as_requested(h: &Vec<Reply>, k: usize, requested: &Vec<(&str, ColumnType)>) -> (b: bool)
    requires
        expect::is_table(h@, k),
    ensures
        b == expect::as_requested(h@, k, column_views(requested@)),
{
    match last_columns(h) {
        Some(list) => {
            let ghost types: Map<Seq<char>, ColumnType> = expect::requested_types(
                column_views(requested@),
            );
            proof {
                assert(views(list@).len() == list@.len());
            }
            if list.len() != requested_count(requested) || !names_distinct(list) {
                return false;
            }
            let id: i64 = table(h, k).id;
            let mut i: usize = 0;
            while i < list.len()
                invariant
                    i <= list.len(),
                    list.len() == types.len(),
                    expect::names_distinct(views(list@)),
                    types == expect::requested_types(column_views(requested@)),
                    expect::got_columns(h@),
                    *list == h@.last()->Columns_0,
                    id == expect::table(h@, k).id,
                    forall|j: int|
                        0 <= j < i ==> (#[trigger] views(list@)[j]).table_id == id
                            && types.contains_pair(
                                views(list@)[j].name,
                                views(list@)[j].column_type,
                            ),
                decreases list.len() - i,
            {
                proof {
                    assert(views(list@)[i as int] == list@[i as int]@);
                }
                if list[i].table_id != id {
                    return false;
                }
                match requested_type(requested, list[i].name.as_str()) {
                    Some(t) => {
                        if t != list[i].column_type {
                            return false;
                        }
                    },
                    None => {
                        return false;
                    },
                }
                i += 1;
            }
            true
        },
        None => false,
    }
}

} // verus!
