//! What a catalog holds and hands out.
use crate::naming::{by_name, same_by_name, HasName, Named};
use crate::same::{
    same_ints, same_list, same_option_bytes, same_option_ints, same_option_list, view_option,
    view_option_list, views, Same,
};
use crate::sorting::{Identified, Keyed};
use vstd::prelude::*;

verus! {

/// What a column holds.
#[derive(Debug, Clone, Copy, PartialEq, Eq, Structural)]
pub enum ColumnType {
    I64,
    U64,
    F64,
    Bool,
    String,
    Time,
    Tag,
}

/// How far a file has been compacted.
#[derive(Debug, Clone, Copy, PartialEq, Eq, Structural)]
pub enum CompactionLevel {
    Initial,
    FileNonOverlapped,
    Final,
}

/// Where a file came from.
#[derive(Debug, Clone, Copy, PartialEq, Eq, Structural)]
pub enum ParquetFileSource {
    BulkIngest,
    Other,
}

/// The latest creation time among the files that a file was compacted from.
#[derive(Debug, Clone, Copy, PartialEq, Eq, Structural)]
pub enum MaxL0CreatedAt {
    /// It was not compacted from other files.
    NotCompacted,
    /// It was compacted from files of which the latest was created then.
    Computed(i64),
}

/// Which rows a read takes into account.
#[derive(Debug, Clone, Copy, PartialEq, Eq, Structural)]
pub enum SoftDeletedRows {
    /// all of them
    AllRows,
    /// those that are not soft-deleted
    ExcludeDeleted,
    /// those that are soft-deleted
    OnlyDeleted,
}

impl SoftDeletedRows {
    /// A read of these rows sees a row that was soft-deleted at `deleted_at`, or never.
    pub open spec fn sees(self, deleted_at: Option<i64>) -> bool {
        match self {
            SoftDeletedRows::AllRows => true,
            SoftDeletedRows::ExcludeDeleted => deleted_at is None,
            SoftDeletedRows::OnlyDeleted => deleted_at is Some,
        }
    }
}

/// Which rule a refused request breaks.
#[derive(Debug, Clone, Copy, PartialEq, Eq, Structural)]
pub enum ErrorKind {
    AlreadyExists,
    NotFound,
    LimitExceeded,
    Other,
}

/// One part of a partition template.
#[derive(Debug, Clone)]
pub enum TemplatePart {
    /// the value of this tag
    TagValue(String),
    /// the time of the row in this format
    TimeFormat(String),
}

/// The model of a [`TemplatePart`].
#[verifier::ext_equal]
pub enum TemplatePartView {
    TagValue(Seq<char>),
    TimeFormat(Seq<char>),
}

impl View for TemplatePart {
    type V = TemplatePartView;

    open spec fn view(&self) -> TemplatePartView {
        match *self {
            TemplatePart::TagValue(tag) => TemplatePartView::TagValue(tag@),
            TemplatePart::TimeFormat(format) => TemplatePartView::TimeFormat(format@),
        }
    }
}

impl Same for TemplatePart {
    fn same(&self, other: &Self) -> (b: bool) {
        match (self, other) {
            (TemplatePart::TagValue(a), TemplatePart::TagValue(b)) => a.same(b),
            (TemplatePart::TimeFormat(a), TemplatePart::TimeFormat(b)) => a.same(b),
            _ => false,
        }
    }
}

/// How the rows of a table are split into partitions. `None` stands for the default template.
#[derive(Debug, Clone)]
pub struct Template {
    /// the parts of a template that overrides the default
    pub parts: Option<Vec<TemplatePart>>,
}

/// The model of a [`Template`].
#[verifier::ext_equal]
pub struct TemplateView {
    pub parts: Option<Seq<TemplatePartView>>,
}

impl View for Template {
    type V = TemplateView;

    open spec fn view(&self) -> TemplateView {
        TemplateView {
            parts: view_option_list(self.parts),
        }
    }
}

impl Same for Template {
    fn same(&self, other: &Self) -> (b: bool) {
        same_option_list(&self.parts, &other.parts)
    }
}

/// A namespace: the tables of one tenant and the limits that hold for them.
#[derive(Debug, Clone)]
pub struct Namespace {
    /// identifies the namespace
    pub id: i64,
    /// unique among all namespaces
    pub name: String,
    /// for how long data is kept; `None` keeps it for ever
    pub retention_period_ns: Option<i64>,
    /// how many tables the namespace may have
    pub max_tables: i32,
    /// how many columns each of its tables may have
    pub max_columns_per_table: i32,
    /// when the namespace was soft-deleted, if it was
    pub deleted_at: Option<i64>,
    /// the template of tables that bring none of their own
    pub partition_template: Template,
    /// advances with every change of the namespace
    pub router_version: i64,
}

/// The model of a [`Namespace`].
#[verifier::ext_equal]
pub struct NamespaceView {
    pub id: i64,
    pub name: Seq<char>,
    pub retention_period_ns: Option<i64>,
    pub max_tables: i32,
    pub max_columns_per_table: i32,
    pub deleted_at: Option<i64>,
    pub partition_template: TemplateView,
    pub router_version: i64,
}

impl View for Namespace {
    type V = NamespaceView;

    open spec fn view(&self) -> NamespaceView {
        NamespaceView {
            id: self.id,
            name: self.name@,
            retention_period_ns: self.retention_period_ns,
            max_tables: self.max_tables,
            max_columns_per_table: self.max_columns_per_table,
            deleted_at: self.deleted_at,
            partition_template: self.partition_template@,
            router_version: self.router_version,
        }
    }
}

impl Same for Namespace {
    fn same(&self, other: &Self) -> (b: bool) {
        self.id == other.id
            && self.name.same(&other.name)
            && self.retention_period_ns == other.retention_period_ns
            && self.max_tables == other.max_tables
            && self.max_columns_per_table == other.max_columns_per_table
            && self.deleted_at == other.deleted_at
            && self.partition_template.same(&other.partition_template)
            && self.router_version == other.router_version
    }
}

impl Keyed for NamespaceView {
    open spec fn key(self) -> i64 {
        self.id
    }
}

impl Identified for Namespace {
    fn id(&self) -> (id: i64) {
        self.id
    }
}

/// A table of a namespace.
#[derive(Debug, Clone)]
pub struct Table {
    /// identifies the table
    pub id: i64,
    /// the namespace that the table belongs to
    pub namespace_id: i64,
    /// unique within the namespace
    pub name: String,
    /// how the rows are split
    pub partition_template: Template,
}

/// The model of a [`Table`].
#[verifier::ext_equal]
pub struct TableView {
    pub id: i64,
    pub namespace_id: i64,
    pub name: Seq<char>,
    pub partition_template: TemplateView,
}

impl View for Table {
    type V = TableView;

    open spec fn view(&self) -> TableView {
        TableView {
            id: self.id,
            namespace_id: self.namespace_id,
            name: self.name@,
            partition_template: self.partition_template@,
        }
    }
}

impl Same for Table {
    fn same(&self, other: &Self) -> (b: bool) {
        self.id == other.id
            && self.namespace_id == other.namespace_id
            && self.name.same(&other.name)
            && self.partition_template.same(&other.partition_template)
    }
}

impl Keyed for TableView {
    open spec fn key(self) -> i64 {
        self.id
    }
}

impl Identified for Table {
    fn id(&self) -> (id: i64) {
        self.id
    }
}

/// A column of a table.
#[derive(Debug, Clone)]
pub struct Column {
    /// identifies the column
    pub id: i64,
    /// the table that the column belongs to
    pub table_id: i64,
    /// unique within the table
    pub name: String,
    /// what the column holds
    pub column_type: ColumnType,
}

/// The model of a [`Column`].
#[verifier::ext_equal]
pub struct ColumnView {
    pub id: i64,
    pub table_id: i64,
    pub name: Seq<char>,
    pub column_type: ColumnType,
}

impl View for Column {
    type V = ColumnView;

    open spec fn view(&self) -> ColumnView {
        ColumnView {
            id: self.id,
            table_id: self.table_id,
            name: self.name@,
            column_type: self.column_type,
        }
    }
}

impl Same for Column {
    fn same(&self, other: &Self) -> (b: bool) {
        self.id == other.id
            && self.table_id == other.table_id
            && self.name.same(&other.name)
            && self.column_type == other.column_type
    }
}

impl Keyed for ColumnView {
    open spec fn key(self) -> i64 {
        self.id
    }
}

impl Identified for Column {
    fn id(&self) -> (id: i64) {
        self.id
    }
}

/// A partition of a table.
#[derive(Debug, Clone)]
pub struct Partition {
    /// identifies the partition
    pub id: i64,
    /// derived from the table and the partition key
    pub hash_id: Option<Vec<u8>>,
    /// the table that the partition belongs to
    pub table_id: i64,
    /// unique within the table
    pub partition_key: String,
    /// the columns by which files are sorted, once that is known
    pub sort_key_ids: Option<Vec<i64>>,
    /// when the last file of level `Initial` came in
    pub new_file_at: Option<i64>,
    /// when the partition was created, where that was recorded
    pub created_at: Option<i64>,
}

/// The model of a [`Partition`].
#[verifier::ext_equal]
pub struct PartitionView {
    pub id: i64,
    pub hash_id: Option<Seq<u8>>,
    pub table_id: i64,
    pub partition_key: Seq<char>,
    pub sort_key_ids: Option<Seq<i64>>,
    pub new_file_at: Option<i64>,
    pub created_at: Option<i64>,
}

impl View for Partition {
    type V = PartitionView;

    open spec fn view(&self) -> PartitionView {
        PartitionView {
            id: self.id,
            hash_id: view_option(self.hash_id),
            table_id: self.table_id,
            partition_key: self.partition_key@,
            sort_key_ids: view_option(self.sort_key_ids),
            new_file_at: self.new_file_at,
            created_at: self.created_at,
        }
    }
}

impl Same for Partition {
    fn same(&self, other: &Self) -> (b: bool) {
        self.id == other.id
            && same_option_bytes(&self.hash_id, &other.hash_id)
            && self.table_id == other.table_id
            && self.partition_key.same(&other.partition_key)
            && same_option_ints(&self.sort_key_ids, &other.sort_key_ids)
            && self.new_file_at == other.new_file_at
            && self.created_at == other.created_at
    }
}

impl Keyed for PartitionView {
    open spec fn key(self) -> i64 {
        self.id
    }
}

impl Identified for Partition {
    fn id(&self) -> (id: i64) {
        self.id
    }
}

/// A file of a partition.
#[derive(Debug, Clone)]
pub struct ParquetFile {
    /// identifies the file in the catalog
    pub id: i64,
    /// the namespace that the file belongs to
    pub namespace_id: i64,
    /// the table that the file belongs to
    pub table_id: i64,
    /// the partition that the file belongs to
    pub partition_id: i64,
    /// the hash of that partition
    pub partition_hash_id: Option<Vec<u8>>,
    /// identifies the file in the object store
    pub object_store_id: u128,
    /// the earliest time of a row
    pub min_time: i64,
    /// the latest time of a row
    pub max_time: i64,
    /// when the file was marked for deletion, if it was
    pub to_delete: Option<i64>,
    /// the size of the file
    pub file_size_bytes: i64,
    /// how many rows the file has
    pub row_count: i64,
    /// how far the file has been compacted
    pub compaction_level: CompactionLevel,
    /// when the file was added to the catalog
    pub created_at: i64,
    /// the columns that the file has
    pub column_set: Vec<i64>,
    /// the latest creation time among the files that it was compacted from
    pub max_l0_created_at: i64,
    /// where the file came from
    pub source: Option<ParquetFileSource>,
}

/// The model of a [`ParquetFile`].
#[verifier::ext_equal]
pub struct ParquetFileView {
    pub id: i64,
    pub namespace_id: i64,
    pub table_id: i64,
    pub partition_id: i64,
    pub partition_hash_id: Option<Seq<u8>>,
    pub object_store_id: u128,
    pub min_time: i64,
    pub max_time: i64,
    pub to_delete: Option<i64>,
    pub file_size_bytes: i64,
    pub row_count: i64,
    pub compaction_level: CompactionLevel,
    pub created_at: i64,
    pub column_set: Seq<i64>,
    pub max_l0_created_at: i64,
    pub source: Option<ParquetFileSource>,
}

impl View for ParquetFile {
    type V = ParquetFileView;

    open spec fn view(&self) -> ParquetFileView {
        ParquetFileView {
            id: self.id,
            namespace_id: self.namespace_id,
            table_id: self.table_id,
            partition_id: self.partition_id,
            partition_hash_id: view_option(self.partition_hash_id),
            object_store_id: self.object_store_id,
            min_time: self.min_time,
            max_time: self.max_time,
            to_delete: self.to_delete,
            file_size_bytes: self.file_size_bytes,
            row_count: self.row_count,
            compaction_level: self.compaction_level,
            created_at: self.created_at,
            column_set: self.column_set@,
            max_l0_created_at: self.max_l0_created_at,
            source: self.source,
        }
    }
}

impl Same for ParquetFile {
    fn same(&self, other: &Self) -> (b: bool) {
        self.id == other.id
            && self.namespace_id == other.namespace_id
            && self.table_id == other.table_id
            && self.partition_id == other.partition_id
            && same_option_bytes(&self.partition_hash_id, &other.partition_hash_id)
            && self.object_store_id == other.object_store_id
            && self.min_time == other.min_time
            && self.max_time == other.max_time
            && self.to_delete == other.to_delete
            && self.file_size_bytes == other.file_size_bytes
            && self.row_count == other.row_count
            && self.compaction_level == other.compaction_level
            && self.created_at == other.created_at
            && same_ints(&self.column_set, &other.column_set)
            && self.max_l0_created_at == other.max_l0_created_at
            && self.source == other.source
    }
}

impl Keyed for ParquetFileView {
    open spec fn key(self) -> i64 {
        self.id
    }
}

impl Identified for ParquetFile {
    fn id(&self) -> (id: i64) {
        self.id
    }
}

/// What a caller says of a file that it adds to the catalog.
#[derive(Debug, Clone)]
pub struct ParquetFileParams {
    /// the namespace that the file belongs to
    pub namespace_id: i64,
    /// the table that the file belongs to
    pub table_id: i64,
    /// the partition that the file belongs to
    pub partition_id: i64,
    /// the hash of that partition
    pub partition_hash_id: Option<Vec<u8>>,
    /// identifies the file in the object store
    pub object_store_id: u128,
    /// the earliest time of a row
    pub min_time: i64,
    /// the latest time of a row
    pub max_time: i64,
    /// the size of the file
    pub file_size_bytes: i64,
    /// how many rows the file has
    pub row_count: i64,
    /// how far the file has been compacted
    pub compaction_level: CompactionLevel,
    /// when the file was written
    pub created_at: i64,
    /// the columns that the file has
    pub column_set: Vec<i64>,
    /// the latest creation time among the files that it was compacted from
    pub max_l0_created_at: MaxL0CreatedAt,
    /// where the file came from
    pub source: Option<ParquetFileSource>,
}

/// The model of a [`ParquetFileParams`].
#[verifier::ext_equal]
pub struct ParquetFileParamsView {
    pub namespace_id: i64,
    pub table_id: i64,
    pub partition_id: i64,
    pub partition_hash_id: Option<Seq<u8>>,
    pub object_store_id: u128,
    pub min_time: i64,
    pub max_time: i64,
    pub file_size_bytes: i64,
    pub row_count: i64,
    pub compaction_level: CompactionLevel,
    pub created_at: i64,
    pub column_set: Seq<i64>,
    pub max_l0_created_at: MaxL0CreatedAt,
    pub source: Option<ParquetFileSource>,
}

impl View for ParquetFileParams {
    type V = ParquetFileParamsView;

    open spec fn view(&self) -> ParquetFileParamsView {
        ParquetFileParamsView {
            namespace_id: self.namespace_id,
            table_id: self.table_id,
            partition_id: self.partition_id,
            partition_hash_id: view_option(self.partition_hash_id),
            object_store_id: self.object_store_id,
            min_time: self.min_time,
            max_time: self.max_time,
            file_size_bytes: self.file_size_bytes,
            row_count: self.row_count,
            compaction_level: self.compaction_level,
            created_at: self.created_at,
            column_set: self.column_set@,
            max_l0_created_at: self.max_l0_created_at,
            source: self.source,
        }
    }
}

/// Why the compaction of a partition was skipped.
#[derive(Debug, Clone)]
pub struct SkippedCompaction {
    /// the partition that was skipped
    pub partition_id: i64,
    /// in the words of the compactor
    pub reason: String,
    /// when it was skipped
    pub skipped_at: i64,
    /// how many files there were
    pub num_files: i64,
    /// how many there may be
    pub limit_num_files: i64,
    /// how many there may be when the partition is compacted first
    pub limit_num_files_first_in_partition: i64,
    /// how much memory was estimated
    pub estimated_bytes: i64,
    /// how much may be used
    pub limit_bytes: i64,
}

/// The model of a [`SkippedCompaction`].
#[verifier::ext_equal]
pub struct SkippedCompactionView {
    pub partition_id: i64,
    pub reason: Seq<char>,
    pub skipped_at: i64,
    pub num_files: i64,
    pub limit_num_files: i64,
    pub limit_num_files_first_in_partition: i64,
    pub estimated_bytes: i64,
    pub limit_bytes: i64,
}

impl View for SkippedCompaction {
    type V = SkippedCompactionView;

    open spec fn view(&self) -> SkippedCompactionView {
        SkippedCompactionView {
            partition_id: self.partition_id,
            reason: self.reason@,
            skipped_at: self.skipped_at,
            num_files: self.num_files,
            limit_num_files: self.limit_num_files,
            limit_num_files_first_in_partition: self.limit_num_files_first_in_partition,
            estimated_bytes: self.estimated_bytes,
            limit_bytes: self.limit_bytes,
        }
    }
}

impl Same for SkippedCompaction {
    fn same(&self, other: &Self) -> (b: bool) {
        self.partition_id == other.partition_id
            && self.reason.same(&other.reason)
            && self.skipped_at == other.skipped_at
            && self.num_files == other.num_files
            && self.limit_num_files == other.limit_num_files
            && self.limit_num_files_first_in_partition == other.limit_num_files_first_in_partition
            && self.estimated_bytes == other.estimated_bytes
            && self.limit_bytes == other.limit_bytes
    }
}

/// A column in the schema of a table.
#[derive(Debug, Clone)]
pub struct ColumnSchema {
    /// unique within the table
    pub name: String,
    /// identifies the column
    pub id: i64,
    /// what the column holds
    pub column_type: ColumnType,
}

/// The model of a [`ColumnSchema`].
#[verifier::ext_equal]
pub struct ColumnSchemaView {
    pub name: Seq<char>,
    pub id: i64,
    pub column_type: ColumnType,
}

impl View for ColumnSchema {
    type V = ColumnSchemaView;

    open spec fn view(&self) -> ColumnSchemaView {
        ColumnSchemaView {
            name: self.name@,
            id: self.id,
            column_type: self.column_type,
        }
    }
}

impl Same for ColumnSchema {
    fn same(&self, other: &Self) -> (b: bool) {
        self.name.same(&other.name)
            && self.id == other.id
            && self.column_type == other.column_type
    }
}

impl HasName for ColumnSchemaView {
    open spec fn its_name(self) -> Seq<char> {
        self.name
    }
}

impl Named for ColumnSchema {
    fn name(&self) -> (name: &str) {
        self.name.as_str()
    }
}

/// A table in the schema of a namespace.
#[derive(Debug, Clone)]
pub struct TableSchema {
    /// unique within the namespace
    pub name: String,
    /// identifies the table
    pub id: i64,
    /// how the rows are split
    pub partition_template: Template,
    /// the columns, by their names
    pub columns: Vec<ColumnSchema>,
}

/// The model of a [`TableSchema`].
#[verifier::ext_equal]
pub struct TableSchemaView {
    pub name: Seq<char>,
    pub id: i64,
    pub partition_template: TemplateView,
    pub columns: Map<Seq<char>, ColumnSchemaView>,
}

impl View for TableSchema {
    type V = TableSchemaView;

    open spec fn view(&self) -> TableSchemaView {
        TableSchemaView {
            name: self.name@,
            id: self.id,
            partition_template: self.partition_template@,
            columns: by_name(views(self.columns@)),
        }
    }
}

impl Same for TableSchema {
    fn same(&self, other: &Self) -> (b: bool) {
        self.name.same(&other.name)
            && self.id == other.id
            && self.partition_template.same(&other.partition_template)
            && same_by_name(&self.columns, &other.columns)
    }
}

impl HasName for TableSchemaView {
    open spec fn its_name(self) -> Seq<char> {
        self.name
    }
}

impl Named for TableSchema {
    fn name(&self) -> (name: &str) {
        self.name.as_str()
    }
}

/// The schema of a namespace.
#[derive(Debug, Clone)]
pub struct NamespaceSchema {
    /// identifies the namespace
    pub id: i64,
    /// for how long data is kept; `None` keeps it for ever
    pub retention_period_ns: Option<i64>,
    /// how many tables the namespace may have
    pub max_tables: i32,
    /// how many columns each of its tables may have
    pub max_columns_per_table: i32,
    /// the template of tables that bring none of their own
    pub partition_template: Template,
    /// the tables, by their names
    pub tables: Vec<TableSchema>,
}

/// The model of a [`NamespaceSchema`].
#[verifier::ext_equal]
pub struct NamespaceSchemaView {
    pub id: i64,
    pub retention_period_ns: Option<i64>,
    pub max_tables: i32,
    pub max_columns_per_table: i32,
    pub partition_template: TemplateView,
    pub tables: Map<Seq<char>, TableSchemaView>,
}

impl View for NamespaceSchema {
    type V = NamespaceSchemaView;

    open spec fn view(&self) -> NamespaceSchemaView {
        NamespaceSchemaView {
            id: self.id,
            retention_period_ns: self.retention_period_ns,
            max_tables: self.max_tables,
            max_columns_per_table: self.max_columns_per_table,
            partition_template: self.partition_template@,
            tables: by_name(views(self.tables@)),
        }
    }
}

impl Same for NamespaceSchema {
    fn same(&self, other: &Self) -> (b: bool) {
        self.id == other.id
            && self.retention_period_ns == other.retention_period_ns
            && self.max_tables == other.max_tables
            && self.max_columns_per_table == other.max_columns_per_table
            && self.partition_template.same(&other.partition_template)
            && same_by_name(&self.tables, &other.tables)
    }
}

/// A namespace together with its schema.
#[derive(Debug, Clone)]
pub struct Populated {
    /// the namespace
    pub namespace: Namespace,
    /// its schema
    pub schema: NamespaceSchema,
}

/// The model of a [`Populated`].
#[verifier::ext_equal]
pub struct PopulatedView {
    pub namespace: NamespaceView,
    pub schema: NamespaceSchemaView,
}

impl View for Populated {
    type V = PopulatedView;

    open spec fn view(&self) -> PopulatedView {
        PopulatedView {
            namespace: self.namespace@,
            schema: self.schema@,
        }
    }
}

impl Same for Populated {
    fn same(&self, other: &Self) -> (b: bool) {
        self.namespace.same(&other.namespace)
            && self.schema.same(&other.schema)
    }
}

/// A column of a batch.
#[derive(Debug, Clone)]
pub struct BatchColumn {
    /// unique within the batch
    pub name: String,
    /// what the column holds
    pub column_type: ColumnType,
}

/// The model of a [`BatchColumn`].
#[verifier::ext_equal]
pub struct BatchColumnView {
    pub name: Seq<char>,
    pub column_type: ColumnType,
}

impl View for BatchColumn {
    type V = BatchColumnView;

    open spec fn view(&self) -> BatchColumnView {
        BatchColumnView {
            name: self.name@,
            column_type: self.column_type,
        }
    }
}

/// The columns that a write brings for one table.
#[derive(Debug, Clone)]
pub struct Batch {
    /// the name of the table
    pub table: String,
    /// its columns
    pub columns: Vec<BatchColumn>,
}

/// The model of a [`Batch`].
#[verifier::ext_equal]
pub struct BatchView {
    pub table: Seq<char>,
    pub columns: Seq<BatchColumnView>,
}

impl View for Batch {
    type V = BatchView;

    open spec fn view(&self) -> BatchView {
        BatchView {
            table: self.table@,
            columns: views(self.columns@),
        }
    }
}

/// What a snapshot tells of one thing that it holds.
#[derive(Debug, Clone)]
pub struct Entry {
    /// identifies the thing
    pub id: i64,
    /// its name or its key, in UTF-8
    pub name: Vec<u8>,
}

/// The model of a [`Entry`].
#[verifier::ext_equal]
pub struct EntryView {
    pub id: i64,
    pub name: Seq<u8>,
}

impl View for Entry {
    type V = EntryView;

    open spec fn view(&self) -> EntryView {
        EntryView {
            id: self.id,
            name: self.name@,
        }
    }
}

impl Keyed for EntryView {
    open spec fn key(self) -> i64 {
        self.id
    }
}

impl Identified for Entry {
    fn id(&self) -> (id: i64) {
        self.id
    }
}

/// A snapshot of all namespaces.
#[derive(Debug, Clone)]
pub struct RootSnapshot {
    /// by which the snapshot is found again for a lookup
    pub handle: u64,
    /// grows from snapshot to snapshot
    pub generation: u64,
    /// how many namespaces it holds; `None` when they cannot be decoded
    pub namespaces: Option<usize>,
}

/// The model of a [`RootSnapshot`].
#[verifier::ext_equal]
pub struct RootSnapshotView {
    pub handle: u64,
    pub generation: u64,
    pub namespaces: Option<usize>,
}

impl View for RootSnapshot {
    type V = RootSnapshotView;

    open spec fn view(&self) -> RootSnapshotView {
        RootSnapshotView {
            handle: self.handle,
            generation: self.generation,
            namespaces: self.namespaces,
        }
    }
}

/// A snapshot of one namespace.
#[derive(Debug, Clone)]
pub struct NamespaceSnapshot {
    /// by which the snapshot is found again for a lookup
    pub handle: u64,
    /// grows from snapshot to snapshot
    pub generation: u64,
    /// the namespace; `None` when it cannot be decoded
    pub namespace: Option<Namespace>,
    /// how many tables it holds; `None` when they cannot be decoded
    pub tables: Option<usize>,
}

/// The model of a [`NamespaceSnapshot`].
#[verifier::ext_equal]
pub struct NamespaceSnapshotView {
    pub handle: u64,
    pub generation: u64,
    pub namespace: Option<NamespaceView>,
    pub tables: Option<usize>,
}

impl View for NamespaceSnapshot {
    type V = NamespaceSnapshotView;

    open spec fn view(&self) -> NamespaceSnapshotView {
        NamespaceSnapshotView {
            handle: self.handle,
            generation: self.generation,
            namespace: view_option(self.namespace),
            tables: self.tables,
        }
    }
}

/// A snapshot of one table.
#[derive(Debug, Clone)]
pub struct TableSnapshot {
    /// grows from snapshot to snapshot
    pub generation: u64,
    /// the table; `None` when it cannot be decoded
    pub table: Option<Table>,
    /// its columns; `None` when they cannot be decoded
    pub columns: Option<Vec<Column>>,
    /// its partitions; `None` when they cannot be decoded
    pub partitions: Option<Vec<Entry>>,
}

/// The model of a [`TableSnapshot`].
#[verifier::ext_equal]
pub struct TableSnapshotView {
    pub generation: u64,
    pub table: Option<TableView>,
    pub columns: Option<Seq<ColumnView>>,
    pub partitions: Option<Seq<EntryView>>,
}

impl View for TableSnapshot {
    type V = TableSnapshotView;

    open spec fn view(&self) -> TableSnapshotView {
        TableSnapshotView {
            generation: self.generation,
            table: view_option(self.table),
            columns: view_option_list(self.columns),
            partitions: view_option_list(self.partitions),
        }
    }
}

/// A snapshot of one partition.
#[derive(Debug, Clone)]
pub struct PartitionSnapshot {
    /// grows from snapshot to snapshot
    pub generation: u64,
    /// the partition that it is of
    pub partition_id: i64,
    /// the partition; `None` when it cannot be decoded
    pub partition: Option<Partition>,
    /// its files; `None` when they cannot be decoded
    pub files: Option<Vec<ParquetFile>>,
    /// why its compaction was skipped, if it was
    pub skipped_compaction: Option<SkippedCompaction>,
}

/// The model of a [`PartitionSnapshot`].
#[verifier::ext_equal]
pub struct PartitionSnapshotView {
    pub generation: u64,
    pub partition_id: i64,
    pub partition: Option<PartitionView>,
    pub files: Option<Seq<ParquetFileView>>,
    pub skipped_compaction: Option<SkippedCompactionView>,
}

impl View for PartitionSnapshot {
    type V = PartitionSnapshotView;

    open spec fn view(&self) -> PartitionSnapshotView {
        PartitionSnapshotView {
            generation: self.generation,
            partition_id: self.partition_id,
            partition: view_option(self.partition),
            files: view_option_list(self.files),
            skipped_compaction: view_option(self.skipped_compaction),
        }
    }
}

/// What a catalog answers when it refuses a request.
#[derive(Debug, Clone)]
pub struct Error {
    /// which rule the request breaks
    pub kind: ErrorKind,
    /// what the request was about
    pub descr: String,
    /// the error as it is shown to a user
    pub message: String,
}

/// The model of a [`Error`].
#[verifier::ext_equal]
pub struct ErrorView {
    pub kind: ErrorKind,
    pub descr: Seq<char>,
    pub message: Seq<char>,
}

impl View for Error {
    type V = ErrorView;

    open spec fn view(&self) -> ErrorView {
        ErrorView {
            kind: self.kind,
            descr: self.descr@,
            message: self.message@,
        }
    }
}

/// What holds where a caller says nothing else.
#[derive(Debug, Clone)]
pub struct Defaults {
    /// tables in a namespace
    pub max_tables: i32,
    /// columns in a table
    pub max_columns_per_table: i32,
    /// the template of a namespace
    pub namespace_template: Template,
    /// the template of a table
    pub table_template: Template,
    /// the version of a namespace
    pub router_version: i64,
}

/// The model of a [`Defaults`].
#[verifier::ext_equal]
pub struct DefaultsView {
    pub max_tables: i32,
    pub max_columns_per_table: i32,
    pub namespace_template: TemplateView,
    pub table_template: TemplateView,
    pub router_version: i64,
}

impl View for Defaults {
    type V = DefaultsView;

    open spec fn view(&self) -> DefaultsView {
        DefaultsView {
            max_tables: self.max_tables,
            max_columns_per_table: self.max_columns_per_table,
            namespace_template: self.namespace_template@,
            table_template: self.table_template@,
            router_version: self.router_version,
        }
    }
}

/// A copy of the bytes.
fn copy_bytes(bytes: &Vec<u8>) -> (r: Vec<u8>)
    ensures
        r@ == bytes@,
{
    let r: Vec<u8> = bytes.clone();
    proof {
        assert(r@ =~= bytes@);
    }
    r
}

/// A copy of the integers.
fn copy_ints(ints: &Vec<i64>) -> (r: Vec<i64>)
    ensures
        r@ == ints@,
{
    let r: Vec<i64> = ints.clone();
    proof {
        assert(r@ =~= ints@);
    }
    r
}

/// A copy of a partition's hash.
pub fn copy_hash(hash: &Option<Vec<u8>>) -> (r: Option<Vec<u8>>)
    ensures
        view_option(r) == view_option(*hash),
{
    match hash {
        Some(bytes) => Some(copy_bytes(bytes)),
        None => None,
    }
}

impl ParquetFileParams {
    /// A copy of the parameters.
    pub fn copy(&self) -> (r: Self)
        ensures
            r@ == self@,
    {
        ParquetFileParams {
            namespace_id: self.namespace_id,
            table_id: self.table_id,
            partition_id: self.partition_id,
            partition_hash_id: copy_hash(&self.partition_hash_id),
            object_store_id: self.object_store_id,
            min_time: self.min_time,
            max_time: self.max_time,
            file_size_bytes: self.file_size_bytes,
            row_count: self.row_count,
            compaction_level: self.compaction_level,
            created_at: self.created_at,
            column_set: copy_ints(&self.column_set),
            max_l0_created_at: self.max_l0_created_at,
            source: self.source,
        }
    }
}

} // verus!
