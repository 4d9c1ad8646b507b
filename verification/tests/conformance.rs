//! Every scenario against a catalog in memory, as it should be and with faults.
use catalog_conformance::metrics::{Attribute, Metric, Observation, Recorded};
use catalog_conformance::reply::Reply;
use catalog_conformance::request::{
    CatalogRequest, ColumnsRequest, EnvironmentRequest, HelperRequest, NamespacesRequest,
    ParquetFilesRequest, PartitionsRequest, Request, RootRequest, Scenario, TablesRequest,
    ValueRequest, Want,
};
use catalog_conformance::run::{Action, Run};
use catalog_conformance::suite;
use catalog_conformance::types::{
    Batch, BatchColumn, Column, ColumnSchema, ColumnType, CompactionLevel, Defaults, Entry, Error,
    ErrorKind, MaxL0CreatedAt, Namespace, NamespaceSchema, NamespaceSnapshot, ParquetFile,
    ParquetFileParams, Partition, PartitionSnapshot, Populated, RootSnapshot, SkippedCompaction,
    SoftDeletedRows, Table, TableSchema, TableSnapshot, Template, TemplatePart,
};

const MAX_L0_FILES: u32 = 7;
const DAY: i64 = 86_400_000_000_000;

/// What a catalog does wrong, or otherwise than others.
#[derive(Debug, Clone, Copy, PartialEq, Eq)]
enum Fault {
    Nowhere,
    LosesAVersion,
    SeesDeletedRows,
    HidesActiveRows,
    KeepsOldGenerations,
    SwapsAnySortKey,
    ForgetsTheMismatch,
    KeepsTheFirstReason,
    DeletesOnFailure,
    FindsInclusively,
    CountsEveryLevelAsNew,
    CascadesDeletion,
    RemovesEveryPartition,
    RemovesNoPartition,
    IgnoresTableLimits,
    IgnoresColumnLimits,
    HashesWrongly,
    RecordsNothing,
    ListsDeletedSchemas,
    HidesFromOtherRepositories,
    MarksTooManyFiles,
    ListsTooManyFiles,
    ReplacesLater,
    MixesPartitions,
    LeaksSizes,
    SnapshotLosesAFile,
    SnapshotForgetsATable,
    SnapshotForgetsANamespace,
    SnapshotSwapsPartitionKeys,
    ForgetsTheSource,
    ForgetsTagColumns,
    ChangesColumnTypes,
    TellsAnotherTime,
    RemovesFilesOnDeletion,
    RemovesOtherFilesOnDeletion,
    ChangesOnDeletion,
    OverwritesOnUpsert,
    StartsRetainingNamespacesLater,
    RefusesAConcurrentChange,
    LosesAConcurrentReply,
    ReturnsAColumnTwice,
    RaisesNoFile,
    RaisesEveryFile,
    FindsAnotherSkippedCompaction,
    HasNoMetric,
    ChangesFilesOnDeletion,
    ListsAnotherColumnType,
    ListsSchemasInAnotherOrder,
}

struct Memory {
    fault: Fault,
    name: &'static str,
    clock: i64,
    next_id: i64,
    next_uuid: u128,
    generation: u64,
    namespaces: Vec<Namespace>,
    tables: Vec<Table>,
    columns: Vec<Column>,
    partitions: Vec<Partition>,
    files: Vec<ParquetFile>,
    skipped: Vec<SkippedCompaction>,
    observed: Vec<(String, u64)>,
    root_lookups: Vec<Vec<Entry>>,
    table_lookups: Vec<Vec<Entry>>,
    opened_when_empty: bool,
}

fn failed(kind: ErrorKind, descr: String) -> Reply {
    Reply::Failed(Error { kind, message: format!("failed: {descr}"), descr })
}

fn not_found() -> Reply {
    failed(ErrorKind::NotFound, "no such thing".to_string())
}

fn default_template() -> Template {
    Template { parts: None }
}

fn hash(table_id: i64, key: &str) -> Vec<u8> {
    let mut bytes = table_id.to_be_bytes().to_vec();
    bytes.extend_from_slice(key.as_bytes());
    bytes
}

fn type_text(t: ColumnType) -> &'static str {
    match t {
        ColumnType::I64 => "i64",
        ColumnType::U64 => "u64",
        ColumnType::F64 => "f64",
        ColumnType::Bool => "bool",
        ColumnType::String => "string",
        ColumnType::Time => "time",
        ColumnType::Tag => "tag",
    }
}

fn uuid_text(id: u128) -> String {
    format!("{id:032x}")
}

fn sees(rows: SoftDeletedRows, ns: &Namespace) -> bool {
    match rows {
        SoftDeletedRows::AllRows => true,
        SoftDeletedRows::ExcludeDeleted => ns.deleted_at.is_none(),
        SoftDeletedRows::OnlyDeleted => ns.deleted_at.is_some(),
    }
}

fn same_params(f: &ParquetFile, p: &ParquetFileParams) -> bool {
    f.row_count == p.row_count
        && f.min_time == p.min_time
        && f.max_time == p.max_time
        && f.partition_id == p.partition_id
        && f.file_size_bytes == p.file_size_bytes
}

impl Memory {
    fn new(name: &'static str, fault: Fault) -> Self {
        Memory {
            fault,
            name,
            clock: 1_700_000_000_000_000_000,
            next_id: 100,
            next_uuid: 1,
            generation: 1,
            namespaces: vec![],
            tables: vec![],
            columns: vec![],
            partitions: vec![],
            files: vec![],
            skipped: vec![],
            observed: vec![],
            root_lookups: vec![],
            table_lookups: vec![],
            opened_when_empty: false,
        }
    }

    fn id(&mut self) -> i64 {
        self.next_id += 1;
        self.next_id
    }

    fn uuid(&mut self) -> u128 {
        self.next_uuid += 1;
        self.next_uuid
    }

    fn tick(&mut self) -> i64 {
        self.clock += 1_000;
        self.clock
    }

    fn changed(&mut self) {
        if self.fault != Fault::KeepsOldGenerations {
            self.generation += 1;
        }
    }

    fn record(&mut self, op: &str) {
        if self.fault == Fault::RecordsNothing {
            return;
        }
        match self.observed.iter_mut().find(|(o, _)| o == op) {
            Some((_, n)) => *n += 1,
            None => self.observed.push((op.to_string(), 1)),
        }
    }

    fn sees(&self, rows: SoftDeletedRows, ns: &Namespace) -> bool {
        if self.fault == Fault::SeesDeletedRows && rows == SoftDeletedRows::ExcludeDeleted {
            return true;
        }
        if self.fault == Fault::HidesActiveRows && ns.name == "active-ns" {
            return rows == SoftDeletedRows::OnlyDeleted && sees(rows, ns);
        }
        sees(rows, ns)
    }

    fn create_namespace(
        &mut self,
        name: &str,
        template: Option<&Template>,
        retention_period_ns: Option<i64>,
    ) -> Reply {
        if self.namespaces.iter().any(|n| n.name == name) {
            return failed(ErrorKind::AlreadyExists, name.to_string());
        }
        let ns = Namespace {
            id: self.id(),
            name: name.to_string(),
            retention_period_ns,
            max_tables: 500,
            max_columns_per_table: 200,
            deleted_at: None,
            partition_template: template.cloned().unwrap_or_else(default_template),
            router_version: match self.fault {
                Fault::StartsRetainingNamespacesLater if retention_period_ns.is_some() => 3,
                _ => 0,
            },
        };
        self.namespaces.push(ns.clone());
        self.changed();
        self.record("namespace_create");
        Reply::Namespace(ns)
    }

    fn update(&mut self, id: i64, change: impl Fn(&mut Namespace)) -> Reply {
        let skip = self.fault == Fault::LosesAVersion;
        let late = self.fault == Fault::StartsRetainingNamespacesLater
            && self.namespaces.iter().any(|n| n.id == id && n.name == "test_namespace4");
        let reply = match self.namespaces.iter_mut().find(|n| n.id == id) {
            Some(n) => {
                change(n);
                if !(skip && n.router_version == 3) {
                    n.router_version += 1;
                }
                if late && n.router_version == 4 {
                    n.router_version = 1;
                }
                Reply::Namespace(n.clone())
            }
            None => not_found(),
        };
        self.changed();
        reply
    }

    fn find_namespace(&self, rows: SoftDeletedRows, is: impl Fn(&Namespace) -> bool) -> Reply {
        match self.namespaces.iter().find(|n| is(n) && self.sees(rows, n)) {
            Some(n) => Reply::Namespace(n.clone()),
            None => Reply::Nothing,
        }
    }

    fn namespace_snapshot(&mut self, is: impl Fn(&Namespace) -> bool) -> Reply {
        let Some(ns) = self.namespaces.iter().find(|n| is(n)).cloned() else {
            return not_found();
        };
        let mut entries: Vec<Entry> = self
            .tables
            .iter()
            .filter(|t| t.namespace_id == ns.id)
            .map(|t| Entry { id: t.id, name: t.name.as_bytes().to_vec() })
            .collect();
        let tables = Some(entries.len());
        if self.fault == Fault::SnapshotForgetsATable {
            entries.pop();
        }
        self.table_lookups.push(entries);
        Reply::NamespaceSnapshot(NamespaceSnapshot {
            handle: self.table_lookups.len() as u64 - 1,
            generation: self.generation,
            namespace: Some(ns),
            tables,
        })
    }

    fn namespaces(&mut self, q: NamespacesRequest<'_>) -> Reply {
        match q {
            NamespacesRequest::Create { name, partition_template, retention_period_ns } => {
                self.create_namespace(name, partition_template, retention_period_ns)
            }
            NamespacesRequest::GetById { id, rows } => self.find_namespace(rows, |n| n.id == id),
            NamespacesRequest::GetByName { name, rows } => {
                self.find_namespace(rows, |n| n.name == name)
            }
            NamespacesRequest::List { rows } => Reply::Namespaces(
                self.namespaces.iter().rev().filter(|n| self.sees(rows, n)).cloned().collect(),
            ),
            NamespacesRequest::UpdateTableLimit { id, max_tables } => {
                self.update(id, |n| n.max_tables = max_tables)
            }
            NamespacesRequest::UpdateColumnLimit { id, max_columns_per_table } => {
                self.update(id, |n| n.max_columns_per_table = max_columns_per_table)
            }
            NamespacesRequest::UpdateRetentionPeriod { id, retention_period_ns } => {
                self.update(id, |n| n.retention_period_ns = retention_period_ns)
            }
            NamespacesRequest::SoftDelete { id } => {
                let now = self.tick();
                match self.update(id, |n| n.deleted_at = Some(now)) {
                    Reply::Namespace(n) => {
                        match self.fault {
                            Fault::CascadesDeletion => {
                                self.tables.retain(|t| t.namespace_id != id)
                            }
                            Fault::RemovesFilesOnDeletion => {
                                self.files.retain(|f| f.namespace_id != id)
                            }
                            Fault::RemovesOtherFilesOnDeletion => {
                                self.files.retain(|f| f.namespace_id == id)
                            }
                            Fault::ChangesFilesOnDeletion => {
                                for f in self.files.iter_mut().filter(|f| f.namespace_id == id) {
                                    f.row_count += 1;
                                }
                            }
                            Fault::ChangesOnDeletion => {
                                self.update(id, |n| n.max_tables = 1);
                            }
                            _ => {}
                        }
                        Reply::Id(n.id)
                    }
                    other => other,
                }
            }
            NamespacesRequest::GetStorageById { id } => {
                if self.name == "grpc_client" {
                    return failed(ErrorKind::Other, "unimplemented".to_string());
                }
                if !self.namespaces.iter().any(|n| n.id == id) {
                    return Reply::Nothing;
                }
                Reply::Size(self.size(|f| f.namespace_id == id))
            }
            NamespacesRequest::Snapshot { id } => self.namespace_snapshot(|n| n.id == id),
            NamespacesRequest::SnapshotByName { name } => {
                self.namespace_snapshot(|n| n.name == name)
            }
            NamespacesRequest::LookupTable { handle, name } => {
                lookup(&self.table_lookups[handle as usize], name)
            }
        }
    }

    fn size(&self, is: impl Fn(&ParquetFile) -> bool) -> i64 {
        self.files
            .iter()
            .filter(|f| is(f) && (f.to_delete.is_none() || self.fault == Fault::LeaksSizes))
            .map(|f| f.file_size_bytes)
            .sum()
    }

    fn create_table(&mut self, name: &str, template: &Template, namespace_id: i64) -> Reply {
        if self.tables.iter().any(|t| t.namespace_id == namespace_id && t.name == name) {
            return failed(
                ErrorKind::AlreadyExists,
                format!("table '{name}' in namespace {namespace_id}"),
            );
        }
        let Some(ns) = self.namespaces.iter().find(|n| n.id == namespace_id) else {
            return not_found();
        };
        let count = self.tables.iter().filter(|t| t.namespace_id == namespace_id).count();
        if count >= ns.max_tables as usize && self.fault != Fault::IgnoresTableLimits {
            return failed(ErrorKind::LimitExceeded, "too many tables".to_string());
        }
        let table = Table {
            id: self.id(),
            namespace_id,
            name: name.to_string(),
            partition_template: template.clone(),
        };
        self.tables.push(table.clone());
        if self.fault != Fault::ForgetsTagColumns {
            for part in template.parts.iter().flatten() {
                if let TemplatePart::TagValue(tag) = part {
                    let id = self.id();
                    self.columns.push(Column {
                        id,
                        table_id: table.id,
                        name: tag.clone(),
                        column_type: ColumnType::Tag,
                    });
                }
            }
        }
        self.changed();
        self.record("table_create");
        Reply::Table(table)
    }

    fn tables(&mut self, q: TablesRequest<'_>) -> Reply {
        match q {
            TablesRequest::Create { name, partition_template, namespace_id } => {
                self.create_table(name, partition_template, namespace_id)
            }
            TablesRequest::GetById { id } => match self.tables.iter().find(|t| t.id == id) {
                Some(t) => Reply::Table(t.clone()),
                None => Reply::Nothing,
            },
            TablesRequest::GetByNamespaceAndName { namespace_id, name } => {
                match self
                    .tables
                    .iter()
                    .find(|t| t.namespace_id == namespace_id && t.name == name)
                {
                    Some(t) => Reply::Table(t.clone()),
                    None => Reply::Nothing,
                }
            }
            TablesRequest::ListByNamespaceId { namespace_id } => Reply::Tables(
                self.tables.iter().filter(|t| t.namespace_id == namespace_id).cloned().collect(),
            ),
            TablesRequest::List => Reply::Tables(self.tables.iter().rev().cloned().collect()),
            TablesRequest::ListStorageByNamespaceId { namespace_id } => {
                if self.name == "grpc_client" {
                    return failed(ErrorKind::Other, "unimplemented".to_string());
                }
                Reply::Sizes(
                    self.tables
                        .iter()
                        .filter(|t| t.namespace_id == namespace_id)
                        .map(|t| self.size(|f| f.table_id == t.id))
                        .collect(),
                )
            }
            TablesRequest::GetStorageById { id } => {
                if self.name == "grpc_client" {
                    return failed(ErrorKind::Other, "unimplemented".to_string());
                }
                Reply::Size(self.size(|f| f.table_id == id))
            }
            TablesRequest::Snapshot { id } => {
                let Some(table) = self.tables.iter().find(|t| t.id == id).cloned() else {
                    return not_found();
                };
                let mut columns: Vec<Column> =
                    self.columns.iter().filter(|c| c.table_id == id).cloned().collect();
                columns.reverse();
                let mut partitions: Vec<Entry> = self
                    .partitions
                    .iter()
                    .filter(|p| p.table_id == id)
                    .map(|p| Entry { id: p.id, name: p.partition_key.as_bytes().to_vec() })
                    .collect();
                if self.fault == Fault::SnapshotSwapsPartitionKeys && partitions.len() > 1 {
                    let first = partitions[0].name.clone();
                    partitions[0].name = partitions[1].name.clone();
                    partitions[1].name = first;
                }
                partitions.reverse();
                Reply::TableSnapshot(TableSnapshot {
                    generation: self.generation,
                    table: Some(table),
                    columns: Some(columns),
                    partitions: Some(partitions),
                })
            }
        }
    }

    fn column(&mut self, name: &str, table_id: i64, column_type: ColumnType) -> Column {
        if let Some(c) = self.columns.iter().find(|c| c.table_id == table_id && c.name == name) {
            return c.clone();
        }
        let column_type = match self.fault {
            Fault::ChangesColumnTypes => ColumnType::Time,
            _ => column_type,
        };
        let c = Column { id: self.id(), table_id, name: name.to_string(), column_type };
        self.columns.push(c.clone());
        self.changed();
        c
    }

    fn columns(&mut self, q: ColumnsRequest<'_>) -> Reply {
        match q {
            ColumnsRequest::CreateOrGet { name, table_id, column_type } => {
                let found = self.columns.iter().find(|c| c.table_id == table_id && c.name == name);
                match found {
                    Some(c) if c.column_type != column_type => {
                        return failed(ErrorKind::AlreadyExists, name.to_string());
                    }
                    Some(_) => {}
                    None => {
                        let table = self.tables.iter().find(|t| t.id == table_id).unwrap();
                        let id = table.namespace_id;
                        let ns = self.namespaces.iter().find(|n| n.id == id).unwrap();
                        let count =
                            self.columns.iter().filter(|c| c.table_id == table_id).count();
                        if count >= ns.max_columns_per_table as usize
                            && self.fault != Fault::IgnoresColumnLimits
                        {
                            return failed(ErrorKind::LimitExceeded, "too many".to_string());
                        }
                    }
                }
                self.record("column_create_or_get");
                Reply::Column(self.column(name, table_id, column_type))
            }
            ColumnsRequest::CreateOrGetManyUnchecked { table_id, columns } => {
                for (name, column_type) in &columns {
                    if let Some(c) =
                        self.columns.iter().find(|c| c.table_id == table_id && c.name == *name)
                    {
                        if c.column_type != *column_type {
                            return failed(
                                ErrorKind::AlreadyExists,
                                format!(
                                    "column {} is type {} but schema update has type {}",
                                    name,
                                    type_text(c.column_type),
                                    type_text(*column_type)
                                ),
                            );
                        }
                    }
                }
                self.record("column_create_or_get_many_unchecked");
                let mut all = vec![];
                for (name, column_type) in columns.iter().rev() {
                    all.push(self.column(name, table_id, *column_type));
                }
                if self.fault == Fault::ReturnsAColumnTwice && all.len() > 1 {
                    all[1] = all[0].clone();
                }
                Reply::Columns(all)
            }
            ColumnsRequest::ListByNamespaceId { namespace_id } => Reply::Columns(
                self.columns
                    .iter()
                    .filter(|c| {
                        self.tables
                            .iter()
                            .any(|t| t.id == c.table_id && t.namespace_id == namespace_id)
                    })
                    .cloned()
                    .collect(),
            ),
            ColumnsRequest::ListByTableId { table_id } => Reply::Columns(
                self.columns.iter().filter(|c| c.table_id == table_id).cloned().collect(),
            ),
            ColumnsRequest::List => Reply::Columns(self.columns.clone()),
        }
    }

    fn partition(&mut self, key: &str, table_id: i64, created_at: Option<i64>) -> Partition {
        let found =
            self.partitions.iter().find(|p| p.table_id == table_id && p.partition_key == key);
        if let Some(p) = found {
            return p.clone();
        }
        let hash_id = match self.fault {
            Fault::HashesWrongly => hash(table_id + 1, key),
            _ => hash(table_id, key),
        };
        let p = Partition {
            id: self.id(),
            hash_id: Some(hash_id),
            table_id,
            partition_key: key.to_string(),
            sort_key_ids: None,
            new_file_at: None,
            created_at,
        };
        self.partitions.push(p.clone());
        self.changed();
        p
    }

    fn partitions(&mut self, q: PartitionsRequest<'_>) -> Reply {
        match q {
            PartitionsRequest::CreateOrGet { key, table_id } => {
                let now = self.tick();
                self.record("partition_create_or_get");
                Reply::Partition(self.partition(key, table_id, Some(now)))
            }
            PartitionsRequest::GetById { id } => {
                match self.partitions.iter().find(|p| p.id == id) {
                    Some(p) => Reply::Partition(p.clone()),
                    None => Reply::Nothing,
                }
            }
            PartitionsRequest::GetByIdBatch { ids } => Reply::Partitions(
                self.partitions.iter().rev().filter(|p| ids.contains(&p.id)).cloned().collect(),
            ),
            PartitionsRequest::ListByTableId { table_id } => Reply::Partitions(
                self.partitions.iter().filter(|p| p.table_id == table_id).cloned().collect(),
            ),
            PartitionsRequest::ListIds => {
                Reply::Ids(self.partitions.iter().rev().map(|p| p.id).collect())
            }
            PartitionsRequest::ListOldStyle => Reply::Partitions(
                self.partitions.iter().filter(|p| p.hash_id.is_none()).cloned().collect(),
            ),
            PartitionsRequest::Snapshot { id } => {
                let Some(partition) = self.partitions.iter().find(|p| p.id == id).cloned() else {
                    return not_found();
                };
                let mut files = self.list(&[id]);
                files.reverse();
                if self.fault == Fault::SnapshotLosesAFile {
                    files.pop();
                }
                Reply::PartitionSnapshot(PartitionSnapshot {
                    generation: self.generation,
                    partition_id: id,
                    partition: Some(partition),
                    files: Some(files),
                    skipped_compaction: self
                        .skipped
                        .iter()
                        .find(|s| s.partition_id == id)
                        .cloned(),
                })
            }
            PartitionsRequest::CasSortKey { id, old, new } => {
                let fault = self.fault;
                let p = self.partitions.iter_mut().find(|p| p.id == id).unwrap();
                if p.sort_key_ids != old && fault != Fault::SwapsAnySortKey {
                    return match fault {
                        Fault::ForgetsTheMismatch => Reply::CasMismatch(vec![]),
                        _ => Reply::CasMismatch(p.sort_key_ids.clone().unwrap_or_default()),
                    };
                }
                p.sort_key_ids = Some(new);
                let p = p.clone();
                self.changed();
                Reply::Partition(p)
            }
            PartitionsRequest::ListSkippedCompactions => Reply::SkippedList(self.skipped.clone()),
            PartitionsRequest::RecordSkippedCompaction {
                id,
                reason,
                num_files,
                limit_num_files,
                limit_num_files_first_in_partition,
                estimated_bytes,
                limit_bytes,
            } => {
                let s = SkippedCompaction {
                    partition_id: id,
                    reason: reason.to_string(),
                    skipped_at: self.tick(),
                    num_files,
                    limit_num_files,
                    limit_num_files_first_in_partition,
                    estimated_bytes,
                    limit_bytes,
                };
                let keep = self.fault == Fault::KeepsTheFirstReason;
                match self.skipped.iter_mut().find(|x| x.partition_id == id) {
                    Some(_) if keep => {}
                    Some(x) => *x = s,
                    None => self.skipped.push(s),
                }
                self.changed();
                Reply::Done
            }
            PartitionsRequest::GetInSkippedCompactions { ids }
                if self.fault == Fault::FindsAnotherSkippedCompaction
                    && ids.len() == 1
                    && self.skipped.len() == 2 =>
            {
                Reply::SkippedList(vec![self.skipped[1].clone()])
            }
            PartitionsRequest::GetInSkippedCompactions { ids } => Reply::SkippedList(
                self.skipped
                    .iter()
                    .rev()
                    .filter(|s| ids.contains(&s.partition_id))
                    .cloned()
                    .collect(),
            ),
            PartitionsRequest::DeleteSkippedCompactions { id } => {
                match self.skipped.iter().position(|s| s.partition_id == id) {
                    Some(i) => Reply::Skipped(self.skipped.remove(i)),
                    None => Reply::Nothing,
                }
            }
            PartitionsRequest::MostRecentN { n } => {
                Reply::Partitions(self.partitions.iter().rev().take(n).cloned().collect())
            }
            PartitionsRequest::NewFileBetween { minimum_time, maximum_time } => {
                let inclusive = self.fault == Fault::FindsInclusively;
                Reply::Ids(
                    self.partitions
                        .iter()
                        .rev()
                        .filter(|p| match p.new_file_at {
                            Some(t) if inclusive => {
                                minimum_time <= t && maximum_time.map_or(true, |m| t <= m)
                            }
                            Some(t) => minimum_time < t && maximum_time.map_or(true, |m| t < m),
                            None => false,
                        })
                        .map(|p| p.id)
                        .collect(),
                )
            }
            PartitionsRequest::DeleteByRetention => {
                let now = self.tick();
                let mut removed = vec![];
                let mut kept = vec![];
                for p in self.partitions.clone().into_iter().rev() {
                    let table = self.tables.iter().find(|t| t.id == p.table_id).unwrap();
                    let ns =
                        self.namespaces.iter().find(|n| n.id == table.namespace_id).unwrap();
                    let old = match (p.partition_key.strip_prefix("day-"), ns.retention_period_ns)
                    {
                        (Some(day), Some(retention)) => {
                            (day.parse::<i64>().unwrap() + 1) * DAY < now - retention
                        }
                        _ => false,
                    };
                    let settled = p.created_at.map_or(true, |c| c < now - DAY);
                    let empty = !self.files.iter().any(|f| f.partition_id == p.id);
                    let go = match self.fault {
                        Fault::RemovesEveryPartition => true,
                        Fault::RemovesNoPartition => false,
                        _ => old && settled && empty,
                    };
                    if go {
                        removed.push((p.table_id, p.id));
                    } else {
                        kept.push(p);
                    }
                }
                self.partitions = kept;
                Reply::Retired(removed)
            }
        }
    }

    fn list(&self, partition_ids: &[i64]) -> Vec<ParquetFile> {
        let mut all = vec![];
        for p in &self.partitions {
            if partition_ids.contains(&p.id) {
                let mut first_level = 0;
                for f in self.files.iter().filter(|f| f.partition_id == p.id) {
                    if f.to_delete.is_some() {
                        continue;
                    }
                    if f.compaction_level == CompactionLevel::Initial {
                        first_level += 1;
                        if first_level > MAX_L0_FILES && self.fault != Fault::ListsTooManyFiles {
                            continue;
                        }
                    }
                    all.push(f.clone());
                }
            }
        }
        all
    }

    fn add_file(&mut self, p: &ParquetFileParams, now: i64) -> ParquetFile {
        let f = ParquetFile {
            id: self.id(),
            namespace_id: p.namespace_id,
            table_id: p.table_id,
            partition_id: p.partition_id,
            partition_hash_id: p.partition_hash_id.clone(),
            object_store_id: p.object_store_id,
            min_time: p.min_time,
            max_time: p.max_time,
            to_delete: None,
            file_size_bytes: p.file_size_bytes,
            row_count: p.row_count,
            compaction_level: p.compaction_level,
            created_at: now,
            column_set: p.column_set.clone(),
            max_l0_created_at: match p.max_l0_created_at {
                MaxL0CreatedAt::NotCompacted => now,
                MaxL0CreatedAt::Computed(t) => t,
            },
            source: match self.fault {
                Fault::ForgetsTheSource => None,
                _ => p.source,
            },
        };
        self.files.push(f.clone());
        if f.compaction_level == CompactionLevel::Initial
            || self.fault == Fault::CountsEveryLevelAsNew
        {
            if let Some(q) = self.partitions.iter_mut().find(|q| q.id == f.partition_id) {
                q.new_file_at = Some(now);
            }
        }
        self.changed();
        f
    }

    fn file(&self, object_store_id: u128) -> Option<&ParquetFile> {
        self.files.iter().find(|f| f.object_store_id == object_store_id)
    }

    fn change_files(
        &mut self,
        partition_id: i64,
        delete: &[u128],
        upgrade: &[u128],
        create: &[ParquetFileParams],
        target_level: CompactionLevel,
    ) -> Reply {
        if self.fault != Fault::MixesPartitions
            && create.iter().any(|p| p.partition_id != partition_id)
        {
            let mut refused = failed(ErrorKind::Other, "malformed".to_string());
            if let Reply::Failed(e) = &mut refused {
                e.message = format!(
                    "Inconsistent ParquetFileParams, expected PartitionId({partition_id})"
                );
            }
            return refused;
        }
        for id in delete.iter().chain(upgrade) {
            match self.file(*id) {
                Some(f) if f.partition_id == partition_id && f.to_delete.is_none() => {}
                _ => {
                    if self.fault == Fault::DeletesOnFailure {
                        let now = self.tick();
                        for f in self.files.iter_mut() {
                            if delete.contains(&f.object_store_id) && f.to_delete.is_none() {
                                f.to_delete = Some(now);
                            }
                        }
                    }
                    return not_found();
                }
            }
        }
        let mut known: Vec<u128> = self.files.iter().map(|f| f.object_store_id).collect();
        known.sort();
        for p in create {
            if known.binary_search(&p.object_store_id).is_ok() {
                return failed(ErrorKind::AlreadyExists, uuid_text(p.object_store_id));
            }
        }
        let now = self.tick();
        for f in self.files.iter_mut() {
            if delete.contains(&f.object_store_id) {
                f.to_delete = Some(now);
            }
            let raise = match self.fault {
                Fault::RaisesNoFile => false,
                Fault::RaisesEveryFile => !upgrade.is_empty(),
                _ => upgrade.contains(&f.object_store_id),
            };
            if raise {
                f.compaction_level = target_level;
            }
        }
        let then = match self.fault {
            Fault::ReplacesLater => self.tick(),
            _ => now,
        };
        let ids = create.iter().map(|p| self.add_file(p, then).id).collect();
        self.changed();
        self.record("parquet_create_upgrade_delete");
        Reply::Ids(ids)
    }

    fn parquet_files(&mut self, q: ParquetFilesRequest) -> Reply {
        match q {
            ParquetFilesRequest::Create { params } => {
                if self.file(params.object_store_id).is_some() {
                    return failed(ErrorKind::AlreadyExists, uuid_text(params.object_store_id));
                }
                let now = self.tick();
                Reply::File(self.add_file(&params, now))
            }
            ParquetFilesRequest::Upsert { params } => {
                if let Some(f) = self.file(params.object_store_id) {
                    if same_params(f, &params) {
                        return Reply::File(f.clone());
                    }
                    if self.fault == Fault::OverwritesOnUpsert {
                        let mut f = f.clone();
                        f.row_count = params.row_count;
                        return Reply::File(f);
                    }
                    return failed(ErrorKind::AlreadyExists, uuid_text(params.object_store_id));
                }
                let now = self.tick();
                Reply::File(self.add_file(&params, now))
            }
            ParquetFilesRequest::GetByObjectStoreId { object_store_id } => {
                match self.file(object_store_id) {
                    Some(f) => Reply::File(f.clone()),
                    None => Reply::Nothing,
                }
            }
            ParquetFilesRequest::ListByTableId { table_id, level } => Reply::Files(
                self.files
                    .iter()
                    .filter(|f| f.table_id == table_id && f.to_delete.is_none())
                    .filter(|f| level.map_or(true, |l| f.compaction_level == l))
                    .cloned()
                    .collect(),
            ),
            ParquetFilesRequest::ListByNamespaceId { namespace_id, rows } => Reply::Files(
                self.files
                    .iter()
                    .filter(|f| f.namespace_id == namespace_id)
                    .filter(|f| match rows {
                        SoftDeletedRows::AllRows => true,
                        SoftDeletedRows::ExcludeDeleted => f.to_delete.is_none(),
                        SoftDeletedRows::OnlyDeleted => f.to_delete.is_some(),
                    })
                    .cloned()
                    .collect(),
            ),
            ParquetFilesRequest::ListByPartitionNotToDeleteBatch { partition_ids } => {
                Reply::Files(self.list(&partition_ids))
            }
            ParquetFilesRequest::CreateUpgradeDelete {
                partition_id,
                delete,
                upgrade,
                create,
                target_level,
            } => self.change_files(partition_id, &delete, &upgrade, &create, target_level),
            ParquetFilesRequest::DeleteOldIdsCount { older_than } => {
                let before = self.files.len();
                self.files.retain(|f| f.to_delete.map_or(true, |t| t >= older_than));
                Reply::Count((before - self.files.len()) as u64)
            }
            ParquetFilesRequest::FlagForDeleteByRetention => {
                let now = self.tick();
                let limit = match self.fault {
                    Fault::MarksTooManyFiles => 2_000,
                    _ => 1_000,
                };
                let mut marked = vec![];
                for f in self.files.iter_mut() {
                    if marked.len() == limit || f.to_delete.is_some() {
                        continue;
                    }
                    let ns = self.namespaces.iter().find(|n| n.id == f.namespace_id).unwrap();
                    if ns.retention_period_ns.map_or(false, |r| f.max_time < now - r) {
                        f.to_delete = Some(now);
                        marked.push((f.partition_id, f.object_store_id));
                    }
                }
                if !marked.is_empty() {
                    self.changed();
                }
                Reply::Located(marked)
            }
            ParquetFilesRequest::ExistsByObjectStoreIdBatch { ids } => Reply::ObjectStoreIds(
                ids.into_iter().rev().filter(|id| self.file(*id).is_some()).collect(),
            ),
            ParquetFilesRequest::ExistsByPartitionAndObjectStoreIdBatch { located } => {
                Reply::Located(
                    located
                        .into_iter()
                        .rev()
                        .filter(|(p, id)| self.file(*id).map_or(false, |f| f.partition_id == *p))
                        .collect(),
                )
            }
        }
    }

    fn params(
        &mut self,
        namespace: &Namespace,
        table: &Table,
        partition: &Partition,
    ) -> ParquetFileParams {
        ParquetFileParams {
            namespace_id: namespace.id,
            table_id: table.id,
            partition_id: partition.id,
            partition_hash_id: partition.hash_id.clone(),
            object_store_id: self.uuid(),
            min_time: 1,
            max_time: 10,
            file_size_bytes: 1_337 + self.next_uuid as i64,
            row_count: 0,
            compaction_level: CompactionLevel::Initial,
            created_at: 1,
            column_set: vec![1, 2],
            max_l0_created_at: MaxL0CreatedAt::NotCompacted,
            source: None,
        }
    }

    fn schema_tables(&self, namespace_id: i64) -> Vec<TableSchema> {
        let mut tables: Vec<TableSchema> = self
            .tables
            .iter()
            .filter(|t| t.namespace_id == namespace_id)
            .map(|t| {
                let mut columns: Vec<ColumnSchema> = self
                    .columns
                    .iter()
                    .filter(|c| c.table_id == t.id)
                    .map(|c| ColumnSchema {
                        name: c.name.clone(),
                        id: c.id,
                        column_type: c.column_type,
                    })
                    .collect();
                columns.sort_by(|a, b| a.name.cmp(&b.name));
                TableSchema {
                    name: t.name.clone(),
                    id: t.id,
                    partition_template: t.partition_template.clone(),
                    columns,
                }
            })
            .collect();
        tables.sort_by(|a, b| a.name.cmp(&b.name));
        tables
    }

    fn helper(&mut self, q: HelperRequest<'_>) -> Reply {
        match q {
            HelperRequest::ArbitraryNamespace { name } => self.create_namespace(name, None, None),
            HelperRequest::ArbitraryTable { name, namespace } => {
                self.create_table(name, &namespace.partition_template, namespace.id)
            }
            HelperRequest::ArbitraryParquetFileParams { namespace, table, partition } => {
                Reply::Params(self.params(namespace, table, partition))
            }
            HelperRequest::SetupTableAndPartition { name, namespace } => {
                match self.create_table(name, &namespace.partition_template, namespace.id) {
                    Reply::Table(t) => {
                        let now = self.tick();
                        let p = self.partition("test_partition", t.id, Some(now));
                        Reply::TableAndPartition(t, p)
                    }
                    other => other,
                }
            }
            HelperRequest::CreateAndGetFile { namespace, table, partition } => {
                let params = self.params(namespace, table, partition);
                let now = self.tick();
                Reply::File(self.add_file(&params, now))
            }
            HelperRequest::DeleteFile { file } => {
                self.change_files(
                    file.partition_id,
                    &[file.object_store_id],
                    &[],
                    &[],
                    CompactionLevel::Initial,
                );
                Reply::Done
            }
            HelperRequest::PartitionWithCreatedAt { key, table_id, created_at } => {
                Reply::Partition(self.partition(key, table_id, created_at))
            }
            HelperRequest::LinesToBatches { lines, default_time } => {
                assert_eq!(default_time, 42);
                Reply::Batches(lines.lines().map(batch).collect())
            }
            HelperRequest::ValidateOrInsertSchema { batches, schema } => {
                let mut changed = false;
                for b in batches.iter() {
                    let id = schema.id;
                    let found =
                        self.tables.iter().find(|t| t.namespace_id == id && t.name == b.table);
                    let table_id = match found {
                        Some(t) => t.id,
                        None => match self.create_table(&b.table, &schema.partition_template, id) {
                            Reply::Table(t) => t.id,
                            other => return other,
                        },
                    };
                    for c in &b.columns {
                        self.column(&c.name, table_id, c.column_type);
                        changed = true;
                    }
                }
                if changed {
                    Reply::TableSchemas(self.schema_tables(schema.id))
                } else {
                    Reply::Nothing
                }
            }
        }
    }

    fn value(&mut self, q: ValueRequest<'_>) -> Reply {
        match q {
            ValueRequest::NewObjectStoreIds { count } => {
                Reply::ObjectStoreIds((0..count).map(|_| self.uuid()).collect())
            }
            ValueRequest::PartitionHashId { table_id, key } => Reply::Bytes(hash(table_id, key)),
            ValueRequest::NamespaceTemplate { parts } => {
                Reply::Template(Template { parts: Some(parts) })
            }
            ValueRequest::TableTemplate { own_parts, namespace_template } => {
                Reply::Template(match own_parts {
                    Some(parts) => Template { parts: Some(parts) },
                    None => namespace_template.clone(),
                })
            }
            ValueRequest::Defaults => Reply::Defaults(Defaults {
                max_tables: 500,
                max_columns_per_table: 200,
                namespace_template: default_template(),
                table_template: default_template(),
                router_version: 0,
            }),
            ValueRequest::NamespaceIdText { id } => Reply::Text(id.to_string()),
            ValueRequest::ObjectStoreIdText { object_store_id } => {
                Reply::Text(uuid_text(object_store_id))
            }
            ValueRequest::DateText { time } => Reply::Text(format!("day-{}", time / DAY)),
            ValueRequest::EmptySchema { namespace } => {
                Reply::Schema(empty_schema(namespace))
            }
        }
    }

    fn seconds(&self) -> u32 {
        ((self.clock / 1_000_000_000) % 60) as u32
    }

    fn catalog(&mut self, q: CatalogRequest<'_>) -> Reply {
        match q {
            CatalogRequest::Setup => Reply::Done,
            CatalogRequest::Name => Reply::Text(self.name.to_string()),
            CatalogRequest::GetTime => {
                self.record("get_time");
                match self.fault {
                    Fault::TellsAnotherTime => Reply::Second(self.seconds() + 2),
                    _ => Reply::Second(self.seconds() + 1),
                }
            }
            CatalogRequest::Now => Reply::Time(self.tick()),
            CatalogRequest::MetricReport => {
                let name = match self.fault {
                    Fault::HasNoMetric => "catalog_op_count",
                    _ => "catalog_op_duration",
                };
                let observations = self
                    .observed
                    .iter()
                    .map(|(op, count)| Observation {
                        attributes: vec![
                            attribute("result", "success"),
                            attribute("op", op),
                            attribute("type", self.name),
                        ],
                        recorded: Recorded::DurationHistogram(*count),
                    })
                    .collect();
                Reply::Metrics(vec![Metric { name: name.to_string(), observations }])
            }
            CatalogRequest::HistogramSamples { metric, catalog_type, op, result } => {
                assert_eq!((metric, catalog_type), ("catalog_op_duration", self.name));
                let count = match result {
                    "success" => self.observed.iter().find(|(o, _)| o == op).map_or(0, |o| o.1),
                    _ => 0,
                };
                Reply::Samples(count)
            }
            CatalogRequest::ListSchemas => {
                let all = self.fault == Fault::ListsDeletedSchemas;
                Reply::Schemas(
                    self.namespaces
                        .iter()
                        .filter(|n| n.deleted_at.is_none() || all)
                        .map(|n| {
                            let mut n = n.clone();
                            if all {
                                n.deleted_at = None;
                                n.router_version = 0;
                            }
                            let mut schema = empty_schema(&n);
                            schema.tables = self.schema_tables(n.id);
                            for table in &mut schema.tables {
                                match self.fault {
                                    Fault::ListsAnotherColumnType => {
                                        table.columns[0].column_type = ColumnType::Bool
                                    }
                                    Fault::ListsSchemasInAnotherOrder => table.columns.reverse(),
                                    _ => {}
                                }
                            }
                            if self.fault == Fault::ListsSchemasInAnotherOrder {
                                schema.tables.reverse();
                            }
                            Populated { namespace: n, schema }
                        })
                        .collect(),
                )
            }
            CatalogRequest::OpenRepositories => {
                self.opened_when_empty = self.namespaces.is_empty();
                Reply::Done
            }
            CatalogRequest::ReleaseRepositories => Reply::Done,
        }
    }

    fn environment(&mut self, q: EnvironmentRequest) -> Reply {
        match q {
            EnvironmentRequest::CleanState => {
                *self = Memory::new(self.name, self.fault);
                Reply::Done
            }
            EnvironmentRequest::Sleep { millis } => {
                self.clock += millis as i64 * 1_000_000;
                Reply::Done
            }
            EnvironmentRequest::SystemSecond | EnvironmentRequest::GrpcSecond => {
                Reply::Second(self.seconds())
            }
            EnvironmentRequest::StartGrpcServer => Reply::Done,
            EnvironmentRequest::GrpcGetTime => match self.fault {
                Fault::TellsAnotherTime => Reply::Second(self.seconds() + 3),
                _ => Reply::Second(self.seconds() + 1),
            },
        }
    }

    fn perform(&mut self, q: Request<'_>) -> Reply {
        match q {
            Request::Catalog(q) => self.catalog(q),
            Request::Root(RootRequest::Snapshot) => {
                let mut entries: Vec<Entry> = self
                    .namespaces
                    .iter()
                    .map(|n| Entry { id: n.id, name: n.name.as_bytes().to_vec() })
                    .collect();
                let namespaces = Some(entries.len());
                if self.fault == Fault::SnapshotForgetsANamespace {
                    entries.pop();
                }
                self.root_lookups.push(entries);
                Reply::RootSnapshot(RootSnapshot {
                    handle: self.root_lookups.len() as u64 - 1,
                    generation: self.generation,
                    namespaces,
                })
            }
            Request::Root(RootRequest::LookupNamespace { handle, name }) => {
                lookup(&self.root_lookups[handle as usize], name)
            }
            Request::Namespaces(q) => self.namespaces(q),
            Request::SecondNamespaces(q) => {
                assert!(self.opened_when_empty, "both sets are opened before anything is written");
                match self.fault {
                    Fault::HidesFromOtherRepositories => Reply::Nothing,
                    _ => self.namespaces(q),
                }
            }
            Request::Tables(q) => self.tables(q),
            Request::Columns(q) => self.columns(q),
            Request::Partitions(q) => self.partitions(q),
            Request::ParquetFiles(q) => self.parquet_files(q),
            Request::Helper(q) => self.helper(q),
            Request::Value(q) => self.value(q),
            Request::Environment(q) => self.environment(q),
            Request::Run(scenario) => match drive(self, Run::new(scenario)) {
                Some(outcome) => outcome,
                None => failed(ErrorKind::Other, "a scenario failed".to_string()),
            },
            Request::Concurrently(all) => {
                let mut changed = vec![];
                for q in all.into_iter().rev() {
                    match self.namespaces(q) {
                        Reply::Namespace(n) => changed.push(n),
                        refused => return refused,
                    }
                }
                if self.fault == Fault::RefusesAConcurrentChange {
                    return failed(ErrorKind::Other, "busy".to_string());
                }
                if self.fault == Fault::LosesAConcurrentReply {
                    changed.pop();
                }
                Reply::Namespaces(changed)
            }
        }
    }
}

fn lookup(entries: &[Entry], name: &str) -> Reply {
    match entries.iter().find(|e| e.name == name.as_bytes()) {
        Some(e) => Reply::Entry(e.clone()),
        None => Reply::Nothing,
    }
}

fn attribute(name: &str, value: &str) -> Attribute {
    Attribute { name: name.to_string(), value: value.to_string() }
}

fn empty_schema(ns: &Namespace) -> NamespaceSchema {
    NamespaceSchema {
        id: ns.id,
        retention_period_ns: ns.retention_period_ns,
        max_tables: ns.max_tables,
        max_columns_per_table: ns.max_columns_per_table,
        partition_template: ns.partition_template.clone(),
        tables: vec![],
    }
}

/// A line such as `cpu,tag=1 field=1i`.
fn batch(line: &str) -> Batch {
    let (series, fields) = line.split_once(' ').unwrap();
    let mut parts = series.split(',');
    let table = parts.next().unwrap().to_string();
    let mut columns = vec![];
    for tag in parts {
        let name = tag.split_once('=').unwrap().0.to_string();
        columns.push(BatchColumn { name, column_type: ColumnType::Tag });
    }
    for field in fields.split(',') {
        let (name, value) = field.split_once('=').unwrap();
        let column_type = match value.chars().last() {
            Some('i') => ColumnType::I64,
            Some('u') => ColumnType::U64,
            _ => ColumnType::F64,
        };
        columns.push(BatchColumn { name: name.to_string(), column_type });
    }
    columns.push(BatchColumn { name: "time".to_string(), column_type: ColumnType::Time });
    Batch { table, columns }
}

/// Runs a scenario to its end.
fn drive(catalog: &mut Memory, mut run: Run<'_>) -> Option<Reply> {
    loop {
        let reply = match run.action() {
            Action::Ask(q) => catalog.perform(q),
            Action::Pass => break,
            Action::Fail => return None,
        };
        run.deliver(reply);
    }
    run.conclude()
}

fn passes(run: Run<'_>) -> bool {
    drive(&mut Memory::new("memory", Fault::Nowhere), run).is_some()
}

fn passes_with(run: Run<'_>, fault: Fault) -> bool {
    drive(&mut Memory::new("memory", fault), run).is_some()
}

/// How many requests a scenario makes of a catalog without faults.
fn count_requests(mut run: Run<'_>, catalog: &mut Memory) -> usize {
    let mut count = 0;
    loop {
        let reply = match run.action() {
            Action::Ask(q) => catalog.perform(q),
            Action::Pass => return count,
            Action::Fail => panic!("failed at step {count}"),
        };
        run.deliver(reply);
        count += 1;
    }
}

/// A reply that is not one to step `k` makes the scenario fail at once, and it stays failed.
fn every_reply_is_judged(start: impl Fn() -> Run<'static>, steps: usize) {
    assert_eq!(count_requests(start(), &mut Memory::new("memory", Fault::Nowhere)), steps);
    for k in 0..steps {
        let mut catalog = Memory::new("memory", Fault::Nowhere);
        let mut run = start();
        for _ in 0..k {
            let reply = match run.action() {
                Action::Ask(q) => catalog.perform(q),
                _ => panic!("step {k}"),
            };
            run.deliver(reply);
        }
        assert!(matches!(run.action(), Action::Ask(_)));
        run.deliver(Reply::Retired(vec![(-1, -1)]));
        assert!(matches!(run.action(), Action::Fail), "step {k} is not judged");
        run.deliver(Reply::Done);
        assert!(matches!(run.action(), Action::Fail));
        assert!(run.conclude().is_none());
    }
}

#[test]
fn suite_passes() {
    assert!(passes(suite::test_catalog(MAX_L0_FILES)));
}

#[test]
fn suite_passes_for_a_client() {
    let mut catalog = Memory::new("grpc_client", Fault::Nowhere);
    assert!(drive(&mut catalog, suite::test_catalog(MAX_L0_FILES)).is_some());
}

#[test]
fn suite_runs_each_scenario_on_a_catalog_of_its_own() {
    let observations: Vec<Observation> = [
        "namespace_create",
        "table_create",
        "column_create_or_get",
        "partition_create_or_get",
        "parquet_create_upgrade_delete",
    ]
    .iter()
    .map(|op| Observation {
        attributes: vec![attribute("op", op), attribute("result", "success")],
        recorded: Recorded::DurationHistogram(1),
    })
    .collect();
    let mut run = suite::test_catalog(MAX_L0_FILES);
    let mut scenarios = vec![];
    let mut clean = false;
    loop {
        let reply = match run.action() {
            Action::Ask(Request::Environment(EnvironmentRequest::CleanState)) => {
                assert!(!clean);
                clean = true;
                Reply::Done
            }
            Action::Ask(Request::Run(scenario)) => {
                let last = matches!(scenario, Scenario::ColumnCreateOrGetManyUnchecked);
                assert_eq!(clean, !last);
                clean = false;
                scenarios.push(format!("{scenario:?}"));
                Reply::Passed
            }
            Action::Ask(_) => Reply::Metrics(vec![Metric {
                name: "catalog_op_duration".to_string(),
                observations: observations.clone(),
            }]),
            Action::Pass => break,
            Action::Fail => panic!("every scenario passes"),
        };
        run.deliver(reply);
    }
    assert_eq!(run.heard(), 54);
    assert_eq!(scenarios.len(), 25);
    assert_eq!(scenarios[0], "Setup");
    assert_eq!(scenarios[5], "ParquetFile { max_l0_files: 7 }");
    assert_eq!(scenarios[18], "ParquetFile { max_l0_files: 7 }");
    assert_eq!(scenarios[24], "ColumnCreateOrGetManyUnchecked");
    scenarios.sort();
    scenarios.dedup();
    assert_eq!(scenarios.len(), 22);
}

#[test]
fn suite_needs_metrics() {
    for fault in [Fault::RecordsNothing, Fault::HasNoMetric] {
        assert!(!passes_with(suite::test_catalog(MAX_L0_FILES), fault), "{fault:?}");
    }
}

#[test]
fn suite_fails_with_any_of_its_scenarios() {
    for fault in [Fault::LosesAVersion, Fault::HashesWrongly, Fault::TellsAnotherTime] {
        assert!(!passes_with(suite::test_catalog(MAX_L0_FILES), fault));
    }
}

#[test]
fn setup_is_judged() {
    every_reply_is_judged(suite::test_setup, 2);
}

#[test]
fn namespaces_are_judged() {
    every_reply_is_judged(suite::test_namespace, 32);
    for fault in [Fault::LosesAVersion, Fault::StartsRetainingNamespacesLater] {
        assert!(!passes_with(suite::test_namespace(), fault), "{fault:?}");
    }
}

#[test]
fn namespace_sizes_are_judged() {
    every_reply_is_judged(suite::test_namespace_storage, 10);
    assert!(!passes_with(suite::test_namespace_storage(), Fault::LeaksSizes));
}

#[test]
fn namespace_size_requests_of_a_client_are_fewer() {
    let mut catalog = Memory::new("grpc_client", Fault::Nowhere);
    assert_eq!(count_requests(suite::test_namespace_storage(), &mut catalog), 8);
    let mut catalog = Memory::new("grpc_client", Fault::Nowhere);
    assert_eq!(count_requests(suite::test_table_storage(), &mut catalog), 5);
}

#[test]
fn concurrent_changes_are_judged() {
    every_reply_is_judged(suite::test_namespace_router_version_atomicity, 4);
    for fault in
        [Fault::LosesAVersion, Fault::RefusesAConcurrentChange, Fault::LosesAConcurrentReply]
    {
        assert!(
            !passes_with(suite::test_namespace_router_version_atomicity(), fault),
            "{fault:?}"
        );
    }
}

#[test]
fn concurrent_changes_are_seventy_five() {
    let mut catalog = Memory::new("memory", Fault::Nowhere);
    let mut run = suite::test_namespace_router_version_atomicity();
    for _ in 0..2 {
        let reply = match run.action() {
            Action::Ask(q) => catalog.perform(q),
            _ => panic!("there is a request"),
        };
        run.deliver(reply);
    }
    match run.action() {
        Action::Ask(Request::Concurrently(all)) => {
            assert_eq!(all.len(), 75);
            let tables = all
                .iter()
                .filter(|q| matches!(q, NamespacesRequest::UpdateTableLimit { max_tables: 100, .. }))
                .count();
            assert_eq!(tables, 25);
        }
        _ => panic!("the changes are made at the same time"),
    }
}

#[test]
fn soft_deletion_is_judged() {
    every_reply_is_judged(suite::test_namespace_soft_deletion, 27);
    for fault in [
        Fault::SeesDeletedRows,
        Fault::HidesActiveRows,
        Fault::KeepsOldGenerations,
        Fault::SnapshotForgetsANamespace,
    ] {
        assert!(!passes_with(suite::test_namespace_soft_deletion(), fault), "{fault:?}");
    }
}

#[test]
fn tables_are_judged() {
    every_reply_is_judged(suite::test_table, 43);
    for fault in [
        Fault::IgnoresTableLimits,
        Fault::KeepsOldGenerations,
        Fault::SnapshotForgetsATable,
        Fault::ForgetsTagColumns,
    ] {
        assert!(!passes_with(suite::test_table(), fault), "{fault:?}");
    }
}

#[test]
fn table_sizes_are_judged() {
    every_reply_is_judged(suite::test_table_storage, 12);
    assert!(!passes_with(suite::test_table_storage(), Fault::LeaksSizes));
}

#[test]
fn columns_are_judged() {
    every_reply_is_judged(suite::test_column, 25);
    for fault in
        [Fault::IgnoresColumnLimits, Fault::KeepsOldGenerations, Fault::ChangesColumnTypes]
    {
        assert!(!passes_with(suite::test_column(), fault), "{fault:?}");
    }
}

#[test]
fn partitions_are_judged() {
    every_reply_is_judged(suite::test_partition, 52);
    for fault in [
        Fault::SwapsAnySortKey,
        Fault::ForgetsTheMismatch,
        Fault::KeepsTheFirstReason,
        Fault::KeepsOldGenerations,
        Fault::SnapshotSwapsPartitionKeys,
        Fault::FindsAnotherSkippedCompaction,
    ] {
        assert!(!passes_with(suite::test_partition(), fault), "{fault:?}");
    }
}

#[test]
fn files_are_judged() {
    let steps = 128 + 2 * (MAX_L0_FILES as usize + 10) + 1;
    every_reply_is_judged(|| suite::test_parquet_file(MAX_L0_FILES), steps);
}

#[test]
fn faults_with_files_are_found() {
    for fault in [
        Fault::DeletesOnFailure,
        Fault::MarksTooManyFiles,
        Fault::ListsTooManyFiles,
        Fault::ReplacesLater,
        Fault::MixesPartitions,
        Fault::SnapshotLosesAFile,
        Fault::ForgetsTheSource,
        Fault::KeepsOldGenerations,
        Fault::OverwritesOnUpsert,
        Fault::RaisesNoFile,
    ] {
        assert!(!passes_with(suite::test_parquet_file(MAX_L0_FILES), fault), "{fault:?}");
    }
}

#[test]
fn limit_of_listed_files_is_the_one_given() {
    assert!(passes(suite::test_parquet_file(MAX_L0_FILES)));
    assert!(!passes(suite::test_parquet_file(MAX_L0_FILES - 1)));
    assert!(!passes(suite::test_parquet_file(MAX_L0_FILES + 1)));
}

#[test]
fn retention_of_files_is_judged() {
    every_reply_is_judged(suite::test_parquet_file_delete_broken, 11);
}

#[test]
fn times_of_new_files_are_judged() {
    every_reply_is_judged(suite::test_partitions_new_file_between, 50);
    for fault in [Fault::FindsInclusively, Fault::CountsEveryLevelAsNew] {
        assert!(!passes_with(suite::test_partitions_new_file_between(), fault), "{fault:?}");
    }
}

#[test]
fn files_of_a_partition_are_judged() {
    every_reply_is_judged(suite::test_list_by_partiton_not_to_delete, 16);
}

#[test]
fn raised_level_is_judged() {
    every_reply_is_judged(suite::test_update_to_compaction_level_1, 11);
    for fault in [Fault::RaisesNoFile, Fault::RaisesEveryFile] {
        assert!(!passes_with(suite::test_update_to_compaction_level_1(), fault), "{fault:?}");
    }
}

#[test]
fn deletion_is_judged() {
    every_reply_is_judged(suite::test_delete_namespace, 33);
    for fault in [
        Fault::CascadesDeletion,
        Fault::SeesDeletedRows,
        Fault::RemovesFilesOnDeletion,
        Fault::RemovesOtherFilesOnDeletion,
        Fault::ChangesFilesOnDeletion,
        Fault::ChangesOnDeletion,
    ] {
        assert!(!passes_with(suite::test_delete_namespace(), fault), "{fault:?}");
    }
}

#[test]
fn retention_of_partitions_is_judged() {
    let steps = count_requests(
        suite::test_partition_retention(),
        &mut Memory::new("memory", Fault::Nowhere),
    );
    assert_eq!(steps, 54);
    for fault in [Fault::RemovesEveryPartition, Fault::RemovesNoPartition] {
        assert!(!passes_with(suite::test_partition_retention(), fault), "{fault:?}");
    }
}

#[test]
fn schemas_are_judged() {
    every_reply_is_judged(suite::test_list_schemas, 4);
    every_reply_is_judged(suite::test_list_schemas_soft_deleted_rows, 5);
    assert!(!passes_with(suite::test_list_schemas(), Fault::ListsAnotherColumnType));
    assert!(passes_with(suite::test_list_schemas(), Fault::ListsSchemasInAnotherOrder));
    assert!(!passes_with(
        suite::test_list_schemas_soft_deleted_rows(),
        Fault::ListsDeletedSchemas
    ));
}

#[test]
fn second_repositories_are_judged() {
    every_reply_is_judged(suite::test_two_repos, 3);
    assert!(!passes_with(suite::test_two_repos(), Fault::HidesFromOtherRepositories));
}

#[test]
fn hashes_are_judged() {
    every_reply_is_judged(suite::test_partition_create_or_get_idempotent, 6);
    assert!(!passes_with(
        suite::test_partition_create_or_get_idempotent(),
        Fault::HashesWrongly
    ));
}

#[test]
fn many_columns_are_judged() {
    every_reply_is_judged(suite::test_column_create_or_get_many_unchecked, 8);
    for fault in
        [Fault::ChangesColumnTypes, Fault::RecordsNothing, Fault::ReturnsAColumnTwice]
    {
        assert!(
            !passes_with(suite::test_column_create_or_get_many_unchecked(), fault),
            "{fault:?}"
        );
    }
}

#[test]
fn each_call_of_many_columns_is_judged() {
    let calls = || {
        vec![
            vec![("a", ColumnType::I64), ("b", ColumnType::Tag)],
            vec![("a", ColumnType::Bool)],
            vec![("c", ColumnType::Time)],
        ]
    };
    // the second call is refused, so that nothing is looked for in the metrics after it
    every_reply_is_judged(
        || suite::test_column_create_or_get_many_unchecked_sub(calls(), Want::Columns),
        7,
    );
}

#[test]
fn last_call_of_many_columns_has_to_be_as_wanted() {
    let refused = "column a is type i64 but schema update has type bool";
    let calls = || vec![vec![("a", ColumnType::I64)], vec![("a", ColumnType::Bool)]];
    let run = |want| suite::test_column_create_or_get_many_unchecked_sub(calls(), want);
    assert!(passes(run(Want::Refusal(refused))));
    assert!(!passes(run(Want::Refusal("column a"))));
    assert!(!passes(run(Want::Columns)));
    let once = |want| {
        suite::test_column_create_or_get_many_unchecked_sub(
            vec![vec![("a", ColumnType::I64)]],
            want,
        )
    };
    assert!(passes(once(Want::Columns)));
    assert!(!passes(once(Want::Refusal(refused))));
}

#[test]
fn column_that_is_asked_for_twice_counts_once() {
    let calls = vec![vec![("a", ColumnType::I64), ("a", ColumnType::Bool)]];
    let mut run = suite::test_column_create_or_get_many_unchecked_sub(calls, Want::Columns);
    let mut catalog = Memory::new("memory", Fault::Nowhere);
    for _ in 0..2 {
        let reply = match run.action() {
            Action::Ask(q) => catalog.perform(q),
            _ => panic!("there is a request"),
        };
        run.deliver(reply);
    }
    let table_id = catalog.tables[0].id;
    let column =
        Column { id: 9, table_id, name: "a".to_string(), column_type: ColumnType::Bool };
    run.deliver(Reply::Columns(vec![column]));
    assert!(matches!(
        run.action(),
        Action::Ask(Request::Catalog(CatalogRequest::MetricReport { .. }))
    ));
}

#[test]
fn no_calls_of_many_columns_fail() {
    let run = suite::test_column_create_or_get_many_unchecked_sub(vec![], Want::Columns);
    assert!(matches!(run.action(), Action::Fail));
}

#[test]
fn times_are_judged() {
    every_reply_is_judged(suite::test_get_time, 5);
    every_reply_is_judged(suite::test_grpc_get_time_with_backed_catalog, 3);
    for fault in [Fault::TellsAnotherTime, Fault::RecordsNothing] {
        assert!(!passes_with(suite::test_get_time(), fault), "{fault:?}");
    }
    assert!(!passes_with(
        suite::test_grpc_get_time_with_backed_catalog(),
        Fault::TellsAnotherTime
    ));
}

#[test]
fn namespace_that_is_there_is_populated() {
    let mut catalog = Memory::new("memory", Fault::Nowhere);
    let Reply::Namespace(there) = catalog.create_namespace("ns1", None, Some(5)) else {
        panic!("created");
    };
    let lines = "cpu,tag=1 field=1i";
    match drive(&mut catalog, suite::populate_namespace("ns1", lines)) {
        Some(Reply::Populated(p)) => {
            assert_eq!(p.namespace.id, there.id);
            assert_eq!(p.schema.retention_period_ns, Some(5));
            assert_eq!(p.schema.tables.len(), 1);
            assert_eq!(p.schema.tables[0].name, "cpu");
            let names: Vec<&str> =
                p.schema.tables[0].columns.iter().map(|c| c.name.as_str()).collect();
            assert_eq!(names, ["field", "tag", "time"]);
        }
        _ => panic!("the namespace is populated"),
    }
}

#[test]
fn schema_without_changes_is_kept() {
    let mut catalog = Memory::new("memory", Fault::Nowhere);
    match drive(&mut catalog, suite::populate_namespace("ns1", "")) {
        Some(Reply::Populated(p)) => {
            assert_eq!(p.namespace.name, "ns1");
            assert!(p.schema.tables.is_empty());
        }
        _ => panic!("the namespace is populated"),
    }
}

#[test]
fn populating_fails_where_creating_does() {
    let mut run = suite::populate_namespace("ns1", "");
    assert!(matches!(
        run.action(),
        Action::Ask(Request::Namespaces(NamespacesRequest::Create { name: "ns1", .. }))
    ));
    run.deliver(failed(ErrorKind::LimitExceeded, "full".to_string()));
    assert!(matches!(run.action(), Action::Fail));
}

#[test]
fn files_of_all_tables_are_listed() {
    let mut catalog = Memory::new("memory", Fault::Nowhere);
    let Reply::Namespace(ns) = catalog.create_namespace("ns", None, None) else {
        panic!("created");
    };
    let mut wanted = vec![];
    for table in ["a", "b"] {
        let Reply::Table(t) = catalog.create_table(table, &default_template(), ns.id) else {
            panic!("created");
        };
        for key in ["x", "y"] {
            let p = catalog.partition(key, t.id, None);
            let params = catalog.params(&ns, &t, &p);
            wanted.push(catalog.add_file(&params, 1).id);
        }
    }
    let run = suite::list_parquet_files_by_namespace_not_to_delete(ns.id);
    match drive(&mut catalog, run) {
        Some(Reply::Files(files)) => {
            assert_eq!(files.iter().map(|f| f.id).collect::<Vec<_>>(), wanted);
        }
        _ => panic!("the files are listed"),
    }
}

#[test]
fn sizes_of_tables_are_compared() {
    let table = |id: i64| Table {
        id,
        namespace_id: 7,
        name: "t".to_string(),
        partition_template: default_template(),
    };
    let (a, b) = (table(1), table(2));
    let mut one = suite::assert_table_size(&a, 10, None);
    assert!(matches!(
        one.action(),
        Action::Ask(Request::Tables(TablesRequest::ListStorageByNamespaceId { namespace_id: 7 }))
    ));
    one.deliver(Reply::Sizes(vec![10]));
    assert!(matches!(
        one.action(),
        Action::Ask(Request::Tables(TablesRequest::GetStorageById { id: 1 }))
    ));
    one.deliver(Reply::Size(10));
    assert!(matches!(one.action(), Action::Pass));

    let mut two = suite::assert_table_size(&a, 10, Some((&b, 20)));
    two.deliver(Reply::Sizes(vec![20, 10]));
    assert!(matches!(two.action(), Action::Fail));

    let mut two = suite::assert_table_size(&a, 10, Some((&b, 20)));
    two.deliver(Reply::Sizes(vec![10, 20]));
    two.deliver(Reply::Size(10));
    assert!(matches!(
        two.action(),
        Action::Ask(Request::Tables(TablesRequest::GetStorageById { id: 2 }))
    ));
    two.deliver(Reply::Size(20));
    assert!(matches!(two.action(), Action::Pass));
    assert!(matches!(two.conclude(), Some(Reply::Passed)));
}

#[test]
fn snapshot_that_cannot_be_decoded_fails() {
    let snapshot = TableSnapshot { generation: 1, table: None, columns: None, partitions: None };
    assert!(matches!(suite::validate_table_snapshot(&snapshot).action(), Action::Fail));
    let snapshot = NamespaceSnapshot { handle: 0, generation: 1, namespace: None, tables: None };
    assert!(matches!(suite::validate_namespace_snapshot(&snapshot).action(), Action::Fail));
    let snapshot = PartitionSnapshot {
        generation: 1,
        partition_id: 3,
        partition: None,
        files: None,
        skipped_compaction: None,
    };
    let mut run = suite::validate_partition_snapshot(&snapshot);
    run.deliver(Reply::Files(vec![]));
    assert!(matches!(run.action(), Action::Fail));
    let snapshot = RootSnapshot { handle: 0, generation: 1, namespaces: None };
    let mut run = suite::validate_root_snapshot(&snapshot);
    run.deliver(Reply::Namespaces(vec![]));
    assert!(matches!(run.action(), Action::Fail));
}

#[test]
fn every_namespace_keeps_its_data() {
    let mut catalog = Memory::new("memory", Fault::Nowhere);
    for name in ["a", "b"] {
        catalog.create_namespace(name, None, Some(1));
    }
    let all = catalog.namespaces.clone();
    assert!(drive(&mut catalog, suite::keep_for_ever(&all)).is_some());
    assert!(catalog.namespaces.iter().all(|n| n.retention_period_ns.is_none()));
}

#[test]
fn run_hears_nothing_after_its_end() {
    let mut run = Run::new(Scenario::Setup);
    run.deliver(Reply::Done);
    run.deliver(Reply::Done);
    assert!(matches!(run.action(), Action::Pass));
    run.deliver(Reply::Nothing);
    assert!(matches!(run.action(), Action::Pass));
    assert!(matches!(run.conclude(), Some(Reply::Passed)));
    let unfinished = Run::new(Scenario::Setup);
    assert!(unfinished.conclude().is_none());
}
