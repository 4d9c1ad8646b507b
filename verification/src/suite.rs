//! The scenarios by name, each as a run that has yet to start.
use crate::reply::Reply;
use crate::request::{call_views, Scenario, ScenarioView, Want};
use crate::run::Run;
use crate::same::views;
use crate::types::{
    ColumnType, Namespace, NamespaceSnapshot, PartitionSnapshot, RootSnapshot, Table, TableSnapshot,
};
use vstd::prelude::*;

verus! {

/// A catalog can be set up, and set up again.
pub fn test_setup<'a>() -> (r: Run<'a>)
    ensures
        r.wf(),
        r.scenario() == ScenarioView::Setup,
        r.history() == Seq::<Reply>::empty(),
{
    Run::new(Scenario::Setup)
}

/// Namespaces can be created, found, changed and deleted.
pub fn test_namespace<'a>() -> (r: Run<'a>)
    ensures
        r.wf(),
        r.scenario() == ScenarioView::Namespace,
        r.history() == Seq::<Reply>::empty(),
{
    Run::new(Scenario::Namespace)
}

/// The size of a namespace is the size of its files.
pub fn test_namespace_storage<'a>() -> (r: Run<'a>)
    ensures
        r.wf(),
        r.scenario() == ScenarioView::NamespaceStorage,
        r.history() == Seq::<Reply>::empty(),
{
    Run::new(Scenario::NamespaceStorage)
}

/// Changes of a namespace that are made at the same time each advance its version by one.
pub fn test_namespace_router_version_atomicity<'a>() -> (r: Run<'a>)
    ensures
        r.wf(),
        r.scenario() == ScenarioView::NamespaceRouterVersionAtomicity,
        r.history() == Seq::<Reply>::empty(),
{
    Run::new(Scenario::NamespaceRouterVersionAtomicity)
}

/// Reads respect soft deletion, for each of the three choices of rows.
pub fn test_namespace_soft_deletion<'a>() -> (r: Run<'a>)
    ensures
        r.wf(),
        r.scenario() == ScenarioView::NamespaceSoftDeletion,
        r.history() == Seq::<Reply>::empty(),
{
    Run::new(Scenario::NamespaceSoftDeletion)
}

/// Tables can be created, found and limited.
pub fn test_table<'a>() -> (r: Run<'a>)
    ensures
        r.wf(),
        r.scenario() == ScenarioView::Table,
        r.history() == Seq::<Reply>::empty(),
{
    Run::new(Scenario::Table)
}

/// The size of a table is the size of its files.
pub fn test_table_storage<'a>() -> (r: Run<'a>)
    ensures
        r.wf(),
        r.scenario() == ScenarioView::TableStorage,
        r.history() == Seq::<Reply>::empty(),
{
    Run::new(Scenario::TableStorage)
}

/// One table, or two of the same namespace, have the sizes given.
pub fn assert_table_size<'a>(
    table_1: &Table,
    expected_size_1: i64,
    table_2_and_size: Option<(&Table, i64)>,
) -> (r: Run<'a>)
    ensures
        r.wf(),
        r.scenario() == (ScenarioView::TableSize {
            namespace_id: table_1.namespace_id,
            first: table_1.id,
            first_size: expected_size_1,
            second: match table_2_and_size {
                Some((t, size)) => Some((t.id, size)),
                None => None,
            },
        }),
        r.history() == Seq::<Reply>::empty(),
{
    let second: Option<(i64, i64)> = match table_2_and_size {
        Some((t, size)) => Some((t.id, size)),
        None => None,
    };
    Run::new(
        Scenario::TableSize {
            namespace_id: table_1.namespace_id,
            first: table_1.id,
            first_size: expected_size_1,
            second,
        },
    )
}

/// Columns can be created, found and limited.
pub fn test_column<'a>() -> (r: Run<'a>)
    ensures
        r.wf(),
        r.scenario() == ScenarioView::Column,
        r.history() == Seq::<Reply>::empty(),
{
    Run::new(Scenario::Column)
}

/// A snapshot of a partition agrees with the catalog.
pub fn validate_partition_snapshot<'a>(partition_snapshot: &'a PartitionSnapshot) -> (r: Run<'a>)
    ensures
        r.wf(),
        r.scenario() == (
            ScenarioView::ValidatePartitionSnapshot { partition_snapshot: partition_snapshot@ }
        ),
        r.history() == Seq::<Reply>::empty(),
{
    Run::new(Scenario::ValidatePartitionSnapshot { partition_snapshot })
}

/// A snapshot of a table agrees with the catalog.
pub fn validate_table_snapshot<'a>(table_snapshot: &'a TableSnapshot) -> (r: Run<'a>)
    ensures
        r.wf(),
        r.scenario() == (ScenarioView::ValidateTableSnapshot { table_snapshot: table_snapshot@ }),
        r.history() == Seq::<Reply>::empty(),
{
    Run::new(Scenario::ValidateTableSnapshot { table_snapshot })
}

/// A snapshot of a namespace agrees with the catalog.
pub fn validate_namespace_snapshot<'a>(namespace_snapshot: &'a NamespaceSnapshot) -> (r: Run<'a>)
    ensures
        r.wf(),
        r.scenario() == (
            ScenarioView::ValidateNamespaceSnapshot { namespace_snapshot: namespace_snapshot@ }
        ),
        r.history() == Seq::<Reply>::empty(),
{
    Run::new(Scenario::ValidateNamespaceSnapshot { namespace_snapshot })
}

/// A snapshot of all namespaces agrees with the catalog.
pub fn validate_root_snapshot<'a>(root_snapshot: &'a RootSnapshot) -> (r: Run<'a>)
    ensures
        r.wf(),
        r.scenario() == (ScenarioView::ValidateRootSnapshot { root_snapshot: root_snapshot@ }),
        r.history() == Seq::<Reply>::empty(),
{
    Run::new(Scenario::ValidateRootSnapshot { root_snapshot })
}

/// All files of a namespace that are not marked for deletion.
pub fn list_parquet_files_by_namespace_not_to_delete<'a>(namespace_id: i64) -> (r: Run<'a>)
    ensures
        r.wf(),
        r.scenario() == (ScenarioView::ListParquetFiles { namespace_id }),
        r.history() == Seq::<Reply>::empty(),
{
    Run::new(Scenario::ListParquetFiles { namespace_id })
}

/// Partitions can be created, found, sorted and skipped.
pub fn test_partition<'a>() -> (r: Run<'a>)
    ensures
        r.wf(),
        r.scenario() == ScenarioView::Partition,
        r.history() == Seq::<Reply>::empty(),
{
    Run::new(Scenario::Partition)
}

/// Every namespace given keeps its data for ever.
pub fn keep_for_ever<'a>(namespaces: &'a Vec<Namespace>) -> (r: Run<'a>)
    ensures
        r.wf(),
        r.scenario() == (ScenarioView::KeepForEver { namespaces: views(namespaces@) }),
        r.history() == Seq::<Reply>::empty(),
{
    Run::new(Scenario::KeepForEver { namespaces })
}

/// Files can be added, found, compacted and deleted.
pub fn test_parquet_file<'a>(max_l0_files: u32) -> (r: Run<'a>)
    ensures
        r.wf(),
        r.scenario() == (ScenarioView::ParquetFile { max_l0_files }),
        r.history() == Seq::<Reply>::empty(),
{
    Run::new(Scenario::ParquetFile { max_l0_files })
}

/// Files are marked for deletion where a namespace has a retention period, and only there.
pub fn test_parquet_file_delete_broken<'a>() -> (r: Run<'a>)
    ensures
        r.wf(),
        r.scenario() == ScenarioView::ParquetFileDeleteBroken,
        r.history() == Seq::<Reply>::empty(),
{
    Run::new(Scenario::ParquetFileDeleteBroken)
}

/// Partitions can be found by the time of their last new file of the first level.
pub fn test_partitions_new_file_between<'a>() -> (r: Run<'a>)
    ensures
        r.wf(),
        r.scenario() == ScenarioView::PartitionsNewFileBetween,
        r.history() == Seq::<Reply>::empty(),
{
    Run::new(Scenario::PartitionsNewFileBetween)
}

/// The files of a partition are listed, but for those that are marked for deletion.
pub fn test_list_by_partiton_not_to_delete<'a>() -> (r: Run<'a>)
    ensures
        r.wf(),
        r.scenario() == ScenarioView::ListByPartitionNotToDelete,
        r.history() == Seq::<Reply>::empty(),
{
    Run::new(Scenario::ListByPartitionNotToDelete)
}

/// A file can be raised to the second level.
pub fn test_update_to_compaction_level_1<'a>() -> (r: Run<'a>)
    ensures
        r.wf(),
        r.scenario() == ScenarioView::UpdateToCompactionLevel1,
        r.history() == Seq::<Reply>::empty(),
{
    Run::new(Scenario::UpdateToCompactionLevel1)
}

/// Deleting a namespace deletes neither what it holds nor any other namespace.
pub fn test_delete_namespace<'a>() -> (r: Run<'a>)
    ensures
        r.wf(),
        r.scenario() == ScenarioView::DeleteNamespace,
        r.history() == Seq::<Reply>::empty(),
{
    Run::new(Scenario::DeleteNamespace)
}

/// Partitions that hold nothing and never will again are removed.
pub fn test_partition_retention<'a>() -> (r: Run<'a>)
    ensures
        r.wf(),
        r.scenario() == ScenarioView::PartitionRetention,
        r.history() == Seq::<Reply>::empty(),
{
    Run::new(Scenario::PartitionRetention)
}

/// A namespace is created, or found, and rows are written to it.
pub fn populate_namespace<'a>(name: &'a str, lines: &'a str) -> (r: Run<'a>)
    ensures
        r.wf(),
        r.scenario() == (ScenarioView::PopulateNamespace { name: name@, lines: lines@ }),
        r.history() == Seq::<Reply>::empty(),
{
    Run::new(Scenario::PopulateNamespace { name, lines })
}

/// All namespaces are listed with their schemas.
pub fn test_list_schemas<'a>() -> (r: Run<'a>)
    ensures
        r.wf(),
        r.scenario() == ScenarioView::ListSchemas,
        r.history() == Seq::<Reply>::empty(),
{
    Run::new(Scenario::ListSchemas)
}

/// Namespaces that are deleted are not listed with their schemas.
pub fn test_list_schemas_soft_deleted_rows<'a>() -> (r: Run<'a>)
    ensures
        r.wf(),
        r.scenario() == ScenarioView::ListSchemasSoftDeletedRows,
        r.history() == Seq::<Reply>::empty(),
{
    Run::new(Scenario::ListSchemasSoftDeletedRows)
}

/// What one set of repositories writes, another one of the same catalog reads at once.
pub fn test_two_repos<'a>() -> (r: Run<'a>)
    ensures
        r.wf(),
        r.scenario() == ScenarioView::TwoRepos,
        r.history() == Seq::<Reply>::empty(),
{
    Run::new(Scenario::TwoRepos)
}

/// A partition is created once, and keeps its hash.
pub fn test_partition_create_or_get_idempotent<'a>() -> (r: Run<'a>)
    ensures
        r.wf(),
        r.scenario() == ScenarioView::PartitionCreateOrGetIdempotent,
        r.history() == Seq::<Reply>::empty(),
{
    Run::new(Scenario::PartitionCreateOrGetIdempotent)
}

/// Several columns can be created at once.
pub fn test_column_create_or_get_many_unchecked<'a>() -> (r: Run<'a>)
    ensures
        r.wf(),
        r.scenario() == ScenarioView::ColumnCreateOrGetManyUnchecked,
        r.history() == Seq::<Reply>::empty(),
{
    Run::new(Scenario::ColumnCreateOrGetManyUnchecked)
}

/// Columns are created, several at once, by one call after the other.
pub fn test_column_create_or_get_many_unchecked_sub<'a>(
    calls: Vec<Vec<(&'a str, ColumnType)>>,
    want: Want<'a>,
) -> (r: Run<'a>)
    ensures
        r.wf(),
        r.scenario() == (ScenarioView::ManyColumns {
            calls: call_views(calls@),
            want: want@,
        }),
        r.history() == Seq::<Reply>::empty(),
{
    Run::new(Scenario::ManyColumns { calls, want })
}

/// A catalog tells the time, and records that it did.
pub fn test_get_time<'a>() -> (r: Run<'a>)
    ensures
        r.wf(),
        r.scenario() == ScenarioView::GetTime,
        r.history() == Seq::<Reply>::empty(),
{
    Run::new(Scenario::GetTime)
}

/// A client tells the time of the catalog that it is connected to.
pub fn test_grpc_get_time_with_backed_catalog<'a>() -> (r: Run<'a>)
    ensures
        r.wf(),
        r.scenario() == ScenarioView::GrpcGetTime,
        r.history() == Seq::<Reply>::empty(),
{
    Run::new(Scenario::GrpcGetTime)
}

/// The whole suite: every scenario, each on a catalog of its own.
pub fn test_catalog<'a>(max_l0_files: u32) -> (r: Run<'a>)
    ensures
        r.wf(),
        r.scenario() == (ScenarioView::Catalog { max_l0_files }),
        r.history() == Seq::<Reply>::empty(),
{
    Run::new(Scenario::Catalog { max_l0_files })
}

} // verus!
