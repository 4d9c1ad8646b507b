//! What a catalog has shown of its snapshots.
use crate::expect;
use crate::nesting::{genuine, law_a_scenario_passes_only_where_those_it_runs_do, was_run, Trace};
use crate::reply::Reply;
use crate::request::{
    ColumnsRequestView, NamespacesRequestView, ParquetFilesRequestView, PartitionsRequestView,
    RequestView, RootRequestView, ScenarioView, TablesRequestView,
};
use crate::run;
use crate::run::{accepts, finished, passes};
use crate::same::views;
use crate::scenarios::{
    test_column, test_namespace_soft_deletion, test_parquet_file, test_partition, test_table,
    validate_namespace_snapshot, validate_root_snapshot,
};
use crate::sorting::{
    ids_ascend, ids_distinct, law_order_does_not_matter, law_sorting_finds_the_ordered_list,
    law_sorting_rearranges, sorted_by_id, Keyed,
};
use crate::types::{
    NamespaceSnapshotView, PartitionSnapshotView, RootSnapshotView, SoftDeletedRows,
    TableSnapshotView,
};
use vstd::prelude::*;
use vstd::utf8::encode_utf8;

verus! {

/// A new namespace makes the generation of all namespaces grow, and deleting one does not make it
/// shrink.
pub proof fn law_root_generations_grow(h: Seq<Reply>)
    requires
        passes(ScenarioView::NamespaceSoftDeletion, h),
    ensures
        expect::root_snapshot(
            h,
            test_namespace_soft_deletion::S1,
        ).generation < expect::root_snapshot(h, test_namespace_soft_deletion::S2).generation,
        expect::root_snapshot(
            h,
            test_namespace_soft_deletion::S2,
        ).generation <= expect::root_snapshot(h, test_namespace_soft_deletion::S3).generation,
{
    let s = ScenarioView::NamespaceSoftDeletion;
    assert(accepts(s, h.take(test_namespace_soft_deletion::S1 + 1)));
    assert(accepts(s, h.take(test_namespace_soft_deletion::S2 + 1)));
    assert(accepts(s, h.take(test_namespace_soft_deletion::S3 + 1)));
}

/// A new table makes the generation of its namespace grow, and reading the namespace by name does
/// not make it shrink.
pub proof fn law_namespace_generations_grow(h: Seq<Reply>)
    requires
        passes(ScenarioView::Table, h),
    ensures
        expect::namespace_snapshot(h, test_table::S1).generation < expect::namespace_snapshot(
            h,
            test_table::S2,
        ).generation,
        expect::namespace_snapshot(h, test_table::S2).generation <= expect::namespace_snapshot(
            h,
            test_table::BY_NAME,
        ).generation,
{
    let s = ScenarioView::Table;
    assert(accepts(s, h.take(test_table::S1 + 1)));
    assert(accepts(s, h.take(test_table::S2 + 1)));
    assert(accepts(s, h.take(test_table::S2 + 1 + 1)));
    assert(accepts(s, h.take(test_table::BY_NAME + 1)));
}

/// A new column makes the generation of its table grow, and asking for one that is there does not
/// make it shrink.
pub proof fn law_table_generations_grow(h: Seq<Reply>)
    requires
        passes(ScenarioView::Column, h),
    ensures
        expect::table_snapshot(h, test_column::S1).generation <= expect::table_snapshot(
            h,
            test_column::S2,
        ).generation,
        expect::table_snapshot(h, test_column::S3).generation < expect::table_snapshot(
            h,
            test_column::S4,
        ).generation,
{
    let s = ScenarioView::Column;
    assert(accepts(s, h.take(test_column::S1 + 1)));
    assert(accepts(s, h.take(test_column::S1 + 1 + 1)));
    assert(accepts(s, h.take(test_column::S2 + 1)));
    assert(accepts(s, h.take(test_column::S2 + 1 + 1)));
    assert(accepts(s, h.take(test_column::S3 + 1)));
    assert(accepts(s, h.take(test_column::S3 + 1 + 1)));
    assert(accepts(s, h.take(test_column::S4 + 1)));
    assert(accepts(s, h.take(test_column::S4 + 1 + 1)));
}

/// A new sort key makes the generation of its partition grow, and so does a skipped compaction.
pub proof fn law_partition_generations_grow(h: Seq<Reply>)
    requires
        passes(ScenarioView::Partition, h),
    ensures
        expect::partition_snapshot(h, test_partition::S1).generation < expect::partition_snapshot(
            h,
            test_partition::S2,
        ).generation,
        expect::partition_snapshot(h, test_partition::S2).generation < expect::partition_snapshot(
            h,
            test_partition::S3,
        ).generation,
        expect::partition_snapshot(h, test_partition::S3).generation < expect::partition_snapshot(
            h,
            test_partition::S4,
        ).generation,
{
    let s = ScenarioView::Partition;
    assert(accepts(s, h.take(test_partition::S1 + 1)));
    assert(accepts(s, h.take(test_partition::S2 + 1)));
    assert(accepts(s, h.take(test_partition::S3 + 1)));
    assert(accepts(s, h.take(test_partition::S4 + 1)));
}

/// Marking files for deletion, replacing them and adding them makes the generation of their
/// partition grow, and removing them does not make it shrink. A new partition makes the generation
/// of its table grow.
pub proof fn law_file_generations_grow(h: Seq<Reply>, max_l0_files: u32)
    requires
        passes(ScenarioView::ParquetFile { max_l0_files }, h),
    ensures
        expect::partition_snapshot(
            h,
            test_parquet_file::S1,
        ).generation < expect::partition_snapshot(h, test_parquet_file::S2).generation,
        expect::partition_snapshot(
            h,
            test_parquet_file::S2,
        ).generation <= expect::partition_snapshot(h, test_parquet_file::S3).generation,
        expect::partition_snapshot(
            h,
            test_parquet_file::S3,
        ).generation < expect::partition_snapshot(h, test_parquet_file::S4).generation,
        expect::partition_snapshot(
            h,
            test_parquet_file::S4,
        ).generation < expect::partition_snapshot(h, test_parquet_file::S5).generation,
        expect::table_snapshot(h, test_parquet_file::TS1).generation < expect::table_snapshot(
            h,
            test_parquet_file::TS4,
        ).generation,
{
    let s = ScenarioView::ParquetFile { max_l0_files };
    assert(accepts(s, h.take(test_parquet_file::S1 + 1)));
    assert(accepts(s, h.take(test_parquet_file::S2 + 1)));
    assert(accepts(s, h.take(test_parquet_file::S3 + 1)));
    assert(accepts(s, h.take(test_parquet_file::S4 + 1)));
    assert(accepts(s, h.take(test_parquet_file::S5 + 1)));
    assert(accepts(s, h.take(test_parquet_file::TS1 + 1)));
    assert(accepts(s, h.take(test_parquet_file::TS4 + 1)));
    assert(accepts(s, h.take(test_parquet_file::TS4 + 1 + 1)));
}

/// The snapshot of step `k` was found valid by the run of step `at`.
pub open spec fn is_valid_root_snapshot(trace: Trace, k: usize, at: int) -> bool {
    was_run(
        trace,
        at,
        ScenarioView::ValidateRootSnapshot {
            root_snapshot: expect::root_snapshot(trace.replies, k),
        },
    )
}

/// The snapshot of step `k` was found valid by the run of step `at`.
pub open spec fn is_valid_namespace_snapshot(trace: Trace, k: usize, at: int) -> bool {
    was_run(
        trace,
        at,
        ScenarioView::ValidateNamespaceSnapshot {
            namespace_snapshot: expect::namespace_snapshot(trace.replies, k),
        },
    )
}

/// The snapshot of step `k` was found valid by the run of step `at`.
pub open spec fn is_valid_table_snapshot(trace: Trace, k: usize, at: int) -> bool {
    was_run(
        trace,
        at,
        ScenarioView::ValidateTableSnapshot {
            table_snapshot: expect::table_snapshot(trace.replies, k),
        },
    )
}

/// The snapshot of step `k` was found valid by the run of step `at`.
pub open spec fn is_valid_partition_snapshot(trace: Trace, k: usize, at: int) -> bool {
    was_run(
        trace,
        at,
        ScenarioView::ValidatePartitionSnapshot {
            partition_snapshot: expect::partition_snapshot(trace.replies, k),
        },
    )
}

/// Every snapshot of all namespaces that the scenario of deleted namespaces takes is found valid.
pub proof fn law_root_snapshots_are_valid(trace: Trace)
    requires
        passes(ScenarioView::NamespaceSoftDeletion, trace.replies),
        genuine(ScenarioView::NamespaceSoftDeletion, trace),
    ensures
        is_valid_root_snapshot(trace, test_namespace_soft_deletion::S1, 1),
        is_valid_root_snapshot(trace, test_namespace_soft_deletion::S2, 5),
        is_valid_root_snapshot(trace, test_namespace_soft_deletion::S3, 11),
{
    let s = ScenarioView::NamespaceSoftDeletion;
    law_a_scenario_passes_only_where_those_it_runs_do(s, trace, 1);
    law_a_scenario_passes_only_where_those_it_runs_do(s, trace, 5);
    law_a_scenario_passes_only_where_those_it_runs_do(s, trace, 11);
}

/// Every snapshot of a namespace that the scenario of tables takes by its id is found valid.
pub proof fn law_namespace_snapshots_are_valid(trace: Trace)
    requires
        passes(ScenarioView::Table, trace.replies),
        genuine(ScenarioView::Table, trace),
    ensures
        is_valid_namespace_snapshot(trace, test_table::S1, 3),
        is_valid_namespace_snapshot(trace, test_table::S2, 6),
        is_valid_namespace_snapshot(trace, test_table::S3, 20),
{
    let s = ScenarioView::Table;
    law_a_scenario_passes_only_where_those_it_runs_do(s, trace, 3);
    law_a_scenario_passes_only_where_those_it_runs_do(s, trace, 6);
    law_a_scenario_passes_only_where_those_it_runs_do(s, trace, 20);
}

/// Every snapshot of a table that the scenario of columns takes is found valid.
pub proof fn law_table_snapshots_are_valid(trace: Trace)
    requires
        passes(ScenarioView::Column, trace.replies),
        genuine(ScenarioView::Column, trace),
    ensures
        is_valid_table_snapshot(trace, test_column::S1, 4),
        is_valid_table_snapshot(trace, test_column::S2, 7),
        is_valid_table_snapshot(trace, test_column::S3, 13),
        is_valid_table_snapshot(trace, test_column::S4, 17),
{
    let s = ScenarioView::Column;
    law_a_scenario_passes_only_where_those_it_runs_do(s, trace, 4);
    law_a_scenario_passes_only_where_those_it_runs_do(s, trace, 7);
    law_a_scenario_passes_only_where_those_it_runs_do(s, trace, 13);
    law_a_scenario_passes_only_where_those_it_runs_do(s, trace, 17);
}

/// Every snapshot that the scenario of partitions takes is found valid.
pub proof fn law_partition_snapshots_are_valid(trace: Trace)
    requires
        passes(ScenarioView::Partition, trace.replies),
        genuine(ScenarioView::Partition, trace),
    ensures
        is_valid_table_snapshot(trace, test_partition::TABLE_SNAPSHOT, 11),
        is_valid_partition_snapshot(trace, test_partition::S1, 16),
        is_valid_partition_snapshot(trace, test_partition::S2, 19),
        is_valid_partition_snapshot(trace, test_partition::S3, 28),
        is_valid_partition_snapshot(trace, test_partition::S4, 34),
{
    let s = ScenarioView::Partition;
    law_a_scenario_passes_only_where_those_it_runs_do(s, trace, 11);
    law_a_scenario_passes_only_where_those_it_runs_do(s, trace, 16);
    law_a_scenario_passes_only_where_those_it_runs_do(s, trace, 19);
    law_a_scenario_passes_only_where_those_it_runs_do(s, trace, 28);
    law_a_scenario_passes_only_where_those_it_runs_do(s, trace, 34);
}

/// Every snapshot that the scenario of files takes is found valid.
pub proof fn law_file_snapshots_are_valid(trace: Trace, max_l0_files: u32)
    requires
        passes(ScenarioView::ParquetFile { max_l0_files }, trace.replies),
        genuine(ScenarioView::ParquetFile { max_l0_files }, trace),
    ensures
        is_valid_table_snapshot(trace, test_parquet_file::TS1, 6),
        is_valid_table_snapshot(trace, test_parquet_file::TS2, 8),
        is_valid_table_snapshot(trace, test_parquet_file::TS3, 39),
        is_valid_partition_snapshot(trace, test_parquet_file::S1, 55),
        is_valid_partition_snapshot(trace, test_parquet_file::S2, 63),
        is_valid_partition_snapshot(trace, test_parquet_file::S3, 68),
        is_valid_partition_snapshot(trace, test_parquet_file::S4, 83),
        is_valid_partition_snapshot(trace, test_parquet_file::S5, 108),
        is_valid_table_snapshot(trace, test_parquet_file::TS4, 111),
{
    let s = ScenarioView::ParquetFile { max_l0_files };
    law_a_scenario_passes_only_where_those_it_runs_do(s, trace, 6);
    law_a_scenario_passes_only_where_those_it_runs_do(s, trace, 8);
    law_a_scenario_passes_only_where_those_it_runs_do(s, trace, 39);
    law_a_scenario_passes_only_where_those_it_runs_do(s, trace, 55);
    law_a_scenario_passes_only_where_those_it_runs_do(s, trace, 63);
    law_a_scenario_passes_only_where_those_it_runs_do(s, trace, 68);
    law_a_scenario_passes_only_where_those_it_runs_do(s, trace, 83);
    law_a_scenario_passes_only_where_those_it_runs_do(s, trace, 108);
    law_a_scenario_passes_only_where_those_it_runs_do(s, trace, 111);
}

/// A snapshot of a partition that was found valid holds the files that the catalog lists, neither
/// more nor fewer, whatever their order, and the partition as the catalog has it.
pub proof fn law_valid_partition_snapshot_is_complete(
    h: Seq<Reply>,
    partition_snapshot: PartitionSnapshotView,
)
    requires
        passes(ScenarioView::ValidatePartitionSnapshot { partition_snapshot }, h),
        ids_distinct(expect::files(h, 0)),
    ensures
        partition_snapshot.files is Some,
        partition_snapshot.files->0.to_multiset() == expect::files(h, 0).to_multiset(),
        partition_snapshot.partition == Some(expect::partition(h, 2)),
{
    let s = ScenarioView::ValidatePartitionSnapshot { partition_snapshot };
    assert(accepts(s, h.take(1)));
    assert(accepts(s, h.take(3)));
    law_order_does_not_matter(expect::files(h, 0), partition_snapshot.files->0);
}

/// A snapshot of a table that was found valid holds the table and the columns that the catalog
/// lists, neither more nor fewer, whatever their order, and as many partitions.
pub proof fn law_valid_table_snapshot_is_complete(h: Seq<Reply>, table_snapshot: TableSnapshotView)
    requires
        passes(ScenarioView::ValidateTableSnapshot { table_snapshot }, h),
        ids_distinct(expect::columns(h, 1)),
    ensures
        table_snapshot.table == Some(expect::table(h, 0)),
        table_snapshot.columns is Some,
        table_snapshot.columns->0.to_multiset() == expect::columns(h, 1).to_multiset(),
        table_snapshot.partitions is Some,
        table_snapshot.partitions->0.len() == expect::partitions(h, 2).len(),
{
    let s = ScenarioView::ValidateTableSnapshot { table_snapshot };
    assert(accepts(s, h.take(1)));
    assert(accepts(s, h.take(2)));
    assert(accepts(s, h.take(3)));
    law_order_does_not_matter(expect::columns(h, 1), table_snapshot.columns->0);
    law_sorting_rearranges(table_snapshot.partitions->0);
    law_sorting_rearranges(expect::partitions(h, 2));
}

/// Each partition that the catalog lists is in a snapshot of its table that was found valid, with
/// its key.
pub proof fn law_valid_table_snapshot_has_every_partition(
    h: Seq<Reply>,
    table_snapshot: TableSnapshotView,
    i: int,
) -> (j: int)
    requires
        passes(ScenarioView::ValidateTableSnapshot { table_snapshot }, h),
        0 <= i < expect::partitions(h, 2).len(),
    ensures
        table_snapshot.partitions is Some,
        0 <= j < table_snapshot.partitions->0.len(),
        table_snapshot.partitions->0[j].id == expect::partitions(h, 2)[i].id,
        table_snapshot.partitions->0[j].name == encode_utf8(
            expect::partitions(h, 2)[i].partition_key,
        ),
{
    broadcast use vstd::seq_lib::group_to_multiset_ensures;

    let s = ScenarioView::ValidateTableSnapshot { table_snapshot };
    assert(accepts(s, h.take(3)));
    let listed = expect::partitions(h, 2);
    let entries = table_snapshot.partitions->0;
    law_sorting_rearranges(listed);
    law_sorting_rearranges(entries);
    let p = listed[i];
    assert(listed.contains(p));
    assert(sorted_by_id(listed).to_multiset().count(p) > 0);
    assert(sorted_by_id(listed).contains(p));
    let k = choose|k: int| 0 <= k < sorted_by_id(listed).len() && sorted_by_id(listed)[k] == p;
    let e = sorted_by_id(entries)[k];
    assert(expect::is_entry_of(e, p.id, p.partition_key));
    assert(sorted_by_id(entries).contains(e));
    assert(entries.to_multiset().count(e) > 0);
    assert(entries.contains(e));
    choose|j: int| 0 <= j < entries.len() && entries[j] == e
}

/// In a snapshot of a namespace that was found valid each table of the namespace can be looked up
/// by its name, and what is found has its id.
pub proof fn law_valid_namespace_snapshot_finds_every_table(
    h: Seq<Reply>,
    namespace_snapshot: NamespaceSnapshotView,
    i: int,
) -> (k: int)
    requires
        passes(ScenarioView::ValidateNamespaceSnapshot { namespace_snapshot }, h),
        0 <= i < expect::tables(h, validate_namespace_snapshot::LISTED).len(),
    ensures
        0 <= k < h.len(),
        ({
            let t = expect::tables(h, validate_namespace_snapshot::LISTED)[i];
            &&& run::request(
                ScenarioView::ValidateNamespaceSnapshot { namespace_snapshot },
                h.take(k),
            ) == RequestView::Namespaces(
                NamespacesRequestView::LookupTable {
                    handle: namespace_snapshot.handle,
                    name: t.name,
                },
            )
            &&& h[k] is Entry
            &&& h[k]->Entry_0@.id == t.id
            &&& h[k]->Entry_0@.name == encode_utf8(t.name)
        }),
{
    broadcast use vstd::seq_lib::group_to_multiset_ensures;

    let s = ScenarioView::ValidateNamespaceSnapshot { namespace_snapshot };
    let listed = expect::tables(h, validate_namespace_snapshot::LISTED);
    law_sorting_rearranges(listed);
    let t = listed[i];
    assert(listed.contains(t));
    assert(sorted_by_id(listed).to_multiset().count(t) > 0);
    assert(sorted_by_id(listed).contains(t));
    let p = choose|p: int| 0 <= p < sorted_by_id(listed).len() && sorted_by_id(listed)[p] == t;
    let k = p + 3;
    assert(k < h.len());
    assert(accepts(s, h.take(k + 1)));
    assert(h.take(k + 1)[1] == h[1]);
    assert(h.take(k)[1] == h[1]);
    k
}

/// In a snapshot of all namespaces that was found valid each namespace can be looked up by its
/// name, and what is found has its id.
pub proof fn law_valid_root_snapshot_finds_every_namespace(
    h: Seq<Reply>,
    root_snapshot: RootSnapshotView,
    i: int,
) -> (k: int)
    requires
        passes(ScenarioView::ValidateRootSnapshot { root_snapshot }, h),
        0 <= i < expect::namespaces(h, validate_root_snapshot::LISTED).len(),
    ensures
        0 <= k < h.len(),
        ({
            let ns = expect::namespaces(h, validate_root_snapshot::LISTED)[i];
            &&& run::request(ScenarioView::ValidateRootSnapshot { root_snapshot }, h.take(k))
                == RequestView::Root(
                RootRequestView::LookupNamespace { handle: root_snapshot.handle, name: ns.name },
            )
            &&& h[k] is Entry
            &&& h[k]->Entry_0@.id == ns.id
            &&& h[k]->Entry_0@.name == encode_utf8(ns.name)
        }),
{
    broadcast use vstd::seq_lib::group_to_multiset_ensures;

    let s = ScenarioView::ValidateRootSnapshot { root_snapshot };
    let listed = expect::namespaces(h, validate_root_snapshot::LISTED);
    law_sorting_rearranges(listed);
    let ns = listed[i];
    assert(listed.contains(ns));
    assert(sorted_by_id(listed).to_multiset().count(ns) > 0);
    assert(sorted_by_id(listed).contains(ns));
    let p = choose|p: int| 0 <= p < sorted_by_id(listed).len() && sorted_by_id(listed)[p] == ns;
    let k = p + 2;
    assert(k < h.len());
    assert(accepts(s, h.take(k + 1)));
    assert(h.take(k + 1)[0] == h[0]);
    assert(h.take(k)[0] == h[0]);
    k
}

/// A snapshot of a namespace that was found valid holds the namespace as the catalog has it now,
/// and as
/// many tables. A table that is not there cannot be looked up in it.
pub proof fn law_valid_namespace_snapshot_is_current(
    h: Seq<Reply>,
    namespace_snapshot: NamespaceSnapshotView,
)
    requires
        passes(ScenarioView::ValidateNamespaceSnapshot { namespace_snapshot }, h),
    ensures
        ({
            let asked = |k: int|
                run::request(
                    ScenarioView::ValidateNamespaceSnapshot { namespace_snapshot },
                    h.take(k),
                );
            let id = h[0]->Namespace_0.id;
            &&& asked(0) == RequestView::Namespaces(
                NamespacesRequestView::GetById { id, rows: SoftDeletedRows::AllRows },
            )
            &&& h[0] is Namespace
            &&& namespace_snapshot.namespace == Some(h[0]->Namespace_0@)
            &&& asked(1) == RequestView::Tables(
                TablesRequestView::ListByNamespaceId { namespace_id: id },
            )
            &&& h[1] is Tables
            &&& namespace_snapshot.tables == Some(h[1]->Tables_0@.len() as usize)
            &&& h[1]->Tables_0@.len() <= usize::MAX
            &&& asked(2) == RequestView::Namespaces(
                NamespacesRequestView::LookupTable {
                    handle: namespace_snapshot.handle,
                    name: "does_not_exist"@,
                },
            )
            &&& h[2] is Nothing
            &&& h.len() == 3 + h[1]->Tables_0@.len()
        }),
{
    let s = ScenarioView::ValidateNamespaceSnapshot { namespace_snapshot };
    assert(accepts(s, h.take(1)));
    assert(accepts(s, h.take(2)));
    assert(accepts(s, h.take(3)));
    let m = 3 + h[1]->Tables_0@.len();
    if h.len() > m {
        assert(h.take(m as int)[1] == h[1]);
        assert(finished(s, h.take(m as int)));
    }
}

/// A snapshot of all namespaces that was found valid holds as many as the catalog lists, deleted
/// ones
/// among them. A namespace that is not there cannot be looked up in it.
pub proof fn law_valid_root_snapshot_is_current(h: Seq<Reply>, root_snapshot: RootSnapshotView)
    requires
        passes(ScenarioView::ValidateRootSnapshot { root_snapshot }, h),
    ensures
        ({
            let asked = |k: int|
                run::request(ScenarioView::ValidateRootSnapshot { root_snapshot }, h.take(k));
            &&& asked(0) == RequestView::Namespaces(
                NamespacesRequestView::List { rows: SoftDeletedRows::AllRows },
            )
            &&& h[0] is Namespaces
            &&& root_snapshot.namespaces == Some(h[0]->Namespaces_0@.len() as usize)
            &&& h[0]->Namespaces_0@.len() <= usize::MAX
            &&& asked(1) == RequestView::Root(
                RootRequestView::LookupNamespace {
                    handle: root_snapshot.handle,
                    name: "does_not_exist"@,
                },
            )
            &&& h[1] is Nothing
            &&& h.len() == 2 + h[0]->Namespaces_0@.len()
        }),
{
    let s = ScenarioView::ValidateRootSnapshot { root_snapshot };
    assert(accepts(s, h.take(1)));
    assert(accepts(s, h.take(2)));
    let m = 2 + h[0]->Namespaces_0@.len();
    if h.len() > m {
        assert(h.take(m as int)[0] == h[0]);
        assert(finished(s, h.take(m as int)));
    }
}

/// A snapshot of a table is held against the table of its id and against what that table has.
pub proof fn law_table_snapshot_is_held_against_its_table(
    h: Seq<Reply>,
    table_snapshot: TableSnapshotView,
)
    requires
        passes(ScenarioView::ValidateTableSnapshot { table_snapshot }, h),
    ensures
        ({
            let asked = |k: int|
                run::request(ScenarioView::ValidateTableSnapshot { table_snapshot }, h.take(k));
            let id = h[0]->Table_0.id;
            &&& h[0] is Table && table_snapshot.table == Some(h[0]->Table_0@)
            &&& asked(0) == RequestView::Tables(TablesRequestView::GetById { id })
            &&& asked(1) == RequestView::Columns(ColumnsRequestView::ListByTableId { table_id: id })
            &&& h[1] is Columns && table_snapshot.columns is Some
            &&& table_snapshot.columns->0.to_multiset() == views(h[1]->Columns_0@).to_multiset()
            &&& asked(2) == RequestView::Partitions(
                PartitionsRequestView::ListByTableId { table_id: id },
            )
            &&& h[2] is Partitions
        }),
{
    let s = ScenarioView::ValidateTableSnapshot { table_snapshot };
    assert(accepts(s, h.take(1)));
    assert(accepts(s, h.take(2)));
    assert(accepts(s, h.take(3)));
    law_sorting_rearranges(views(h[1]->Columns_0@));
    law_sorting_rearranges(table_snapshot.columns->0);
}

/// A snapshot of a partition that was found valid holds what the catalog has of that partition: the
/// files that are not marked, the compaction that was skipped, if any, and the partition itself.
pub proof fn law_valid_partition_snapshot_is_current(
    h: Seq<Reply>,
    partition_snapshot: PartitionSnapshotView,
)
    requires
        passes(ScenarioView::ValidatePartitionSnapshot { partition_snapshot }, h),
    ensures
        ({
            let asked = |k: int|
                run::request(
                    ScenarioView::ValidatePartitionSnapshot { partition_snapshot },
                    h.take(k),
                );
            let id = partition_snapshot.partition_id;
            &&& asked(0) == RequestView::ParquetFiles(
                ParquetFilesRequestView::ListByPartitionNotToDeleteBatch {
                    partition_ids: seq![id],
                },
            )
            &&& h[0] is Files && partition_snapshot.files is Some
            &&& partition_snapshot.files->0.to_multiset() == views(h[0]->Files_0@).to_multiset()
            &&& asked(1) == RequestView::Partitions(
                PartitionsRequestView::GetInSkippedCompactions { ids: seq![id] },
            )
            &&& h[1] is SkippedList
            &&& h[1]->SkippedList_0@.len() == 0 <==> partition_snapshot.skipped_compaction is None
            &&& h[1]->SkippedList_0@.len() > 0 ==> partition_snapshot.skipped_compaction == Some(
                h[1]->SkippedList_0@[0]@,
            )
            &&& asked(2) == RequestView::Partitions(PartitionsRequestView::GetById { id })
            &&& h[2] is Partition
            &&& partition_snapshot.partition == Some(h[2]->Partition_0@)
        }),
{
    let s = ScenarioView::ValidatePartitionSnapshot { partition_snapshot };
    assert(accepts(s, h.take(1)));
    assert(accepts(s, h.take(2)));
    assert(accepts(s, h.take(3)));
    law_sorting_rearranges(views(h[0]->Files_0@));
    law_sorting_rearranges(partition_snapshot.files->0);
}

/// A snapshot of a namespace that holds the namespace as the catalog has it and as many tables, and
/// in
/// which each table can be looked up and no other, is found valid.
pub proof fn law_a_current_namespace_snapshot_is_found_valid(
    h: Seq<Reply>,
    namespace_snapshot: NamespaceSnapshotView,
)
    requires
        h.len() >= 3,
        h[0] is Namespace,
        namespace_snapshot.namespace == Some(h[0]->Namespace_0@),
        h[1] is Tables,
        namespace_snapshot.tables is Some,
        namespace_snapshot.tables->0 == h[1]->Tables_0@.len(),
        h[2] is Nothing,
        h.len() == 3 + h[1]->Tables_0@.len(),
        forall|i: int|
            3 <= i < h.len() ==> {
                let t = sorted_by_id(views(h[1]->Tables_0@))[i - 3];
                &&& (#[trigger] h[i]) is Entry
                &&& h[i]->Entry_0@.id == t.id
                &&& h[i]->Entry_0@.name == encode_utf8(t.name)
            },
    ensures
        passes(ScenarioView::ValidateNamespaceSnapshot { namespace_snapshot }, h),
{
    let s = ScenarioView::ValidateNamespaceSnapshot { namespace_snapshot };
    assert forall|n: int| 0 < n <= h.len() implies #[trigger] accepts(s, h.take(n)) by {
        let t = h.take(n);
        assert(t.last() == h[n - 1]);
        if n > 2 {
            assert(t[1] == h[1]);
        }
    }
    assert forall|n: int| 0 <= n < h.len() implies !(#[trigger] finished(s, h.take(n))) by {
        if n > 2 {
            assert(h.take(n)[1] == h[1]);
        }
    }
}

/// A snapshot of all namespaces that holds as many as the catalog lists, and in which each can be
/// looked up and no other, is found valid.
pub proof fn law_a_current_root_snapshot_is_found_valid(
    h: Seq<Reply>,
    root_snapshot: RootSnapshotView,
)
    requires
        h.len() >= 2,
        h[0] is Namespaces,
        root_snapshot.namespaces is Some,
        root_snapshot.namespaces->0 == h[0]->Namespaces_0@.len(),
        h[1] is Nothing,
        h.len() == 2 + h[0]->Namespaces_0@.len(),
        forall|i: int|
            2 <= i < h.len() ==> {
                let ns = sorted_by_id(views(h[0]->Namespaces_0@))[i - 2];
                &&& (#[trigger] h[i]) is Entry
                &&& h[i]->Entry_0@.id == ns.id
                &&& h[i]->Entry_0@.name == encode_utf8(ns.name)
            },
    ensures
        passes(ScenarioView::ValidateRootSnapshot { root_snapshot }, h),
{
    let s = ScenarioView::ValidateRootSnapshot { root_snapshot };
    assert forall|n: int| 0 < n <= h.len() implies #[trigger] accepts(s, h.take(n)) by {
        let t = h.take(n);
        assert(t.last() == h[n - 1]);
        if n > 1 {
            assert(t[0] == h[0]);
        }
    }
    assert forall|n: int| 0 <= n < h.len() implies !(#[trigger] finished(s, h.take(n))) by {
        if n > 1 {
            assert(h.take(n)[0] == h[0]);
        }
    }
}

/// A snapshot of a table that holds what the catalog lists of it, in the order of the ids, is found
/// valid.
pub proof fn law_a_current_table_snapshot_is_found_valid(
    h: Seq<Reply>,
    table_snapshot: TableSnapshotView,
)
    requires
        h.len() == 3,
        h[0] is Table,
        table_snapshot.table == Some(h[0]->Table_0@),
        h[1] is Columns,
        table_snapshot.columns == Some(views(h[1]->Columns_0@)),
        h[2] is Partitions,
        table_snapshot.partitions is Some,
        ids_ascend(views(h[2]->Partitions_0@)) && ids_distinct(views(h[2]->Partitions_0@)),
        table_snapshot.partitions->0.len() == h[2]->Partitions_0@.len(),
        forall|i: int|
            0 <= i < h[2]->Partitions_0@.len() ==> (
            #[trigger] table_snapshot.partitions->0[i]).id == h[2]->Partitions_0@[i].id
                && table_snapshot.partitions->0[i].name == encode_utf8(
                h[2]->Partitions_0@[i]@.partition_key,
            ),
    ensures
        passes(ScenarioView::ValidateTableSnapshot { table_snapshot }, h),
{
    let s = ScenarioView::ValidateTableSnapshot { table_snapshot };
    let listed = views(h[2]->Partitions_0@);
    let entries = table_snapshot.partitions->0;
    assert forall|i: int| 0 <= i < entries.len() implies (#[trigger] entries[i]).key()
        == listed[i].key() by {}
    assert forall|i: int, j: int| 0 <= i < j < entries.len() implies (#[trigger] entries[i]).key()
        <= (#[trigger] entries[j]).key() by {
        assert(listed[i].key() <= listed[j].key());
    }
    assert forall|i: int, j: int|
        0 <= i < entries.len() && 0 <= j < entries.len() && i != j implies (
    #[trigger] entries[i]).key() != (#[trigger] entries[j]).key() by {
        assert(listed[i].key() != listed[j].key());
    }
    law_sorting_finds_the_ordered_list(listed, listed);
    law_sorting_finds_the_ordered_list(entries, entries);
    assert forall|n: int| 0 < n <= h.len() implies #[trigger] accepts(s, h.take(n)) by {
        assert(h.take(n).last() == h[n - 1]);
    }
}

/// A snapshot of a partition that holds what the catalog has of it is found valid.
pub proof fn law_a_current_partition_snapshot_is_found_valid(
    h: Seq<Reply>,
    partition_snapshot: PartitionSnapshotView,
)
    requires
        h.len() == 3,
        h[0] is Files,
        partition_snapshot.files == Some(views(h[0]->Files_0@)),
        h[1] is SkippedList,
        h[1]->SkippedList_0@.len() == 0 ==> partition_snapshot.skipped_compaction is None,
        h[1]->SkippedList_0@.len() > 0 ==> partition_snapshot.skipped_compaction == Some(
            h[1]->SkippedList_0@[0]@,
        ),
        h[2] is Partition,
        partition_snapshot.partition == Some(h[2]->Partition_0@),
    ensures
        passes(ScenarioView::ValidatePartitionSnapshot { partition_snapshot }, h),
{
    let s = ScenarioView::ValidatePartitionSnapshot { partition_snapshot };
    assert forall|n: int| 0 < n <= h.len() implies #[trigger] accepts(s, h.take(n)) by {
        assert(h.take(n).last() == h[n - 1]);
    }
}

} // verus!
