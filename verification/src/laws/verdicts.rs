//! What verdicts mean.
use crate::expect;
use crate::reply::Reply;
use crate::request::ScenarioView;
use crate::run::{accepted, accepts, fails, finished, is_outcome, opens, passes};
use crate::scenarios::test_column_create_or_get_many_unchecked_sub::{lemma_progress, progress};
use crate::scenarios::{
    list_parquet_files_by_namespace_not_to_delete, test_catalog, test_column,
    test_column_create_or_get_many_unchecked, test_delete_namespace, test_get_time,
    test_grpc_get_time_with_backed_catalog, test_list_by_partiton_not_to_delete, test_list_schemas,
    test_list_schemas_soft_deleted_rows, test_namespace, test_namespace_router_version_atomicity,
    test_namespace_soft_deletion, test_parquet_file, test_parquet_file_delete_broken,
    test_partition, test_partition_create_or_get_idempotent, test_partition_retention,
    test_partitions_new_file_between, test_setup, test_table, test_two_repos,
    test_update_to_compaction_level_1, validate_namespace_snapshot, validate_partition_snapshot,
    validate_root_snapshot, validate_table_snapshot,
};
use vstd::prelude::*;

verus! {

/// A verdict is final: whatever a catalog replies later, a scenario that has failed does not pass.
pub proof fn law_failure_is_final(s: ScenarioView, h: Seq<Reply>, later: Seq<Reply>)
    requires
        fails(s, h),
    ensures
        fails(s, h + later),
        !passes(s, h + later),
{
    if opens(s) {
        let n = choose|n: int| 0 < n <= h.len() && !#[trigger] accepts(s, h.take(n));
        assert((h + later).take(n) =~= h.take(n));
        assert(!accepts(s, (h + later).take(n)));
    }
}

/// A scenario does not both pass and fail.
pub proof fn law_one_verdict(s: ScenarioView, h: Seq<Reply>)
    ensures
        !(passes(s, h) && fails(s, h)),
{
}

/// How many replies a scenario hears at most. It depends on how much a catalog lists.
pub open spec fn longest(s: ScenarioView, h: Seq<Reply>) -> int {
    match s {
        ScenarioView::Catalog { .. } => test_catalog::LENGTH as int,
        ScenarioView::Setup => test_setup::LENGTH as int,
        ScenarioView::Namespace => test_namespace::DELETING + 1 + 2 * expect::namespaces(
            h,
            test_namespace::LISTED,
        ).len(),
        ScenarioView::NamespaceStorage => 10,
        ScenarioView::NamespaceRouterVersionAtomicity => {
            test_namespace_router_version_atomicity::LENGTH as int
        },
        ScenarioView::NamespaceSoftDeletion => test_namespace_soft_deletion::LENGTH as int,
        ScenarioView::Table => test_table::LENGTH as int,
        ScenarioView::TableStorage => 12,
        ScenarioView::TableSize { .. } => 3,
        ScenarioView::Column => test_column::LENGTH as int,
        ScenarioView::Partition => test_partition::LENGTH as int,
        ScenarioView::ValidatePartitionSnapshot { .. } => {
            validate_partition_snapshot::LENGTH as int
        },
        ScenarioView::ValidateTableSnapshot { .. } => validate_table_snapshot::LENGTH as int,
        ScenarioView::ValidateNamespaceSnapshot { .. } => 3int + expect::tables(
            h,
            validate_namespace_snapshot::LISTED,
        ).len(),
        ScenarioView::ValidateRootSnapshot { .. } => 2int + expect::namespaces(
            h,
            validate_root_snapshot::LISTED,
        ).len(),
        ScenarioView::ListParquetFiles { .. } => 2int + expect::tables(
            h,
            list_parquet_files_by_namespace_not_to_delete::LISTED,
        ).len(),
        ScenarioView::ParquetFile { max_l0_files } => test_parquet_file::FILLING + 1 + 2
            * test_parquet_file::filling(max_l0_files),
        ScenarioView::KeepForEver { namespaces } => namespaces.len() as int,
        ScenarioView::ParquetFileDeleteBroken => test_parquet_file_delete_broken::LENGTH as int,
        ScenarioView::PartitionsNewFileBetween => test_partitions_new_file_between::LENGTH as int,
        ScenarioView::ListByPartitionNotToDelete => {
            test_list_by_partiton_not_to_delete::LENGTH as int
        },
        ScenarioView::UpdateToCompactionLevel1 => test_update_to_compaction_level_1::LENGTH as int,
        ScenarioView::DeleteNamespace => test_delete_namespace::LENGTH as int,
        ScenarioView::PartitionRetention => test_partition_retention::LENGTH as int,
        ScenarioView::PopulateNamespace { .. } => 5,
        ScenarioView::ListSchemas => test_list_schemas::LENGTH as int,
        ScenarioView::ListSchemasSoftDeletedRows => {
            test_list_schemas_soft_deleted_rows::LENGTH as int
        },
        ScenarioView::TwoRepos => test_two_repos::LENGTH as int,
        ScenarioView::PartitionCreateOrGetIdempotent => {
            test_partition_create_or_get_idempotent::LENGTH as int
        },
        ScenarioView::ColumnCreateOrGetManyUnchecked => {
            test_column_create_or_get_many_unchecked::LENGTH as int
        },
        ScenarioView::ManyColumns { calls, .. } => 2int + 2 * calls.len(),
        ScenarioView::GetTime => test_get_time::LENGTH as int,
        ScenarioView::GrpcGetTime => test_grpc_get_time_with_backed_catalog::LENGTH as int,
    }
}

proof fn lemma_calls_end(h: Seq<Reply>, count: int) -> (m: int)
    requires
        0 <= count,
        2 + 2 * count <= h.len(),
    ensures
        2 <= m <= 2 + 2 * count,
        progress(h, m) == (count, false),
    decreases count,
{
    if count == 0 {
        2
    } else {
        let m = lemma_calls_end(h, count - 1);
        assert(progress(h, m + 1) == (count, h[m] is Columns));
        if h[m] is Columns {
            assert(progress(h, m + 2) == (count, false));
            m + 2
        } else {
            m + 1
        }
    }
}

proof fn lemma_first_end(s: ScenarioView, h: Seq<Reply>, m: int) -> (first: int)
    requires
        0 <= m <= h.len(),
        opens(s),
        accepted(s, h, m),
        finished(s, h.take(m)),
    ensures
        0 <= first <= m,
        passes(s, h.take(first)),
    decreases m,
{
    let t = h.take(m);
    if exists|n: int| 0 <= n < m && #[trigger] finished(s, t.take(n)) {
        let n = choose|n: int| 0 <= n < m && #[trigger] finished(s, t.take(n));
        assert(t.take(n) =~= h.take(n));
        lemma_first_end(s, h, n)
    } else {
        assert forall|n: int| 0 < n <= m implies #[trigger] accepts(s, t.take(n)) by {
            assert(t.take(n) =~= h.take(n));
            assert(accepts(s, h.take(n)));
        }
        m
    }
}

/// Every scenario comes to its end, whatever a catalog replies: a run that has heard as many
/// replies as that has passed or failed.
pub proof fn law_every_scenario_ends(s: ScenarioView, h: Seq<Reply>) -> (m: int)
    requires
        opens(s),
        h.len() >= longest(s, h),
    ensures
        0 <= m <= h.len(),
        fails(s, h.take(m)) || passes(s, h.take(m)),
{
    assert(h.take(h.len() as int) =~= h);
    if fails(s, h) {
        h.len() as int
    } else {
        let m = match s {
            ScenarioView::ManyColumns { calls, .. } => lemma_calls_end(h, calls.len() as int),
            _ => h.len() as int,
        };
        let t = h.take(m);
        match s {
            ScenarioView::ManyColumns { calls, .. } => {
                lemma_progress(h, t, m);
            },
            _ => {},
        }
        lemma_first_end(s, h, m)
    }
}

/// A scenario passes only where it can start: a snapshot holds what it is a snapshot of, and there
/// is a
/// call to make.
pub proof fn law_what_cannot_start_does_not_pass(s: ScenarioView, h: Seq<Reply>)
    requires
        passes(s, h),
    ensures
        s matches ScenarioView::ValidateTableSnapshot { table_snapshot }
            ==> table_snapshot.table is Some,
        s matches ScenarioView::ValidateNamespaceSnapshot { namespace_snapshot }
            ==> namespace_snapshot.namespace is Some,
        s matches ScenarioView::ManyColumns { calls, .. } ==> calls.len() > 0,
{
}

/// A scenario that only looks hands on that it passed, and one that finds files hands on the files
/// that
/// the catalog listed last.
pub proof fn law_what_is_handed_on(s: ScenarioView, h: Seq<Reply>, outcome: Reply)
    requires
        passes(s, h),
        is_outcome(s, h, outcome),
    ensures
        s is ListParquetFiles ==> h.len() > 0 && outcome is Files && outcome == h[h.len() - 1],
        s is PopulateNamespace ==> outcome is Populated,
        !(s is ListParquetFiles) && !(s is PopulateNamespace) ==> outcome is Passed,
{
    if s is ListParquetFiles {
        assert(h.take(h.len() as int) =~= h);
        assert(accepts(s, h.take(h.len() as int)));
        assert(!finished(s, h.take(h.len() - 1)));
        if h.len() > 1 {
            assert(h.take(h.len() - 1)[0] == h[0]);
        }
    }
}

} // verus!
