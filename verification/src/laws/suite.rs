//! What the suite as a whole shows.
use crate::metrics::metric_hit;
use crate::nesting::{
    came_from_its_run, genuine, law_a_scenario_passes_only_where_those_it_runs_do, Trace,
};
use crate::reply::Reply;
use crate::request::{EnvironmentRequestView, RequestView, ScenarioView};
use crate::run;
use crate::run::{accepts, finished, passes};
use crate::same::views;
use crate::scenarios::{test_catalog, test_column_create_or_get_many_unchecked};
use vstd::prelude::*;

verus! {

/// What step `k` of the suite asks for.
pub open spec fn suite_request(k: int, max_l0_files: u32) -> RequestView {
    run::request(
        ScenarioView::Catalog { max_l0_files },
        Seq::new(k as nat, |i: int| Reply::Done),
    )
}

/// What the suite asks for does not depend on what it hears.
pub proof fn law_suite_requests_are_fixed(h: Seq<Reply>, max_l0_files: u32)
    ensures
        run::request(ScenarioView::Catalog { max_l0_files }, h) == suite_request(
            h.len() as int,
            max_l0_files,
        ),
{
}

/// The operation whose calls step `k` of the suite looks for, where it looks at the metrics.
pub open spec fn operation(k: int) -> Seq<char> {
    if k == 30 {
        "namespace_create"@
    } else if k == 33 {
        "table_create"@
    } else if k == 36 {
        "column_create_or_get"@
    } else if k == 39 {
        "partition_create_or_get"@
    } else {
        "parquet_create_upgrade_delete"@
    }
}

/// Step `k` of the suite went as it has to: a new catalog was started, a scenario was run and
/// passed, as did those that it ran in turn, or the metrics tell of calls of the operation.
pub open spec fn step_is_good(trace: Trace, k: int, max_l0_files: u32) -> bool {
    let reply = trace.replies[k];
    match suite_request(k, max_l0_files) {
        RequestView::Environment(_) => reply is Done,
        RequestView::Run(_) => came_from_its_run(ScenarioView::Catalog { max_l0_files }, trace, k),
        _ => reply is Metrics && metric_hit(views(reply->Metrics_0@), operation(k)) is Ok,
    }
}

/// The suite passes exactly where each of its scenarios does and each look at the metrics finds
/// what it looks for.
pub proof fn law_suite_passes_iff_every_step_does(trace: Trace, max_l0_files: u32)
    requires
        genuine(ScenarioView::Catalog { max_l0_files }, trace),
    ensures
        passes(ScenarioView::Catalog { max_l0_files }, trace.replies) <==> {
            &&& trace.replies.len() == test_catalog::LENGTH
            &&& forall|k: int|
                0 <= k < test_catalog::LENGTH ==> #[trigger] step_is_good(trace, k, max_l0_files)
        },
{
    let s = ScenarioView::Catalog { max_l0_files };
    let h = trace.replies;
    if passes(s, h) {
        if h.len() > test_catalog::LENGTH {
            assert(finished(s, h.take(test_catalog::LENGTH as int)));
        }
        assert forall|k: int| 0 <= k < test_catalog::LENGTH implies #[trigger] step_is_good(
            trace,
            k,
            max_l0_files,
        ) by {
            let t = h.take(k + 1);
            assert(accepts(s, t));
            assert(t.last() == h[k]);
            law_suite_requests_are_fixed(h.take(k), max_l0_files);
            if suite_request(k, max_l0_files) is Run {
                law_a_scenario_passes_only_where_those_it_runs_do(s, trace, k);
            }
        }
    }
    if h.len() == test_catalog::LENGTH && forall|k: int|
        0 <= k < test_catalog::LENGTH ==> #[trigger] step_is_good(trace, k, max_l0_files) {
        assert forall|n: int| 0 < n <= h.len() implies #[trigger] accepts(s, h.take(n)) by {
            assert(step_is_good(trace, n - 1, max_l0_files));
            assert(h.take(n).last() == h[n - 1]);
            law_suite_requests_are_fixed(h.take(n - 1), max_l0_files);
            if suite_request(n - 1, max_l0_files) is Run {
                lemma_suite_hears_that_scenarios_passed(trace, n - 1, max_l0_files);
            }
        }
    }
}

proof fn lemma_suite_hears_that_scenarios_passed(trace: Trace, k: int, max_l0_files: u32)
    requires
        0 <= k < trace.replies.len(),
        suite_request(k, max_l0_files) is Run,
        came_from_its_run(ScenarioView::Catalog { max_l0_files }, trace, k),
    ensures
        trace.replies[k] is Passed,
{
    law_suite_requests_are_fixed(trace.replies.take(k), max_l0_files);
}

/// Each scenario of the suite runs on a catalog of its own: the step before it starts a new one.
/// The scenario that comes last starts its own.
pub proof fn law_every_scenario_has_a_catalog_of_its_own(k: int, max_l0_files: u32)
    requires
        0 <= k < test_catalog::LENGTH - 1,
        suite_request(k, max_l0_files) is Run,
    ensures
        k > 0,
        suite_request(k - 1, max_l0_files) == RequestView::Environment(
            EnvironmentRequestView::CleanState,
        ),
{
}

/// The calls of several columns run each on a catalog of its own, too.
pub proof fn law_every_call_of_many_columns_has_a_catalog_of_its_own(h: Seq<Reply>, k: int)
    requires
        0 <= k < test_column_create_or_get_many_unchecked::LENGTH,
        k < h.len(),
        run::request(ScenarioView::ColumnCreateOrGetManyUnchecked, h.take(k)) is Run,
    ensures
        k > 0,
        run::request(ScenarioView::ColumnCreateOrGetManyUnchecked, h.take(k - 1))
            == RequestView::Environment(EnvironmentRequestView::CleanState),
{
}

/// The step of the suite that runs a scenario, where there is one.
pub open spec fn step_of(s: ScenarioView) -> Option<int> {
    match s {
        ScenarioView::Setup => Some(1),
        ScenarioView::NamespaceSoftDeletion => Some(3),
        ScenarioView::PartitionsNewFileBetween => Some(5),
        ScenarioView::Column => Some(7),
        ScenarioView::Partition => Some(9),
        ScenarioView::ParquetFile { .. } => Some(11),
        ScenarioView::ParquetFileDeleteBroken => Some(13),
        ScenarioView::UpdateToCompactionLevel1 => Some(15),
        ScenarioView::ListByPartitionNotToDelete => Some(17),
        ScenarioView::ListSchemas => Some(19),
        ScenarioView::ListSchemasSoftDeletedRows => Some(21),
        ScenarioView::DeleteNamespace => Some(23),
        ScenarioView::TableStorage => Some(25),
        ScenarioView::NamespaceStorage => Some(27),
        ScenarioView::Namespace => Some(29),
        ScenarioView::Table => Some(32),
        ScenarioView::TwoRepos => Some(44),
        ScenarioView::PartitionCreateOrGetIdempotent => Some(46),
        ScenarioView::NamespaceRouterVersionAtomicity => Some(48),
        ScenarioView::GetTime => Some(50),
        ScenarioView::GrpcGetTime => Some(52),
        ScenarioView::ColumnCreateOrGetManyUnchecked => Some(53),
        _ => None,
    }
}

/// The suite runs every scenario that is not a part of another one and needs nothing that only the
/// implementation of a catalog can do.
pub proof fn law_suite_runs_every_scenario(s: ScenarioView, max_l0_files: u32)
    requires
        step_of(s) is Some,
        s is ParquetFile ==> s == (ScenarioView::ParquetFile { max_l0_files }),
    ensures
        0 <= step_of(s)->0 < test_catalog::LENGTH,
        suite_request(step_of(s)->0, max_l0_files) == RequestView::Run(s),
{
}

} // verus!
