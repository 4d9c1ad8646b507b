//! What is asked of a catalog as a whole.
use crate::metrics::metric_hit;
use crate::reply::Reply;
use crate::request::{CatalogRequestView, EnvironmentRequestView, RequestView, ScenarioView};
use crate::run;
use crate::run::{accepts, passes};
use crate::same::views;
use vstd::prelude::*;

verus! {

/// What step `k` asks for.
pub open spec fn asked(h: Seq<Reply>, k: int, max_l0_files: u32) -> RequestView {
    run::request(ScenarioView::Catalog { max_l0_files }, h.take(k))
}

/// The scenarios run one after the other, each on a new catalog.
pub proof fn law_the_first_scenarios_run(h: Seq<Reply>, max_l0_files: u32)
    requires
        passes(ScenarioView::Catalog { max_l0_files }, h),
    ensures
        asked(h, 0, max_l0_files) == RequestView::Environment(EnvironmentRequestView::CleanState),
        h[0] is Done,
        asked(h, 1, max_l0_files) == RequestView::Run(ScenarioView::Setup),
        h[1] is Passed,
        asked(h, 2, max_l0_files) == RequestView::Environment(EnvironmentRequestView::CleanState),
        h[2] is Done,
        asked(h, 3, max_l0_files) == RequestView::Run(ScenarioView::NamespaceSoftDeletion),
        h[3] is Passed,
        asked(h, 4, max_l0_files) == RequestView::Environment(EnvironmentRequestView::CleanState),
        h[4] is Done,
        asked(h, 5, max_l0_files) == RequestView::Run(ScenarioView::PartitionsNewFileBetween),
        h[5] is Passed,
        asked(h, 6, max_l0_files) == RequestView::Environment(EnvironmentRequestView::CleanState),
        h[6] is Done,
        asked(h, 7, max_l0_files) == RequestView::Run(ScenarioView::Column),
        h[7] is Passed,
        asked(h, 8, max_l0_files) == RequestView::Environment(EnvironmentRequestView::CleanState),
        h[8] is Done,
        asked(h, 9, max_l0_files) == RequestView::Run(ScenarioView::Partition),
        h[9] is Passed,
        asked(h, 10, max_l0_files) == RequestView::Environment(EnvironmentRequestView::CleanState),
        h[10] is Done,
        asked(h, 11, max_l0_files) == RequestView::Run(ScenarioView::ParquetFile { max_l0_files }),
        h[11] is Passed,
        asked(h, 12, max_l0_files) == RequestView::Environment(EnvironmentRequestView::CleanState),
        h[12] is Done,
        asked(h, 13, max_l0_files) == RequestView::Run(ScenarioView::ParquetFileDeleteBroken),
        h[13] is Passed,
        asked(h, 14, max_l0_files) == RequestView::Environment(EnvironmentRequestView::CleanState),
        h[14] is Done,
        asked(h, 15, max_l0_files) == RequestView::Run(ScenarioView::UpdateToCompactionLevel1),
        h[15] is Passed,
        asked(h, 16, max_l0_files) == RequestView::Environment(EnvironmentRequestView::CleanState),
        h[16] is Done,
        asked(h, 17, max_l0_files) == RequestView::Run(ScenarioView::ListByPartitionNotToDelete),
        h[17] is Passed,
        asked(h, 18, max_l0_files) == RequestView::Environment(EnvironmentRequestView::CleanState),
        h[18] is Done,
        asked(h, 19, max_l0_files) == RequestView::Run(ScenarioView::ListSchemas),
        h[19] is Passed,
        asked(h, 20, max_l0_files) == RequestView::Environment(EnvironmentRequestView::CleanState),
        h[20] is Done,
        asked(h, 21, max_l0_files) == RequestView::Run(ScenarioView::ListSchemasSoftDeletedRows),
        h[21] is Passed,
        asked(h, 22, max_l0_files) == RequestView::Environment(EnvironmentRequestView::CleanState),
        h[22] is Done,
        asked(h, 23, max_l0_files) == RequestView::Run(ScenarioView::DeleteNamespace),
        h[23] is Passed,
        asked(h, 24, max_l0_files) == RequestView::Environment(EnvironmentRequestView::CleanState),
        h[24] is Done,
        asked(h, 25, max_l0_files) == RequestView::Run(ScenarioView::TableStorage),
        h[25] is Passed,
        asked(h, 26, max_l0_files) == RequestView::Environment(EnvironmentRequestView::CleanState),
        h[26] is Done,
        asked(h, 27, max_l0_files) == RequestView::Run(ScenarioView::NamespaceStorage),
        h[27] is Passed,
{
    let s = ScenarioView::Catalog { max_l0_files };
    assert(accepts(s, h.take(1)));
    assert(accepts(s, h.take(2)));
    assert(accepts(s, h.take(3)));
    assert(accepts(s, h.take(4)));
    assert(accepts(s, h.take(5)));
    assert(accepts(s, h.take(6)));
    assert(accepts(s, h.take(7)));
    assert(accepts(s, h.take(8)));
    assert(accepts(s, h.take(9)));
    assert(accepts(s, h.take(10)));
    assert(accepts(s, h.take(11)));
    assert(accepts(s, h.take(12)));
    assert(accepts(s, h.take(13)));
    assert(accepts(s, h.take(14)));
    assert(accepts(s, h.take(15)));
    assert(accepts(s, h.take(16)));
    assert(accepts(s, h.take(17)));
    assert(accepts(s, h.take(18)));
    assert(accepts(s, h.take(19)));
    assert(accepts(s, h.take(20)));
    assert(accepts(s, h.take(21)));
    assert(accepts(s, h.take(22)));
    assert(accepts(s, h.take(23)));
    assert(accepts(s, h.take(24)));
    assert(accepts(s, h.take(25)));
    assert(accepts(s, h.take(26)));
    assert(accepts(s, h.take(27)));
    assert(accepts(s, h.take(28)));
}

/// After five of the scenarios the metrics tell of calls of what they are about.
pub proof fn law_the_scenarios_with_metrics_run(h: Seq<Reply>, max_l0_files: u32)
    requires
        passes(ScenarioView::Catalog { max_l0_files }, h),
    ensures
        asked(h, 28, max_l0_files) == RequestView::Environment(EnvironmentRequestView::CleanState),
        h[28] is Done,
        asked(h, 29, max_l0_files) == RequestView::Run(ScenarioView::Namespace),
        h[29] is Passed,
        asked(h, 30, max_l0_files) == RequestView::Catalog(CatalogRequestView::MetricReport),
        h[30] is Metrics && metric_hit(views(h[30]->Metrics_0@), "namespace_create"@) is Ok,
        asked(h, 31, max_l0_files) == RequestView::Environment(EnvironmentRequestView::CleanState),
        h[31] is Done,
        asked(h, 32, max_l0_files) == RequestView::Run(ScenarioView::Table),
        h[32] is Passed,
        asked(h, 33, max_l0_files) == RequestView::Catalog(CatalogRequestView::MetricReport),
        h[33] is Metrics && metric_hit(views(h[33]->Metrics_0@), "table_create"@) is Ok,
        asked(h, 34, max_l0_files) == RequestView::Environment(EnvironmentRequestView::CleanState),
        h[34] is Done,
        asked(h, 35, max_l0_files) == RequestView::Run(ScenarioView::Column),
        h[35] is Passed,
        asked(h, 36, max_l0_files) == RequestView::Catalog(CatalogRequestView::MetricReport),
        h[36] is Metrics && metric_hit(views(h[36]->Metrics_0@), "column_create_or_get"@) is Ok,
        asked(h, 37, max_l0_files) == RequestView::Environment(EnvironmentRequestView::CleanState),
        h[37] is Done,
        asked(h, 38, max_l0_files) == RequestView::Run(ScenarioView::Partition),
        h[38] is Passed,
        asked(h, 39, max_l0_files) == RequestView::Catalog(CatalogRequestView::MetricReport),
        h[39] is Metrics && metric_hit(views(h[39]->Metrics_0@), "partition_create_or_get"@) is Ok,
        asked(h, 40, max_l0_files) == RequestView::Environment(EnvironmentRequestView::CleanState),
        h[40] is Done,
        asked(h, 41, max_l0_files) == RequestView::Run(ScenarioView::ParquetFile { max_l0_files }),
        h[41] is Passed,
        asked(h, 42, max_l0_files) == RequestView::Catalog(CatalogRequestView::MetricReport),
        h[42] is Metrics && metric_hit(
            views(h[42]->Metrics_0@),
            "parquet_create_upgrade_delete"@,
        ) is Ok,
{
    let s = ScenarioView::Catalog { max_l0_files };
    assert(accepts(s, h.take(29)));
    assert(accepts(s, h.take(30)));
    assert(accepts(s, h.take(31)));
    assert(accepts(s, h.take(32)));
    assert(accepts(s, h.take(33)));
    assert(accepts(s, h.take(34)));
    assert(accepts(s, h.take(35)));
    assert(accepts(s, h.take(36)));
    assert(accepts(s, h.take(37)));
    assert(accepts(s, h.take(38)));
    assert(accepts(s, h.take(39)));
    assert(accepts(s, h.take(40)));
    assert(accepts(s, h.take(41)));
    assert(accepts(s, h.take(42)));
    assert(accepts(s, h.take(43)));
}

/// The last scenario starts catalogs of its own.
pub proof fn law_the_last_scenarios_run(h: Seq<Reply>, max_l0_files: u32)
    requires
        passes(ScenarioView::Catalog { max_l0_files }, h),
    ensures
        asked(h, 43, max_l0_files) == RequestView::Environment(EnvironmentRequestView::CleanState),
        h[43] is Done,
        asked(h, 44, max_l0_files) == RequestView::Run(ScenarioView::TwoRepos),
        h[44] is Passed,
        asked(h, 45, max_l0_files) == RequestView::Environment(EnvironmentRequestView::CleanState),
        h[45] is Done,
        asked(h, 46, max_l0_files) == RequestView::Run(
            ScenarioView::PartitionCreateOrGetIdempotent,
        ),
        h[46] is Passed,
        asked(h, 47, max_l0_files) == RequestView::Environment(EnvironmentRequestView::CleanState),
        h[47] is Done,
        asked(h, 48, max_l0_files) == RequestView::Run(
            ScenarioView::NamespaceRouterVersionAtomicity,
        ),
        h[48] is Passed,
        asked(h, 49, max_l0_files) == RequestView::Environment(EnvironmentRequestView::CleanState),
        h[49] is Done,
        asked(h, 50, max_l0_files) == RequestView::Run(ScenarioView::GetTime),
        h[50] is Passed,
        asked(h, 51, max_l0_files) == RequestView::Environment(EnvironmentRequestView::CleanState),
        h[51] is Done,
        asked(h, 52, max_l0_files) == RequestView::Run(ScenarioView::GrpcGetTime),
        h[52] is Passed,
        asked(h, 53, max_l0_files) == RequestView::Run(
            ScenarioView::ColumnCreateOrGetManyUnchecked,
        ),
        h[53] is Passed,
{
    let s = ScenarioView::Catalog { max_l0_files };
    assert(accepts(s, h.take(44)));
    assert(accepts(s, h.take(45)));
    assert(accepts(s, h.take(46)));
    assert(accepts(s, h.take(47)));
    assert(accepts(s, h.take(48)));
    assert(accepts(s, h.take(49)));
    assert(accepts(s, h.take(50)));
    assert(accepts(s, h.take(51)));
    assert(accepts(s, h.take(52)));
    assert(accepts(s, h.take(53)));
    assert(accepts(s, h.take(54)));
}

} // verus!
