//! The whole suite: every scenario, each on a catalog of its own.
use crate::check;
use crate::expect;
use crate::reply::Reply;
use crate::request::{
    CatalogRequest, CatalogRequestView, EnvironmentRequest, EnvironmentRequestView, Request,
    RequestView, Scenario, ScenarioView,
};
use crate::run::accepted;
use vstd::prelude::*;

verus! {

/// How many requests there are.
pub const LENGTH: usize = 54;

/// What is asked for when the replies so far are `h`.
pub open spec fn request(h: Seq<Reply>, max_l0_files: u32) -> RequestView {
    let n = h.len();
    if n == 0 {
        RequestView::Environment(EnvironmentRequestView::CleanState)
    } else if n == 1 {
        RequestView::Run(ScenarioView::Setup)
    } else if n == 2 {
        RequestView::Environment(EnvironmentRequestView::CleanState)
    } else if n == 3 {
        RequestView::Run(ScenarioView::NamespaceSoftDeletion)
    } else if n == 4 {
        RequestView::Environment(EnvironmentRequestView::CleanState)
    } else if n == 5 {
        RequestView::Run(ScenarioView::PartitionsNewFileBetween)
    } else if n == 6 {
        RequestView::Environment(EnvironmentRequestView::CleanState)
    } else if n == 7 {
        RequestView::Run(ScenarioView::Column)
    } else if n == 8 {
        RequestView::Environment(EnvironmentRequestView::CleanState)
    } else if n == 9 {
        RequestView::Run(ScenarioView::Partition)
    } else if n == 10 {
        RequestView::Environment(EnvironmentRequestView::CleanState)
    } else if n == 11 {
        RequestView::Run(ScenarioView::ParquetFile { max_l0_files })
    } else if n == 12 {
        RequestView::Environment(EnvironmentRequestView::CleanState)
    } else if n == 13 {
        RequestView::Run(ScenarioView::ParquetFileDeleteBroken)
    } else if n == 14 {
        RequestView::Environment(EnvironmentRequestView::CleanState)
    } else if n == 15 {
        RequestView::Run(ScenarioView::UpdateToCompactionLevel1)
    } else if n == 16 {
        RequestView::Environment(EnvironmentRequestView::CleanState)
    } else if n == 17 {
        RequestView::Run(ScenarioView::ListByPartitionNotToDelete)
    } else if n == 18 {
        RequestView::Environment(EnvironmentRequestView::CleanState)
    } else if n == 19 {
        RequestView::Run(ScenarioView::ListSchemas)
    } else if n == 20 {
        RequestView::Environment(EnvironmentRequestView::CleanState)
    } else if n == 21 {
        RequestView::Run(ScenarioView::ListSchemasSoftDeletedRows)
    } else if n == 22 {
        RequestView::Environment(EnvironmentRequestView::CleanState)
    } else if n == 23 {
        RequestView::Run(ScenarioView::DeleteNamespace)
    } else if n == 24 {
        RequestView::Environment(EnvironmentRequestView::CleanState)
    } else if n == 25 {
        RequestView::Run(ScenarioView::TableStorage)
    } else if n == 26 {
        RequestView::Environment(EnvironmentRequestView::CleanState)
    } else if n == 27 {
        RequestView::Run(ScenarioView::NamespaceStorage)
    } else if n == 28 {
        RequestView::Environment(EnvironmentRequestView::CleanState)
    } else if n == 29 {
        RequestView::Run(ScenarioView::Namespace)
    } else if n == 30 {
        // the catalog records what it does
        RequestView::Catalog(CatalogRequestView::MetricReport)
    } else if n == 31 {
        RequestView::Environment(EnvironmentRequestView::CleanState)
    } else if n == 32 {
        RequestView::Run(ScenarioView::Table)
    } else if n == 33 {
        // the catalog records what it does
        RequestView::Catalog(CatalogRequestView::MetricReport)
    } else if n == 34 {
        RequestView::Environment(EnvironmentRequestView::CleanState)
    } else if n == 35 {
        RequestView::Run(ScenarioView::Column)
    } else if n == 36 {
        // the catalog records what it does
        RequestView::Catalog(CatalogRequestView::MetricReport)
    } else if n == 37 {
        RequestView::Environment(EnvironmentRequestView::CleanState)
    } else if n == 38 {
        RequestView::Run(ScenarioView::Partition)
    } else if n == 39 {
        // the catalog records what it does
        RequestView::Catalog(CatalogRequestView::MetricReport)
    } else if n == 40 {
        RequestView::Environment(EnvironmentRequestView::CleanState)
    } else if n == 41 {
        RequestView::Run(ScenarioView::ParquetFile { max_l0_files })
    } else if n == 42 {
        // the catalog records what it does
        RequestView::Catalog(CatalogRequestView::MetricReport)
    } else if n == 43 {
        RequestView::Environment(EnvironmentRequestView::CleanState)
    } else if n == 44 {
        RequestView::Run(ScenarioView::TwoRepos)
    } else if n == 45 {
        RequestView::Environment(EnvironmentRequestView::CleanState)
    } else if n == 46 {
        RequestView::Run(ScenarioView::PartitionCreateOrGetIdempotent)
    } else if n == 47 {
        RequestView::Environment(EnvironmentRequestView::CleanState)
    } else if n == 48 {
        RequestView::Run(ScenarioView::NamespaceRouterVersionAtomicity)
    } else if n == 49 {
        RequestView::Environment(EnvironmentRequestView::CleanState)
    } else if n == 50 {
        RequestView::Run(ScenarioView::GetTime)
    } else if n == 51 {
        RequestView::Environment(EnvironmentRequestView::CleanState)
    } else if n == 52 {
        RequestView::Run(ScenarioView::GrpcGetTime)
    } else {
        // this one starts catalogs of its own
        RequestView::Run(ScenarioView::ColumnCreateOrGetManyUnchecked)
    }
}

/// The last of the replies `h` is as it has to be, where the ones before it were.
pub open spec fn accepts(h: Seq<Reply>, max_l0_files: u32) -> bool {
    let n = h.len() - 1;
    if n == 0 {
        expect::done(h)
    } else if n == 1 {
        expect::passed(h)
    } else if n == 2 {
        expect::done(h)
    } else if n == 3 {
        expect::passed(h)
    } else if n == 4 {
        expect::done(h)
    } else if n == 5 {
        expect::passed(h)
    } else if n == 6 {
        expect::done(h)
    } else if n == 7 {
        expect::passed(h)
    } else if n == 8 {
        expect::done(h)
    } else if n == 9 {
        expect::passed(h)
    } else if n == 10 {
        expect::done(h)
    } else if n == 11 {
        expect::passed(h)
    } else if n == 12 {
        expect::done(h)
    } else if n == 13 {
        expect::passed(h)
    } else if n == 14 {
        expect::done(h)
    } else if n == 15 {
        expect::passed(h)
    } else if n == 16 {
        expect::done(h)
    } else if n == 17 {
        expect::passed(h)
    } else if n == 18 {
        expect::done(h)
    } else if n == 19 {
        expect::passed(h)
    } else if n == 20 {
        expect::done(h)
    } else if n == 21 {
        expect::passed(h)
    } else if n == 22 {
        expect::done(h)
    } else if n == 23 {
        expect::passed(h)
    } else if n == 24 {
        expect::done(h)
    } else if n == 25 {
        expect::passed(h)
    } else if n == 26 {
        expect::done(h)
    } else if n == 27 {
        expect::passed(h)
    } else if n == 28 {
        expect::done(h)
    } else if n == 29 {
        expect::passed(h)
    } else if n == 30 {
        expect::hit(h, "namespace_create"@)
    } else if n == 31 {
        expect::done(h)
    } else if n == 32 {
        expect::passed(h)
    } else if n == 33 {
        expect::hit(h, "table_create"@)
    } else if n == 34 {
        expect::done(h)
    } else if n == 35 {
        expect::passed(h)
    } else if n == 36 {
        expect::hit(h, "column_create_or_get"@)
    } else if n == 37 {
        expect::done(h)
    } else if n == 38 {
        expect::passed(h)
    } else if n == 39 {
        expect::hit(h, "partition_create_or_get"@)
    } else if n == 40 {
        expect::done(h)
    } else if n == 41 {
        expect::passed(h)
    } else if n == 42 {
        expect::hit(h, "parquet_create_upgrade_delete"@)
    } else if n == 43 {
        expect::done(h)
    } else if n == 44 {
        expect::passed(h)
    } else if n == 45 {
        expect::done(h)
    } else if n == 46 {
        expect::passed(h)
    } else if n == 47 {
        expect::done(h)
    } else if n == 48 {
        expect::passed(h)
    } else if n == 49 {
        expect::done(h)
    } else if n == 50 {
        expect::passed(h)
    } else if n == 51 {
        expect::done(h)
    } else if n == 52 {
        expect::passed(h)
    } else if n == 53 {
        expect::passed(h)
    } else {
        false
    }
}

/// With the replies `h` everything has been asked for.
pub open spec fn finished(h: Seq<Reply>, max_l0_files: u32) -> bool {
    h.len() >= LENGTH
}

/// What is asked for when the replies so far are `h`.
pub fn next_request<'a>(h: &'a Vec<Reply>, max_l0_files: u32) -> (r: Request<'a>)
    requires
        accepted(ScenarioView::Catalog { max_l0_files }, h@, h@.len() as int),
        !finished(h@, max_l0_files),
    ensures
        r@ =~~= request(h@, max_l0_files),
{
    let n: usize = h.len();
    if n == 0 {
        Request::Environment(EnvironmentRequest::CleanState)
    } else if n == 1 {
        Request::Run(Scenario::Setup)
    } else if n == 2 {
        Request::Environment(EnvironmentRequest::CleanState)
    } else if n == 3 {
        Request::Run(Scenario::NamespaceSoftDeletion)
    } else if n == 4 {
        Request::Environment(EnvironmentRequest::CleanState)
    } else if n == 5 {
        Request::Run(Scenario::PartitionsNewFileBetween)
    } else if n == 6 {
        Request::Environment(EnvironmentRequest::CleanState)
    } else if n == 7 {
        Request::Run(Scenario::Column)
    } else if n == 8 {
        Request::Environment(EnvironmentRequest::CleanState)
    } else if n == 9 {
        Request::Run(Scenario::Partition)
    } else if n == 10 {
        Request::Environment(EnvironmentRequest::CleanState)
    } else if n == 11 {
        Request::Run(Scenario::ParquetFile { max_l0_files })
    } else if n == 12 {
        Request::Environment(EnvironmentRequest::CleanState)
    } else if n == 13 {
        Request::Run(Scenario::ParquetFileDeleteBroken)
    } else if n == 14 {
        Request::Environment(EnvironmentRequest::CleanState)
    } else if n == 15 {
        Request::Run(Scenario::UpdateToCompactionLevel1)
    } else if n == 16 {
        Request::Environment(EnvironmentRequest::CleanState)
    } else if n == 17 {
        Request::Run(Scenario::ListByPartitionNotToDelete)
    } else if n == 18 {
        Request::Environment(EnvironmentRequest::CleanState)
    } else if n == 19 {
        Request::Run(Scenario::ListSchemas)
    } else if n == 20 {
        Request::Environment(EnvironmentRequest::CleanState)
    } else if n == 21 {
        Request::Run(Scenario::ListSchemasSoftDeletedRows)
    } else if n == 22 {
        Request::Environment(EnvironmentRequest::CleanState)
    } else if n == 23 {
        Request::Run(Scenario::DeleteNamespace)
    } else if n == 24 {
        Request::Environment(EnvironmentRequest::CleanState)
    } else if n == 25 {
        Request::Run(Scenario::TableStorage)
    } else if n == 26 {
        Request::Environment(EnvironmentRequest::CleanState)
    } else if n == 27 {
        Request::Run(Scenario::NamespaceStorage)
    } else if n == 28 {
        Request::Environment(EnvironmentRequest::CleanState)
    } else if n == 29 {
        Request::Run(Scenario::Namespace)
    } else if n == 30 {
        Request::Catalog(CatalogRequest::MetricReport)
    } else if n == 31 {
        Request::Environment(EnvironmentRequest::CleanState)
    } else if n == 32 {
        Request::Run(Scenario::Table)
    } else if n == 33 {
        Request::Catalog(CatalogRequest::MetricReport)
    } else if n == 34 {
        Request::Environment(EnvironmentRequest::CleanState)
    } else if n == 35 {
        Request::Run(Scenario::Column)
    } else if n == 36 {
        Request::Catalog(CatalogRequest::MetricReport)
    } else if n == 37 {
        Request::Environment(EnvironmentRequest::CleanState)
    } else if n == 38 {
        Request::Run(Scenario::Partition)
    } else if n == 39 {
        Request::Catalog(CatalogRequest::MetricReport)
    } else if n == 40 {
        Request::Environment(EnvironmentRequest::CleanState)
    } else if n == 41 {
        Request::Run(Scenario::ParquetFile { max_l0_files })
    } else if n == 42 {
        Request::Catalog(CatalogRequest::MetricReport)
    } else if n == 43 {
        Request::Environment(EnvironmentRequest::CleanState)
    } else if n == 44 {
        Request::Run(Scenario::TwoRepos)
    } else if n == 45 {
        Request::Environment(EnvironmentRequest::CleanState)
    } else if n == 46 {
        Request::Run(Scenario::PartitionCreateOrGetIdempotent)
    } else if n == 47 {
        Request::Environment(EnvironmentRequest::CleanState)
    } else if n == 48 {
        Request::Run(Scenario::NamespaceRouterVersionAtomicity)
    } else if n == 49 {
        Request::Environment(EnvironmentRequest::CleanState)
    } else if n == 50 {
        Request::Run(Scenario::GetTime)
    } else if n == 51 {
        Request::Environment(EnvironmentRequest::CleanState)
    } else if n == 52 {
        Request::Run(Scenario::GrpcGetTime)
    } else {
        Request::Run(Scenario::ColumnCreateOrGetManyUnchecked)
    }
}

/// Whether the last of the replies `h` is as it has to be.
pub fn accepts_last(h: &Vec<Reply>, max_l0_files: u32) -> (b: bool)
    requires
        h.len() > 0,
        accepted(ScenarioView::Catalog { max_l0_files }, h@, h@.len() - 1),
        !finished(h@.drop_last(), max_l0_files),
    ensures
        b == accepts(h@, max_l0_files),
{
    let n: usize = h.len() - 1;
    if n == 0 {
        check::done(h)
    } else if n == 1 {
        check::passed(h)
    } else if n == 2 {
        check::done(h)
    } else if n == 3 {
        check::passed(h)
    } else if n == 4 {
        check::done(h)
    } else if n == 5 {
        check::passed(h)
    } else if n == 6 {
        check::done(h)
    } else if n == 7 {
        check::passed(h)
    } else if n == 8 {
        check::done(h)
    } else if n == 9 {
        check::passed(h)
    } else if n == 10 {
        check::done(h)
    } else if n == 11 {
        check::passed(h)
    } else if n == 12 {
        check::done(h)
    } else if n == 13 {
        check::passed(h)
    } else if n == 14 {
        check::done(h)
    } else if n == 15 {
        check::passed(h)
    } else if n == 16 {
        check::done(h)
    } else if n == 17 {
        check::passed(h)
    } else if n == 18 {
        check::done(h)
    } else if n == 19 {
        check::passed(h)
    } else if n == 20 {
        check::done(h)
    } else if n == 21 {
        check::passed(h)
    } else if n == 22 {
        check::done(h)
    } else if n == 23 {
        check::passed(h)
    } else if n == 24 {
        check::done(h)
    } else if n == 25 {
        check::passed(h)
    } else if n == 26 {
        check::done(h)
    } else if n == 27 {
        check::passed(h)
    } else if n == 28 {
        check::done(h)
    } else if n == 29 {
        check::passed(h)
    } else if n == 30 {
        check::hit(h, "namespace_create")
    } else if n == 31 {
        check::done(h)
    } else if n == 32 {
        check::passed(h)
    } else if n == 33 {
        check::hit(h, "table_create")
    } else if n == 34 {
        check::done(h)
    } else if n == 35 {
        check::passed(h)
    } else if n == 36 {
        check::hit(h, "column_create_or_get")
    } else if n == 37 {
        check::done(h)
    } else if n == 38 {
        check::passed(h)
    } else if n == 39 {
        check::hit(h, "partition_create_or_get")
    } else if n == 40 {
        check::done(h)
    } else if n == 41 {
        check::passed(h)
    } else if n == 42 {
        check::hit(h, "parquet_create_upgrade_delete")
    } else if n == 43 {
        check::done(h)
    } else if n == 44 {
        check::passed(h)
    } else if n == 45 {
        check::done(h)
    } else if n == 46 {
        check::passed(h)
    } else if n == 47 {
        check::done(h)
    } else if n == 48 {
        check::passed(h)
    } else if n == 49 {
        check::done(h)
    } else if n == 50 {
        check::passed(h)
    } else if n == 51 {
        check::done(h)
    } else if n == 52 {
        check::passed(h)
    } else if n == 53 {
        check::passed(h)
    } else {
        false
    }
}

/// Whether everything has been asked for.
pub fn is_finished(h: &Vec<Reply>, max_l0_files: u32) -> (b: bool)
    ensures
        b == finished(h@, max_l0_files),
{
    h.len() >= LENGTH
}

} // verus!
