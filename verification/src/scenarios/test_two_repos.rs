//! What one set of repositories writes, another one of the same catalog reads at once.
use crate::check;
use crate::expect;
use crate::reply::Reply;
use crate::request::{
    CatalogRequest, CatalogRequestView, NamespacesRequest, NamespacesRequestView, Request,
    RequestView, ScenarioView,
};
use crate::run::accepted;
use crate::types::SoftDeletedRows;
use vstd::prelude::*;

verus! {

/// How many requests there are.
pub const LENGTH: usize = 3;

/// What is asked for when the replies so far are `h`.
pub open spec fn request(h: Seq<Reply>) -> RequestView {
    let n = h.len();
    if n == 0 {
        // both sets are there before anything is written
        RequestView::Catalog(CatalogRequestView::OpenRepositories)
    } else if n == 1 {
        // written through the first set
        RequestView::Namespaces(
            NamespacesRequestView::Create {
                name: "test_namespace"@,
                partition_template: None,
                retention_period_ns: None,
            },
        )
    } else {
        // read through the second
        RequestView::SecondNamespaces(
            NamespacesRequestView::GetByName {
                name: "test_namespace"@,
                rows: SoftDeletedRows::AllRows,
            },
        )
    }
}

/// The last of the replies `h` is as it has to be, where the ones before it were.
pub open spec fn accepts(h: Seq<Reply>) -> bool {
    let n = h.len() - 1;
    if n == 0 {
        expect::done(h)
    } else if n == 1 {
        expect::got_namespace(h)
    } else if n == 2 {
        expect::got_namespace(h)
    } else {
        false
    }
}

/// With the replies `h` everything has been asked for.
pub open spec fn finished(h: Seq<Reply>) -> bool {
    h.len() >= LENGTH
}

/// What is asked for when the replies so far are `h`.
pub fn next_request<'a>(h: &'a Vec<Reply>) -> (r: Request<'a>)
    requires
        accepted(ScenarioView::TwoRepos, h@, h@.len() as int),
        !finished(h@),
    ensures
        r@ =~~= request(h@),
{
    let n: usize = h.len();
    if n == 0 {
        Request::Catalog(CatalogRequest::OpenRepositories)
    } else if n == 1 {
        Request::Namespaces(
            NamespacesRequest::Create {
                name: "test_namespace",
                partition_template: None,
                retention_period_ns: None,
            },
        )
    } else {
        Request::SecondNamespaces(
            NamespacesRequest::GetByName { name: "test_namespace", rows: SoftDeletedRows::AllRows },
        )
    }
}

/// Whether the last of the replies `h` is as it has to be.
pub fn accepts_last(h: &Vec<Reply>) -> (b: bool)
    requires
        h.len() > 0,
        accepted(ScenarioView::TwoRepos, h@, h@.len() - 1),
        !finished(h@.drop_last()),
    ensures
        b == accepts(h@),
{
    let n: usize = h.len() - 1;
    if n == 0 {
        check::done(h)
    } else if n == 1 {
        check::got_namespace(h)
    } else if n == 2 {
        check::got_namespace(h)
    } else {
        false
    }
}

/// Whether everything has been asked for.
pub fn is_finished(h: &Vec<Reply>) -> (b: bool)
    ensures
        b == finished(h@),
{
    h.len() >= LENGTH
}

} // verus!
