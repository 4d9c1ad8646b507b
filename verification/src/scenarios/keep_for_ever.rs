//! Every namespace given keeps its data for ever.
use crate::check;
use crate::expect;
use crate::reply::Reply;
use crate::request::{NamespacesRequest, NamespacesRequestView, Request, RequestView, ScenarioView};
use crate::run::accepted;
use crate::same::views;
use crate::types::{Namespace, NamespaceView};
use vstd::prelude::*;

verus! {

/// What is asked for when the replies so far are `h`.
pub open spec fn request(h: Seq<Reply>, namespaces: Seq<NamespaceView>) -> RequestView {
    let n = h.len();
    RequestView::Namespaces(
        NamespacesRequestView::UpdateRetentionPeriod {
            id: namespaces[n as int].id,
            retention_period_ns: None,
        },
    )
}

/// The last of the replies `h` is as it has to be, where the ones before it were.
pub open spec fn accepts(h: Seq<Reply>, namespaces: Seq<NamespaceView>) -> bool {
    let n = h.len() - 1;
    expect::got_namespace(h)
}

/// With the replies `h` everything has been asked for.
pub open spec fn finished(h: Seq<Reply>, namespaces: Seq<NamespaceView>) -> bool {
    h.len() >= namespaces.len()
}

/// What is asked for when the replies so far are `h`.
pub fn next_request<'a>(h: &'a Vec<Reply>, namespaces: &'a Vec<Namespace>) -> (r: Request<'a>)
    requires
        accepted(ScenarioView::KeepForEver { namespaces: views(namespaces@) }, h@, h@.len() as int),
        !finished(h@, views(namespaces@)),
    ensures
        r@ =~~= request(h@, views(namespaces@)),
{
    let n: usize = h.len();
    Request::Namespaces(
        NamespacesRequest::UpdateRetentionPeriod {
            id: namespaces[n].id,
            retention_period_ns: None,
        },
    )
}

/// Whether the last of the replies `h` is as it has to be.
pub fn accepts_last(h: &Vec<Reply>, namespaces: &Vec<Namespace>) -> (b: bool)
    requires
        h.len() > 0,
        accepted(ScenarioView::KeepForEver { namespaces: views(namespaces@) }, h@, h@.len() - 1),
        !finished(h@.drop_last(), views(namespaces@)),
    ensures
        b == accepts(h@, views(namespaces@)),
{
    let n: usize = h.len() - 1;
    check::got_namespace(h)
}

/// Whether everything has been asked for.
pub fn is_finished(h: &Vec<Reply>, namespaces: &Vec<Namespace>) -> (b: bool)
    ensures
        b == finished(h@, views(namespaces@)),
{
    h.len() >= namespaces.len()
}

} // verus!
