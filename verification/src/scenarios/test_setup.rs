//! A catalog can be set up, and set up again.
use crate::check;
use crate::expect;
use crate::reply::Reply;
use crate::request::{CatalogRequest, CatalogRequestView, Request, RequestView, ScenarioView};
use crate::run::accepted;
use vstd::prelude::*;

verus! {

/// How many requests there are.
pub const LENGTH: usize = 2;

/// What is asked for when the replies so far are `h`.
pub open spec fn request(h: Seq<Reply>) -> RequestView {
    let n = h.len();
    if n == 0 {
        // the first setup
        RequestView::Catalog(CatalogRequestView::Setup)
    } else {
        // the second one
        RequestView::Catalog(CatalogRequestView::Setup)
    }
}

/// The last of the replies `h` is as it has to be, where the ones before it were.
pub open spec fn accepts(h: Seq<Reply>) -> bool {
    let n = h.len() - 1;
    if n == 0 {
        expect::done(h)
    } else if n == 1 {
        expect::done(h)
    } else {
        false
    }
}

/// With the replies `h` everything has been asked for.
pub open spec fn finished(h: Seq<Reply>) -> bool {
    h.len() >= LENGTH
}

/// What is asked for when the replies so far are `h`.
pub fn next_request<'a>(h: &'a Vec<Reply>) -> (r: Request<'a>)
    requires
        accepted(ScenarioView::Setup, h@, h@.len() as int),
        !finished(h@),
    ensures
        r@ =~~= request(h@),
{
    let n: usize = h.len();
    if n == 0 {
        Request::Catalog(CatalogRequest::Setup)
    } else {
        Request::Catalog(CatalogRequest::Setup)
    }
}

/// Whether the last of the replies `h` is as it has to be.
pub fn accepts_last(h: &Vec<Reply>) -> (b: bool)
    requires
        h.len() > 0,
        accepted(ScenarioView::Setup, h@, h@.len() - 1),
        !finished(h@.drop_last()),
    ensures
        b == accepts(h@),
{
    let n: usize = h.len() - 1;
    if n == 0 {
        check::done(h)
    } else if n == 1 {
        check::done(h)
    } else {
        false
    }
}

/// Whether everything has been asked for.
pub fn is_finished(h: &Vec<Reply>) -> (b: bool)
    ensures
        b == finished(h@),
{
    h.len() >= LENGTH
}

} // verus!
