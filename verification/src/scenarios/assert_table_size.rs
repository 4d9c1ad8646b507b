//! One table, or two of the same namespace, have the sizes given.
use crate::check;
use crate::expect;
use crate::reply::Reply;
use crate::request::{Request, RequestView, ScenarioView, TablesRequest, TablesRequestView};
use crate::run::accepted;
use vstd::prelude::*;

verus! {

/// What is asked for when the replies so far are `h`.
pub open spec fn request(
    h: Seq<Reply>,
    namespace_id: i64,
    first: i64,
    first_size: i64,
    second: Option<(i64, i64)>,
) -> RequestView {
    let n = h.len();
    if n == 0 {
        // all tables of the namespace
        RequestView::Tables(TablesRequestView::ListStorageByNamespaceId { namespace_id })
    } else if n == 1 {
        // the first one
        RequestView::Tables(TablesRequestView::GetStorageById { id: first })
    } else {
        // the second one
        RequestView::Tables(TablesRequestView::GetStorageById { id: (second->Some_0).0 })
    }
}

/// The last of the replies `h` is as it has to be, where the ones before it were.
pub open spec fn accepts(
    h: Seq<Reply>,
    namespace_id: i64,
    first: i64,
    first_size: i64,
    second: Option<(i64, i64)>,
) -> bool {
    let n = h.len() - 1;
    if n == 0 {
        match second {
            Some(t) => expect::two_sizes(h, first_size, t.1),
            None => expect::only_size(h, first_size),
        }
    } else if n == 1 {
        expect::size_is(h, first_size)
    } else {
        match second {
            Some(t) => expect::size_is(h, t.1),
            None => false,
        }
    }
}

/// With the replies `h` everything has been asked for.
pub open spec fn finished(
    h: Seq<Reply>,
    namespace_id: i64,
    first: i64,
    first_size: i64,
    second: Option<(i64, i64)>,
) -> bool {
    h.len() >= 3 || (h.len() == 2 && second is None)
}

/// What is asked for when the replies so far are `h`.
pub fn next_request<'a>(
    h: &'a Vec<Reply>,
    namespace_id: i64,
    first: i64,
    first_size: i64,
    second: Option<(i64, i64)>,
) -> (r: Request<'a>)
    requires
        accepted(
            ScenarioView::TableSize { namespace_id, first, first_size, second },
            h@,
            h@.len() as int,
        ),
        !finished(h@, namespace_id, first, first_size, second),
    ensures
        r@ =~~= request(h@, namespace_id, first, first_size, second),
{
    let n: usize = h.len();
    if n == 0 {
        Request::Tables(TablesRequest::ListStorageByNamespaceId { namespace_id })
    } else if n == 1 {
        Request::Tables(TablesRequest::GetStorageById { id: first })
    } else {
        match second {
            Some(t) => Request::Tables(TablesRequest::GetStorageById { id: t.0 }),
            None => vstd::pervasive::unreached(),
        }
    }
}

/// Whether the last of the replies `h` is as it has to be.
pub fn accepts_last(
    h: &Vec<Reply>,
    namespace_id: i64,
    first: i64,
    first_size: i64,
    second: Option<(i64, i64)>,
) -> (b: bool)
    requires
        h.len() > 0,
        accepted(
            ScenarioView::TableSize { namespace_id, first, first_size, second },
            h@,
            h@.len() - 1,
        ),
        !finished(h@.drop_last(), namespace_id, first, first_size, second),
    ensures
        b == accepts(h@, namespace_id, first, first_size, second),
{
    let n: usize = h.len() - 1;
    if n == 0 {
        match second {
            Some(t) => check::two_sizes(h, first_size, t.1),
            None => check::only_size(h, first_size),
        }
    } else if n == 1 {
        check::size_is(h, first_size)
    } else {
        match second {
            Some(t) => check::size_is(h, t.1),
            None => false,
        }
    }
}

/// Whether everything has been asked for.
pub fn is_finished(
    h: &Vec<Reply>,
    namespace_id: i64,
    first: i64,
    first_size: i64,
    second: Option<(i64, i64)>,
) -> (b: bool)
    ensures
        b == finished(h@, namespace_id, first, first_size, second),
{
    h.len() >= 3 || (h.len() == 2 && second.is_none())
}

} // verus!
