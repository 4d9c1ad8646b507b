//! A snapshot of all namespaces agrees with the catalog.
use crate::check;
use crate::expect;
use crate::reply::Reply;
use crate::request::{
    NamespacesRequest, NamespacesRequestView, Request, RequestView, RootRequest, RootRequestView,
    ScenarioView,
};
use crate::run;
use crate::run::accepted;
use crate::types::{RootSnapshot, RootSnapshotView, SoftDeletedRows};
use vstd::prelude::*;

verus! {

/// The step that gives all namespaces.
pub const LISTED: usize = 0;

/// What is asked for when the replies so far are `h`.
pub open spec fn request(h: Seq<Reply>, root_snapshot: RootSnapshotView) -> RequestView {
    let n = h.len();
    if n == LISTED {
        // all namespaces
        RequestView::Namespaces(NamespacesRequestView::List { rows: SoftDeletedRows::AllRows })
    } else if n == 1 {
        // what is not there cannot be looked up
        RequestView::Root(
            RootRequestView::LookupNamespace {
                handle: root_snapshot.handle,
                name: "does_not_exist"@,
            },
        )
    } else {
        // each namespace can be looked up
        RequestView::Root(
            RootRequestView::LookupNamespace {
                handle: root_snapshot.handle,
                name: expect::nth_namespace(h, LISTED, n - 2).name,
            },
        )
    }
}

/// The last of the replies `h` is as it has to be, where the ones before it were.
pub open spec fn accepts(h: Seq<Reply>, root_snapshot: RootSnapshotView) -> bool {
    let n = h.len() - 1;
    if n == LISTED {
        expect::got_namespaces(h) && expect::namespaces_match(h, root_snapshot)
    } else if n == 1 {
        expect::nothing(h)
    } else {
        expect::entry_of_namespace(h, LISTED, n - 2)
    }
}

/// With the replies `h` everything has been asked for.
pub open spec fn finished(h: Seq<Reply>, root_snapshot: RootSnapshotView) -> bool {
    h.len() >= 2 && h.len() - 2 >= expect::namespaces(h, LISTED).len()
}

/// What is known of the first `m` replies once they have been accepted.
pub proof fn lemma_known(h: Seq<Reply>, m: int, root_snapshot: RootSnapshotView)
    requires
        0 <= m <= h.len(),
        accepted(ScenarioView::ValidateRootSnapshot { root_snapshot }, h, m),
    ensures
        m > LISTED ==> expect::is_namespaces(h, LISTED),
{
    let s = ScenarioView::ValidateRootSnapshot { root_snapshot };
    if m > LISTED {
        assert(run::accepts(s, h.take(LISTED + 1)));
    }
}

/// What is asked for when the replies so far are `h`.
pub fn next_request<'a>(h: &'a Vec<Reply>, root_snapshot: &'a RootSnapshot) -> (r: Request<'a>)
    requires
        accepted(
            ScenarioView::ValidateRootSnapshot { root_snapshot: root_snapshot@ },
            h@,
            h@.len() as int,
        ),
        !finished(h@, root_snapshot@),
    ensures
        r@ =~~= request(h@, root_snapshot@),
{
    let n: usize = h.len();
    proof {
        lemma_known(h@, n as int, root_snapshot@);
    }
    if n == LISTED {
        Request::Namespaces(NamespacesRequest::List { rows: SoftDeletedRows::AllRows })
    } else if n == 1 {
        Request::Root(
            RootRequest::LookupNamespace { handle: root_snapshot.handle, name: "does_not_exist" },
        )
    } else {
        Request::Root(
            RootRequest::LookupNamespace {
                handle: root_snapshot.handle,
                name: check::nth_namespace(h, LISTED, n - 2).name.as_str(),
            },
        )
    }
}

/// Whether the last of the replies `h` is as it has to be.
pub fn accepts_last(h: &Vec<Reply>, root_snapshot: &RootSnapshot) -> (b: bool)
    requires
        h.len() > 0,
        accepted(
            ScenarioView::ValidateRootSnapshot { root_snapshot: root_snapshot@ },
            h@,
            h@.len() - 1,
        ),
        !finished(h@.drop_last(), root_snapshot@),
    ensures
        b == accepts(h@, root_snapshot@),
{
    let n: usize = h.len() - 1;
    proof {
        lemma_known(h@, n as int, root_snapshot@);
    }
    if n == LISTED {
        check::got_namespaces(h) && check::namespaces_match(h, root_snapshot)
    } else if n == 1 {
        check::nothing(h)
    } else {
        check::entry_of_namespace(h, LISTED, n - 2)
    }
}

/// Whether everything has been asked for.
pub fn is_finished(h: &Vec<Reply>, root_snapshot: &RootSnapshot) -> (b: bool)
    requires
        accepted(
            ScenarioView::ValidateRootSnapshot { root_snapshot: root_snapshot@ },
            h@,
            h@.len() as int,
        ),
    ensures
        b == finished(h@, root_snapshot@),
{
    proof {
        lemma_known(h@, h@.len() as int, root_snapshot@);
    }
    h.len() >= 2 && h.len() - 2 >= check::namespaces(h, LISTED).len()
}

} // verus!
