//! A snapshot of a namespace agrees with the catalog.
use crate::check;
use crate::expect;
use crate::reply::Reply;
use crate::request::{
    NamespacesRequest, NamespacesRequestView, Request, RequestView, ScenarioView, TablesRequest,
    TablesRequestView,
};
use crate::run;
use crate::run::accepted;
use crate::types::{NamespaceSnapshot, NamespaceSnapshotView, SoftDeletedRows};
use vstd::prelude::*;

verus! {

/// The step that gives its tables.
pub const LISTED: usize = 1;

/// What is asked for when the replies so far are `h`.
pub open spec fn request(h: Seq<Reply>, namespace_snapshot: NamespaceSnapshotView) -> RequestView {
    let n = h.len();
    if n == 0 {
        // the namespace
        RequestView::Namespaces(
            NamespacesRequestView::GetById {
                id: expect::snapshot_namespace(namespace_snapshot).id,
                rows: SoftDeletedRows::AllRows,
            },
        )
    } else if n == LISTED {
        // its tables
        RequestView::Tables(
            TablesRequestView::ListByNamespaceId {
                namespace_id: expect::snapshot_namespace(namespace_snapshot).id,
            },
        )
    } else if n == 2 {
        // what is not there cannot be looked up
        RequestView::Namespaces(
            NamespacesRequestView::LookupTable {
                handle: namespace_snapshot.handle,
                name: "does_not_exist"@,
            },
        )
    } else {
        // each table can be looked up
        RequestView::Namespaces(
            NamespacesRequestView::LookupTable {
                handle: namespace_snapshot.handle,
                name: expect::nth_table(h, LISTED, n - 3).name,
            },
        )
    }
}

/// The last of the replies `h` is as it has to be, where the ones before it were.
pub open spec fn accepts(h: Seq<Reply>, namespace_snapshot: NamespaceSnapshotView) -> bool {
    let n = h.len() - 1;
    if n == 0 {
        expect::namespace_matches(h, namespace_snapshot)
    } else if n == LISTED {
        expect::got_tables(h) && expect::tables_match(h, namespace_snapshot)
    } else if n == 2 {
        expect::nothing(h)
    } else {
        expect::entry_of_table(h, LISTED, n - 3)
    }
}

/// With the replies `h` everything has been asked for.
pub open spec fn finished(h: Seq<Reply>, namespace_snapshot: NamespaceSnapshotView) -> bool {
    h.len() >= 3 && h.len() - 3 >= expect::tables(h, LISTED).len()
}

/// What is known of the first `m` replies once they have been accepted.
pub proof fn lemma_known(h: Seq<Reply>, m: int, namespace_snapshot: NamespaceSnapshotView)
    requires
        0 <= m <= h.len(),
        accepted(ScenarioView::ValidateNamespaceSnapshot { namespace_snapshot }, h, m),
    ensures
        m > LISTED ==> expect::is_tables(h, LISTED),
{
    let s = ScenarioView::ValidateNamespaceSnapshot { namespace_snapshot };
    if m > LISTED {
        assert(run::accepts(s, h.take(LISTED + 1)));
    }
}

/// What is asked for when the replies so far are `h`.
pub fn next_request<'a>(
    h: &'a Vec<Reply>,
    namespace_snapshot: &'a NamespaceSnapshot,
) -> (r: Request<'a>)
    requires
        namespace_snapshot@.namespace is Some,
        accepted(
            ScenarioView::ValidateNamespaceSnapshot { namespace_snapshot: namespace_snapshot@ },
            h@,
            h@.len() as int,
        ),
        !finished(h@, namespace_snapshot@),
    ensures
        r@ =~~= request(h@, namespace_snapshot@),
{
    let n: usize = h.len();
    proof {
        lemma_known(h@, n as int, namespace_snapshot@);
    }
    if n == 0 {
        Request::Namespaces(
            NamespacesRequest::GetById {
                id: check::snapshot_namespace(namespace_snapshot).id,
                rows: SoftDeletedRows::AllRows,
            },
        )
    } else if n == LISTED {
        Request::Tables(
            TablesRequest::ListByNamespaceId {
                namespace_id: check::snapshot_namespace(namespace_snapshot).id,
            },
        )
    } else if n == 2 {
        Request::Namespaces(
            NamespacesRequest::LookupTable {
                handle: namespace_snapshot.handle,
                name: "does_not_exist",
            },
        )
    } else {
        Request::Namespaces(
            NamespacesRequest::LookupTable {
                handle: namespace_snapshot.handle,
                name: check::nth_table(h, LISTED, n - 3).name.as_str(),
            },
        )
    }
}

/// Whether the last of the replies `h` is as it has to be.
pub fn accepts_last(h: &Vec<Reply>, namespace_snapshot: &NamespaceSnapshot) -> (b: bool)
    requires
        namespace_snapshot@.namespace is Some,
        h.len() > 0,
        accepted(
            ScenarioView::ValidateNamespaceSnapshot { namespace_snapshot: namespace_snapshot@ },
            h@,
            h@.len() - 1,
        ),
        !finished(h@.drop_last(), namespace_snapshot@),
    ensures
        b == accepts(h@, namespace_snapshot@),
{
    let n: usize = h.len() - 1;
    proof {
        lemma_known(h@, n as int, namespace_snapshot@);
    }
    if n == 0 {
        check::namespace_matches(h, namespace_snapshot)
    } else if n == LISTED {
        check::got_tables(h) && check::tables_match(h, namespace_snapshot)
    } else if n == 2 {
        check::nothing(h)
    } else {
        check::entry_of_table(h, LISTED, n - 3)
    }
}

/// Whether everything has been asked for.
pub fn is_finished(h: &Vec<Reply>, namespace_snapshot: &NamespaceSnapshot) -> (b: bool)
    requires
        accepted(
            ScenarioView::ValidateNamespaceSnapshot { namespace_snapshot: namespace_snapshot@ },
            h@,
            h@.len() as int,
        ),
    ensures
        b == finished(h@, namespace_snapshot@),
{
    proof {
        lemma_known(h@, h@.len() as int, namespace_snapshot@);
    }
    h.len() >= 3 && h.len() - 3 >= check::tables(h, LISTED).len()
}

} // verus!
