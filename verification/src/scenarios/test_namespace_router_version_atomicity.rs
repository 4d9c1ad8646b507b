//! Changes of a namespace that are made at the same time each advance its version by one.
use crate::check;
use crate::expect;
use crate::reply::Reply;
use crate::request::{
    NamespacesRequest, NamespacesRequestView, Request, RequestView, ScenarioView, ValueRequest,
    ValueRequestView,
};
use crate::run;
use crate::run::accepted;
use crate::same::views;
use crate::types::SoftDeletedRows;
use vstd::prelude::*;

verus! {

/// The step that gives the defaults.
pub const DEFAULTS: usize = 0;

/// The step that gives the namespace.
pub const CREATED: usize = 1;

/// How many requests there are.
pub const LENGTH: usize = 4;

/// How often each kind of change is made.
pub const CALLS_PER_METHOD: usize = 25;

/// How many changes are made.
pub const CALLS: usize = 75;

/// The `i`-th change of the namespace: the three kinds of change take turns.
pub open spec fn change(id: i64, i: int) -> NamespacesRequestView {
    if i % 3 == 0 {
        NamespacesRequestView::UpdateRetentionPeriod { id, retention_period_ns: Some(1) }
    } else if i % 3 == 1 {
        NamespacesRequestView::UpdateTableLimit { id, max_tables: 100 }
    } else {
        NamespacesRequestView::UpdateColumnLimit { id, max_columns_per_table: 100 }
    }
}

/// All changes of the namespace.
pub open spec fn changes(id: i64) -> Seq<NamespacesRequestView> {
    Seq::new(CALLS as nat, |i: int| change(id, i))
}

/// What is asked for when the replies so far are `h`.
pub open spec fn request(h: Seq<Reply>) -> RequestView {
    let n = h.len();
    if n == DEFAULTS {
        // the defaults
        RequestView::Value(ValueRequestView::Defaults)
    } else if n == CREATED {
        // the namespace
        RequestView::Namespaces(
            NamespacesRequestView::Create {
                name: "bananas_namespace"@,
                partition_template: None,
                retention_period_ns: None,
            },
        )
    } else if n == 2 {
        // all changes at the same time, and all of them succeed
        RequestView::Concurrently(changes(expect::namespace(h, CREATED).id))
    } else {
        // no change is lost and none counts twice
        RequestView::Namespaces(
            NamespacesRequestView::GetByName {
                name: "bananas_namespace"@,
                rows: SoftDeletedRows::AllRows,
            },
        )
    }
}

/// The last of the replies `h` is as it has to be, where the ones before it were.
pub open spec fn accepts(h: Seq<Reply>) -> bool {
    let n = h.len() - 1;
    if n == DEFAULTS {
        expect::got_defaults(h)
    } else if n == CREATED {
        expect::got_namespace(h) && expect::fresh_namespace(h, "bananas_namespace"@, DEFAULTS)
    } else if n == 2 {
        expect::namespace_count(h, CALLS)
    } else if n == 3 {
        expect::has_version(h, 75)
    } else {
        false
    }
}

/// With the replies `h` everything has been asked for.
pub open spec fn finished(h: Seq<Reply>) -> bool {
    h.len() >= LENGTH
}

/// What is known of the first `m` replies once they have been accepted.
pub proof fn lemma_known(h: Seq<Reply>, m: int)
    requires
        0 <= m <= h.len(),
        accepted(ScenarioView::NamespaceRouterVersionAtomicity, h, m),
    ensures
        m > DEFAULTS ==> expect::is_defaults(h, DEFAULTS),
        m > CREATED ==> expect::is_namespace(h, CREATED),
{
    let s = ScenarioView::NamespaceRouterVersionAtomicity;
    if m > DEFAULTS {
        assert(run::accepts(s, h.take(DEFAULTS + 1)));
    }
    if m > CREATED {
        assert(run::accepts(s, h.take(CREATED + 1)));
    }
}

/// All changes of the namespace.
fn do_changes<'a>(id: i64) -> (r: Vec<NamespacesRequest<'a>>)
    ensures
        views(r@) == changes(id),
{
    let mut r: Vec<NamespacesRequest<'a>> = Vec::new();
    let mut i: usize = 0;
    while i < CALLS
        invariant
            i <= CALLS,
            r@.len() == i,
            forall|j: int| 0 <= j < i ==> (#[trigger] r@[j])@ == change(id, j),
        decreases CALLS - i,
    {
        if i % 3 == 0 {
            r.push(NamespacesRequest::UpdateRetentionPeriod { id, retention_period_ns: Some(1) });
        } else if i % 3 == 1 {
            r.push(NamespacesRequest::UpdateTableLimit { id, max_tables: 100 });
        } else {
            r.push(NamespacesRequest::UpdateColumnLimit { id, max_columns_per_table: 100 });
        }
        i += 1;
    }
    proof {
        assert(views(r@) =~= changes(id));
    }
    r
}

/// What is asked for when the replies so far are `h`.
pub fn next_request<'a>(h: &'a Vec<Reply>) -> (r: Request<'a>)
    requires
        accepted(ScenarioView::NamespaceRouterVersionAtomicity, h@, h@.len() as int),
        !finished(h@),
    ensures
        r@ =~~= request(h@),
{
    let n: usize = h.len();
    proof {
        lemma_known(h@, n as int);
    }
    if n == DEFAULTS {
        Request::Value(ValueRequest::Defaults)
    } else if n == CREATED {
        Request::Namespaces(
            NamespacesRequest::Create {
                name: "bananas_namespace",
                partition_template: None,
                retention_period_ns: None,
            },
        )
    } else if n == 2 {
        Request::Concurrently(do_changes(check::namespace(h, CREATED).id))
    } else {
        Request::Namespaces(
            NamespacesRequest::GetByName {
                name: "bananas_namespace",
                rows: SoftDeletedRows::AllRows,
            },
        )
    }
}

/// Whether the last of the replies `h` is as it has to be.
pub fn accepts_last(h: &Vec<Reply>) -> (b: bool)
    requires
        h.len() > 0,
        accepted(ScenarioView::NamespaceRouterVersionAtomicity, h@, h@.len() - 1),
        !finished(h@.drop_last()),
    ensures
        b == accepts(h@),
{
    let n: usize = h.len() - 1;
    proof {
        lemma_known(h@, n as int);
    }
    if n == DEFAULTS {
        check::got_defaults(h)
    } else if n == CREATED {
        check::got_namespace(h) && check::fresh_namespace(h, "bananas_namespace", DEFAULTS)
    } else if n == 2 {
        check::namespace_count(h, CALLS)
    } else if n == 3 {
        check::has_version(h, 75)
    } else {
        false
    }
}

/// Whether everything has been asked for.
pub fn is_finished(h: &Vec<Reply>) -> (b: bool)
    ensures
        b == finished(h@),
{
    h.len() >= LENGTH
}

} // verus!
