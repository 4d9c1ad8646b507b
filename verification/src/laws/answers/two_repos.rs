//! What a catalog has answered through two sets of repositories.
use crate::reply::Reply;
use crate::request::{CatalogRequestView, NamespacesRequestView, RequestView, ScenarioView};
use crate::run;
use crate::run::{accepts, passes};
use crate::types::SoftDeletedRows;
use vstd::prelude::*;

verus! {

/// What step `k` asks for.
pub open spec fn asked(h: Seq<Reply>, k: int) -> RequestView {
    run::request(ScenarioView::TwoRepos, h.take(k))
}

/// What is created through one set of repositories is found through the other one, which was opened
/// before.
pub proof fn law_repositories_share_their_state(h: Seq<Reply>)
    requires
        passes(ScenarioView::TwoRepos, h),
    ensures
        asked(h, 0) == RequestView::Catalog(CatalogRequestView::OpenRepositories),
        h[0] is Done,
        asked(h, 1) == RequestView::Namespaces(
            NamespacesRequestView::Create {
                name: "test_namespace"@,
                partition_template: None,
                retention_period_ns: None,
            },
        ),
        h[1] is Namespace,
        asked(h, 2) == RequestView::SecondNamespaces(
            NamespacesRequestView::GetByName {
                name: "test_namespace"@,
                rows: SoftDeletedRows::AllRows,
            },
        ),
        h[2] is Namespace,
{
    let s = ScenarioView::TwoRepos;
    assert(accepts(s, h.take(1)));
    assert(accepts(s, h.take(2)));
    assert(accepts(s, h.take(3)));
}

/// Answers like these are accepted.
pub proof fn law_repositories_share_their_state_which_is_enough(h: Seq<Reply>)
    requires
        h.len() > 2,
        h[0] is Done,
        h[1] is Namespace,
        h[2] is Namespace,
    ensures
        accepts(ScenarioView::TwoRepos, h.take(1)),
        accepts(ScenarioView::TwoRepos, h.take(2)),
        accepts(ScenarioView::TwoRepos, h.take(3)),
{
    assert(h.take(1).last() == h[0]);
    assert(h.take(2).last() == h[1]);
    assert(h.take(3).last() == h[2]);
}

} // verus!
