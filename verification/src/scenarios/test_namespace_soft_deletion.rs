//! Reads respect soft deletion, for each of the three choices of rows.
use crate::check;
use crate::expect;
use crate::reply::Reply;
use crate::request::{
    HelperRequest, HelperRequestView, NamespacesRequest, NamespacesRequestView, Request,
    RequestView, RootRequest, RootRequestView, Scenario, ScenarioView,
};
use crate::run;
use crate::run::accepted;
use crate::types::SoftDeletedRows;
use vstd::prelude::*;

verus! {

/// The step that gives a snapshot of the empty catalog.
pub const S1: usize = 0;

/// The step that gives the namespace that is deleted.
pub const DELETED: usize = 2;

/// The step that gives the namespace that stays.
pub const ACTIVE: usize = 3;

/// The step that gives a snapshot with both namespaces.
pub const S2: usize = 4;

/// The step that gives the namespace after it was deleted once.
pub const ONCE: usize = 7;

/// The step that gives the namespace after it was deleted twice.
pub const TWICE: usize = 9;

/// The step that gives a snapshot after the deletion.
pub const S3: usize = 10;

/// How many requests there are.
pub const LENGTH: usize = 27;

/// What is asked for when the replies so far are `h`.
pub open spec fn request(h: Seq<Reply>) -> RequestView {
    let n = h.len();
    if n == S1 {
        // a snapshot of the empty catalog
        RequestView::Root(RootRequestView::Snapshot)
    } else if n == 1 {
        RequestView::Run(
            ScenarioView::ValidateRootSnapshot { root_snapshot: expect::root_snapshot(h, S1) },
        )
    } else if n == DELETED {
        // the namespace that is deleted
        RequestView::Helper(HelperRequestView::ArbitraryNamespace { name: "deleted-ns"@ })
    } else if n == ACTIVE {
        // the namespace that stays
        RequestView::Helper(HelperRequestView::ArbitraryNamespace { name: "active-ns"@ })
    } else if n == S2 {
        // a snapshot with both namespaces
        RequestView::Root(RootRequestView::Snapshot)
    } else if n == 5 {
        RequestView::Run(
            ScenarioView::ValidateRootSnapshot { root_snapshot: expect::root_snapshot(h, S2) },
        )
    } else if n == 6 {
        // one of them is deleted
        RequestView::Namespaces(
            NamespacesRequestView::SoftDelete { id: expect::namespace(h, DELETED).id },
        )
    } else if n == ONCE {
        // which advances its version
        RequestView::Namespaces(
            NamespacesRequestView::GetById {
                id: expect::namespace(h, DELETED).id,
                rows: SoftDeletedRows::OnlyDeleted,
            },
        )
    } else if n == 8 {
        // and again
        RequestView::Namespaces(
            NamespacesRequestView::SoftDelete { id: expect::namespace(h, DELETED).id },
        )
    } else if n == TWICE {
        // which advances its version once more
        RequestView::Namespaces(
            NamespacesRequestView::GetById {
                id: expect::namespace(h, DELETED).id,
                rows: SoftDeletedRows::OnlyDeleted,
            },
        )
    } else if n == S3 {
        // a snapshot after the deletion
        RequestView::Root(RootRequestView::Snapshot)
    } else if n == 11 {
        RequestView::Run(
            ScenarioView::ValidateRootSnapshot { root_snapshot: expect::root_snapshot(h, S3) },
        )
    } else if n == 12 {
        // listing respects soft deletion
        RequestView::Namespaces(NamespacesRequestView::List { rows: SoftDeletedRows::AllRows })
    } else if n == 13 {
        RequestView::Namespaces(NamespacesRequestView::List { rows: SoftDeletedRows::OnlyDeleted })
    } else if n == 14 {
        RequestView::Namespaces(
            NamespacesRequestView::List { rows: SoftDeletedRows::ExcludeDeleted },
        )
    } else if n == 15 {
        // reading by id does
        RequestView::Namespaces(
            NamespacesRequestView::GetById {
                id: expect::namespace(h, DELETED).id,
                rows: SoftDeletedRows::AllRows,
            },
        )
    } else if n == 16 {
        RequestView::Namespaces(
            NamespacesRequestView::GetById {
                id: expect::namespace(h, DELETED).id,
                rows: SoftDeletedRows::OnlyDeleted,
            },
        )
    } else if n == 17 {
        RequestView::Namespaces(
            NamespacesRequestView::GetById {
                id: expect::namespace(h, DELETED).id,
                rows: SoftDeletedRows::ExcludeDeleted,
            },
        )
    } else if n == 18 {
        RequestView::Namespaces(
            NamespacesRequestView::GetById {
                id: expect::namespace(h, ACTIVE).id,
                rows: SoftDeletedRows::AllRows,
            },
        )
    } else if n == 19 {
        RequestView::Namespaces(
            NamespacesRequestView::GetById {
                id: expect::namespace(h, ACTIVE).id,
                rows: SoftDeletedRows::OnlyDeleted,
            },
        )
    } else if n == 20 {
        RequestView::Namespaces(
            NamespacesRequestView::GetById {
                id: expect::namespace(h, ACTIVE).id,
                rows: SoftDeletedRows::ExcludeDeleted,
            },
        )
    } else if n == 21 {
        // and reading by name
        RequestView::Namespaces(
            NamespacesRequestView::GetByName {
                name: expect::namespace(h, DELETED).name,
                rows: SoftDeletedRows::AllRows,
            },
        )
    } else if n == 22 {
        RequestView::Namespaces(
            NamespacesRequestView::GetByName {
                name: expect::namespace(h, DELETED).name,
                rows: SoftDeletedRows::OnlyDeleted,
            },
        )
    } else if n == 23 {
        RequestView::Namespaces(
            NamespacesRequestView::GetByName {
                name: expect::namespace(h, DELETED).name,
                rows: SoftDeletedRows::ExcludeDeleted,
            },
        )
    } else if n == 24 {
        RequestView::Namespaces(
            NamespacesRequestView::GetByName {
                name: expect::namespace(h, ACTIVE).name,
                rows: SoftDeletedRows::AllRows,
            },
        )
    } else if n == 25 {
        RequestView::Namespaces(
            NamespacesRequestView::GetByName {
                name: expect::namespace(h, ACTIVE).name,
                rows: SoftDeletedRows::OnlyDeleted,
            },
        )
    } else {
        RequestView::Namespaces(
            NamespacesRequestView::GetByName {
                name: expect::namespace(h, ACTIVE).name,
                rows: SoftDeletedRows::ExcludeDeleted,
            },
        )
    }
}

/// The last of the replies `h` is as it has to be, where the ones before it were.
pub open spec fn accepts(h: Seq<Reply>) -> bool {
    let n = h.len() - 1;
    if n == S1 {
        expect::got_root_snapshot(h)
    } else if n == 1 {
        expect::passed(h)
    } else if n == DELETED {
        expect::got_namespace(h)
    } else if n == ACTIVE {
        expect::got_namespace(h)
    } else if n == S2 {
        expect::got_root_snapshot(h) && expect::newer(h, S2, S1)
    } else if n == 5 {
        expect::passed(h)
    } else if n == 6 {
        expect::got_id(h)
    } else if n == ONCE {
        expect::got_namespace(h) && expect::version_follows(h, DELETED, 1)
    } else if n == 8 {
        expect::got_id(h)
    } else if n == TWICE {
        expect::got_namespace(h) && expect::version_follows(h, DELETED, 2)
    } else if n == S3 {
        expect::got_root_snapshot(h) && expect::not_older(h, S3, S2)
    } else if n == 11 {
        expect::passed(h)
    } else if n == 12 {
        expect::both_named(h, "deleted-ns"@, "active-ns"@)
    } else if n == 13 {
        expect::all_named(h, "deleted-ns"@)
    } else if n == 14 {
        expect::all_named(h, "active-ns"@)
    } else if n == 15 {
        expect::is_named(h, "deleted-ns"@)
    } else if n == 16 {
        expect::is_deleted(h) && expect::is_named(h, "deleted-ns"@)
    } else if n == 17 {
        expect::nothing(h)
    } else if n == 18 {
        expect::is_named(h, "active-ns"@)
    } else if n == 19 {
        expect::nothing(h)
    } else if n == 20 {
        expect::is_named(h, "active-ns"@)
    } else if n == 21 {
        expect::is_named(h, "deleted-ns"@)
    } else if n == 22 {
        expect::is_deleted(h) && expect::is_named(h, "deleted-ns"@)
    } else if n == 23 {
        expect::nothing(h)
    } else if n == 24 {
        expect::is_named(h, "active-ns"@)
    } else if n == 25 {
        expect::nothing(h)
    } else if n == 26 {
        expect::is_named(h, "active-ns"@)
    } else {
        false
    }
}

/// With the replies `h` everything has been asked for.
pub open spec fn finished(h: Seq<Reply>) -> bool {
    h.len() >= LENGTH
}

/// What is known of the first `m` replies once they have been accepted.
pub proof fn lemma_known(h: Seq<Reply>, m: int)
    requires
        0 <= m <= h.len(),
        accepted(ScenarioView::NamespaceSoftDeletion, h, m),
    ensures
        m > S1 ==> expect::is_root_snapshot(h, S1),
        m > DELETED ==> expect::is_namespace(h, DELETED),
        m > ACTIVE ==> expect::is_namespace(h, ACTIVE),
        m > S2 ==> expect::is_root_snapshot(h, S2),
        m > ONCE ==> expect::is_namespace(h, ONCE),
        m > TWICE ==> expect::is_namespace(h, TWICE),
        m > S3 ==> expect::is_root_snapshot(h, S3),
{
    let s = ScenarioView::NamespaceSoftDeletion;
    if m > S1 {
        assert(run::accepts(s, h.take(S1 + 1)));
    }
    if m > DELETED {
        assert(run::accepts(s, h.take(DELETED + 1)));
    }
    if m > ACTIVE {
        assert(run::accepts(s, h.take(ACTIVE + 1)));
    }
    if m > S2 {
        assert(run::accepts(s, h.take(S2 + 1)));
    }
    if m > ONCE {
        assert(run::accepts(s, h.take(ONCE + 1)));
    }
    if m > TWICE {
        assert(run::accepts(s, h.take(TWICE + 1)));
    }
    if m > S3 {
        assert(run::accepts(s, h.take(S3 + 1)));
    }
}

/// What is asked for when the replies so far are `h`.
pub fn next_request<'a>(h: &'a Vec<Reply>) -> (r: Request<'a>)
    requires
        accepted(ScenarioView::NamespaceSoftDeletion, h@, h@.len() as int),
        !finished(h@),
    ensures
        r@ =~~= request(h@),
{
    let n: usize = h.len();
    proof {
        lemma_known(h@, n as int);
    }
    if n == S1 {
        Request::Root(RootRequest::Snapshot)
    } else if n == 1 {
        Request::Run(Scenario::ValidateRootSnapshot { root_snapshot: check::root_snapshot(h, S1) })
    } else if n == DELETED {
        Request::Helper(HelperRequest::ArbitraryNamespace { name: "deleted-ns" })
    } else if n == ACTIVE {
        Request::Helper(HelperRequest::ArbitraryNamespace { name: "active-ns" })
    } else if n == S2 {
        Request::Root(RootRequest::Snapshot)
    } else if n == 5 {
        Request::Run(Scenario::ValidateRootSnapshot { root_snapshot: check::root_snapshot(h, S2) })
    } else if n == 6 {
        Request::Namespaces(NamespacesRequest::SoftDelete { id: check::namespace(h, DELETED).id })
    } else if n == ONCE {
        Request::Namespaces(
            NamespacesRequest::GetById {
                id: check::namespace(h, DELETED).id,
                rows: SoftDeletedRows::OnlyDeleted,
            },
        )
    } else if n == 8 {
        Request::Namespaces(NamespacesRequest::SoftDelete { id: check::namespace(h, DELETED).id })
    } else if n == TWICE {
        Request::Namespaces(
            NamespacesRequest::GetById {
                id: check::namespace(h, DELETED).id,
                rows: SoftDeletedRows::OnlyDeleted,
            },
        )
    } else if n == S3 {
        Request::Root(RootRequest::Snapshot)
    } else if n == 11 {
        Request::Run(Scenario::ValidateRootSnapshot { root_snapshot: check::root_snapshot(h, S3) })
    } else if n == 12 {
        Request::Namespaces(NamespacesRequest::List { rows: SoftDeletedRows::AllRows })
    } else if n == 13 {
        Request::Namespaces(NamespacesRequest::List { rows: SoftDeletedRows::OnlyDeleted })
    } else if n == 14 {
        Request::Namespaces(NamespacesRequest::List { rows: SoftDeletedRows::ExcludeDeleted })
    } else if n == 15 {
        Request::Namespaces(
            NamespacesRequest::GetById {
                id: check::namespace(h, DELETED).id,
                rows: SoftDeletedRows::AllRows,
            },
        )
    } else if n == 16 {
        Request::Namespaces(
            NamespacesRequest::GetById {
                id: check::namespace(h, DELETED).id,
                rows: SoftDeletedRows::OnlyDeleted,
            },
        )
    } else if n == 17 {
        Request::Namespaces(
            NamespacesRequest::GetById {
                id: check::namespace(h, DELETED).id,
                rows: SoftDeletedRows::ExcludeDeleted,
            },
        )
    } else if n == 18 {
        Request::Namespaces(
            NamespacesRequest::GetById {
                id: check::namespace(h, ACTIVE).id,
                rows: SoftDeletedRows::AllRows,
            },
        )
    } else if n == 19 {
        Request::Namespaces(
            NamespacesRequest::GetById {
                id: check::namespace(h, ACTIVE).id,
                rows: SoftDeletedRows::OnlyDeleted,
            },
        )
    } else if n == 20 {
        Request::Namespaces(
            NamespacesRequest::GetById {
                id: check::namespace(h, ACTIVE).id,
                rows: SoftDeletedRows::ExcludeDeleted,
            },
        )
    } else if n == 21 {
        Request::Namespaces(
            NamespacesRequest::GetByName {
                name: check::namespace(h, DELETED).name.as_str(),
                rows: SoftDeletedRows::AllRows,
            },
        )
    } else if n == 22 {
        Request::Namespaces(
            NamespacesRequest::GetByName {
                name: check::namespace(h, DELETED).name.as_str(),
                rows: SoftDeletedRows::OnlyDeleted,
            },
        )
    } else if n == 23 {
        Request::Namespaces(
            NamespacesRequest::GetByName {
                name: check::namespace(h, DELETED).name.as_str(),
                rows: SoftDeletedRows::ExcludeDeleted,
            },
        )
    } else if n == 24 {
        Request::Namespaces(
            NamespacesRequest::GetByName {
                name: check::namespace(h, ACTIVE).name.as_str(),
                rows: SoftDeletedRows::AllRows,
            },
        )
    } else if n == 25 {
        Request::Namespaces(
            NamespacesRequest::GetByName {
                name: check::namespace(h, ACTIVE).name.as_str(),
                rows: SoftDeletedRows::OnlyDeleted,
            },
        )
    } else {
        Request::Namespaces(
            NamespacesRequest::GetByName {
                name: check::namespace(h, ACTIVE).name.as_str(),
                rows: SoftDeletedRows::ExcludeDeleted,
            },
        )
    }
}

/// Whether the last of the replies `h` is as it has to be.
pub fn accepts_last(h: &Vec<Reply>) -> (b: bool)
    requires
        h.len() > 0,
        accepted(ScenarioView::NamespaceSoftDeletion, h@, h@.len() - 1),
        !finished(h@.drop_last()),
    ensures
        b == accepts(h@),
{
    let n: usize = h.len() - 1;
    proof {
        lemma_known(h@, n as int);
    }
    if n == S1 {
        check::got_root_snapshot(h)
    } else if n == 1 {
        check::passed(h)
    } else if n == DELETED {
        check::got_namespace(h)
    } else if n == ACTIVE {
        check::got_namespace(h)
    } else if n == S2 {
        check::got_root_snapshot(h) && check::newer(h, S2, S1)
    } else if n == 5 {
        check::passed(h)
    } else if n == 6 {
        check::got_id(h)
    } else if n == ONCE {
        check::got_namespace(h) && check::version_follows(h, DELETED, 1)
    } else if n == 8 {
        check::got_id(h)
    } else if n == TWICE {
        check::got_namespace(h) && check::version_follows(h, DELETED, 2)
    } else if n == S3 {
        check::got_root_snapshot(h) && check::not_older(h, S3, S2)
    } else if n == 11 {
        check::passed(h)
    } else if n == 12 {
        check::both_named(h, "deleted-ns", "active-ns")
    } else if n == 13 {
        check::all_named(h, "deleted-ns")
    } else if n == 14 {
        check::all_named(h, "active-ns")
    } else if n == 15 {
        check::is_named(h, "deleted-ns")
    } else if n == 16 {
        check::is_deleted(h) && check::is_named(h, "deleted-ns")
    } else if n == 17 {
        check::nothing(h)
    } else if n == 18 {
        check::is_named(h, "active-ns")
    } else if n == 19 {
        check::nothing(h)
    } else if n == 20 {
        check::is_named(h, "active-ns")
    } else if n == 21 {
        check::is_named(h, "deleted-ns")
    } else if n == 22 {
        check::is_deleted(h) && check::is_named(h, "deleted-ns")
    } else if n == 23 {
        check::nothing(h)
    } else if n == 24 {
        check::is_named(h, "active-ns")
    } else if n == 25 {
        check::nothing(h)
    } else if n == 26 {
        check::is_named(h, "active-ns")
    } else {
        false
    }
}

/// Whether everything has been asked for.
pub fn is_finished(h: &Vec<Reply>) -> (b: bool)
    ensures
        b == finished(h@),
{
    h.len() >= LENGTH
}

} // verus!
