//! What a catalog has answered of namespaces of which one is deleted.
use crate::expect;
use crate::reply::Reply;
use crate::request::{
    HelperRequestView, NamespacesRequestView, RequestView, RootRequestView, ScenarioView,
};
use crate::run;
use crate::run::{accepts, passes};
use crate::scenarios::test_namespace_soft_deletion::{ACTIVE, DELETED, S1, S2, S3};
use crate::types::SoftDeletedRows;
use vstd::prelude::*;

verus! {

/// What step `k` asks for.
pub open spec fn asked(h: Seq<Reply>, k: int) -> RequestView {
    run::request(ScenarioView::NamespaceSoftDeletion, h.take(k))
}

/// A namespace that is deleted can be deleted again, and each time its version advances by one.
pub proof fn law_deleting_twice_advances_the_version_twice(h: Seq<Reply>)
    requires
        passes(ScenarioView::NamespaceSoftDeletion, h),
    ensures
        asked(h, 0) == RequestView::Root(RootRequestView::Snapshot),
        h[0] is RootSnapshot,
        asked(h, 1) == RequestView::Run(
            ScenarioView::ValidateRootSnapshot { root_snapshot: expect::root_snapshot(h, S1) },
        ),
        h[1] is Passed,
        asked(h, 2) == RequestView::Helper(
            HelperRequestView::ArbitraryNamespace { name: "deleted-ns"@ },
        ),
        h[2] is Namespace,
        asked(h, 3) == RequestView::Helper(
            HelperRequestView::ArbitraryNamespace { name: "active-ns"@ },
        ),
        h[3] is Namespace,
        asked(h, 4) == RequestView::Root(RootRequestView::Snapshot),
        h[4] is RootSnapshot,
        asked(h, 5) == RequestView::Run(
            ScenarioView::ValidateRootSnapshot { root_snapshot: expect::root_snapshot(h, S2) },
        ),
        h[5] is Passed,
        asked(h, 6) == RequestView::Namespaces(
            NamespacesRequestView::SoftDelete { id: expect::namespace(h, DELETED).id },
        ),
        h[6] is Id,
        asked(h, 7) == RequestView::Namespaces(
            NamespacesRequestView::GetById {
                id: expect::namespace(h, DELETED).id,
                rows: SoftDeletedRows::OnlyDeleted,
            },
        ),
        h[7] is Namespace && h[7]->Namespace_0.router_version == expect::namespace(
            h,
            DELETED,
        ).router_version + 1,
        asked(h, 8) == RequestView::Namespaces(
            NamespacesRequestView::SoftDelete { id: expect::namespace(h, DELETED).id },
        ),
        h[8] is Id,
        asked(h, 9) == RequestView::Namespaces(
            NamespacesRequestView::GetById {
                id: expect::namespace(h, DELETED).id,
                rows: SoftDeletedRows::OnlyDeleted,
            },
        ),
        h[9] is Namespace && h[9]->Namespace_0.router_version == expect::namespace(
            h,
            DELETED,
        ).router_version + 2,
        asked(h, 10) == RequestView::Root(RootRequestView::Snapshot),
        h[10] is RootSnapshot,
        asked(h, 11) == RequestView::Run(
            ScenarioView::ValidateRootSnapshot { root_snapshot: expect::root_snapshot(h, S3) },
        ),
        h[11] is Passed,
{
    let s = ScenarioView::NamespaceSoftDeletion;
    assert(accepts(s, h.take(1)));
    assert(accepts(s, h.take(2)));
    assert(accepts(s, h.take(3)));
    assert(accepts(s, h.take(4)));
    assert(accepts(s, h.take(5)));
    assert(accepts(s, h.take(6)));
    assert(accepts(s, h.take(7)));
    assert(accepts(s, h.take(8)));
    assert(accepts(s, h.take(9)));
    assert(accepts(s, h.take(10)));
    assert(accepts(s, h.take(11)));
    assert(accepts(s, h.take(12)));
}

/// Answers like these are accepted.
pub proof fn law_deleting_twice_advances_the_version_twice_which_is_enough(h: Seq<Reply>)
    requires
        h.len() > 11,
        h[0] is RootSnapshot,
        h[1] is Passed,
        h[2] is Namespace,
        h[3] is Namespace,
        h[4] is RootSnapshot && expect::root_snapshot(h, S2).generation > expect::root_snapshot(
            h,
            S1,
        ).generation,
        h[5] is Passed,
        h[6] is Id,
        h[7] is Namespace && h[7]->Namespace_0.router_version == expect::namespace(
            h,
            DELETED,
        ).router_version + 1,
        h[8] is Id,
        h[9] is Namespace && h[9]->Namespace_0.router_version == expect::namespace(
            h,
            DELETED,
        ).router_version + 2,
        h[10] is RootSnapshot && expect::root_snapshot(h, S3).generation >= expect::root_snapshot(
            h,
            S2,
        ).generation,
        h[11] is Passed,
    ensures
        accepts(ScenarioView::NamespaceSoftDeletion, h.take(1)),
        accepts(ScenarioView::NamespaceSoftDeletion, h.take(2)),
        accepts(ScenarioView::NamespaceSoftDeletion, h.take(3)),
        accepts(ScenarioView::NamespaceSoftDeletion, h.take(4)),
        accepts(ScenarioView::NamespaceSoftDeletion, h.take(5)),
        accepts(ScenarioView::NamespaceSoftDeletion, h.take(6)),
        accepts(ScenarioView::NamespaceSoftDeletion, h.take(7)),
        accepts(ScenarioView::NamespaceSoftDeletion, h.take(8)),
        accepts(ScenarioView::NamespaceSoftDeletion, h.take(9)),
        accepts(ScenarioView::NamespaceSoftDeletion, h.take(10)),
        accepts(ScenarioView::NamespaceSoftDeletion, h.take(11)),
        accepts(ScenarioView::NamespaceSoftDeletion, h.take(12)),
{
    assert(h.take(1).last() == h[0]);
    assert(h.take(2).last() == h[1]);
    assert(h.take(3).last() == h[2]);
    assert(h.take(4).last() == h[3]);
    assert(h.take(5).last() == h[4]);
    assert(h.take(6).last() == h[5]);
    assert(h.take(7).last() == h[6]);
    assert(h.take(8).last() == h[7]);
    assert(h.take(9).last() == h[8]);
    assert(h.take(10).last() == h[9]);
    assert(h.take(11).last() == h[10]);
    assert(h.take(12).last() == h[11]);
}

/// Of a deleted namespace and an active one each read by id finds those rows that it asks for.
pub proof fn law_reads_by_id_respect_deletion(h: Seq<Reply>)
    requires
        passes(ScenarioView::NamespaceSoftDeletion, h),
    ensures
        asked(h, 15) == RequestView::Namespaces(
            NamespacesRequestView::GetById {
                id: expect::namespace(h, DELETED).id,
                rows: SoftDeletedRows::AllRows,
            },
        ),
        h[15] is Namespace && h[15]->Namespace_0@.name == "deleted-ns"@,
        asked(h, 16) == RequestView::Namespaces(
            NamespacesRequestView::GetById {
                id: expect::namespace(h, DELETED).id,
                rows: SoftDeletedRows::OnlyDeleted,
            },
        ),
        h[16] is Namespace && h[16]->Namespace_0.deleted_at is Some,
        h[16]->Namespace_0@.name == "deleted-ns"@,
        asked(h, 17) == RequestView::Namespaces(
            NamespacesRequestView::GetById {
                id: expect::namespace(h, DELETED).id,
                rows: SoftDeletedRows::ExcludeDeleted,
            },
        ),
        h[17] is Nothing,
        asked(h, 18) == RequestView::Namespaces(
            NamespacesRequestView::GetById {
                id: expect::namespace(h, ACTIVE).id,
                rows: SoftDeletedRows::AllRows,
            },
        ),
        h[18] is Namespace && h[18]->Namespace_0@.name == "active-ns"@,
        asked(h, 19) == RequestView::Namespaces(
            NamespacesRequestView::GetById {
                id: expect::namespace(h, ACTIVE).id,
                rows: SoftDeletedRows::OnlyDeleted,
            },
        ),
        h[19] is Nothing,
        asked(h, 20) == RequestView::Namespaces(
            NamespacesRequestView::GetById {
                id: expect::namespace(h, ACTIVE).id,
                rows: SoftDeletedRows::ExcludeDeleted,
            },
        ),
        h[20] is Namespace && h[20]->Namespace_0@.name == "active-ns"@,
{
    let s = ScenarioView::NamespaceSoftDeletion;
    assert(accepts(s, h.take(16)));
    assert(accepts(s, h.take(17)));
    assert(accepts(s, h.take(18)));
    assert(accepts(s, h.take(19)));
    assert(accepts(s, h.take(20)));
    assert(accepts(s, h.take(21)));
}

/// Answers like these are accepted.
pub proof fn law_reads_by_id_respect_deletion_which_is_enough(h: Seq<Reply>)
    requires
        h.len() > 20,
        h[15] is Namespace && h[15]->Namespace_0@.name == "deleted-ns"@,
        h[16] is Namespace && h[16]->Namespace_0.deleted_at is Some,
        h[16]->Namespace_0@.name == "deleted-ns"@,
        h[17] is Nothing,
        h[18] is Namespace && h[18]->Namespace_0@.name == "active-ns"@,
        h[19] is Nothing,
        h[20] is Namespace && h[20]->Namespace_0@.name == "active-ns"@,
    ensures
        accepts(ScenarioView::NamespaceSoftDeletion, h.take(16)),
        accepts(ScenarioView::NamespaceSoftDeletion, h.take(17)),
        accepts(ScenarioView::NamespaceSoftDeletion, h.take(18)),
        accepts(ScenarioView::NamespaceSoftDeletion, h.take(19)),
        accepts(ScenarioView::NamespaceSoftDeletion, h.take(20)),
        accepts(ScenarioView::NamespaceSoftDeletion, h.take(21)),
{
    assert(h.take(16).last() == h[15]);
    assert(h.take(17).last() == h[16]);
    assert(h.take(18).last() == h[17]);
    assert(h.take(19).last() == h[18]);
    assert(h.take(20).last() == h[19]);
    assert(h.take(21).last() == h[20]);
}

/// Of a deleted namespace and an active one each read by name finds those rows that it asks for.
pub proof fn law_reads_by_name_respect_deletion(h: Seq<Reply>)
    requires
        passes(ScenarioView::NamespaceSoftDeletion, h),
    ensures
        asked(h, 21) == RequestView::Namespaces(
            NamespacesRequestView::GetByName {
                name: expect::namespace(h, DELETED).name,
                rows: SoftDeletedRows::AllRows,
            },
        ),
        h[21] is Namespace && h[21]->Namespace_0@.name == "deleted-ns"@,
        asked(h, 22) == RequestView::Namespaces(
            NamespacesRequestView::GetByName {
                name: expect::namespace(h, DELETED).name,
                rows: SoftDeletedRows::OnlyDeleted,
            },
        ),
        h[22] is Namespace && h[22]->Namespace_0.deleted_at is Some,
        h[22]->Namespace_0@.name == "deleted-ns"@,
        asked(h, 23) == RequestView::Namespaces(
            NamespacesRequestView::GetByName {
                name: expect::namespace(h, DELETED).name,
                rows: SoftDeletedRows::ExcludeDeleted,
            },
        ),
        h[23] is Nothing,
        asked(h, 24) == RequestView::Namespaces(
            NamespacesRequestView::GetByName {
                name: expect::namespace(h, ACTIVE).name,
                rows: SoftDeletedRows::AllRows,
            },
        ),
        h[24] is Namespace && h[24]->Namespace_0@.name == "active-ns"@,
        asked(h, 25) == RequestView::Namespaces(
            NamespacesRequestView::GetByName {
                name: expect::namespace(h, ACTIVE).name,
                rows: SoftDeletedRows::OnlyDeleted,
            },
        ),
        h[25] is Nothing,
        asked(h, 26) == RequestView::Namespaces(
            NamespacesRequestView::GetByName {
                name: expect::namespace(h, ACTIVE).name,
                rows: SoftDeletedRows::ExcludeDeleted,
            },
        ),
        h[26] is Namespace && h[26]->Namespace_0@.name == "active-ns"@,
{
    let s = ScenarioView::NamespaceSoftDeletion;
    assert(accepts(s, h.take(22)));
    assert(accepts(s, h.take(23)));
    assert(accepts(s, h.take(24)));
    assert(accepts(s, h.take(25)));
    assert(accepts(s, h.take(26)));
    assert(accepts(s, h.take(27)));
}

/// Answers like these are accepted.
pub proof fn law_reads_by_name_respect_deletion_which_is_enough(h: Seq<Reply>)
    requires
        h.len() > 26,
        h[21] is Namespace && h[21]->Namespace_0@.name == "deleted-ns"@,
        h[22] is Namespace && h[22]->Namespace_0.deleted_at is Some,
        h[22]->Namespace_0@.name == "deleted-ns"@,
        h[23] is Nothing,
        h[24] is Namespace && h[24]->Namespace_0@.name == "active-ns"@,
        h[25] is Nothing,
        h[26] is Namespace && h[26]->Namespace_0@.name == "active-ns"@,
    ensures
        accepts(ScenarioView::NamespaceSoftDeletion, h.take(22)),
        accepts(ScenarioView::NamespaceSoftDeletion, h.take(23)),
        accepts(ScenarioView::NamespaceSoftDeletion, h.take(24)),
        accepts(ScenarioView::NamespaceSoftDeletion, h.take(25)),
        accepts(ScenarioView::NamespaceSoftDeletion, h.take(26)),
        accepts(ScenarioView::NamespaceSoftDeletion, h.take(27)),
{
    assert(h.take(22).last() == h[21]);
    assert(h.take(23).last() == h[22]);
    assert(h.take(24).last() == h[23]);
    assert(h.take(25).last() == h[24]);
    assert(h.take(26).last() == h[25]);
    assert(h.take(27).last() == h[26]);
}

} // verus!
