//! What a catalog has answered of namespaces with their schemas of which one is deleted.
use crate::expect;
use crate::reply::Reply;
use crate::request::{CatalogRequestView, NamespacesRequestView, RequestView, ScenarioView};
use crate::run;
use crate::run::{accepts, passes};
use crate::same::views;
use crate::scenarios::test_list_schemas_soft_deleted_rows::{FIRST, SECOND};
use vstd::prelude::*;

verus! {

/// What step `k` asks for.
pub open spec fn asked(h: Seq<Reply>, k: int) -> RequestView {
    run::request(ScenarioView::ListSchemasSoftDeletedRows, h.take(k))
}

/// Of two namespaces that were filled the one that is deleted is not listed.
pub proof fn law_deleted_namespaces_are_not_listed(h: Seq<Reply>)
    requires
        passes(ScenarioView::ListSchemasSoftDeletedRows, h),
    ensures
        asked(h, 0) == RequestView::Run(
            ScenarioView::PopulateNamespace {
                name: "ns1"@,
                lines: "cpu,tag=1 field=1i\nanother,tag=1 field=1.0"@,
            },
        ),
        h[0] is Populated,
        asked(h, 1) == RequestView::Run(
            ScenarioView::PopulateNamespace {
                name: "ns2"@,
                lines: "cpu,tag=1 field=1i\nsomethingelse field=1u"@,
            },
        ),
        h[1] is Populated,
        asked(h, 2) == RequestView::Namespaces(
            NamespacesRequestView::SoftDelete { id: expect::populated(h, SECOND).namespace.id },
        ),
        h[2] is Id,
        asked(h, 3) == RequestView::Catalog(CatalogRequestView::ReleaseRepositories),
        h[3] is Done,
        asked(h, 4) == RequestView::Catalog(CatalogRequestView::ListSchemas),
        h[4] is Schemas && views(h[4]->Schemas_0@).contains(expect::populated(h, FIRST)),
        !views(h[4]->Schemas_0@).contains(expect::populated(h, SECOND)),
{
    let s = ScenarioView::ListSchemasSoftDeletedRows;
    assert(accepts(s, h.take(1)));
    assert(accepts(s, h.take(2)));
    assert(accepts(s, h.take(3)));
    assert(accepts(s, h.take(4)));
    assert(accepts(s, h.take(5)));
}

/// Answers like these are accepted.
pub proof fn law_deleted_namespaces_are_not_listed_which_is_enough(h: Seq<Reply>)
    requires
        h.len() > 4,
        h[0] is Populated,
        h[1] is Populated,
        h[2] is Id,
        h[3] is Done,
        h[4] is Schemas && views(h[4]->Schemas_0@).contains(expect::populated(h, FIRST)),
        !views(h[4]->Schemas_0@).contains(expect::populated(h, SECOND)),
    ensures
        accepts(ScenarioView::ListSchemasSoftDeletedRows, h.take(1)),
        accepts(ScenarioView::ListSchemasSoftDeletedRows, h.take(2)),
        accepts(ScenarioView::ListSchemasSoftDeletedRows, h.take(3)),
        accepts(ScenarioView::ListSchemasSoftDeletedRows, h.take(4)),
        accepts(ScenarioView::ListSchemasSoftDeletedRows, h.take(5)),
{
    assert(h.take(1).last() == h[0]);
    assert(h.take(2).last() == h[1]);
    assert(h.take(3).last() == h[2]);
    assert(h.take(4).last() == h[3]);
    assert(h.take(5).last() == h[4]);
}

} // verus!
