//! What a catalog has answered of namespaces with their schemas.
use crate::expect;
use crate::reply::Reply;
use crate::request::{CatalogRequestView, RequestView, ScenarioView};
use crate::run;
use crate::run::{accepts, passes};
use crate::same::views;
use crate::scenarios::test_list_schemas::{FIRST, SECOND};
use vstd::prelude::*;

verus! {

/// What step `k` asks for.
pub open spec fn asked(h: Seq<Reply>, k: int) -> RequestView {
    run::request(ScenarioView::ListSchemas, h.take(k))
}

/// Two namespaces that were filled are listed with their schemas.
pub proof fn law_filled_namespaces_are_listed(h: Seq<Reply>)
    requires
        passes(ScenarioView::ListSchemas, h),
    ensures
        asked(h, 0) == RequestView::Run(
            ScenarioView::PopulateNamespace {
                name: "ns1"@,
                lines: "cpu,tag=1 field=1i\nanother,tag=1 field=1.0"@,
            },
        ),
        h[0] is Populated,
        asked(h, 1) == RequestView::Run(
            ScenarioView::PopulateNamespace {
                name: "ns2"@,
                lines: "cpu,tag=1 field=1i\nsomethingelse field=1u"@,
            },
        ),
        h[1] is Populated,
        asked(h, 2) == RequestView::Catalog(CatalogRequestView::ReleaseRepositories),
        h[2] is Done,
        asked(h, 3) == RequestView::Catalog(CatalogRequestView::ListSchemas),
        h[3] is Schemas && views(h[3]->Schemas_0@).contains(expect::populated(h, FIRST)),
        views(h[3]->Schemas_0@).contains(expect::populated(h, SECOND)),
{
    let s = ScenarioView::ListSchemas;
    assert(accepts(s, h.take(1)));
    assert(accepts(s, h.take(2)));
    assert(accepts(s, h.take(3)));
    assert(accepts(s, h.take(4)));
}

/// Answers like these are accepted.
pub proof fn law_filled_namespaces_are_listed_which_is_enough(h: Seq<Reply>)
    requires
        h.len() > 3,
        h[0] is Populated,
        h[1] is Populated,
        h[2] is Done,
        h[3] is Schemas && views(h[3]->Schemas_0@).contains(expect::populated(h, FIRST)),
        views(h[3]->Schemas_0@).contains(expect::populated(h, SECOND)),
    ensures
        accepts(ScenarioView::ListSchemas, h.take(1)),
        accepts(ScenarioView::ListSchemas, h.take(2)),
        accepts(ScenarioView::ListSchemas, h.take(3)),
        accepts(ScenarioView::ListSchemas, h.take(4)),
{
    assert(h.take(1).last() == h[0]);
    assert(h.take(2).last() == h[1]);
    assert(h.take(3).last() == h[2]);
    assert(h.take(4).last() == h[3]);
}

} // verus!
