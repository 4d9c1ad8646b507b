//! What a catalog has answered when it is set up.
use crate::reply::Reply;
use crate::request::{CatalogRequestView, RequestView, ScenarioView};
use crate::run;
use crate::run::{accepts, passes};
use vstd::prelude::*;

verus! {

/// What step `k` asks for.
pub open spec fn asked(h: Seq<Reply>, k: int) -> RequestView {
    run::request(ScenarioView::Setup, h.take(k))
}

/// A catalog can be set up, and set up again.
pub proof fn law_a_catalog_can_be_set_up_twice(h: Seq<Reply>)
    requires
        passes(ScenarioView::Setup, h),
    ensures
        asked(h, 0) == RequestView::Catalog(CatalogRequestView::Setup),
        h[0] is Done,
        asked(h, 1) == RequestView::Catalog(CatalogRequestView::Setup),
        h[1] is Done,
{
    let s = ScenarioView::Setup;
    assert(accepts(s, h.take(1)));
    assert(accepts(s, h.take(2)));
}

} // verus!
