//! What a catalog has answered of the time.
use crate::expect;
use crate::reply::Reply;
use crate::request::{CatalogRequestView, EnvironmentRequestView, RequestView, ScenarioView};
use crate::run;
use crate::run::{accepts, passes};
use crate::scenarios::test_get_time::{NAME, SYSTEM};
use vstd::prelude::*;

verus! {

/// What step `k` asks for.
pub open spec fn asked(h: Seq<Reply>, k: int) -> RequestView {
    run::request(ScenarioView::GetTime, h.take(k))
}

/// The catalog tells the time of the system, give or take a second, and records one call that
/// succeeded and none that failed.
pub proof fn law_the_time_is_told_and_recorded(h: Seq<Reply>)
    requires
        passes(ScenarioView::GetTime, h),
    ensures
        asked(h, 0) == RequestView::Environment(EnvironmentRequestView::SystemSecond),
        h[0] is Second,
        asked(h, 1) == RequestView::Catalog(CatalogRequestView::GetTime),
        h[1] is Second && -1 <= h[1]->Second_0 - expect::second(h, SYSTEM) <= 1,
        asked(h, 2) == RequestView::Catalog(CatalogRequestView::Name),
        h[2] is Text,
        asked(h, 3) == RequestView::Catalog(
            CatalogRequestView::HistogramSamples {
                metric: "catalog_op_duration"@,
                catalog_type: expect::text(h, NAME),
                op: "get_time"@,
                result: "error"@,
            },
        ),
        h[3] is Samples && h[3]->Samples_0 == 0,
        asked(h, 4) == RequestView::Catalog(
            CatalogRequestView::HistogramSamples {
                metric: "catalog_op_duration"@,
                catalog_type: expect::text(h, NAME),
                op: "get_time"@,
                result: "success"@,
            },
        ),
        h[4] is Samples && h[4]->Samples_0 == 1,
{
    let s = ScenarioView::GetTime;
    assert(accepts(s, h.take(1)));
    assert(accepts(s, h.take(2)));
    assert(accepts(s, h.take(3)));
    assert(accepts(s, h.take(4)));
    assert(accepts(s, h.take(5)));
}

/// Answers like these are accepted.
pub proof fn law_the_time_is_told_and_recorded_which_is_enough(h: Seq<Reply>)
    requires
        h.len() > 4,
        h[0] is Second,
        h[1] is Second && -1 <= h[1]->Second_0 - expect::second(h, SYSTEM) <= 1,
        h[2] is Text,
        h[3] is Samples && h[3]->Samples_0 == 0,
        h[4] is Samples && h[4]->Samples_0 == 1,
    ensures
        accepts(ScenarioView::GetTime, h.take(1)),
        accepts(ScenarioView::GetTime, h.take(2)),
        accepts(ScenarioView::GetTime, h.take(3)),
        accepts(ScenarioView::GetTime, h.take(4)),
        accepts(ScenarioView::GetTime, h.take(5)),
{
    assert(h.take(1).last() == h[0]);
    assert(h.take(2).last() == h[1]);
    assert(h.take(3).last() == h[2]);
    assert(h.take(4).last() == h[3]);
    assert(h.take(5).last() == h[4]);
}

} // verus!
