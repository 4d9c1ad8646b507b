//! What a catalog that is served has answered of the time.
use crate::expect;
use crate::reply::Reply;
use crate::request::{EnvironmentRequestView, RequestView, ScenarioView};
use crate::run;
use crate::run::{accepts, passes};
use crate::scenarios::test_grpc_get_time_with_backed_catalog::CLIENT;
use vstd::prelude::*;

verus! {

/// What step `k` asks for.
pub open spec fn asked(h: Seq<Reply>, k: int) -> RequestView {
    run::request(ScenarioView::GrpcGetTime, h.take(k))
}

/// The catalog tells the client's time, give or take a second.
pub proof fn law_the_served_time_is_told(h: Seq<Reply>)
    requires
        passes(ScenarioView::GrpcGetTime, h),
    ensures
        asked(h, 0) == RequestView::Environment(EnvironmentRequestView::StartGrpcServer),
        h[0] is Done,
        asked(h, 1) == RequestView::Environment(EnvironmentRequestView::GrpcSecond),
        h[1] is Second,
        asked(h, 2) == RequestView::Environment(EnvironmentRequestView::GrpcGetTime),
        h[2] is Second && -1 <= h[2]->Second_0 - expect::second(h, CLIENT) <= 1,
{
    let s = ScenarioView::GrpcGetTime;
    assert(accepts(s, h.take(1)));
    assert(accepts(s, h.take(2)));
    assert(accepts(s, h.take(3)));
}

/// Answers like these are accepted.
pub proof fn law_the_served_time_is_told_which_is_enough(h: Seq<Reply>)
    requires
        h.len() > 2,
        h[0] is Done,
        h[1] is Second,
        h[2] is Second && -1 <= h[2]->Second_0 - expect::second(h, CLIENT) <= 1,
    ensures
        accepts(ScenarioView::GrpcGetTime, h.take(1)),
        accepts(ScenarioView::GrpcGetTime, h.take(2)),
        accepts(ScenarioView::GrpcGetTime, h.take(3)),
{
    assert(h.take(1).last() == h[0]);
    assert(h.take(2).last() == h[1]);
    assert(h.take(3).last() == h[2]);
}

} // verus!
