//! A client tells the time of the catalog that it is connected to.
use crate::check;
use crate::expect;
use crate::reply::Reply;
use crate::request::{
    EnvironmentRequest, EnvironmentRequestView, Request, RequestView, ScenarioView,
};
use crate::run;
use crate::run::accepted;
use vstd::prelude::*;

verus! {

/// The step that gives the client's time.
pub const CLIENT: usize = 1;

/// How many requests there are.
pub const LENGTH: usize = 3;

/// What is asked for when the replies so far are `h`.
pub open spec fn request(h: Seq<Reply>) -> RequestView {
    let n = h.len();
    if n == 0 {
        RequestView::Environment(EnvironmentRequestView::StartGrpcServer)
    } else if n == CLIENT {
        // the client's time
        RequestView::Environment(EnvironmentRequestView::GrpcSecond)
    } else {
        // the catalog's time
        RequestView::Environment(EnvironmentRequestView::GrpcGetTime)
    }
}

/// The last of the replies `h` is as it has to be, where the ones before it were.
pub open spec fn accepts(h: Seq<Reply>) -> bool {
    let n = h.len() - 1;
    if n == 0 {
        expect::done(h)
    } else if n == CLIENT {
        expect::got_second(h)
    } else if n == 2 {
        expect::near(h, CLIENT)
    } else {
        false
    }
}

/// With the replies `h` everything has been asked for.
pub open spec fn finished(h: Seq<Reply>) -> bool {
    h.len() >= LENGTH
}

/// What is known of the first `m` replies once they have been accepted.
pub proof fn lemma_known(h: Seq<Reply>, m: int)
    requires
        0 <= m <= h.len(),
        accepted(ScenarioView::GrpcGetTime, h, m),
    ensures
        m > CLIENT ==> expect::is_second(h, CLIENT),
{
    let s = ScenarioView::GrpcGetTime;
    if m > CLIENT {
        assert(run::accepts(s, h.take(CLIENT + 1)));
    }
}

/// What is asked for when the replies so far are `h`.
pub fn next_request<'a>(h: &'a Vec<Reply>) -> (r: Request<'a>)
    requires
        accepted(ScenarioView::GrpcGetTime, h@, h@.len() as int),
        !finished(h@),
    ensures
        r@ =~~= request(h@),
{
    let n: usize = h.len();
    proof {
        lemma_known(h@, n as int);
    }
    if n == 0 {
        Request::Environment(EnvironmentRequest::StartGrpcServer)
    } else if n == CLIENT {
        Request::Environment(EnvironmentRequest::GrpcSecond)
    } else {
        Request::Environment(EnvironmentRequest::GrpcGetTime)
    }
}

/// Whether the last of the replies `h` is as it has to be.
pub fn accepts_last(h: &Vec<Reply>) -> (b: bool)
    requires
        h.len() > 0,
        accepted(ScenarioView::GrpcGetTime, h@, h@.len() - 1),
        !finished(h@.drop_last()),
    ensures
        b == accepts(h@),
{
    let n: usize = h.len() - 1;
    proof {
        lemma_known(h@, n as int);
    }
    if n == 0 {
        check::done(h)
    } else if n == CLIENT {
        check::got_second(h)
    } else if n == 2 {
        check::near(h, CLIENT)
    } else {
        false
    }
}

/// Whether everything has been asked for.
pub fn is_finished(h: &Vec<Reply>) -> (b: bool)
    ensures
        b == finished(h@),
{
    h.len() >= LENGTH
}

} // verus!
