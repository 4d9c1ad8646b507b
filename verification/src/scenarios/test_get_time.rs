//! A catalog tells the time, and records that it did.
use crate::check;
use crate::expect;
use crate::reply::Reply;
use crate::request::{
    CatalogRequest, CatalogRequestView, EnvironmentRequest, EnvironmentRequestView, Request,
    RequestView, ScenarioView,
};
use crate::run;
use crate::run::accepted;
use vstd::prelude::*;

verus! {

/// The step that gives the system's time.
pub const SYSTEM: usize = 0;

/// The step that gives the kind of catalog.
pub const NAME: usize = 2;

/// How many requests there are.
pub const LENGTH: usize = 5;

/// What is asked for when the replies so far are `h`.
pub open spec fn request(h: Seq<Reply>) -> RequestView {
    let n = h.len();
    if n == SYSTEM {
        // the system's time
        RequestView::Environment(EnvironmentRequestView::SystemSecond)
    } else if n == 1 {
        // the catalog's time
        RequestView::Catalog(CatalogRequestView::GetTime)
    } else if n == NAME {
        // the kind of catalog
        RequestView::Catalog(CatalogRequestView::Name)
    } else if n == 3 {
        // no call failed
        RequestView::Catalog(
            CatalogRequestView::HistogramSamples {
                metric: "catalog_op_duration"@,
                catalog_type: expect::text(h, NAME),
                op: "get_time"@,
                result: "error"@,
            },
        )
    } else {
        // and one did not
        RequestView::Catalog(
            CatalogRequestView::HistogramSamples {
                metric: "catalog_op_duration"@,
                catalog_type: expect::text(h, NAME),
                op: "get_time"@,
                result: "success"@,
            },
        )
    }
}

/// The last of the replies `h` is as it has to be, where the ones before it were.
pub open spec fn accepts(h: Seq<Reply>) -> bool {
    let n = h.len() - 1;
    if n == SYSTEM {
        expect::got_second(h)
    } else if n == 1 {
        expect::near(h, SYSTEM)
    } else if n == NAME {
        expect::got_text(h)
    } else if n == 3 {
        expect::samples_are(h, 0)
    } else if n == 4 {
        expect::samples_are(h, 1)
    } else {
        false
    }
}

/// With the replies `h` everything has been asked for.
pub open spec fn finished(h: Seq<Reply>) -> bool {
    h.len() >= LENGTH
}

/// What is known of the first `m` replies once they have been accepted.
pub proof fn lemma_known(h: Seq<Reply>, m: int)
    requires
        0 <= m <= h.len(),
        accepted(ScenarioView::GetTime, h, m),
    ensures
        m > SYSTEM ==> expect::is_second(h, SYSTEM),
        m > NAME ==> expect::is_text(h, NAME),
{
    let s = ScenarioView::GetTime;
    if m > SYSTEM {
        assert(run::accepts(s, h.take(SYSTEM + 1)));
    }
    if m > NAME {
        assert(run::accepts(s, h.take(NAME + 1)));
    }
}

/// What is asked for when the replies so far are `h`.
pub fn next_request<'a>(h: &'a Vec<Reply>) -> (r: Request<'a>)
    requires
        accepted(ScenarioView::GetTime, h@, h@.len() as int),
        !finished(h@),
    ensures
        r@ =~~= request(h@),
{
    let n: usize = h.len();
    proof {
        lemma_known(h@, n as int);
    }
    if n == SYSTEM {
        Request::Environment(EnvironmentRequest::SystemSecond)
    } else if n == 1 {
        Request::Catalog(CatalogRequest::GetTime)
    } else if n == NAME {
        Request::Catalog(CatalogRequest::Name)
    } else if n == 3 {
        Request::Catalog(
            CatalogRequest::HistogramSamples {
                metric: "catalog_op_duration",
                catalog_type: check::text(h, NAME),
                op: "get_time",
                result: "error",
            },
        )
    } else {
        Request::Catalog(
            CatalogRequest::HistogramSamples {
                metric: "catalog_op_duration",
                catalog_type: check::text(h, NAME),
                op: "get_time",
                result: "success",
            },
        )
    }
}

/// Whether the last of the replies `h` is as it has to be.
pub fn accepts_last(h: &Vec<Reply>) -> (b: bool)
    requires
        h.len() > 0,
        accepted(ScenarioView::GetTime, h@, h@.len() - 1),
        !finished(h@.drop_last()),
    ensures
        b == accepts(h@),
{
    let n: usize = h.len() - 1;
    proof {
        lemma_known(h@, n as int);
    }
    if n == SYSTEM {
        check::got_second(h)
    } else if n == 1 {
        check::near(h, SYSTEM)
    } else if n == NAME {
        check::got_text(h)
    } else if n == 3 {
        check::samples_are(h, 0)
    } else if n == 4 {
        check::samples_are(h, 1)
    } else {
        false
    }
}

/// Whether everything has been asked for.
pub fn is_finished(h: &Vec<Reply>) -> (b: bool)
    ensures
        b == finished(h@),
{
    h.len() >= LENGTH
}

} // verus!
