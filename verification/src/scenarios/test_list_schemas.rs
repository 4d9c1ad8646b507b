//! All namespaces are listed with their schemas.
use crate::check;
use crate::expect;
use crate::reply::Reply;
use crate::request::{
    CatalogRequest, CatalogRequestView, Request, RequestView, Scenario, ScenarioView,
};
use crate::run;
use crate::run::accepted;
use vstd::prelude::*;

verus! {

/// The step that gives a namespace with two tables.
pub const FIRST: usize = 0;

/// The step that gives another one.
pub const SECOND: usize = 1;

/// How many requests there are.
pub const LENGTH: usize = 4;

/// What is asked for when the replies so far are `h`.
pub open spec fn request(h: Seq<Reply>) -> RequestView {
    let n = h.len();
    if n == FIRST {
        // a namespace with two tables
        RequestView::Run(
            ScenarioView::PopulateNamespace {
                name: "ns1"@,
                lines: "cpu,tag=1 field=1i\nanother,tag=1 field=1.0"@,
            },
        )
    } else if n == SECOND {
        // another one
        RequestView::Run(
            ScenarioView::PopulateNamespace {
                name: "ns2"@,
                lines: "cpu,tag=1 field=1i\nsomethingelse field=1u"@,
            },
        )
    } else if n == 2 {
        RequestView::Catalog(CatalogRequestView::ReleaseRepositories)
    } else {
        // both are listed
        RequestView::Catalog(CatalogRequestView::ListSchemas)
    }
}

/// The last of the replies `h` is as it has to be, where the ones before it were.
pub open spec fn accepts(h: Seq<Reply>) -> bool {
    let n = h.len() - 1;
    if n == FIRST {
        expect::got_populated(h)
    } else if n == SECOND {
        expect::got_populated(h)
    } else if n == 2 {
        expect::done(h)
    } else if n == 3 {
        expect::lists(h, FIRST) && expect::lists(h, SECOND)
    } else {
        false
    }
}

/// With the replies `h` everything has been asked for.
pub open spec fn finished(h: Seq<Reply>) -> bool {
    h.len() >= LENGTH
}

/// What is known of the first `m` replies once they have been accepted.
pub proof fn lemma_known(h: Seq<Reply>, m: int)
    requires
        0 <= m <= h.len(),
        accepted(ScenarioView::ListSchemas, h, m),
    ensures
        m > FIRST ==> expect::is_populated(h, FIRST),
        m > SECOND ==> expect::is_populated(h, SECOND),
{
    let s = ScenarioView::ListSchemas;
    if m > FIRST {
        assert(run::accepts(s, h.take(FIRST + 1)));
    }
    if m > SECOND {
        assert(run::accepts(s, h.take(SECOND + 1)));
    }
}

/// What is asked for when the replies so far are `h`.
pub fn next_request<'a>(h: &'a Vec<Reply>) -> (r: Request<'a>)
    requires
        accepted(ScenarioView::ListSchemas, h@, h@.len() as int),
        !finished(h@),
    ensures
        r@ =~~= request(h@),
{
    let n: usize = h.len();
    proof {
        lemma_known(h@, n as int);
    }
    if n == FIRST {
        Request::Run(
            Scenario::PopulateNamespace {
                name: "ns1",
                lines: "cpu,tag=1 field=1i\nanother,tag=1 field=1.0",
            },
        )
    } else if n == SECOND {
        Request::Run(
            Scenario::PopulateNamespace {
                name: "ns2",
                lines: "cpu,tag=1 field=1i\nsomethingelse field=1u",
            },
        )
    } else if n == 2 {
        Request::Catalog(CatalogRequest::ReleaseRepositories)
    } else {
        Request::Catalog(CatalogRequest::ListSchemas)
    }
}

/// Whether the last of the replies `h` is as it has to be.
pub fn accepts_last(h: &Vec<Reply>) -> (b: bool)
    requires
        h.len() > 0,
        accepted(ScenarioView::ListSchemas, h@, h@.len() - 1),
        !finished(h@.drop_last()),
    ensures
        b == accepts(h@),
{
    let n: usize = h.len() - 1;
    proof {
        lemma_known(h@, n as int);
    }
    if n == FIRST {
        check::got_populated(h)
    } else if n == SECOND {
        check::got_populated(h)
    } else if n == 2 {
        check::done(h)
    } else if n == 3 {
        check::lists(h, FIRST) && check::lists(h, SECOND)
    } else {
        false
    }
}

/// Whether everything has been asked for.
pub fn is_finished(h: &Vec<Reply>) -> (b: bool)
    ensures
        b == finished(h@),
{
    h.len() >= LENGTH
}

} // verus!
