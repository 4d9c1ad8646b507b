//! Columns are created, several at once, by one call after the other.
use crate::check;
use crate::expect;
use crate::reply::Reply;
use crate::request::{
    call_views, column_views, CatalogRequest, CatalogRequestView, ColumnsRequest,
    ColumnsRequestView, HelperRequest, HelperRequestView, Request, RequestView, ScenarioView, Want,
    WantView,
};
use crate::run;
use crate::run::accepted;
use crate::types::{ColumnType, ErrorKind};
use vstd::prelude::*;

verus! {

/// The step that gives the namespace.
pub const NAMESPACE: usize = 0;

/// The step that gives the table.
pub const TABLE: usize = 1;

/// Where the replies before step `n` have led: how many calls were made, and whether step `n` looks
/// at the metrics, as it does after a call that was not refused.
pub open spec fn progress(h: Seq<Reply>, n: int) -> (int, bool)
    decreases n,
{
    if n <= 2 {
        (0, false)
    } else {
        let (made, reporting) = progress(h, n - 1);
        if reporting {
            (made, false)
        } else {
            (made + 1, h[n - 1] is Columns)
        }
    }
}

/// The reply to call `i` is as it has to be. What comes of a call that is not the last does not
/// matter, but columns always have to be those that were asked for.
pub open spec fn call_accepts(
    h: Seq<Reply>,
    i: int,
    calls: Seq<Seq<(Seq<char>, ColumnType)>>,
    want: WantView,
) -> bool {
    if i + 1 < calls.len() {
        expect::got_error(h) || expect::as_requested(h, TABLE, calls[i])
    } else {
        match want {
            WantView::Columns => expect::as_requested(h, TABLE, calls[i]),
            WantView::Refusal(descr) => expect::refused_about(h, ErrorKind::AlreadyExists, descr),
        }
    }
}

/// What is asked for when the replies so far are `h`.
pub open spec fn request(
    h: Seq<Reply>,
    calls: Seq<Seq<(Seq<char>, ColumnType)>>,
    want: WantView,
) -> RequestView {
    let n = h.len();
    if n == NAMESPACE {
        // the namespace
        RequestView::Helper(HelperRequestView::ArbitraryNamespace { name: "ns4"@ })
    } else if n == TABLE {
        // the table
        RequestView::Helper(
            HelperRequestView::ArbitraryTable {
                name: "table"@,
                namespace: expect::namespace(h, NAMESPACE),
            },
        )
    } else {
        let (made, reporting) = progress(h, n as int);
        if reporting {
            // a call that succeeds is recorded
            RequestView::Catalog(CatalogRequestView::MetricReport)
        } else {
            RequestView::Columns(
                ColumnsRequestView::CreateOrGetManyUnchecked {
                    table_id: expect::table(h, TABLE).id,
                    columns: calls[made],
                },
            )
        }
    }
}

/// The last of the replies `h` is as it has to be, where the ones before it were.
pub open spec fn accepts(
    h: Seq<Reply>,
    calls: Seq<Seq<(Seq<char>, ColumnType)>>,
    want: WantView,
) -> bool {
    let n = h.len() - 1;
    if n == NAMESPACE {
        expect::got_namespace(h)
    } else if n == TABLE {
        expect::got_table(h)
    } else {
        let (made, reporting) = progress(h, n);
        if reporting {
            expect::hit(h, "column_create_or_get_many_unchecked"@)
        } else {
            call_accepts(h, made, calls, want)
        }
    }
}

/// With the replies `h` everything has been asked for.
pub open spec fn finished(
    h: Seq<Reply>,
    calls: Seq<Seq<(Seq<char>, ColumnType)>>,
    want: WantView,
) -> bool {
    h.len() >= 2 && progress(h, h.len() as int).0 >= calls.len() && !progress(h, h.len() as int).1
}

/// What is known of the first `m` replies once they have been accepted.
pub proof fn lemma_known(
    h: Seq<Reply>,
    m: int,
    calls: Seq<Seq<(Seq<char>, ColumnType)>>,
    want: WantView,
)
    requires
        0 <= m <= h.len(),
        accepted(ScenarioView::ManyColumns { calls, want }, h, m),
    ensures
        m > NAMESPACE ==> expect::is_namespace(h, NAMESPACE),
        m > TABLE ==> expect::is_table(h, TABLE),
{
    let s = ScenarioView::ManyColumns { calls, want };
    if m > NAMESPACE {
        assert(run::accepts(s, h.take(NAMESPACE + 1)));
    }
    if m > TABLE {
        assert(run::accepts(s, h.take(TABLE + 1)));
    }
}

/// Where replies have led depends on those replies alone.
pub proof fn lemma_progress(h: Seq<Reply>, t: Seq<Reply>, n: int)
    requires
        n <= h.len(),
        n <= t.len(),
        forall|i: int| 0 <= i < n ==> h[i] == t[i],
    ensures
        progress(h, n) == progress(t, n),
        progress(h, n).0 >= 0,
        n > 2 ==> progress(h, n).0 <= n - 2,
        n <= 2 ==> progress(h, n).0 == 0,
    decreases n,
{
    if n > 2 {
        lemma_progress(h, t, n - 1);
    }
}

/// Where the replies before step `n` have led.
fn do_progress(h: &Vec<Reply>, n: usize) -> (r: (usize, bool))
    requires
        2 <= n <= h.len(),
    ensures
        r.0 == progress(h@, n as int).0,
        r.1 == progress(h@, n as int).1,
{
    let mut made: usize = 0;
    let mut reporting: bool = false;
    let mut i: usize = 2;
    while i < n
        invariant
            2 <= i <= n <= h.len(),
            made + 2 <= i,
            made == progress(h@, i as int).0,
            reporting == progress(h@, i as int).1,
        decreases n - i,
    {
        if reporting {
            reporting = false;
        } else {
            made += 1;
            reporting = matches!(&h[i], Reply::Columns(_));
        }
        i += 1;
    }
    (made, reporting)
}

/// A copy of a list of named columns.
fn copy_columns<'a>(columns: &Vec<(&'a str, ColumnType)>) -> (r: Vec<(&'a str, ColumnType)>)
    ensures
        column_views(r@) == column_views(columns@),
{
    let mut r: Vec<(&'a str, ColumnType)> = Vec::new();
    let mut i: usize = 0;
    while i < columns.len()
        invariant
            i <= columns.len(),
            r@.len() == i,
            forall|j: int| 0 <= j < i ==> r@[j] == columns@[j],
        decreases columns.len() - i,
    {
        let (name, column_type): (&'a str, ColumnType) = columns[i];
        r.push((name, column_type));
        i += 1;
    }
    proof {
        assert(column_views(r@) =~= column_views(columns@));
    }
    r
}

/// Whether the reply to call `i` is as it has to be.
fn do_call_accepts(
    h: &Vec<Reply>,
    i: usize,
    calls: &Vec<Vec<(&str, ColumnType)>>,
    want: Want<'_>,
) -> (b: bool)
    requires
        i < calls.len(),
        expect::is_table(h@, TABLE),
    ensures
        b == call_accepts(h@, i as int, call_views(calls@), want@),
{
    proof {
        assert(call_views(calls@)[i as int] == column_views(calls@[i as int]@));
    }
    if i + 1 < calls.len() {
        check::got_error(h) || check::as_requested(h, TABLE, &calls[i])
    } else {
        match want {
            Want::Columns => check::as_requested(h, TABLE, &calls[i]),
            Want::Refusal(descr) => check::refused_about(h, ErrorKind::AlreadyExists, descr),
        }
    }
}

/// What is asked for when the replies so far are `h`.
pub fn next_request<'a>(
    h: &'a Vec<Reply>,
    calls: &'a Vec<Vec<(&'a str, ColumnType)>>,
    want: Want<'a>,
) -> (r: Request<'a>)
    requires
        calls@.len() > 0,
        accepted(
            ScenarioView::ManyColumns { calls: call_views(calls@), want: want@ },
            h@,
            h@.len() as int,
        ),
        !finished(h@, call_views(calls@), want@),
    ensures
        r@ =~~= request(h@, call_views(calls@), want@),
{
    let n: usize = h.len();
    proof {
        lemma_known(h@, n as int, call_views(calls@), want@);
    }
    if n == NAMESPACE {
        Request::Helper(HelperRequest::ArbitraryNamespace { name: "ns4" })
    } else if n == TABLE {
        Request::Helper(
            HelperRequest::ArbitraryTable {
                name: "table",
                namespace: check::namespace(h, NAMESPACE),
            },
        )
    } else {
        let (made, reporting): (usize, bool) = do_progress(h, n);
        if reporting {
            Request::Catalog(CatalogRequest::MetricReport)
        } else {
            proof {
                assert(call_views(calls@)[made as int] == column_views(calls@[made as int]@));
            }
            Request::Columns(
                ColumnsRequest::CreateOrGetManyUnchecked {
                    table_id: check::table(h, TABLE).id,
                    columns: copy_columns(&calls[made]),
                },
            )
        }
    }
}

/// Whether the last of the replies `h` is as it has to be.
pub fn accepts_last(
    h: &Vec<Reply>,
    calls: &Vec<Vec<(&str, ColumnType)>>,
    want: Want<'_>,
) -> (b: bool)
    requires
        calls@.len() > 0,
        h.len() > 0,
        accepted(
            ScenarioView::ManyColumns { calls: call_views(calls@), want: want@ },
            h@,
            h@.len() - 1,
        ),
        !finished(h@.drop_last(), call_views(calls@), want@),
    ensures
        b == accepts(h@, call_views(calls@), want@),
{
    let n: usize = h.len() - 1;
    proof {
        lemma_known(h@, n as int, call_views(calls@), want@);
    }
    if n == NAMESPACE {
        check::got_namespace(h)
    } else if n == TABLE {
        check::got_table(h)
    } else {
        let (made, reporting): (usize, bool) = do_progress(h, n);
        proof {
            lemma_progress(h@, h@.drop_last(), n as int);
        }
        if reporting {
            check::hit(h, "column_create_or_get_many_unchecked")
        } else {
            do_call_accepts(h, made, calls, want)
        }
    }
}

/// Whether everything has been asked for.
pub fn is_finished(
    h: &Vec<Reply>,
    calls: &Vec<Vec<(&str, ColumnType)>>,
    want: Want<'_>,
) -> (b: bool)
    ensures
        b == finished(h@, call_views(calls@), want@),
{
    if h.len() < 2 {
        return false;
    }
    let (made, reporting): (usize, bool) = do_progress(h, h.len());
    made >= calls.len() && !reporting
}

} // verus!
