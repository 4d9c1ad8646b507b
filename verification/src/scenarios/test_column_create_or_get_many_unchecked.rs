//! Several columns can be created at once.
use crate::check;
use crate::expect;
use crate::reply::Reply;
use crate::request::{
    call_views, column_views, EnvironmentRequest, EnvironmentRequestView, Request, RequestView,
    Scenario, ScenarioView, Want, WantView,
};
use crate::run::accepted;
use crate::types::ColumnType;
use vstd::prelude::*;

verus! {

/// How many requests there are.
pub const LENGTH: usize = 8;

/// Calls with different columns, of all types.
pub open spec fn distinct() -> Seq<Seq<(Seq<char>, ColumnType)>> {
    seq![
        seq![
            ("test1"@, ColumnType::I64),
            ("test2"@, ColumnType::U64),
            ("test3"@, ColumnType::F64),
            ("test4"@, ColumnType::Bool),
            ("test5"@, ColumnType::String),
            ("test6"@, ColumnType::Time),
            ("test7"@, ColumnType::Tag),
        ],
        seq![("test8"@, ColumnType::String), ("test9"@, ColumnType::Bool)],
    ]
}

/// A call with columns of which some are there already.
pub open spec fn overlapping() -> Seq<Seq<(Seq<char>, ColumnType)>> {
    seq![
        seq![
            ("test1"@, ColumnType::I64),
            ("test2"@, ColumnType::U64),
            ("test3"@, ColumnType::F64),
            ("test4"@, ColumnType::Bool),
        ],
        seq![
            ("test1"@, ColumnType::I64),
            ("test2"@, ColumnType::U64),
            ("test3"@, ColumnType::F64),
            ("test4"@, ColumnType::Bool),
            ("test5"@, ColumnType::String),
            ("test6"@, ColumnType::Time),
            ("test7"@, ColumnType::Tag),
            ("test8"@, ColumnType::String),
        ],
    ]
}

/// Twice the same call.
pub open spec fn repeated() -> Seq<Seq<(Seq<char>, ColumnType)>> {
    seq![
        seq![
            ("test1"@, ColumnType::I64),
            ("test2"@, ColumnType::U64),
            ("test3"@, ColumnType::F64),
            ("test4"@, ColumnType::Bool),
        ],
        seq![
            ("test1"@, ColumnType::I64),
            ("test2"@, ColumnType::U64),
            ("test3"@, ColumnType::F64),
            ("test4"@, ColumnType::Bool),
        ],
    ]
}

/// A call with a column that is there with another type.
pub open spec fn conflicting() -> Seq<Seq<(Seq<char>, ColumnType)>> {
    seq![
        seq![
            ("test1"@, ColumnType::String),
            ("test2"@, ColumnType::String),
            ("test3"@, ColumnType::String),
            ("test4"@, ColumnType::String),
        ],
        seq![
            ("test1"@, ColumnType::String),
            ("test2"@, ColumnType::Bool),
            ("test3"@, ColumnType::String),
            ("test5"@, ColumnType::String),
            ("test6"@, ColumnType::Time),
            ("test7"@, ColumnType::Tag),
            ("test8"@, ColumnType::String),
        ],
    ]
}

/// What is asked for when the replies so far are `h`.
pub open spec fn request(h: Seq<Reply>) -> RequestView {
    let n = h.len();
    if n == 0 {
        // distinct columns
        RequestView::Environment(EnvironmentRequestView::CleanState)
    } else if n == 1 {
        RequestView::Run(ScenarioView::ManyColumns { calls: distinct(), want: WantView::Columns })
    } else if n == 2 {
        // columns some of which are there
        RequestView::Environment(EnvironmentRequestView::CleanState)
    } else if n == 3 {
        RequestView::Run(
            ScenarioView::ManyColumns { calls: overlapping(), want: WantView::Columns },
        )
    } else if n == 4 {
        // columns all of which are there
        RequestView::Environment(EnvironmentRequestView::CleanState)
    } else if n == 5 {
        RequestView::Run(ScenarioView::ManyColumns { calls: repeated(), want: WantView::Columns })
    } else if n == 6 {
        // columns one of which is there with another type
        RequestView::Environment(EnvironmentRequestView::CleanState)
    } else {
        RequestView::Run(
            ScenarioView::ManyColumns {
                calls: conflicting(),
                want: WantView::Refusal(
                    "column test2 is type string but schema update has type bool"@,
                ),
            },
        )
    }
}

/// The last of the replies `h` is as it has to be, where the ones before it were.
pub open spec fn accepts(h: Seq<Reply>) -> bool {
    let n = h.len() - 1;
    if n == 0 {
        expect::done(h)
    } else if n == 1 {
        expect::passed(h)
    } else if n == 2 {
        expect::done(h)
    } else if n == 3 {
        expect::passed(h)
    } else if n == 4 {
        expect::done(h)
    } else if n == 5 {
        expect::passed(h)
    } else if n == 6 {
        expect::done(h)
    } else if n == 7 {
        expect::passed(h)
    } else {
        false
    }
}

/// With the replies `h` everything has been asked for.
pub open spec fn finished(h: Seq<Reply>) -> bool {
    h.len() >= LENGTH
}

/// Calls with different columns, of all types.
fn do_distinct<'a>() -> (r: Vec<Vec<(&'a str, ColumnType)>>)
    ensures
        call_views(r@) == distinct(),
{
    let r: Vec<Vec<(&'a str, ColumnType)>> = vec![
        vec![
            ("test1", ColumnType::I64),
            ("test2", ColumnType::U64),
            ("test3", ColumnType::F64),
            ("test4", ColumnType::Bool),
            ("test5", ColumnType::String),
            ("test6", ColumnType::Time),
            ("test7", ColumnType::Tag),
        ],
        vec![("test8", ColumnType::String), ("test9", ColumnType::Bool)],
    ];
    proof {
        assert(column_views(r@[0]@) =~= distinct()[0]);
        assert(column_views(r@[1]@) =~= distinct()[1]);
        assert(call_views(r@) =~= distinct());
    }
    r
}

/// A call with columns of which some are there already.
fn do_overlapping<'a>() -> (r: Vec<Vec<(&'a str, ColumnType)>>)
    ensures
        call_views(r@) == overlapping(),
{
    let r: Vec<Vec<(&'a str, ColumnType)>> = vec![
        vec![
            ("test1", ColumnType::I64),
            ("test2", ColumnType::U64),
            ("test3", ColumnType::F64),
            ("test4", ColumnType::Bool),
        ],
        vec![
            ("test1", ColumnType::I64),
            ("test2", ColumnType::U64),
            ("test3", ColumnType::F64),
            ("test4", ColumnType::Bool),
            ("test5", ColumnType::String),
            ("test6", ColumnType::Time),
            ("test7", ColumnType::Tag),
            ("test8", ColumnType::String),
        ],
    ];
    proof {
        assert(column_views(r@[0]@) =~= overlapping()[0]);
        assert(column_views(r@[1]@) =~= overlapping()[1]);
        assert(call_views(r@) =~= overlapping());
    }
    r
}

/// Twice the same call.
fn do_repeated<'a>() -> (r: Vec<Vec<(&'a str, ColumnType)>>)
    ensures
        call_views(r@) == repeated(),
{
    let r: Vec<Vec<(&'a str, ColumnType)>> = vec![
        vec![
            ("test1", ColumnType::I64),
            ("test2", ColumnType::U64),
            ("test3", ColumnType::F64),
            ("test4", ColumnType::Bool),
        ],
        vec![
            ("test1", ColumnType::I64),
            ("test2", ColumnType::U64),
            ("test3", ColumnType::F64),
            ("test4", ColumnType::Bool),
        ],
    ];
    proof {
        assert(column_views(r@[0]@) =~= repeated()[0]);
        assert(column_views(r@[1]@) =~= repeated()[1]);
        assert(call_views(r@) =~= repeated());
    }
    r
}

/// A call with a column that is there with another type.
fn do_conflicting<'a>() -> (r: Vec<Vec<(&'a str, ColumnType)>>)
    ensures
        call_views(r@) == conflicting(),
{
    let r: Vec<Vec<(&'a str, ColumnType)>> = vec![
        vec![
            ("test1", ColumnType::String),
            ("test2", ColumnType::String),
            ("test3", ColumnType::String),
            ("test4", ColumnType::String),
        ],
        vec![
            ("test1", ColumnType::String),
            ("test2", ColumnType::Bool),
            ("test3", ColumnType::String),
            ("test5", ColumnType::String),
            ("test6", ColumnType::Time),
            ("test7", ColumnType::Tag),
            ("test8", ColumnType::String),
        ],
    ];
    proof {
        assert(column_views(r@[0]@) =~= conflicting()[0]);
        assert(column_views(r@[1]@) =~= conflicting()[1]);
        assert(call_views(r@) =~= conflicting());
    }
    r
}

/// What is asked for when the replies so far are `h`.
pub fn next_request<'a>(h: &'a Vec<Reply>) -> (r: Request<'a>)
    requires
        accepted(ScenarioView::ColumnCreateOrGetManyUnchecked, h@, h@.len() as int),
        !finished(h@),
    ensures
        r@ =~~= request(h@),
{
    let n: usize = h.len();
    if n == 0 {
        Request::Environment(EnvironmentRequest::CleanState)
    } else if n == 1 {
        Request::Run(Scenario::ManyColumns { calls: do_distinct(), want: Want::Columns })
    } else if n == 2 {
        Request::Environment(EnvironmentRequest::CleanState)
    } else if n == 3 {
        Request::Run(Scenario::ManyColumns { calls: do_overlapping(), want: Want::Columns })
    } else if n == 4 {
        Request::Environment(EnvironmentRequest::CleanState)
    } else if n == 5 {
        Request::Run(Scenario::ManyColumns { calls: do_repeated(), want: Want::Columns })
    } else if n == 6 {
        Request::Environment(EnvironmentRequest::CleanState)
    } else {
        Request::Run(
            Scenario::ManyColumns {
                calls: do_conflicting(),
                want: Want::Refusal("column test2 is type string but schema update has type bool"),
            },
        )
    }
}

/// Whether the last of the replies `h` is as it has to be.
pub fn accepts_last(h: &Vec<Reply>) -> (b: bool)
    requires
        h.len() > 0,
        accepted(ScenarioView::ColumnCreateOrGetManyUnchecked, h@, h@.len() - 1),
        !finished(h@.drop_last()),
    ensures
        b == accepts(h@),
{
    let n: usize = h.len() - 1;
    if n == 0 {
        check::done(h)
    } else if n == 1 {
        check::passed(h)
    } else if n == 2 {
        check::done(h)
    } else if n == 3 {
        check::passed(h)
    } else if n == 4 {
        check::done(h)
    } else if n == 5 {
        check::passed(h)
    } else if n == 6 {
        check::done(h)
    } else if n == 7 {
        check::passed(h)
    } else {
        false
    }
}

/// Whether everything has been asked for.
pub fn is_finished(h: &Vec<Reply>) -> (b: bool)
    ensures
        b == finished(h@),
{
    h.len() >= LENGTH
}

} // verus!
