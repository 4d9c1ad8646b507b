//! What a catalog has answered of several columns at once.
use crate::reply::Reply;
use crate::request::{EnvironmentRequestView, RequestView, ScenarioView, WantView};
use crate::run;
use crate::run::{accepts, passes};
use crate::scenarios::test_column_create_or_get_many_unchecked::{
    conflicting, distinct, overlapping, repeated,
};
use vstd::prelude::*;

verus! {

/// What step `k` asks for.
pub open spec fn asked(h: Seq<Reply>, k: int) -> RequestView {
    run::request(ScenarioView::ColumnCreateOrGetManyUnchecked, h.take(k))
}

/// Four sequences of calls are made, each on a catalog of its own.
pub proof fn law_all_calls_of_many_columns_pass(h: Seq<Reply>)
    requires
        passes(ScenarioView::ColumnCreateOrGetManyUnchecked, h),
    ensures
        asked(h, 0) == RequestView::Environment(EnvironmentRequestView::CleanState),
        h[0] is Done,
        asked(h, 1) == RequestView::Run(
            ScenarioView::ManyColumns { calls: distinct(), want: WantView::Columns },
        ),
        h[1] is Passed,
        asked(h, 2) == RequestView::Environment(EnvironmentRequestView::CleanState),
        h[2] is Done,
        asked(h, 3) == RequestView::Run(
            ScenarioView::ManyColumns { calls: overlapping(), want: WantView::Columns },
        ),
        h[3] is Passed,
        asked(h, 4) == RequestView::Environment(EnvironmentRequestView::CleanState),
        h[4] is Done,
        asked(h, 5) == RequestView::Run(
            ScenarioView::ManyColumns { calls: repeated(), want: WantView::Columns },
        ),
        h[5] is Passed,
        asked(h, 6) == RequestView::Environment(EnvironmentRequestView::CleanState),
        h[6] is Done,
        asked(h, 7) == RequestView::Run(
            ScenarioView::ManyColumns {
                calls: conflicting(),
                want: WantView::Refusal(
                    "column test2 is type string but schema update has type bool"@,
                ),
            },
        ),
        h[7] is Passed,
{
    let s = ScenarioView::ColumnCreateOrGetManyUnchecked;
    assert(accepts(s, h.take(1)));
    assert(accepts(s, h.take(2)));
    assert(accepts(s, h.take(3)));
    assert(accepts(s, h.take(4)));
    assert(accepts(s, h.take(5)));
    assert(accepts(s, h.take(6)));
    assert(accepts(s, h.take(7)));
    assert(accepts(s, h.take(8)));
}

/// Answers like these are accepted.
pub proof fn law_all_calls_of_many_columns_pass_which_is_enough(h: Seq<Reply>)
    requires
        h.len() > 7,
        h[0] is Done,
        h[1] is Passed,
        h[2] is Done,
        h[3] is Passed,
        h[4] is Done,
        h[5] is Passed,
        h[6] is Done,
        h[7] is Passed,
    ensures
        accepts(ScenarioView::ColumnCreateOrGetManyUnchecked, h.take(1)),
        accepts(ScenarioView::ColumnCreateOrGetManyUnchecked, h.take(2)),
        accepts(ScenarioView::ColumnCreateOrGetManyUnchecked, h.take(3)),
        accepts(ScenarioView::ColumnCreateOrGetManyUnchecked, h.take(4)),
        accepts(ScenarioView::ColumnCreateOrGetManyUnchecked, h.take(5)),
        accepts(ScenarioView::ColumnCreateOrGetManyUnchecked, h.take(6)),
        accepts(ScenarioView::ColumnCreateOrGetManyUnchecked, h.take(7)),
        accepts(ScenarioView::ColumnCreateOrGetManyUnchecked, h.take(8)),
{
    assert(h.take(1).last() == h[0]);
    assert(h.take(2).last() == h[1]);
    assert(h.take(3).last() == h[2]);
    assert(h.take(4).last() == h[3]);
    assert(h.take(5).last() == h[4]);
    assert(h.take(6).last() == h[5]);
    assert(h.take(7).last() == h[6]);
    assert(h.take(8).last() == h[7]);
}

} // verus!
