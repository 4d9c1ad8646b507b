//! What a catalog has shown of columns that are created several at once.
use crate::check::lemma_requested_names;
use crate::expect;
use crate::metrics::metric_hit;
use crate::reply::Reply;
use crate::request::{
    CatalogRequestView, ColumnsRequestView, HelperRequestView, RequestView, ScenarioView, WantView,
};
use crate::run;
use crate::run::{accepts, finished, passes};
use crate::same::views;
use crate::scenarios::test_column_create_or_get_many_unchecked;
use crate::scenarios::test_column_create_or_get_many_unchecked_sub;
use crate::scenarios::test_column_create_or_get_many_unchecked_sub::{lemma_progress, progress};
use crate::types::{ColumnType, ColumnView, ErrorKind};
use vstd::prelude::*;
use vstd::seq_lib::seq_to_set_is_finite;
use vstd::set_lib::lemma_subset_equality;

verus! {

/// The column of this name comes back at this place.
pub open spec fn comes_back_at(got: Seq<ColumnView>, name: Seq<char>, i: int) -> bool {
    0 <= i < got.len() && got[i].name == name
}

proof fn lemma_each_name_once(got: Seq<ColumnView>, columns: Seq<(Seq<char>, ColumnType)>)
    requires
        got.len() == expect::requested_types(columns).len(),
        expect::names_distinct(got),
        forall|i: int|
            0 <= i < got.len() ==> expect::requested_types(columns).dom().contains(
                (#[trigger] got[i]).name,
            ),
    ensures
        forall|name: Seq<char>| #[trigger]
            expect::requested_types(columns).dom().contains(name) <==> exists|i: int|
                comes_back_at(got, name, i),
        forall|name: Seq<char>, i: int, j: int| #[trigger]
            comes_back_at(got, name, i) && #[trigger] comes_back_at(got, name, j) ==> i == j,
{
    let wanted = expect::requested_types(columns).dom();
    let names = got.map_values(|c: ColumnView| c.name);
    lemma_requested_names(columns);
    assert(names.no_duplicates()) by {
        assert forall|i: int, j: int|
            0 <= i < names.len() && 0 <= j < names.len() && i != j implies names[i] != names[j] by {
            if i < j {
                assert(got[i].name != got[j].name);
            } else {
                assert(got[j].name != got[i].name);
            }
        }
    }
    names.unique_seq_to_set();
    seq_to_set_is_finite(names);
    assert(names.to_set().subset_of(wanted)) by {
        assert forall|name: Seq<char>| names.to_set().contains(name) implies wanted.contains(
            name,
        ) by {
            let i = choose|i: int| 0 <= i < names.len() && names[i] == name;
            assert(got[i].name == name);
        }
    }
    lemma_subset_equality(names.to_set(), wanted);
    assert forall|name: Seq<char>| #[trigger] wanted.contains(name) <==> exists|i: int|
        comes_back_at(got, name, i) by {
        if wanted.contains(name) {
            assert(names.to_set().contains(name));
            let i = choose|i: int| 0 <= i < names.len() && names[i] == name;
            assert(comes_back_at(got, name, i));
        }
    }
    assert forall|name: Seq<char>, i: int, j: int| #[trigger]
        comes_back_at(got, name, i) && #[trigger] comes_back_at(got, name, j) implies i == j by {
        if i < j {
            assert(got[i].name != got[j].name);
        } else if j < i {
            assert(got[j].name != got[i].name);
        }
    }
}

/// Columns that come back always are those that were asked for: each is in the table given and has
/// the type that was asked for under its name, and each name that was asked for comes back exactly
/// once.
pub proof fn law_columns_match_the_request(
    h: Seq<Reply>,
    calls: Seq<Seq<(Seq<char>, ColumnType)>>,
    want: WantView,
    k: int,
)
    requires
        passes(ScenarioView::ManyColumns { calls, want }, h),
        0 <= k < h.len(),
        h[k] is Columns,
    ensures
        run::request(
            ScenarioView::ManyColumns { calls, want },
            h.take(k),
        ) matches RequestView::Columns(
            ColumnsRequestView::CreateOrGetManyUnchecked { table_id, columns },
        ) && {
            let types = expect::requested_types(columns);
            let got = views(h[k]->Columns_0@);
            &&& forall|i: int|
                0 <= i < got.len() ==> (#[trigger] got[i]).table_id == table_id
                    && types.contains_pair(got[i].name, got[i].column_type)
            &&& forall|name: Seq<char>| #[trigger]
                types.dom().contains(name) <==> exists|i: int| comes_back_at(got, name, i)
            &&& forall|name: Seq<char>, i: int, j: int| #[trigger]
                comes_back_at(got, name, i) && #[trigger] comes_back_at(got, name, j) ==> i == j
        },
{
    let s = ScenarioView::ManyColumns { calls, want };
    let t = h.take(k + 1);
    assert(accepts(s, t));
    assert(t.last() == h[k]);
    test_column_create_or_get_many_unchecked_sub::lemma_known(h, h.len() as int, calls, want);
    lemma_progress(t, h.take(k), k);
    assert(h.take(k)[1] == h[1]);
    assert(t[1] == h[1]);
    let columns = calls[progress(h.take(k), k).0];
    lemma_each_name_once(views(h[k]->Columns_0@), columns);
}

/// Where a refusal is wanted, the last of the calls is refused as wanted: columns of which one is
/// there with another type are not created, and the refusal tells both types.
pub proof fn law_conflicting_types_are_refused(
    h: Seq<Reply>,
    calls: Seq<Seq<(Seq<char>, ColumnType)>>,
    descr: Seq<char>,
)
    requires
        passes(ScenarioView::ManyColumns { calls, want: WantView::Refusal(descr) }, h),
    ensures
        run::request(
            ScenarioView::ManyColumns { calls, want: WantView::Refusal(descr) },
            h.drop_last(),
        ) matches RequestView::Columns(
            ColumnsRequestView::CreateOrGetManyUnchecked { columns, .. },
        ) && columns == calls.last(),
        h.last() is Failed,
        h.last()->Failed_0@.kind == ErrorKind::AlreadyExists,
        h.last()->Failed_0@.descr == descr,
{
    let s = ScenarioView::ManyColumns { calls, want: WantView::Refusal(descr) };
    let end = h.len() as int;
    assert(h.take(end) =~= h);
    assert(accepts(s, h.take(end)));
    assert(h.take(end - 1) =~= h.drop_last());
    lemma_progress(h, h.take(end - 1), end - 1);
    assert(!finished(s, h.take(end - 1)));
    if progress(h, end - 1).1 {
        let t = h.take(end - 1);
        lemma_progress(h, t, end - 2);
        lemma_progress(h, h.take(end - 2), end - 2);
        assert(!finished(s, h.take(end - 2)));
        assert(accepts(s, t));
        assert(t.last() == h[end - 2]);
    }
}

proof fn lemma_call_step(
    h: Seq<Reply>,
    calls: Seq<Seq<(Seq<char>, ColumnType)>>,
    want: WantView,
    i: int,
) -> (k: int)
    requires
        passes(ScenarioView::ManyColumns { calls, want }, h),
        0 <= i < calls.len(),
    ensures
        2 <= k < h.len(),
        progress(h, k) == (i, false),
    decreases i,
{
    let end = h.len() as int;
    assert(h.len() >= 2);
    if i == 0 {
        2
    } else {
        let k = lemma_call_step(h, calls, want, i - 1);
        assert(progress(h, k + 1) == (i, h[k] is Columns));
        if h[k] is Columns {
            assert(k + 1 < end);
            assert(progress(h, k + 2) == (i, false));
            k + 2
        } else {
            k + 1
        }
    }
}

/// Every call is made, one after the other, for the table that was created, and gives columns or is
/// refused. After each that gives columns the metrics tell of calls that succeeded. Where columns
/// are
/// wanted the last call gives them.
pub proof fn law_every_call_is_made(
    h: Seq<Reply>,
    calls: Seq<Seq<(Seq<char>, ColumnType)>>,
    want: WantView,
    i: int,
) -> (k: int)
    requires
        passes(ScenarioView::ManyColumns { calls, want }, h),
        0 <= i < calls.len(),
    ensures
        ({
            let asked = |n: int|
                run::request(ScenarioView::ManyColumns { calls, want }, h.take(n));
            &&& asked(0) == RequestView::Helper(
                HelperRequestView::ArbitraryNamespace { name: "ns4"@ },
            )
            &&& h[0] is Namespace
            &&& asked(1) == RequestView::Helper(
                HelperRequestView::ArbitraryTable {
                    name: "table"@,
                    namespace: h[0]->Namespace_0@,
                },
            )
            &&& h[1] is Table
            &&& 2 <= k < h.len()
            &&& asked(k) == RequestView::Columns(
                ColumnsRequestView::CreateOrGetManyUnchecked {
                    table_id: h[1]->Table_0.id,
                    columns: calls[i],
                },
            )
            &&& h[k] is Columns || h[k] is Failed
            &&& h[k] is Columns ==> {
                &&& k + 1 < h.len()
                &&& asked(k + 1) == RequestView::Catalog(CatalogRequestView::MetricReport)
                &&& h[k + 1] is Metrics
                &&& metric_hit(
                    views(h[k + 1]->Metrics_0@),
                    "column_create_or_get_many_unchecked"@,
                ) is Ok
            }
            &&& want is Columns && i == calls.len() - 1 ==> h[k] is Columns
        }),
{
    let s = ScenarioView::ManyColumns { calls, want };
    let k = lemma_call_step(h, calls, want, i);
    assert(accepts(s, h.take(1)));
    assert(accepts(s, h.take(2)));
    let t = h.take(k + 1);
    lemma_progress(h, h.take(k), k);
    lemma_progress(h, t, k);
    assert(accepts(s, t));
    assert(t.last() == h[k]);
    assert(h.take(k)[1] == h[1]);
    if h[k] is Columns {
        assert(progress(h, k + 1) == (i + 1, true));
        let u = h.take(k + 2);
        lemma_progress(h, t, k + 1);
        lemma_progress(h, u, k + 1);
        assert(accepts(s, u));
        assert(u.last() == h[k + 1]);
    }
    k
}

/// The calls that are made: of columns of all types, none of which is there; of columns of which
/// some
/// are there; twice the same; and of columns of which one is there with another type.
pub proof fn law_calls_of_many_columns(i: int)
    ensures
        ({
            let distinct = test_column_create_or_get_many_unchecked::distinct();
            let overlapping = test_column_create_or_get_many_unchecked::overlapping();
            let repeated = test_column_create_or_get_many_unchecked::repeated();
            let conflicting = test_column_create_or_get_many_unchecked::conflicting();
            let types = seq![
                ColumnType::I64,
                ColumnType::U64,
                ColumnType::F64,
                ColumnType::Bool,
                ColumnType::String,
                ColumnType::Time,
                ColumnType::Tag,
                ColumnType::String,
                ColumnType::Bool,
            ];
            let names = seq![
                "test1"@,
                "test2"@,
                "test3"@,
                "test4"@,
                "test5"@,
                "test6"@,
                "test7"@,
                "test8"@,
                "test9"@,
            ];
            &&& distinct.len() == 2 && overlapping.len() == 2
            &&& repeated.len() == 2 && conflicting.len() == 2
            &&& distinct[0].len() == 7 && distinct[1].len() == 2
            &&& 0 <= i < 9 ==> (distinct[0] + distinct[1])[i] == (names[i], types[i])
            &&& overlapping[0].len() == 4 && overlapping[1].len() == 8
            &&& 0 <= i < 8 ==> overlapping[1][i] == (names[i], types[i])
            &&& overlapping[0] == overlapping[1].take(4)
            &&& repeated[0] == overlapping[0] && repeated[1] == repeated[0]
            &&& conflicting[0].len() == 4 && conflicting[1].len() == 7
            &&& 0 <= i < 4 ==> conflicting[0][i] == (names[i], ColumnType::String)
            &&& conflicting[1][0] == (names[0], ColumnType::String)
            &&& conflicting[1][1] == (names[1], ColumnType::Bool)
            &&& conflicting[1][2] == (names[2], ColumnType::String)
            &&& conflicting[1][3] == (names[4], ColumnType::String)
            &&& conflicting[1][4] == (names[5], ColumnType::Time)
            &&& conflicting[1][5] == (names[6], ColumnType::Tag)
            &&& conflicting[1][6] == (names[7], ColumnType::String)
        }),
{
    assert(test_column_create_or_get_many_unchecked::overlapping()[0]
        =~= test_column_create_or_get_many_unchecked::overlapping()[1].take(4));
}

/// Of the columns that are asked for under one name the last tells the type, and no other names are
/// asked for.
pub proof fn law_the_last_type_asked_for_counts(
    requested: Seq<(Seq<char>, ColumnType)>,
    name: Seq<char>,
    column_type: ColumnType,
)
    ensures
        expect::requested_types(requested).contains_pair(name, column_type) <==> exists|i: int|
            {
                &&& 0 <= i < requested.len()
                &&& #[trigger] requested[i] == (name, column_type)
                &&& forall|j: int| i < j < requested.len() ==> (#[trigger] requested[j]).0 != name
            },
    decreases requested.len(),
{
    let types = expect::requested_types(requested);
    if requested.len() > 0 {
        let rest = requested.drop_last();
        let last = requested.last();
        let end = requested.len() - 1;
        law_the_last_type_asked_for_counts(rest, name, column_type);
        assert(requested[end] == last);
        assert forall|i: int| 0 <= i < end implies #[trigger] requested[i] == rest[i] by {}
        if types.contains_pair(name, column_type) {
            if last.0 == name {
                assert(requested[end] == (name, column_type));
            } else {
                let i = choose|i: int|
                    {
                        &&& 0 <= i < rest.len()
                        &&& #[trigger] rest[i] == (name, column_type)
                        &&& forall|j: int| i < j < rest.len() ==> (#[trigger] rest[j]).0 != name
                    };
                assert(requested[i] == (name, column_type));
                assert forall|j: int| i < j < requested.len() implies (#[trigger] requested[j]).0
                    != name by {
                    if j < end {
                        assert(rest[j].0 != name);
                    }
                }
            }
        }
        if exists|i: int|
            {
                &&& 0 <= i < requested.len()
                &&& #[trigger] requested[i] == (name, column_type)
                &&& forall|j: int| i < j < requested.len() ==> (#[trigger] requested[j]).0 != name
            } {
            let i = choose|i: int|
                {
                    &&& 0 <= i < requested.len()
                    &&& #[trigger] requested[i] == (name, column_type)
                    &&& forall|j: int|
                        i < j < requested.len() ==> (#[trigger] requested[j]).0 != name
                };
            if i < end {
                assert(requested[end].0 != name);
                assert(rest[i] == (name, column_type));
                assert forall|j: int| i < j < rest.len() implies (#[trigger] rest[j]).0
                    != name by {
                    assert(requested[j].0 != name);
                }
            }
        }
    }
}

} // verus!
