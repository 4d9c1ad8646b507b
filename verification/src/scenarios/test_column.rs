//! Columns can be created, found and limited.
use crate::check;
use crate::expect;
use crate::reply::Reply;
use crate::request::{
    ColumnsRequest, ColumnsRequestView, HelperRequest, HelperRequestView, NamespacesRequest,
    NamespacesRequestView, Request, RequestView, Scenario, ScenarioView, TablesRequest,
    TablesRequestView,
};
use crate::run;
use crate::run::accepted;
use crate::types::{ColumnType, ErrorKind};
use vstd::prelude::*;

verus! {

/// The step that gives the namespace.
pub const NAMESPACE: usize = 0;

/// The step that gives a table.
pub const TABLE: usize = 1;

/// The step that gives a column.
pub const FIRST: usize = 2;

/// The step that gives a snapshot of the table.
pub const S1: usize = 3;

/// The step that gives another snapshot of the table.
pub const S2: usize = 6;

/// The step that gives another table.
pub const TABLE_2: usize = 9;

/// The step that gives a column of the same name.
pub const SECOND: usize = 10;

/// The step that gives the columns of the namespace.
pub const LISTED: usize = 11;

/// The step that gives a snapshot of the other table.
pub const S3: usize = 12;

/// The step that gives one more column.
pub const THIRD: usize = 15;

/// The step that gives a snapshot with it.
pub const S4: usize = 16;

/// The step that gives a table without columns.
pub const TABLE_3: usize = 22;

/// How many requests there are.
pub const LENGTH: usize = 25;

/// What is asked for when the replies so far are `h`.
pub open spec fn request(h: Seq<Reply>) -> RequestView {
    let n = h.len();
    if n == NAMESPACE {
        // the namespace
        RequestView::Helper(
            HelperRequestView::ArbitraryNamespace { name: "namespace_column_test"@ },
        )
    } else if n == TABLE {
        // a table
        RequestView::Helper(
            HelperRequestView::ArbitraryTable {
                name: "test_table"@,
                namespace: expect::namespace(h, NAMESPACE),
            },
        )
    } else if n == FIRST {
        // a column
        RequestView::Columns(
            ColumnsRequestView::CreateOrGet {
                name: "column_test"@,
                table_id: expect::table(h, TABLE).id,
                column_type: ColumnType::Tag,
            },
        )
    } else if n == S1 {
        // a snapshot of the table
        RequestView::Tables(TablesRequestView::Snapshot { id: expect::table(h, TABLE).id })
    } else if n == 4 {
        RequestView::Run(
            ScenarioView::ValidateTableSnapshot { table_snapshot: expect::table_snapshot(h, S1) },
        )
    } else if n == 5 {
        // the column is not created twice
        RequestView::Columns(
            ColumnsRequestView::CreateOrGet {
                name: "column_test"@,
                table_id: expect::table(h, TABLE).id,
                column_type: ColumnType::Tag,
            },
        )
    } else if n == S2 {
        // another snapshot of the table
        RequestView::Tables(TablesRequestView::Snapshot { id: expect::table(h, TABLE).id })
    } else if n == 7 {
        RequestView::Run(
            ScenarioView::ValidateTableSnapshot { table_snapshot: expect::table_snapshot(h, S2) },
        )
    } else if n == 8 {
        // a column keeps its type
        RequestView::Columns(
            ColumnsRequestView::CreateOrGet {
                name: "column_test"@,
                table_id: expect::table(h, TABLE).id,
                column_type: ColumnType::U64,
            },
        )
    } else if n == TABLE_2 {
        // another table
        RequestView::Helper(
            HelperRequestView::ArbitraryTable {
                name: "test_table_2"@,
                namespace: expect::namespace(h, NAMESPACE),
            },
        )
    } else if n == SECOND {
        // a column of the same name
        RequestView::Columns(
            ColumnsRequestView::CreateOrGet {
                name: "column_test"@,
                table_id: expect::table(h, TABLE_2).id,
                column_type: ColumnType::U64,
            },
        )
    } else if n == LISTED {
        // the columns of the namespace
        RequestView::Columns(
            ColumnsRequestView::ListByNamespaceId {
                namespace_id: expect::namespace(h, NAMESPACE).id,
            },
        )
    } else if n == S3 {
        // a snapshot of the other table
        RequestView::Tables(TablesRequestView::Snapshot { id: expect::table(h, TABLE_2).id })
    } else if n == 13 {
        RequestView::Run(
            ScenarioView::ValidateTableSnapshot { table_snapshot: expect::table_snapshot(h, S3) },
        )
    } else if n == 14 {
        // the columns of the first table
        RequestView::Columns(
            ColumnsRequestView::ListByTableId { table_id: expect::table(h, TABLE).id },
        )
    } else if n == THIRD {
        // one more column
        RequestView::Columns(
            ColumnsRequestView::CreateOrGet {
                name: "b"@,
                table_id: expect::table(h, TABLE_2).id,
                column_type: ColumnType::Tag,
            },
        )
    } else if n == S4 {
        // a snapshot with it
        RequestView::Tables(TablesRequestView::Snapshot { id: expect::table(h, TABLE_2).id })
    } else if n == 17 {
        RequestView::Run(
            ScenarioView::ValidateTableSnapshot { table_snapshot: expect::table_snapshot(h, S4) },
        )
    } else if n == 18 {
        // all columns are listed
        RequestView::Columns(ColumnsRequestView::List)
    } else if n == 19 {
        // several columns at once, one of which is there
        RequestView::Columns(
            ColumnsRequestView::CreateOrGetManyUnchecked {
                table_id: expect::table(h, TABLE).id,
                columns: seq![("column_test"@, ColumnType::Tag), ("new_column"@, ColumnType::Tag)],
            },
        )
    } else if n == 20 {
        // a limit of one column
        RequestView::Namespaces(
            NamespacesRequestView::UpdateColumnLimit {
                id: expect::namespace(h, NAMESPACE).id,
                max_columns_per_table: 1,
            },
        )
    } else if n == 21 {
        // no more columns are created
        RequestView::Columns(
            ColumnsRequestView::CreateOrGet {
                name: "definitely unique"@,
                table_id: expect::table(h, TABLE).id,
                column_type: ColumnType::Tag,
            },
        )
    } else if n == TABLE_3 {
        // a table without columns
        RequestView::Helper(
            HelperRequestView::ArbitraryTable {
                name: "test_table_3"@,
                namespace: expect::namespace(h, NAMESPACE),
            },
        )
    } else if n == 23 {
        // several columns at once are not limited
        RequestView::Columns(
            ColumnsRequestView::CreateOrGetManyUnchecked {
                table_id: expect::table(h, TABLE_3).id,
                columns: seq![("apples"@, ColumnType::Tag), ("oranges"@, ColumnType::Tag)],
            },
        )
    } else {
        // the namespace is deleted
        RequestView::Namespaces(
            NamespacesRequestView::SoftDelete { id: expect::namespace(h, NAMESPACE).id },
        )
    }
}

/// The last of the replies `h` is as it has to be, where the ones before it were.
pub open spec fn accepts(h: Seq<Reply>) -> bool {
    let n = h.len() - 1;
    if n == NAMESPACE {
        expect::got_namespace(h)
    } else if n == TABLE {
        expect::got_table(h) && expect::table_in(h, NAMESPACE)
    } else if n == FIRST {
        expect::got_column(h)
    } else if n == S1 {
        expect::got_table_snapshot(h)
    } else if n == 4 {
        expect::passed(h)
    } else if n == 5 {
        expect::column(h, FIRST).id > 0 && expect::same_column(h, FIRST)
    } else if n == S2 {
        expect::got_table_snapshot(h)
    } else if n == 7 {
        expect::passed(h) && expect::not_older(h, S2, S1)
    } else if n == 8 {
        expect::refused_with(h, ErrorKind::AlreadyExists)
    } else if n == TABLE_2 {
        expect::got_table(h)
    } else if n == SECOND {
        expect::got_column(h) && expect::other_column(h, FIRST)
    } else if n == LISTED {
        expect::got_columns(h)
    } else if n == S3 {
        expect::got_table_snapshot(h)
    } else if n == 13 {
        expect::passed(h) && expect::were_two_columns(h, LISTED, FIRST, SECOND)
    } else if n == 14 {
        expect::only_column(h, FIRST)
    } else if n == THIRD {
        expect::got_column(h)
    } else if n == S4 {
        expect::got_table_snapshot(h)
    } else if n == 17 {
        expect::passed(h) && expect::newer(h, S4, S3)
    } else if n == 18 {
        expect::three_columns(h, FIRST, SECOND, THIRD)
    } else if n == 19 {
        expect::columns_named(h, "column_test"@, "new_column"@)
    } else if n == 20 {
        expect::got_namespace(h)
    } else if n == 21 {
        expect::refused_with(h, ErrorKind::LimitExceeded)
    } else if n == TABLE_3 {
        expect::got_table(h)
    } else if n == 23 {
        expect::columns_named(h, "apples"@, "oranges"@)
    } else if n == 24 {
        expect::got_id(h)
    } else {
        false
    }
}

/// With the replies `h` everything has been asked for.
pub open spec fn finished(h: Seq<Reply>) -> bool {
    h.len() >= LENGTH
}

/// What is known of the first `m` replies once they have been accepted.
pub proof fn lemma_known(h: Seq<Reply>, m: int)
    requires
        0 <= m <= h.len(),
        accepted(ScenarioView::Column, h, m),
    ensures
        m > NAMESPACE ==> expect::is_namespace(h, NAMESPACE),
        m > TABLE ==> expect::is_table(h, TABLE),
        m > FIRST ==> expect::is_column(h, FIRST),
        m > S1 ==> expect::is_table_snapshot(h, S1),
        m > S2 ==> expect::is_table_snapshot(h, S2),
        m > TABLE_2 ==> expect::is_table(h, TABLE_2),
        m > SECOND ==> expect::is_column(h, SECOND),
        m > LISTED ==> expect::is_columns(h, LISTED),
        m > S3 ==> expect::is_table_snapshot(h, S3),
        m > THIRD ==> expect::is_column(h, THIRD),
        m > S4 ==> expect::is_table_snapshot(h, S4),
        m > TABLE_3 ==> expect::is_table(h, TABLE_3),
{
    let s = ScenarioView::Column;
    if m > NAMESPACE {
        assert(run::accepts(s, h.take(NAMESPACE + 1)));
    }
    if m > TABLE {
        assert(run::accepts(s, h.take(TABLE + 1)));
    }
    if m > FIRST {
        assert(run::accepts(s, h.take(FIRST + 1)));
    }
    if m > S1 {
        assert(run::accepts(s, h.take(S1 + 1)));
    }
    if m > S2 {
        assert(run::accepts(s, h.take(S2 + 1)));
    }
    if m > TABLE_2 {
        assert(run::accepts(s, h.take(TABLE_2 + 1)));
    }
    if m > SECOND {
        assert(run::accepts(s, h.take(SECOND + 1)));
    }
    if m > LISTED {
        assert(run::accepts(s, h.take(LISTED + 1)));
    }
    if m > S3 {
        assert(run::accepts(s, h.take(S3 + 1)));
    }
    if m > THIRD {
        assert(run::accepts(s, h.take(THIRD + 1)));
    }
    if m > S4 {
        assert(run::accepts(s, h.take(S4 + 1)));
    }
    if m > TABLE_3 {
        assert(run::accepts(s, h.take(TABLE_3 + 1)));
    }
}

/// What is asked for when the replies so far are `h`.
pub fn next_request<'a>(h: &'a Vec<Reply>) -> (r: Request<'a>)
    requires
        accepted(ScenarioView::Column, h@, h@.len() as int),
        !finished(h@),
    ensures
        r@ =~~= request(h@),
{
    let n: usize = h.len();
    proof {
        lemma_known(h@, n as int);
    }
    if n == NAMESPACE {
        Request::Helper(HelperRequest::ArbitraryNamespace { name: "namespace_column_test" })
    } else if n == TABLE {
        Request::Helper(
            HelperRequest::ArbitraryTable {
                name: "test_table",
                namespace: check::namespace(h, NAMESPACE),
            },
        )
    } else if n == FIRST {
        Request::Columns(
            ColumnsRequest::CreateOrGet {
                name: "column_test",
                table_id: check::table(h, TABLE).id,
                column_type: ColumnType::Tag,
            },
        )
    } else if n == S1 {
        Request::Tables(TablesRequest::Snapshot { id: check::table(h, TABLE).id })
    } else if n == 4 {
        Request::Run(
            Scenario::ValidateTableSnapshot { table_snapshot: check::table_snapshot(h, S1) },
        )
    } else if n == 5 {
        Request::Columns(
            ColumnsRequest::CreateOrGet {
                name: "column_test",
                table_id: check::table(h, TABLE).id,
                column_type: ColumnType::Tag,
            },
        )
    } else if n == S2 {
        Request::Tables(TablesRequest::Snapshot { id: check::table(h, TABLE).id })
    } else if n == 7 {
        Request::Run(
            Scenario::ValidateTableSnapshot { table_snapshot: check::table_snapshot(h, S2) },
        )
    } else if n == 8 {
        Request::Columns(
            ColumnsRequest::CreateOrGet {
                name: "column_test",
                table_id: check::table(h, TABLE).id,
                column_type: ColumnType::U64,
            },
        )
    } else if n == TABLE_2 {
        Request::Helper(
            HelperRequest::ArbitraryTable {
                name: "test_table_2",
                namespace: check::namespace(h, NAMESPACE),
            },
        )
    } else if n == SECOND {
        Request::Columns(
            ColumnsRequest::CreateOrGet {
                name: "column_test",
                table_id: check::table(h, TABLE_2).id,
                column_type: ColumnType::U64,
            },
        )
    } else if n == LISTED {
        Request::Columns(
            ColumnsRequest::ListByNamespaceId { namespace_id: check::namespace(h, NAMESPACE).id },
        )
    } else if n == S3 {
        Request::Tables(TablesRequest::Snapshot { id: check::table(h, TABLE_2).id })
    } else if n == 13 {
        Request::Run(
            Scenario::ValidateTableSnapshot { table_snapshot: check::table_snapshot(h, S3) },
        )
    } else if n == 14 {
        Request::Columns(ColumnsRequest::ListByTableId { table_id: check::table(h, TABLE).id })
    } else if n == THIRD {
        Request::Columns(
            ColumnsRequest::CreateOrGet {
                name: "b",
                table_id: check::table(h, TABLE_2).id,
                column_type: ColumnType::Tag,
            },
        )
    } else if n == S4 {
        Request::Tables(TablesRequest::Snapshot { id: check::table(h, TABLE_2).id })
    } else if n == 17 {
        Request::Run(
            Scenario::ValidateTableSnapshot { table_snapshot: check::table_snapshot(h, S4) },
        )
    } else if n == 18 {
        Request::Columns(ColumnsRequest::List)
    } else if n == 19 {
        Request::Columns(
            ColumnsRequest::CreateOrGetManyUnchecked {
                table_id: check::table(h, TABLE).id,
                columns: vec![("column_test", ColumnType::Tag), ("new_column", ColumnType::Tag)],
            },
        )
    } else if n == 20 {
        Request::Namespaces(
            NamespacesRequest::UpdateColumnLimit {
                id: check::namespace(h, NAMESPACE).id,
                max_columns_per_table: 1,
            },
        )
    } else if n == 21 {
        Request::Columns(
            ColumnsRequest::CreateOrGet {
                name: "definitely unique",
                table_id: check::table(h, TABLE).id,
                column_type: ColumnType::Tag,
            },
        )
    } else if n == TABLE_3 {
        Request::Helper(
            HelperRequest::ArbitraryTable {
                name: "test_table_3",
                namespace: check::namespace(h, NAMESPACE),
            },
        )
    } else if n == 23 {
        Request::Columns(
            ColumnsRequest::CreateOrGetManyUnchecked {
                table_id: check::table(h, TABLE_3).id,
                columns: vec![("apples", ColumnType::Tag), ("oranges", ColumnType::Tag)],
            },
        )
    } else {
        Request::Namespaces(NamespacesRequest::SoftDelete { id: check::namespace(h, NAMESPACE).id })
    }
}

/// Whether the last of the replies `h` is as it has to be.
pub fn accepts_last(h: &Vec<Reply>) -> (b: bool)
    requires
        h.len() > 0,
        accepted(ScenarioView::Column, h@, h@.len() - 1),
        !finished(h@.drop_last()),
    ensures
        b == accepts(h@),
{
    let n: usize = h.len() - 1;
    proof {
        lemma_known(h@, n as int);
    }
    if n == NAMESPACE {
        check::got_namespace(h)
    } else if n == TABLE {
        check::got_table(h) && check::table_in(h, NAMESPACE)
    } else if n == FIRST {
        check::got_column(h)
    } else if n == S1 {
        check::got_table_snapshot(h)
    } else if n == 4 {
        check::passed(h)
    } else if n == 5 {
        check::column(h, FIRST).id > 0 && check::same_column(h, FIRST)
    } else if n == S2 {
        check::got_table_snapshot(h)
    } else if n == 7 {
        check::passed(h) && check::not_older(h, S2, S1)
    } else if n == 8 {
        check::refused_with(h, ErrorKind::AlreadyExists)
    } else if n == TABLE_2 {
        check::got_table(h)
    } else if n == SECOND {
        check::got_column(h) && check::other_column(h, FIRST)
    } else if n == LISTED {
        check::got_columns(h)
    } else if n == S3 {
        check::got_table_snapshot(h)
    } else if n == 13 {
        check::passed(h) && check::were_two_columns(h, LISTED, FIRST, SECOND)
    } else if n == 14 {
        check::only_column(h, FIRST)
    } else if n == THIRD {
        check::got_column(h)
    } else if n == S4 {
        check::got_table_snapshot(h)
    } else if n == 17 {
        check::passed(h) && check::newer(h, S4, S3)
    } else if n == 18 {
        check::three_columns(h, FIRST, SECOND, THIRD)
    } else if n == 19 {
        check::columns_named(h, "column_test", "new_column")
    } else if n == 20 {
        check::got_namespace(h)
    } else if n == 21 {
        check::refused_with(h, ErrorKind::LimitExceeded)
    } else if n == TABLE_3 {
        check::got_table(h)
    } else if n == 23 {
        check::columns_named(h, "apples", "oranges")
    } else if n == 24 {
        check::got_id(h)
    } else {
        false
    }
}

/// Whether everything has been asked for.
pub fn is_finished(h: &Vec<Reply>) -> (b: bool)
    ensures
        b == finished(h@),
{
    h.len() >= LENGTH
}

} // verus!
