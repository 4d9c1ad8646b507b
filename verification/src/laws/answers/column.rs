//! What a catalog has answered of columns that are created one by one.
use crate::expect;
use crate::reply::Reply;
use crate::request::{
    ColumnsRequestView, HelperRequestView, NamespacesRequestView, RequestView, ScenarioView,
    TablesRequestView,
};
use crate::run;
use crate::run::{accepts, passes};
use crate::same::views;
use crate::scenarios::test_column::{
    FIRST, LISTED, NAMESPACE, S1, S2, S3, S4, SECOND, TABLE, TABLE_2, TABLE_3, THIRD,
};
use crate::types::{ColumnType, ErrorKind};
use vstd::prelude::*;

verus! {

/// What step `k` asks for.
pub open spec fn asked(h: Seq<Reply>, k: int) -> RequestView {
    run::request(ScenarioView::Column, h.take(k))
}

/// Asking for a column that is there gives that column, and with another type it is refused.
pub proof fn law_a_column_is_created_once(h: Seq<Reply>)
    requires
        passes(ScenarioView::Column, h),
    ensures
        asked(h, 0) == RequestView::Helper(
            HelperRequestView::ArbitraryNamespace { name: "namespace_column_test"@ },
        ),
        h[0] is Namespace,
        asked(h, 1) == RequestView::Helper(
            HelperRequestView::ArbitraryTable {
                name: "test_table"@,
                namespace: expect::namespace(h, NAMESPACE),
            },
        ),
        h[1] is Table && h[1]->Table_0.namespace_id == expect::namespace(h, NAMESPACE).id,
        asked(h, 2) == RequestView::Columns(
            ColumnsRequestView::CreateOrGet {
                name: "column_test"@,
                table_id: expect::table(h, TABLE).id,
                column_type: ColumnType::Tag,
            },
        ),
        h[2] is Column,
        asked(h, 3) == RequestView::Tables(
            TablesRequestView::Snapshot { id: expect::table(h, TABLE).id },
        ),
        h[3] is TableSnapshot,
        asked(h, 4) == RequestView::Run(
            ScenarioView::ValidateTableSnapshot { table_snapshot: expect::table_snapshot(h, S1) },
        ),
        h[4] is Passed,
        asked(h, 5) == RequestView::Columns(
            ColumnsRequestView::CreateOrGet {
                name: "column_test"@,
                table_id: expect::table(h, TABLE).id,
                column_type: ColumnType::Tag,
            },
        ),
        expect::column(h, FIRST).id > 0,
        h[5] is Column,
        h[5]->Column_0@ == expect::column(h, FIRST),
        asked(h, 6) == RequestView::Tables(
            TablesRequestView::Snapshot { id: expect::table(h, TABLE).id },
        ),
        h[6] is TableSnapshot,
        asked(h, 7) == RequestView::Run(
            ScenarioView::ValidateTableSnapshot { table_snapshot: expect::table_snapshot(h, S2) },
        ),
        h[7] is Passed,
        asked(h, 8) == RequestView::Columns(
            ColumnsRequestView::CreateOrGet {
                name: "column_test"@,
                table_id: expect::table(h, TABLE).id,
                column_type: ColumnType::U64,
            },
        ),
        h[8] is Failed && h[8]->Failed_0.kind == ErrorKind::AlreadyExists,
{
    let s = ScenarioView::Column;
    assert(accepts(s, h.take(1)));
    assert(accepts(s, h.take(2)));
    assert(accepts(s, h.take(3)));
    assert(accepts(s, h.take(4)));
    assert(accepts(s, h.take(5)));
    assert(accepts(s, h.take(6)));
    assert(accepts(s, h.take(7)));
    assert(accepts(s, h.take(8)));
    assert(accepts(s, h.take(9)));
}

/// Answers like these are accepted.
pub proof fn law_a_column_is_created_once_which_is_enough(h: Seq<Reply>)
    requires
        h.len() > 8,
        h[0] is Namespace,
        h[1] is Table && h[1]->Table_0.namespace_id == expect::namespace(h, NAMESPACE).id,
        h[2] is Column,
        h[3] is TableSnapshot,
        h[4] is Passed,
        expect::column(h, FIRST).id > 0,
        h[5] is Column,
        h[5]->Column_0@ == expect::column(h, FIRST),
        h[6] is TableSnapshot,
        h[7] is Passed && expect::table_snapshot(h, S2).generation >= expect::table_snapshot(
            h,
            S1,
        ).generation,
        h[8] is Failed && h[8]->Failed_0.kind == ErrorKind::AlreadyExists,
    ensures
        accepts(ScenarioView::Column, h.take(1)),
        accepts(ScenarioView::Column, h.take(2)),
        accepts(ScenarioView::Column, h.take(3)),
        accepts(ScenarioView::Column, h.take(4)),
        accepts(ScenarioView::Column, h.take(5)),
        accepts(ScenarioView::Column, h.take(6)),
        accepts(ScenarioView::Column, h.take(7)),
        accepts(ScenarioView::Column, h.take(8)),
        accepts(ScenarioView::Column, h.take(9)),
{
    assert(h.take(1).last() == h[0]);
    assert(h.take(2).last() == h[1]);
    assert(h.take(3).last() == h[2]);
    assert(h.take(4).last() == h[3]);
    assert(h.take(5).last() == h[4]);
    assert(h.take(6).last() == h[5]);
    assert(h.take(7).last() == h[6]);
    assert(h.take(8).last() == h[7]);
    assert(h.take(9).last() == h[8]);
}

/// A column of a name that is taken in another table is another column. A table lists its own
/// columns, a namespace those of all its tables, and the catalog all.
pub proof fn law_columns_of_the_same_name_live_in_different_tables(h: Seq<Reply>)
    requires
        passes(ScenarioView::Column, h),
    ensures
        asked(h, 9) == RequestView::Helper(
            HelperRequestView::ArbitraryTable {
                name: "test_table_2"@,
                namespace: expect::namespace(h, NAMESPACE),
            },
        ),
        h[9] is Table,
        asked(h, 10) == RequestView::Columns(
            ColumnsRequestView::CreateOrGet {
                name: "column_test"@,
                table_id: expect::table(h, TABLE_2).id,
                column_type: ColumnType::U64,
            },
        ),
        h[10] is Column && h[10]->Column_0@ != expect::column(h, FIRST),
        asked(h, 11) == RequestView::Columns(
            ColumnsRequestView::ListByNamespaceId {
                namespace_id: expect::namespace(h, NAMESPACE).id,
            },
        ),
        h[11] is Columns,
        asked(h, 12) == RequestView::Tables(
            TablesRequestView::Snapshot { id: expect::table(h, TABLE_2).id },
        ),
        h[12] is TableSnapshot,
        asked(h, 13) == RequestView::Run(
            ScenarioView::ValidateTableSnapshot { table_snapshot: expect::table_snapshot(h, S3) },
        ),
        h[13] is Passed && expect::columns(h, LISTED) == seq![
            expect::column(h, FIRST),
            expect::column(h, SECOND),
        ],
        asked(h, 14) == RequestView::Columns(
            ColumnsRequestView::ListByTableId { table_id: expect::table(h, TABLE).id },
        ),
        h[14] is Columns && views(h[14]->Columns_0@) == seq![expect::column(h, FIRST)],
        asked(h, 15) == RequestView::Columns(
            ColumnsRequestView::CreateOrGet {
                name: "b"@,
                table_id: expect::table(h, TABLE_2).id,
                column_type: ColumnType::Tag,
            },
        ),
        h[15] is Column,
        asked(h, 16) == RequestView::Tables(
            TablesRequestView::Snapshot { id: expect::table(h, TABLE_2).id },
        ),
        h[16] is TableSnapshot,
        asked(h, 17) == RequestView::Run(
            ScenarioView::ValidateTableSnapshot { table_snapshot: expect::table_snapshot(h, S4) },
        ),
        h[17] is Passed,
        asked(h, 18) == RequestView::Columns(ColumnsRequestView::List),
        h[18] is Columns && views(h[18]->Columns_0@) == seq![
            expect::column(h, FIRST),
            expect::column(h, SECOND),
            expect::column(h, THIRD),
        ],
{
    let s = ScenarioView::Column;
    assert(accepts(s, h.take(10)));
    assert(accepts(s, h.take(11)));
    assert(accepts(s, h.take(12)));
    assert(accepts(s, h.take(13)));
    assert(accepts(s, h.take(14)));
    assert(accepts(s, h.take(15)));
    assert(accepts(s, h.take(16)));
    assert(accepts(s, h.take(17)));
    assert(accepts(s, h.take(18)));
    assert(accepts(s, h.take(19)));
}

/// Answers like these are accepted.
pub proof fn law_columns_of_the_same_name_live_in_different_tables_which_is_enough(h: Seq<Reply>)
    requires
        h.len() > 18,
        h[9] is Table,
        h[10] is Column && h[10]->Column_0@ != expect::column(h, FIRST),
        h[11] is Columns,
        h[12] is TableSnapshot,
        h[13] is Passed && expect::columns(h, LISTED) == seq![
            expect::column(h, FIRST),
            expect::column(h, SECOND),
        ],
        h[14] is Columns && views(h[14]->Columns_0@) == seq![expect::column(h, FIRST)],
        h[15] is Column,
        h[16] is TableSnapshot,
        h[17] is Passed && expect::table_snapshot(h, S4).generation > expect::table_snapshot(
            h,
            S3,
        ).generation,
        h[18] is Columns && views(h[18]->Columns_0@) == seq![
            expect::column(h, FIRST),
            expect::column(h, SECOND),
            expect::column(h, THIRD),
        ],
    ensures
        accepts(ScenarioView::Column, h.take(10)),
        accepts(ScenarioView::Column, h.take(11)),
        accepts(ScenarioView::Column, h.take(12)),
        accepts(ScenarioView::Column, h.take(13)),
        accepts(ScenarioView::Column, h.take(14)),
        accepts(ScenarioView::Column, h.take(15)),
        accepts(ScenarioView::Column, h.take(16)),
        accepts(ScenarioView::Column, h.take(17)),
        accepts(ScenarioView::Column, h.take(18)),
        accepts(ScenarioView::Column, h.take(19)),
{
    assert(h.take(10).last() == h[9]);
    assert(h.take(11).last() == h[10]);
    assert(h.take(12).last() == h[11]);
    assert(h.take(13).last() == h[12]);
    assert(h.take(14).last() == h[13]);
    assert(h.take(15).last() == h[14]);
    assert(h.take(16).last() == h[15]);
    assert(h.take(17).last() == h[16]);
    assert(h.take(18).last() == h[17]);
    assert(h.take(19).last() == h[18]);
}

/// Columns that are asked for together come back under their names. A single column above the limit
/// of its namespace is refused, several at once are not.
pub proof fn law_the_limit_of_columns_holds_for_single_columns(h: Seq<Reply>)
    requires
        passes(ScenarioView::Column, h),
    ensures
        asked(h, 19) == RequestView::Columns(
            ColumnsRequestView::CreateOrGetManyUnchecked {
                table_id: expect::table(h, TABLE).id,
                columns: seq![("column_test"@, ColumnType::Tag), ("new_column"@, ColumnType::Tag)],
            },
        ),
        h[19] is Columns && h[19]->Columns_0@.len() == 2,
        (
            h[19]->Columns_0@[0]@.name == "column_test"@
                && h[19]->Columns_0@[1]@.name == "new_column"@
        )
            || (
                h[19]->Columns_0@[0]@.name == "new_column"@
                    && h[19]->Columns_0@[1]@.name == "column_test"@
            ),
        asked(h, 20) == RequestView::Namespaces(
            NamespacesRequestView::UpdateColumnLimit {
                id: expect::namespace(h, NAMESPACE).id,
                max_columns_per_table: 1,
            },
        ),
        h[20] is Namespace,
        asked(h, 21) == RequestView::Columns(
            ColumnsRequestView::CreateOrGet {
                name: "definitely unique"@,
                table_id: expect::table(h, TABLE).id,
                column_type: ColumnType::Tag,
            },
        ),
        h[21] is Failed && h[21]->Failed_0.kind == ErrorKind::LimitExceeded,
        asked(h, 22) == RequestView::Helper(
            HelperRequestView::ArbitraryTable {
                name: "test_table_3"@,
                namespace: expect::namespace(h, NAMESPACE),
            },
        ),
        h[22] is Table,
        asked(h, 23) == RequestView::Columns(
            ColumnsRequestView::CreateOrGetManyUnchecked {
                table_id: expect::table(h, TABLE_3).id,
                columns: seq![("apples"@, ColumnType::Tag), ("oranges"@, ColumnType::Tag)],
            },
        ),
        h[23] is Columns && h[23]->Columns_0@.len() == 2,
        (h[23]->Columns_0@[0]@.name == "apples"@ && h[23]->Columns_0@[1]@.name == "oranges"@) || (
            h[23]->Columns_0@[0]@.name == "oranges"@ && h[23]->Columns_0@[1]@.name == "apples"@
        ),
        asked(h, 24) == RequestView::Namespaces(
            NamespacesRequestView::SoftDelete { id: expect::namespace(h, NAMESPACE).id },
        ),
        h[24] is Id,
{
    let s = ScenarioView::Column;
    assert(accepts(s, h.take(20)));
    assert(accepts(s, h.take(21)));
    assert(accepts(s, h.take(22)));
    assert(accepts(s, h.take(23)));
    assert(accepts(s, h.take(24)));
    assert(accepts(s, h.take(25)));
}

/// Answers like these are accepted.
pub proof fn law_the_limit_of_columns_holds_for_single_columns_which_is_enough(h: Seq<Reply>)
    requires
        h.len() > 24,
        h[19] is Columns && h[19]->Columns_0@.len() == 2,
        (
            h[19]->Columns_0@[0]@.name == "column_test"@
                && h[19]->Columns_0@[1]@.name == "new_column"@
        )
            || (
                h[19]->Columns_0@[0]@.name == "new_column"@
                    && h[19]->Columns_0@[1]@.name == "column_test"@
            ),
        h[20] is Namespace,
        h[21] is Failed && h[21]->Failed_0.kind == ErrorKind::LimitExceeded,
        h[22] is Table,
        h[23] is Columns && h[23]->Columns_0@.len() == 2,
        (h[23]->Columns_0@[0]@.name == "apples"@ && h[23]->Columns_0@[1]@.name == "oranges"@) || (
            h[23]->Columns_0@[0]@.name == "oranges"@ && h[23]->Columns_0@[1]@.name == "apples"@
        ),
        h[24] is Id,
    ensures
        accepts(ScenarioView::Column, h.take(20)),
        accepts(ScenarioView::Column, h.take(21)),
        accepts(ScenarioView::Column, h.take(22)),
        accepts(ScenarioView::Column, h.take(23)),
        accepts(ScenarioView::Column, h.take(24)),
        accepts(ScenarioView::Column, h.take(25)),
{
    assert(h.take(20).last() == h[19]);
    assert(h.take(21).last() == h[20]);
    assert(h.take(22).last() == h[21]);
    assert(h.take(23).last() == h[22]);
    assert(h.take(24).last() == h[23]);
    assert(h.take(25).last() == h[24]);
}

} // verus!
