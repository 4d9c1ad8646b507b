//! A snapshot of a table agrees with the catalog.
use crate::check;
use crate::expect;
use crate::reply::Reply;
use crate::request::{
    ColumnsRequest, ColumnsRequestView, PartitionsRequest, PartitionsRequestView, Request,
    RequestView, ScenarioView, TablesRequest, TablesRequestView,
};
use crate::run::accepted;
use crate::types::{TableSnapshot, TableSnapshotView};
use vstd::prelude::*;

verus! {

/// How many requests there are.
pub const LENGTH: usize = 3;

/// What is asked for when the replies so far are `h`.
pub open spec fn request(h: Seq<Reply>, table_snapshot: TableSnapshotView) -> RequestView {
    let n = h.len();
    if n == 0 {
        // the table
        RequestView::Tables(
            TablesRequestView::GetById { id: expect::snapshot_table(table_snapshot).id },
        )
    } else if n == 1 {
        // its columns
        RequestView::Columns(
            ColumnsRequestView::ListByTableId {
                table_id: expect::snapshot_table(table_snapshot).id,
            },
        )
    } else {
        // its partitions
        RequestView::Partitions(
            PartitionsRequestView::ListByTableId {
                table_id: expect::snapshot_table(table_snapshot).id,
            },
        )
    }
}

/// The last of the replies `h` is as it has to be, where the ones before it were.
pub open spec fn accepts(h: Seq<Reply>, table_snapshot: TableSnapshotView) -> bool {
    let n = h.len() - 1;
    if n == 0 {
        expect::table_matches(h, table_snapshot)
    } else if n == 1 {
        expect::columns_match(h, table_snapshot)
    } else if n == 2 {
        expect::partitions_match(h, table_snapshot)
    } else {
        false
    }
}

/// With the replies `h` everything has been asked for.
pub open spec fn finished(h: Seq<Reply>, table_snapshot: TableSnapshotView) -> bool {
    h.len() >= LENGTH
}

/// What is asked for when the replies so far are `h`.
pub fn next_request<'a>(h: &'a Vec<Reply>, table_snapshot: &'a TableSnapshot) -> (r: Request<'a>)
    requires
        table_snapshot@.table is Some,
        accepted(
            ScenarioView::ValidateTableSnapshot { table_snapshot: table_snapshot@ },
            h@,
            h@.len() as int,
        ),
        !finished(h@, table_snapshot@),
    ensures
        r@ =~~= request(h@, table_snapshot@),
{
    let n: usize = h.len();
    if n == 0 {
        Request::Tables(TablesRequest::GetById { id: check::snapshot_table(table_snapshot).id })
    } else if n == 1 {
        Request::Columns(
            ColumnsRequest::ListByTableId { table_id: check::snapshot_table(table_snapshot).id },
        )
    } else {
        Request::Partitions(
            PartitionsRequest::ListByTableId { table_id: check::snapshot_table(table_snapshot).id },
        )
    }
}

/// Whether the last of the replies `h` is as it has to be.
pub fn accepts_last(h: &Vec<Reply>, table_snapshot: &TableSnapshot) -> (b: bool)
    requires
        table_snapshot@.table is Some,
        h.len() > 0,
        accepted(
            ScenarioView::ValidateTableSnapshot { table_snapshot: table_snapshot@ },
            h@,
            h@.len() - 1,
        ),
        !finished(h@.drop_last(), table_snapshot@),
    ensures
        b == accepts(h@, table_snapshot@),
{
    let n: usize = h.len() - 1;
    if n == 0 {
        check::table_matches(h, table_snapshot)
    } else if n == 1 {
        check::columns_match(h, table_snapshot)
    } else if n == 2 {
        check::partitions_match(h, table_snapshot)
    } else {
        false
    }
}

/// Whether everything has been asked for.
pub fn is_finished(h: &Vec<Reply>, table_snapshot: &TableSnapshot) -> (b: bool)
    ensures
        b == finished(h@, table_snapshot@),
{
    h.len() >= LENGTH
}

} // verus!
