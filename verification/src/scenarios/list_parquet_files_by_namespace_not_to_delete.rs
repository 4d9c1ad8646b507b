//! All files of a namespace that are not marked for deletion.
use crate::check;
use crate::expect;
use crate::reply::Reply;
use crate::request::{
    ParquetFilesRequest, ParquetFilesRequestView, PartitionsRequest, PartitionsRequestView, Request,
    RequestView, ScenarioView, TablesRequest, TablesRequestView,
};
use crate::run;
use crate::run::accepted;
use crate::same::views;
use crate::types::{Partition, PartitionView};
use vstd::prelude::*;

verus! {

/// The step that gives the tables of the namespace.
pub const LISTED: usize = 0;

/// The ids of the partitions that replies `1` to `count` list.
pub open spec fn listed_partition_ids(h: Seq<Reply>, count: int) -> Seq<i64>
    decreases count,
{
    if count <= 0 {
        Seq::empty()
    } else {
        listed_partition_ids(h, count - 1) + views(h[count]->Partitions_0@).map_values(
            |p: PartitionView| p.id,
        )
    }
}

/// What is asked for when the replies so far are `h`.
pub open spec fn request(h: Seq<Reply>, namespace_id: i64) -> RequestView {
    let n = h.len();
    if n == LISTED {
        // the tables of the namespace
        RequestView::Tables(TablesRequestView::ListByNamespaceId { namespace_id })
    } else {
        if n <= expect::tables(h, LISTED).len() {
            RequestView::Partitions(
                PartitionsRequestView::ListByTableId {
                    table_id: expect::tables(h, LISTED)[n - 1].id,
                },
            )
        } else {
            RequestView::ParquetFiles(
                ParquetFilesRequestView::ListByPartitionNotToDeleteBatch {
                    partition_ids: listed_partition_ids(h, n - 1),
                },
            )
        }
    }
}

/// The last of the replies `h` is as it has to be, where the ones before it were.
pub open spec fn accepts(h: Seq<Reply>, namespace_id: i64) -> bool {
    let n = h.len() - 1;
    if n == LISTED {
        expect::got_tables(h)
    } else {
        if n <= expect::tables(h, LISTED).len() {
            expect::got_partitions(h)
        } else {
            expect::got_files(h)
        }
    }
}

/// With the replies `h` everything has been asked for.
pub open spec fn finished(h: Seq<Reply>, namespace_id: i64) -> bool {
    h.len() >= 2 && h.len() - 2 >= expect::tables(h, LISTED).len()
}

/// What is known of the first `m` replies once they have been accepted.
pub proof fn lemma_known(h: Seq<Reply>, m: int, namespace_id: i64)
    requires
        0 <= m <= h.len(),
        accepted(ScenarioView::ListParquetFiles { namespace_id }, h, m),
    ensures
        m > LISTED ==> expect::is_tables(h, LISTED),
{
    let s = ScenarioView::ListParquetFiles { namespace_id };
    if m > LISTED {
        assert(run::accepts(s, h.take(LISTED + 1)));
    }
}

proof fn lemma_partitions(h: Seq<Reply>, m: int, namespace_id: i64)
    requires
        0 < m <= h.len(),
        accepted(ScenarioView::ListParquetFiles { namespace_id }, h, m),
    ensures
        expect::is_tables(h, LISTED),
        forall|k: int|
            0 < k < m && k <= expect::tables(h, LISTED).len() ==> (#[trigger] h[k]) is Partitions,
{
    lemma_known(h, m, namespace_id);
    assert forall|k: int|
        0 < k < m && k <= expect::tables(h, LISTED).len() implies (
    #[trigger] h[k]) is Partitions by {
        let t = h.take(k + 1);
        assert(run::accepts(ScenarioView::ListParquetFiles { namespace_id }, t));
        assert(t[LISTED as int] == h[LISTED as int]);
        assert(t.last() == h[k]);
    }
}

/// The ids of the partitions that replies `1` to `count` list.
fn do_listed_partition_ids(h: &Vec<Reply>, count: usize) -> (ids: Vec<i64>)
    requires
        count < h.len(),
        forall|k: int| 0 < k <= count ==> (#[trigger] h@[k]) is Partitions,
    ensures
        ids@ == listed_partition_ids(h@, count as int),
{
    let mut ids: Vec<i64> = Vec::new();
    let mut k: usize = 0;
    while k < count
        invariant
            k <= count < h.len(),
            forall|j: int| 0 < j <= count ==> (#[trigger] h@[j]) is Partitions,
            ids@ == listed_partition_ids(h@, k as int),
        decreases count - k,
    {
        let ghost before: Seq<i64> = ids@;
        k += 1;
        proof {
            assert(h@[k as int] is Partitions);
        }
        let list: &Vec<Partition> = check::partitions(h, k);
        let ghost found: Seq<i64> = expect::partitions(h@, k).map_values(|p: PartitionView| p.id);
        let mut i: usize = 0;
        while i < list.len()
            invariant
                i <= list.len(),
                found.len() == list.len(),
                forall|j: int| 0 <= j < list.len() ==> found[j] == (#[trigger] list@[j]).id,
                ids@ == before + found.take(i as int),
            decreases list.len() - i,
        {
            ids.push(list[i].id);
            proof {
                assert(ids@ =~= before + found.take(i + 1));
            }
            i += 1;
        }
        proof {
            assert(found.take(i as int) =~= found);
        }
    }
    ids
}

/// What is asked for when the replies so far are `h`.
pub fn next_request<'a>(h: &'a Vec<Reply>, namespace_id: i64) -> (r: Request<'a>)
    requires
        accepted(ScenarioView::ListParquetFiles { namespace_id }, h@, h@.len() as int),
        !finished(h@, namespace_id),
    ensures
        r@ =~~= request(h@, namespace_id),
{
    let n: usize = h.len();
    proof {
        lemma_known(h@, n as int, namespace_id);
    }
    if n == LISTED {
        Request::Tables(TablesRequest::ListByNamespaceId { namespace_id })
    } else {
        proof {
            lemma_partitions(h@, n as int, namespace_id);
        }
        if n <= check::tables(h, LISTED).len() {
            Request::Partitions(
                PartitionsRequest::ListByTableId { table_id: check::tables(h, LISTED)[n - 1].id },
            )
        } else {
            Request::ParquetFiles(
                ParquetFilesRequest::ListByPartitionNotToDeleteBatch {
                    partition_ids: do_listed_partition_ids(h, n - 1),
                },
            )
        }
    }
}

/// Whether the last of the replies `h` is as it has to be.
pub fn accepts_last(h: &Vec<Reply>, namespace_id: i64) -> (b: bool)
    requires
        h.len() > 0,
        accepted(ScenarioView::ListParquetFiles { namespace_id }, h@, h@.len() - 1),
        !finished(h@.drop_last(), namespace_id),
    ensures
        b == accepts(h@, namespace_id),
{
    let n: usize = h.len() - 1;
    proof {
        lemma_known(h@, n as int, namespace_id);
    }
    if n == LISTED {
        check::got_tables(h)
    } else {
        if n <= check::tables(h, LISTED).len() {
            check::got_partitions(h)
        } else {
            check::got_files(h)
        }
    }
}

/// Whether everything has been asked for.
pub fn is_finished(h: &Vec<Reply>, namespace_id: i64) -> (b: bool)
    requires
        accepted(ScenarioView::ListParquetFiles { namespace_id }, h@, h@.len() as int),
    ensures
        b == finished(h@, namespace_id),
{
    proof {
        lemma_known(h@, h@.len() as int, namespace_id);
    }
    h.len() >= 2 && h.len() - 2 >= check::tables(h, LISTED).len()
}

} // verus!
