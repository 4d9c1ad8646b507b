//! A partition is created once, and keeps its hash.
use crate::check;
use crate::expect;
use crate::reply::Reply;
use crate::request::{
    HelperRequest, HelperRequestView, PartitionsRequest, PartitionsRequestView, Request,
    RequestView, ScenarioView, ValueRequest, ValueRequestView,
};
use crate::run;
use crate::run::accepted;
use vstd::prelude::*;

verus! {

/// The step that gives the namespace.
pub const NAMESPACE: usize = 0;

/// The step that gives the table.
pub const TABLE: usize = 1;

/// The step that gives the hash that the partition has to have.
pub const HASH: usize = 2;

/// The step that gives the partition.
pub const PARTITION: usize = 3;

/// How many requests there are.
pub const LENGTH: usize = 6;

/// What is asked for when the replies so far are `h`.
pub open spec fn request(h: Seq<Reply>) -> RequestView {
    let n = h.len();
    if n == NAMESPACE {
        // the namespace
        RequestView::Helper(HelperRequestView::ArbitraryNamespace { name: "ns4"@ })
    } else if n == TABLE {
        // the table
        RequestView::Helper(
            HelperRequestView::ArbitraryTable {
                name: "table"@,
                namespace: expect::namespace(h, NAMESPACE),
            },
        )
    } else if n == HASH {
        // the hash that the partition has to have
        RequestView::Value(
            ValueRequestView::PartitionHashId {
                table_id: expect::table(h, TABLE).id,
                key: "bananas"@,
            },
        )
    } else if n == PARTITION {
        // the partition
        RequestView::Partitions(
            PartitionsRequestView::CreateOrGet {
                key: "bananas"@,
                table_id: expect::table(h, TABLE).id,
            },
        )
    } else if n == 4 {
        // it is not created twice
        RequestView::Partitions(
            PartitionsRequestView::CreateOrGet {
                key: "bananas"@,
                table_id: expect::table(h, TABLE).id,
            },
        )
    } else {
        // and it is found with its hash
        RequestView::Partitions(
            PartitionsRequestView::ListByTableId { table_id: expect::table(h, TABLE).id },
        )
    }
}

/// The last of the replies `h` is as it has to be, where the ones before it were.
pub open spec fn accepts(h: Seq<Reply>) -> bool {
    let n = h.len() - 1;
    if n == NAMESPACE {
        expect::got_namespace(h)
    } else if n == TABLE {
        expect::got_table(h)
    } else if n == HASH {
        expect::got_bytes(h)
    } else if n == PARTITION {
        expect::got_partition(h) && expect::hashed_unsorted(h, HASH)
    } else if n == 4 {
        expect::same_partition(h, PARTITION)
    } else if n == 5 {
        expect::only_hashed_unsorted(h, HASH)
    } else {
        false
    }
}

/// With the replies `h` everything has been asked for.
pub open spec fn finished(h: Seq<Reply>) -> bool {
    h.len() >= LENGTH
}

/// What is known of the first `m` replies once they have been accepted.
pub proof fn lemma_known(h: Seq<Reply>, m: int)
    requires
        0 <= m <= h.len(),
        accepted(ScenarioView::PartitionCreateOrGetIdempotent, h, m),
    ensures
        m > NAMESPACE ==> expect::is_namespace(h, NAMESPACE),
        m > TABLE ==> expect::is_table(h, TABLE),
        m > HASH ==> expect::is_bytes(h, HASH),
        m > PARTITION ==> expect::is_partition(h, PARTITION),
{
    let s = ScenarioView::PartitionCreateOrGetIdempotent;
    if m > NAMESPACE {
        assert(run::accepts(s, h.take(NAMESPACE + 1)));
    }
    if m > TABLE {
        assert(run::accepts(s, h.take(TABLE + 1)));
    }
    if m > HASH {
        assert(run::accepts(s, h.take(HASH + 1)));
    }
    if m > PARTITION {
        assert(run::accepts(s, h.take(PARTITION + 1)));
    }
}

/// What is asked for when the replies so far are `h`.
pub fn next_request<'a>(h: &'a Vec<Reply>) -> (r: Request<'a>)
    requires
        accepted(ScenarioView::PartitionCreateOrGetIdempotent, h@, h@.len() as int),
        !finished(h@),
    ensures
        r@ =~~= request(h@),
{
    let n: usize = h.len();
    proof {
        lemma_known(h@, n as int);
    }
    if n == NAMESPACE {
        Request::Helper(HelperRequest::ArbitraryNamespace { name: "ns4" })
    } else if n == TABLE {
        Request::Helper(
            HelperRequest::ArbitraryTable {
                name: "table",
                namespace: check::namespace(h, NAMESPACE),
            },
        )
    } else if n == HASH {
        Request::Value(
            ValueRequest::PartitionHashId { table_id: check::table(h, TABLE).id, key: "bananas" },
        )
    } else if n == PARTITION {
        Request::Partitions(
            PartitionsRequest::CreateOrGet { key: "bananas", table_id: check::table(h, TABLE).id },
        )
    } else if n == 4 {
        Request::Partitions(
            PartitionsRequest::CreateOrGet { key: "bananas", table_id: check::table(h, TABLE).id },
        )
    } else {
        Request::Partitions(
            PartitionsRequest::ListByTableId { table_id: check::table(h, TABLE).id },
        )
    }
}

/// Whether the last of the replies `h` is as it has to be.
pub fn accepts_last(h: &Vec<Reply>) -> (b: bool)
    requires
        h.len() > 0,
        accepted(ScenarioView::PartitionCreateOrGetIdempotent, h@, h@.len() - 1),
        !finished(h@.drop_last()),
    ensures
        b == accepts(h@),
{
    let n: usize = h.len() - 1;
    proof {
        lemma_known(h@, n as int);
    }
    if n == NAMESPACE {
        check::got_namespace(h)
    } else if n == TABLE {
        check::got_table(h)
    } else if n == HASH {
        check::got_bytes(h)
    } else if n == PARTITION {
        check::got_partition(h) && check::hashed_unsorted(h, HASH)
    } else if n == 4 {
        check::same_partition(h, PARTITION)
    } else if n == 5 {
        check::only_hashed_unsorted(h, HASH)
    } else {
        false
    }
}

/// Whether everything has been asked for.
pub fn is_finished(h: &Vec<Reply>) -> (b: bool)
    ensures
        b == finished(h@),
{
    h.len() >= LENGTH
}

} // verus!
