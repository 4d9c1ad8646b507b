//! What a catalog has answered of a partition that is asked for twice.
use crate::expect;
use crate::reply::Reply;
use crate::request::{
    HelperRequestView, PartitionsRequestView, RequestView, ScenarioView, ValueRequestView,
};
use crate::run;
use crate::run::{accepts, passes};
use crate::scenarios::test_partition_create_or_get_idempotent::{HASH, NAMESPACE, PARTITION, TABLE};
use vstd::prelude::*;

verus! {

/// What step `k` asks for.
pub open spec fn asked(h: Seq<Reply>, k: int) -> RequestView {
    run::request(ScenarioView::PartitionCreateOrGetIdempotent, h.take(k))
}

/// A partition has the hash of its table and key and no sort key, is the same when it is asked for
/// again, and is the only one of its table.
pub proof fn law_a_partition_is_told_by_its_hash(h: Seq<Reply>)
    requires
        passes(ScenarioView::PartitionCreateOrGetIdempotent, h),
    ensures
        asked(h, 0) == RequestView::Helper(HelperRequestView::ArbitraryNamespace { name: "ns4"@ }),
        h[0] is Namespace,
        asked(h, 1) == RequestView::Helper(
            HelperRequestView::ArbitraryTable {
                name: "table"@,
                namespace: expect::namespace(h, NAMESPACE),
            },
        ),
        h[1] is Table,
        asked(h, 2) == RequestView::Value(
            ValueRequestView::PartitionHashId {
                table_id: expect::table(h, TABLE).id,
                key: "bananas"@,
            },
        ),
        h[2] is Bytes,
        asked(h, 3) == RequestView::Partitions(
            PartitionsRequestView::CreateOrGet {
                key: "bananas"@,
                table_id: expect::table(h, TABLE).id,
            },
        ),
        h[3] is Partition && h[3]->Partition_0@.hash_id == Some(expect::bytes(h, HASH)),
        h[3]->Partition_0@.sort_key_ids is None,
        asked(h, 4) == RequestView::Partitions(
            PartitionsRequestView::CreateOrGet {
                key: "bananas"@,
                table_id: expect::table(h, TABLE).id,
            },
        ),
        h[4] is Partition && h[4]->Partition_0@ == expect::partition(h, PARTITION),
        asked(h, 5) == RequestView::Partitions(
            PartitionsRequestView::ListByTableId { table_id: expect::table(h, TABLE).id },
        ),
        h[5] is Partitions && h[5]->Partitions_0@.len() == 1,
        h[5]->Partitions_0@[0]@.hash_id == Some(expect::bytes(h, HASH)),
        h[5]->Partitions_0@[0]@.sort_key_ids is None,
{
    let s = ScenarioView::PartitionCreateOrGetIdempotent;
    assert(accepts(s, h.take(1)));
    assert(accepts(s, h.take(2)));
    assert(accepts(s, h.take(3)));
    assert(accepts(s, h.take(4)));
    assert(accepts(s, h.take(5)));
    assert(accepts(s, h.take(6)));
}

/// Answers like these are accepted.
pub proof fn law_a_partition_is_told_by_its_hash_which_is_enough(h: Seq<Reply>)
    requires
        h.len() > 5,
        h[0] is Namespace,
        h[1] is Table,
        h[2] is Bytes,
        h[3] is Partition && h[3]->Partition_0@.hash_id == Some(expect::bytes(h, HASH)),
        h[3]->Partition_0@.sort_key_ids is None,
        h[4] is Partition && h[4]->Partition_0@ == expect::partition(h, PARTITION),
        h[5] is Partitions && h[5]->Partitions_0@.len() == 1,
        h[5]->Partitions_0@[0]@.hash_id == Some(expect::bytes(h, HASH)),
        h[5]->Partitions_0@[0]@.sort_key_ids is None,
    ensures
        accepts(ScenarioView::PartitionCreateOrGetIdempotent, h.take(1)),
        accepts(ScenarioView::PartitionCreateOrGetIdempotent, h.take(2)),
        accepts(ScenarioView::PartitionCreateOrGetIdempotent, h.take(3)),
        accepts(ScenarioView::PartitionCreateOrGetIdempotent, h.take(4)),
        accepts(ScenarioView::PartitionCreateOrGetIdempotent, h.take(5)),
        accepts(ScenarioView::PartitionCreateOrGetIdempotent, h.take(6)),
{
    assert(h.take(1).last() == h[0]);
    assert(h.take(2).last() == h[1]);
    assert(h.take(3).last() == h[2]);
    assert(h.take(4).last() == h[3]);
    assert(h.take(5).last() == h[4]);
    assert(h.take(6).last() == h[5]);
}

} // verus!
