//! A snapshot of a partition agrees with the catalog.
use crate::check;
use crate::expect;
use crate::reply::Reply;
use crate::request::{
    ParquetFilesRequest, ParquetFilesRequestView, PartitionsRequest, PartitionsRequestView, Request,
    RequestView, ScenarioView,
};
use crate::run::accepted;
use crate::types::{PartitionSnapshot, PartitionSnapshotView};
use vstd::prelude::*;

verus! {

/// How many requests there are.
pub const LENGTH: usize = 3;

/// What is asked for when the replies so far are `h`.
pub open spec fn request(h: Seq<Reply>, partition_snapshot: PartitionSnapshotView) -> RequestView {
    let n = h.len();
    if n == 0 {
        // the files that are not marked for deletion
        RequestView::ParquetFiles(
            ParquetFilesRequestView::ListByPartitionNotToDeleteBatch {
                partition_ids: seq![partition_snapshot.partition_id],
            },
        )
    } else if n == 1 {
        // the skipped compaction, if any
        RequestView::Partitions(
            PartitionsRequestView::GetInSkippedCompactions {
                ids: seq![partition_snapshot.partition_id],
            },
        )
    } else {
        // the partition itself
        RequestView::Partitions(
            PartitionsRequestView::GetById { id: partition_snapshot.partition_id },
        )
    }
}

/// The last of the replies `h` is as it has to be, where the ones before it were.
pub open spec fn accepts(h: Seq<Reply>, partition_snapshot: PartitionSnapshotView) -> bool {
    let n = h.len() - 1;
    if n == 0 {
        expect::files_match(h, partition_snapshot)
    } else if n == 1 {
        expect::skipped_matches(h, partition_snapshot)
    } else if n == 2 {
        expect::partition_matches(h, partition_snapshot)
    } else {
        false
    }
}

/// With the replies `h` everything has been asked for.
pub open spec fn finished(h: Seq<Reply>, partition_snapshot: PartitionSnapshotView) -> bool {
    h.len() >= LENGTH
}

/// What is asked for when the replies so far are `h`.
pub fn next_request<'a>(
    h: &'a Vec<Reply>,
    partition_snapshot: &'a PartitionSnapshot,
) -> (r: Request<'a>)
    requires
        accepted(
            ScenarioView::ValidatePartitionSnapshot { partition_snapshot: partition_snapshot@ },
            h@,
            h@.len() as int,
        ),
        !finished(h@, partition_snapshot@),
    ensures
        r@ =~~= request(h@, partition_snapshot@),
{
    let n: usize = h.len();
    if n == 0 {
        Request::ParquetFiles(
            ParquetFilesRequest::ListByPartitionNotToDeleteBatch {
                partition_ids: vec![partition_snapshot.partition_id],
            },
        )
    } else if n == 1 {
        Request::Partitions(
            PartitionsRequest::GetInSkippedCompactions {
                ids: vec![partition_snapshot.partition_id],
            },
        )
    } else {
        Request::Partitions(PartitionsRequest::GetById { id: partition_snapshot.partition_id })
    }
}

/// Whether the last of the replies `h` is as it has to be.
pub fn accepts_last(h: &Vec<Reply>, partition_snapshot: &PartitionSnapshot) -> (b: bool)
    requires
        h.len() > 0,
        accepted(
            ScenarioView::ValidatePartitionSnapshot { partition_snapshot: partition_snapshot@ },
            h@,
            h@.len() - 1,
        ),
        !finished(h@.drop_last(), partition_snapshot@),
    ensures
        b == accepts(h@, partition_snapshot@),
{
    let n: usize = h.len() - 1;
    if n == 0 {
        check::files_match(h, partition_snapshot)
    } else if n == 1 {
        check::skipped_matches(h, partition_snapshot)
    } else if n == 2 {
        check::partition_matches(h, partition_snapshot)
    } else {
        false
    }
}

/// Whether everything has been asked for.
pub fn is_finished(h: &Vec<Reply>, partition_snapshot: &PartitionSnapshot) -> (b: bool)
    ensures
        b == finished(h@, partition_snapshot@),
{
    h.len() >= LENGTH
}

} // verus!
