//! What a catalog has answered of files of which one is kept for ever.
use crate::expect;
use crate::reply::Reply;
use crate::request::{
    HelperRequestView, NamespacesRequestView, ParquetFilesRequestView, PartitionsRequestView,
    RequestView, ScenarioView,
};
use crate::run;
use crate::run::{accepts, passes};
use crate::scenarios::test_parquet_file_delete_broken::{
    NAMESPACE_1, NAMESPACE_2, PARAMS_1, PARAMS_2, PARTITION_1, PARTITION_2, TABLE_1, TABLE_2,
};
use vstd::prelude::*;

verus! {

/// What step `k` asks for.
pub open spec fn asked(h: Seq<Reply>, k: int) -> RequestView {
    run::request(ScenarioView::ParquetFileDeleteBroken, h.take(k))
}

/// Of two files with old data exactly the one is marked whose namespace has a retention period.
pub proof fn law_files_without_retention_are_not_marked(h: Seq<Reply>)
    requires
        passes(ScenarioView::ParquetFileDeleteBroken, h),
    ensures
        asked(h, 0) == RequestView::Helper(
            HelperRequestView::ArbitraryNamespace { name: "retention_broken_1"@ },
        ),
        h[0] is Namespace,
        asked(h, 1) == RequestView::Namespaces(
            NamespacesRequestView::Create {
                name: "retention_broken_2"@,
                partition_template: None,
                retention_period_ns: Some(1),
            },
        ),
        h[1] is Namespace,
        asked(h, 2) == RequestView::Helper(
            HelperRequestView::ArbitraryTable {
                name: "test_table"@,
                namespace: expect::namespace(h, NAMESPACE_1),
            },
        ),
        h[2] is Table,
        asked(h, 3) == RequestView::Helper(
            HelperRequestView::ArbitraryTable {
                name: "test_table"@,
                namespace: expect::namespace(h, NAMESPACE_2),
            },
        ),
        h[3] is Table,
        asked(h, 4) == RequestView::Partitions(
            PartitionsRequestView::CreateOrGet {
                key: "one"@,
                table_id: expect::table(h, TABLE_1).id,
            },
        ),
        h[4] is Partition,
        asked(h, 5) == RequestView::Partitions(
            PartitionsRequestView::CreateOrGet {
                key: "one"@,
                table_id: expect::table(h, TABLE_2).id,
            },
        ),
        h[5] is Partition,
        asked(h, 6) == RequestView::Helper(
            HelperRequestView::ArbitraryParquetFileParams {
                namespace: expect::namespace(h, NAMESPACE_1),
                table: expect::table(h, TABLE_1),
                partition: expect::partition(h, PARTITION_1),
            },
        ),
        h[6] is Params,
        asked(h, 7) == RequestView::Helper(
            HelperRequestView::ArbitraryParquetFileParams {
                namespace: expect::namespace(h, NAMESPACE_2),
                table: expect::table(h, TABLE_2),
                partition: expect::partition(h, PARTITION_2),
            },
        ),
        h[7] is Params,
        asked(h, 8) == RequestView::ParquetFiles(
            ParquetFilesRequestView::Create { params: expect::params(h, PARAMS_1) },
        ),
        h[8] is File,
        asked(h, 9) == RequestView::ParquetFiles(
            ParquetFilesRequestView::Create { params: expect::params(h, PARAMS_2) },
        ),
        h[9] is File,
        asked(h, 10) == RequestView::ParquetFiles(
            ParquetFilesRequestView::FlagForDeleteByRetention,
        ),
        h[10] is Located && h[10]->Located_0@ == seq![
            (expect::params(h, PARAMS_2).partition_id, expect::params(h, PARAMS_2).object_store_id),
        ],
{
    let s = ScenarioView::ParquetFileDeleteBroken;
    assert(accepts(s, h.take(1)));
    assert(accepts(s, h.take(2)));
    assert(accepts(s, h.take(3)));
    assert(accepts(s, h.take(4)));
    assert(accepts(s, h.take(5)));
    assert(accepts(s, h.take(6)));
    assert(accepts(s, h.take(7)));
    assert(accepts(s, h.take(8)));
    assert(accepts(s, h.take(9)));
    assert(accepts(s, h.take(10)));
    assert(accepts(s, h.take(11)));
}

/// Answers like these are accepted.
pub proof fn law_files_without_retention_are_not_marked_which_is_enough(h: Seq<Reply>)
    requires
        h.len() > 10,
        h[0] is Namespace,
        h[1] is Namespace,
        h[2] is Table,
        h[3] is Table,
        h[4] is Partition,
        h[5] is Partition,
        h[6] is Params,
        h[7] is Params,
        h[8] is File,
        h[9] is File,
        h[10] is Located && h[10]->Located_0@ == seq![
            (expect::params(h, PARAMS_2).partition_id, expect::params(h, PARAMS_2).object_store_id),
        ],
    ensures
        accepts(ScenarioView::ParquetFileDeleteBroken, h.take(1)),
        accepts(ScenarioView::ParquetFileDeleteBroken, h.take(2)),
        accepts(ScenarioView::ParquetFileDeleteBroken, h.take(3)),
        accepts(ScenarioView::ParquetFileDeleteBroken, h.take(4)),
        accepts(ScenarioView::ParquetFileDeleteBroken, h.take(5)),
        accepts(ScenarioView::ParquetFileDeleteBroken, h.take(6)),
        accepts(ScenarioView::ParquetFileDeleteBroken, h.take(7)),
        accepts(ScenarioView::ParquetFileDeleteBroken, h.take(8)),
        accepts(ScenarioView::ParquetFileDeleteBroken, h.take(9)),
        accepts(ScenarioView::ParquetFileDeleteBroken, h.take(10)),
        accepts(ScenarioView::ParquetFileDeleteBroken, h.take(11)),
{
    assert(h.take(1).last() == h[0]);
    assert(h.take(2).last() == h[1]);
    assert(h.take(3).last() == h[2]);
    assert(h.take(4).last() == h[3]);
    assert(h.take(5).last() == h[4]);
    assert(h.take(6).last() == h[5]);
    assert(h.take(7).last() == h[6]);
    assert(h.take(8).last() == h[7]);
    assert(h.take(9).last() == h[8]);
    assert(h.take(10).last() == h[9]);
    assert(h.take(11).last() == h[10]);
}

} // verus!
