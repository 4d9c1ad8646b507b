//! What a catalog has answered of the sizes of tables.
use crate::expect;
use crate::reply::Reply;
use crate::request::{
    CatalogRequestView, HelperRequestView, RequestView, ScenarioView, TablesRequestView,
};
use crate::run;
use crate::run::{accepts, finished, passes};
use crate::scenarios::test_table_storage::{
    FILE_1, FILE_2, FILE_3, NAME, NAMESPACE, TABLE_1, TABLE_2,
};
use vstd::prelude::*;

verus! {

/// What step `k` asks for.
pub open spec fn asked(h: Seq<Reply>, k: int) -> RequestView {
    run::request(ScenarioView::TableStorage, h.take(k))
}

/// The table of step `k` gets a file.
pub open spec fn adds_a_file(h: Seq<Reply>, k: int, table: usize) -> bool {
    &&& asked(h, k) == RequestView::Helper(
        HelperRequestView::CreateAndGetFile {
            namespace: expect::namespace(h, NAMESPACE),
            table: expect::new_table(h, table),
            partition: expect::new_partition(h, table),
        },
    )
    &&& h[k] is File
}

/// A namespace gets a table with a partition. A client refuses to tell sizes.
pub proof fn law_a_client_tells_no_sizes_of_tables(h: Seq<Reply>)
    requires
        passes(ScenarioView::TableStorage, h),
    ensures
        asked(h, 0) == RequestView::Helper(
            HelperRequestView::ArbitraryNamespace { name: "namespace_storage_test"@ },
        ),
        h[0] is Namespace,
        asked(h, 1) == RequestView::Helper(
            HelperRequestView::SetupTableAndPartition {
                name: "test_table"@,
                namespace: expect::namespace(h, NAMESPACE),
            },
        ),
        h[1] is TableAndPartition,
        expect::new_table(h, TABLE_1).namespace_id == expect::namespace(h, NAMESPACE).id,
        asked(h, 2) == RequestView::Catalog(CatalogRequestView::Name),
        h[2] is Text,
        expect::text(h, NAME) == "grpc_client"@ ==> {
            &&& h.len() == 5
            &&& asked(h, 3) == RequestView::Tables(
                TablesRequestView::ListStorageByNamespaceId {
                    namespace_id: expect::new_table(h, TABLE_1).namespace_id,
                },
            )
            &&& h[3] is Failed
            &&& asked(h, 4) == RequestView::Tables(
                TablesRequestView::GetStorageById { id: expect::new_table(h, TABLE_1).id },
            )
            &&& h[4] is Failed
        },
{
    let s = ScenarioView::TableStorage;
    assert(accepts(s, h.take(1)));
    assert(accepts(s, h.take(2)));
    assert(accepts(s, h.take(3)));
    assert(accepts(s, h.take(4)));
    assert(accepts(s, h.take(5)));
    if expect::text(h, NAME) == "grpc_client"@ && h.len() > 5 {
        assert(finished(s, h.take(5)));
    }
}

/// Between the questions for sizes the table gets two files, one of which is deleted, and another
/// table of the same namespace gets one.
pub proof fn law_tables_get_files_of_their_own(h: Seq<Reply>)
    requires
        passes(ScenarioView::TableStorage, h),
        expect::text(h, NAME) != "grpc_client"@,
    ensures
        h.len() == 12,
        FILE_1 == 4 && adds_a_file(h, 4, TABLE_1),
        FILE_2 == 5 && adds_a_file(h, 5, TABLE_1),
        asked(h, 7) == RequestView::Helper(
            HelperRequestView::DeleteFile { file: expect::file(h, FILE_1) },
        ),
        h[7] is Done,
        TABLE_2 == 9,
        asked(h, 9) == RequestView::Helper(
            HelperRequestView::SetupTableAndPartition {
                name: "table_name_2"@,
                namespace: expect::namespace(h, NAMESPACE),
            },
        ),
        h[9] is TableAndPartition,
        FILE_3 == 10 && adds_a_file(h, 10, TABLE_2),
{
    let s = ScenarioView::TableStorage;
    law_a_client_tells_no_sizes_of_tables(h);
    assert(accepts(s, h.take(5)));
    assert(accepts(s, h.take(6)));
    assert(accepts(s, h.take(8)));
    assert(accepts(s, h.take(10)));
    assert(accepts(s, h.take(11)));
    if h.len() > 12 {
        assert(finished(s, h.take(12)));
    }
}

/// Answers like these are accepted, as long as the sizes of the files have a sum.
pub proof fn law_tables_get_files_of_their_own_which_is_enough(h: Seq<Reply>)
    requires
        h.len() == if h[2]->Text_0@ == "grpc_client"@ {
            5int
        } else {
            12
        },
        h[0] is Namespace && h[1] is TableAndPartition && h[2] is Text,
        h[1]->TableAndPartition_0.namespace_id == h[0]->Namespace_0.id,
        h[2]->Text_0@ == "grpc_client"@ ==> h[3] is Failed && h[4] is Failed,
        h[2]->Text_0@ != "grpc_client"@ ==> {
            &&& h[3] is Passed && h[6] is Passed && h[8] is Passed && h[11] is Passed
            &&& h[4] is File && h[5] is File && h[10] is File
            &&& i64::MIN <= h[4]->File_0.file_size_bytes + h[5]->File_0.file_size_bytes <= i64::MAX
            &&& h[7] is Done && h[9] is TableAndPartition
        },
    ensures
        passes(ScenarioView::TableStorage, h),
{
    let s = ScenarioView::TableStorage;
    assert forall|n: int| 0 < n <= h.len() implies #[trigger] accepts(s, h.take(n)) by {
        let t = h.take(n);
        assert(t.last() == h[n - 1]);
        assert(forall|j: int| 0 <= j < n ==> t[j] == h[j]);
    }
    assert forall|n: int| 0 <= n < h.len() implies !(#[trigger] finished(s, h.take(n))) by {
        assert(forall|j: int| 0 <= j < n ==> h.take(n)[j] == h[j]);
    }
}

} // verus!
