//! What a catalog has answered of the size of a namespace.
use crate::expect;
use crate::reply::Reply;
use crate::request::{
    CatalogRequestView, HelperRequestView, NamespacesRequestView, ParquetFilesRequestView,
    PartitionsRequestView, RequestView, ScenarioView,
};
use crate::run;
use crate::run::{accepts, finished, passes};
use crate::scenarios::test_namespace_storage::{FILE_1, FILE_2, NAME, NAMESPACE, PARTITION, TABLE};
use crate::types::{CompactionLevel, NamespaceView};
use vstd::prelude::*;

verus! {

/// What step `k` asks for.
pub open spec fn asked(h: Seq<Reply>, k: int) -> RequestView {
    run::request(ScenarioView::NamespaceStorage, h.take(k))
}

/// The namespace of the scenario.
pub open spec fn filled(h: Seq<Reply>) -> NamespaceView {
    expect::namespace(h, NAMESPACE)
}

/// A namespace gets two files in one partition, whatever kind of catalog it is in.
pub proof fn law_a_namespace_gets_two_files(h: Seq<Reply>)
    requires
        passes(ScenarioView::NamespaceStorage, h),
    ensures
        asked(h, 0) == RequestView::Helper(
            HelperRequestView::ArbitraryNamespace { name: "namespace_with_storage"@ },
        ),
        h[0] is Namespace,
        asked(h, 1) == RequestView::Catalog(CatalogRequestView::Name),
        h[1] is Text,
        asked(h, 2) == RequestView::Namespaces(
            NamespacesRequestView::GetStorageById { id: filled(h).id },
        ),
        h[2] is Failed <==> h[1]->Text_0@ == "grpc_client"@,
        h[2] is Failed || h[2] is Size || h[2] is Nothing,
        asked(h, 3) == RequestView::Helper(
            HelperRequestView::ArbitraryTable { name: "test_table"@, namespace: filled(h) },
        ),
        h[3] is Table,
        asked(h, 4) == RequestView::Partitions(
            PartitionsRequestView::CreateOrGet {
                key: "one"@,
                table_id: expect::table(h, TABLE).id,
            },
        ),
        h[4] is Partition,
        asked(h, 5) == RequestView::Helper(
            HelperRequestView::CreateAndGetFile {
                namespace: filled(h),
                table: expect::table(h, TABLE),
                partition: expect::partition(h, PARTITION),
            },
        ),
        h[5] is File,
        asked(h, 6) == asked(h, 5),
        h[6] is File,
{
    let s = ScenarioView::NamespaceStorage;
    assert(accepts(s, h.take(1)));
    assert(accepts(s, h.take(2)));
    assert(accepts(s, h.take(3)));
    assert(accepts(s, h.take(4)));
    assert(accepts(s, h.take(5)));
    assert(accepts(s, h.take(6)));
    assert(accepts(s, h.take(7)));
}

/// Step `k` deletes the first file.
pub open spec fn deletes_the_first_file(h: Seq<Reply>, k: int) -> bool {
    asked(h, k) == RequestView::ParquetFiles(
        ParquetFilesRequestView::CreateUpgradeDelete {
            partition_id: expect::file(h, FILE_1).partition_id,
            delete: seq![expect::file(h, FILE_1).object_store_id],
            upgrade: Seq::empty(),
            create: Seq::empty(),
            target_level: CompactionLevel::Initial,
        },
    )
}

/// A catalog tells the size of a namespace, which is that of its two files, and that of the second
/// one once the first one is deleted. A client does not tell sizes.
pub proof fn law_the_size_of_a_namespace_is_told(h: Seq<Reply>)
    requires
        passes(ScenarioView::NamespaceStorage, h),
    ensures
        expect::text(h, NAME) == "grpc_client"@ ==> {
            &&& h.len() == 8
            &&& deletes_the_first_file(h, 7)
            &&& h[7] is Ids
        },
        expect::text(h, NAME) != "grpc_client"@ ==> {
            &&& h.len() == 10
            &&& asked(h, 7) == RequestView::Namespaces(
                NamespacesRequestView::GetStorageById { id: filled(h).id },
            )
            &&& h[7] is Size
            &&& h[7]->Size_0 == expect::file(h, FILE_1).file_size_bytes + expect::file(
                h,
                FILE_2,
            ).file_size_bytes
            &&& deletes_the_first_file(h, 8)
            &&& h[8] is Ids
            &&& asked(h, 9) == asked(h, 7)
            &&& h[9] == Reply::Size(expect::file(h, FILE_2).file_size_bytes)
        },
{
    let s = ScenarioView::NamespaceStorage;
    law_a_namespace_gets_two_files(h);
    assert(accepts(s, h.take(8)));
    if expect::text(h, NAME) == "grpc_client"@ {
        if h.len() > 8 {
            assert(finished(s, h.take(8)));
        }
    } else {
        assert(accepts(s, h.take(9)));
        assert(accepts(s, h.take(10)));
        if h.len() > 10 {
            assert(finished(s, h.take(10)));
        }
    }
}

/// Answers like these are accepted, as long as the sizes of the files have a sum.
pub proof fn law_the_size_of_a_namespace_is_told_which_is_enough(h: Seq<Reply>)
    requires
        h.len() == if h[1]->Text_0@ == "grpc_client"@ {
            8int
        } else {
            10
        },
        h[0] is Namespace && h[1] is Text && h[3] is Table && h[4] is Partition,
        h[5] is File && h[6] is File,
        i64::MIN <= h[5]->File_0.file_size_bytes + h[6]->File_0.file_size_bytes <= i64::MAX,
        h[1]->Text_0@ == "grpc_client"@ ==> h[2] is Failed && h[7] is Ids,
        h[1]->Text_0@ != "grpc_client"@ ==> {
            &&& h[2] is Size || h[2] is Nothing
            &&& h[7] is Size
            &&& h[7]->Size_0 == h[5]->File_0.file_size_bytes + h[6]->File_0.file_size_bytes
            &&& h[8] is Ids
            &&& h[9] == Reply::Size(h[6]->File_0.file_size_bytes)
        },
    ensures
        passes(ScenarioView::NamespaceStorage, h),
{
    let s = ScenarioView::NamespaceStorage;
    assert forall|n: int| 0 < n <= h.len() implies #[trigger] accepts(s, h.take(n)) by {
        let t = h.take(n);
        assert(t.last() == h[n - 1]);
        assert(forall|j: int| 0 <= j < n ==> t[j] == h[j]);
    }
    assert forall|n: int| 0 <= n < h.len() implies !(#[trigger] finished(s, h.take(n))) by {
        assert(forall|j: int| 0 <= j < n ==> h.take(n)[j] == h[j]);
    }
}

} // verus!
