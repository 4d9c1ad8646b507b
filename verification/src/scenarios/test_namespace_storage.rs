//! The size of a namespace is the size of its files.
use crate::check;
use crate::expect;
use crate::reply::Reply;
use crate::request::{
    CatalogRequest, CatalogRequestView, HelperRequest, HelperRequestView, NamespacesRequest,
    NamespacesRequestView, ParquetFilesRequest, ParquetFilesRequestView, PartitionsRequest,
    PartitionsRequestView, Request, RequestView, ScenarioView,
};
use crate::run;
use crate::run::accepted;
use crate::types::CompactionLevel;
use vstd::prelude::*;

verus! {

/// The step that gives the namespace.
pub const NAMESPACE: usize = 0;

/// The step that gives the kind of catalog.
pub const NAME: usize = 1;

/// The step that gives a table.
pub const TABLE: usize = 3;

/// The step that gives a partition.
pub const PARTITION: usize = 4;

/// The step that gives the first file.
pub const FILE_1: usize = 5;

/// The step that gives the second file.
pub const FILE_2: usize = 6;

/// What is asked for when the replies so far are `h`.
pub open spec fn request(h: Seq<Reply>) -> RequestView {
    let n = h.len();
    if n == NAMESPACE {
        // the namespace
        RequestView::Helper(
            HelperRequestView::ArbitraryNamespace { name: "namespace_with_storage"@ },
        )
    } else if n == NAME {
        // the kind of catalog
        RequestView::Catalog(CatalogRequestView::Name)
    } else if n == 2 {
        // a client does not tell sizes
        RequestView::Namespaces(
            NamespacesRequestView::GetStorageById { id: expect::namespace(h, NAMESPACE).id },
        )
    } else if n == TABLE {
        // a table
        RequestView::Helper(
            HelperRequestView::ArbitraryTable {
                name: "test_table"@,
                namespace: expect::namespace(h, NAMESPACE),
            },
        )
    } else if n == PARTITION {
        // a partition
        RequestView::Partitions(
            PartitionsRequestView::CreateOrGet {
                key: "one"@,
                table_id: expect::table(h, TABLE).id,
            },
        )
    } else if n == FILE_1 {
        // the first file
        RequestView::Helper(
            HelperRequestView::CreateAndGetFile {
                namespace: expect::namespace(h, NAMESPACE),
                table: expect::table(h, TABLE),
                partition: expect::partition(h, PARTITION),
            },
        )
    } else if n == FILE_2 {
        // the second file
        RequestView::Helper(
            HelperRequestView::CreateAndGetFile {
                namespace: expect::namespace(h, NAMESPACE),
                table: expect::table(h, TABLE),
                partition: expect::partition(h, PARTITION),
            },
        )
    } else {
        if expect::text_is(h, NAME, "grpc_client"@) || n == 8 {
            // the first file is deleted
            RequestView::ParquetFiles(
                ParquetFilesRequestView::CreateUpgradeDelete {
                    partition_id: expect::file(h, FILE_1).partition_id,
                    delete: seq![expect::file(h, FILE_1).object_store_id],
                    upgrade: Seq::empty(),
                    create: Seq::empty(),
                    target_level: CompactionLevel::Initial,
                },
            )
        } else {
            // the size of the namespace, with both files and with one
            RequestView::Namespaces(
                NamespacesRequestView::GetStorageById { id: expect::namespace(h, NAMESPACE).id },
            )
        }
    }
}

/// The last of the replies `h` is as it has to be, where the ones before it were.
pub open spec fn accepts(h: Seq<Reply>) -> bool {
    let n = h.len() - 1;
    if n == NAMESPACE {
        expect::got_namespace(h)
    } else if n == NAME {
        expect::got_text(h)
    } else if n == 2 {
        if expect::text_is(h, NAME, "grpc_client"@) {
            expect::got_error(h)
        } else {
            expect::got_storage(h)
        }
    } else if n == TABLE {
        expect::got_table(h)
    } else if n == PARTITION {
        expect::got_partition(h)
    } else if n == FILE_1 {
        expect::got_file(h)
    } else if n == FILE_2 {
        expect::got_file(h) && expect::sizes_add(h, FILE_1, FILE_2)
    } else {
        if expect::text_is(h, NAME, "grpc_client"@) || n == 8 {
            expect::got_ids(h)
        } else if n == 7 {
            expect::size_of_both(h, FILE_1, FILE_2)
        } else {
            expect::size_of(h, FILE_2)
        }
    }
}

/// With the replies `h` everything has been asked for.
pub open spec fn finished(h: Seq<Reply>) -> bool {
    h.len() >= 10 || (h.len() == 8 && expect::text_is(h, NAME, "grpc_client"@))
}

/// What is known of the first `m` replies once they have been accepted.
pub proof fn lemma_known(h: Seq<Reply>, m: int)
    requires
        0 <= m <= h.len(),
        accepted(ScenarioView::NamespaceStorage, h, m),
    ensures
        m > NAMESPACE ==> expect::is_namespace(h, NAMESPACE),
        m > NAME ==> expect::is_text(h, NAME),
        m > TABLE ==> expect::is_table(h, TABLE),
        m > PARTITION ==> expect::is_partition(h, PARTITION),
        m > FILE_1 ==> expect::is_file(h, FILE_1),
        m > FILE_2 ==> expect::is_file(h, FILE_2),
{
    let s = ScenarioView::NamespaceStorage;
    if m > NAMESPACE {
        assert(run::accepts(s, h.take(NAMESPACE + 1)));
    }
    if m > NAME {
        assert(run::accepts(s, h.take(NAME + 1)));
    }
    if m > TABLE {
        assert(run::accepts(s, h.take(TABLE + 1)));
    }
    if m > PARTITION {
        assert(run::accepts(s, h.take(PARTITION + 1)));
    }
    if m > FILE_1 {
        assert(run::accepts(s, h.take(FILE_1 + 1)));
    }
    if m > FILE_2 {
        assert(run::accepts(s, h.take(FILE_2 + 1)));
    }
}

/// What is asked for when the replies so far are `h`.
pub fn next_request<'a>(h: &'a Vec<Reply>) -> (r: Request<'a>)
    requires
        accepted(ScenarioView::NamespaceStorage, h@, h@.len() as int),
        !finished(h@),
    ensures
        r@ =~~= request(h@),
{
    let n: usize = h.len();
    proof {
        lemma_known(h@, n as int);
    }
    if n == NAMESPACE {
        Request::Helper(HelperRequest::ArbitraryNamespace { name: "namespace_with_storage" })
    } else if n == NAME {
        Request::Catalog(CatalogRequest::Name)
    } else if n == 2 {
        Request::Namespaces(
            NamespacesRequest::GetStorageById { id: check::namespace(h, NAMESPACE).id },
        )
    } else if n == TABLE {
        Request::Helper(
            HelperRequest::ArbitraryTable {
                name: "test_table",
                namespace: check::namespace(h, NAMESPACE),
            },
        )
    } else if n == PARTITION {
        Request::Partitions(
            PartitionsRequest::CreateOrGet { key: "one", table_id: check::table(h, TABLE).id },
        )
    } else if n == FILE_1 {
        Request::Helper(
            HelperRequest::CreateAndGetFile {
                namespace: check::namespace(h, NAMESPACE),
                table: check::table(h, TABLE),
                partition: check::partition(h, PARTITION),
            },
        )
    } else if n == FILE_2 {
        Request::Helper(
            HelperRequest::CreateAndGetFile {
                namespace: check::namespace(h, NAMESPACE),
                table: check::table(h, TABLE),
                partition: check::partition(h, PARTITION),
            },
        )
    } else {
        if check::text_is(h, NAME, "grpc_client") || n == 8 {
            Request::ParquetFiles(
                ParquetFilesRequest::CreateUpgradeDelete {
                    partition_id: check::file(h, FILE_1).partition_id,
                    delete: vec![check::file(h, FILE_1).object_store_id],
                    upgrade: Vec::new(),
                    create: Vec::new(),
                    target_level: CompactionLevel::Initial,
                },
            )
        } else {
            Request::Namespaces(
                NamespacesRequest::GetStorageById { id: check::namespace(h, NAMESPACE).id },
            )
        }
    }
}

/// Whether the last of the replies `h` is as it has to be.
pub fn accepts_last(h: &Vec<Reply>) -> (b: bool)
    requires
        h.len() > 0,
        accepted(ScenarioView::NamespaceStorage, h@, h@.len() - 1),
        !finished(h@.drop_last()),
    ensures
        b == accepts(h@),
{
    let n: usize = h.len() - 1;
    proof {
        lemma_known(h@, n as int);
    }
    if n == NAMESPACE {
        check::got_namespace(h)
    } else if n == NAME {
        check::got_text(h)
    } else if n == 2 {
        if check::text_is(h, NAME, "grpc_client") {
            check::got_error(h)
        } else {
            check::got_storage(h)
        }
    } else if n == TABLE {
        check::got_table(h)
    } else if n == PARTITION {
        check::got_partition(h)
    } else if n == FILE_1 {
        check::got_file(h)
    } else if n == FILE_2 {
        check::got_file(h) && check::sizes_add(h, FILE_1, FILE_2)
    } else {
        if check::text_is(h, NAME, "grpc_client") || n == 8 {
            check::got_ids(h)
        } else if n == 7 {
            check::size_of_both(h, FILE_1, FILE_2)
        } else {
            check::size_of(h, FILE_2)
        }
    }
}

/// Whether everything has been asked for.
pub fn is_finished(h: &Vec<Reply>) -> (b: bool)
    requires
        accepted(ScenarioView::NamespaceStorage, h@, h@.len() as int),
    ensures
        b == finished(h@),
{
    proof {
        lemma_known(h@, h@.len() as int);
    }
    h.len() >= 10 || (h.len() == 8 && check::text_is(h, NAME, "grpc_client"))
}

} // verus!
