//! The size of a table is the size of its files.
use crate::check;
use crate::expect;
use crate::reply::Reply;
use crate::request::{
    CatalogRequest, CatalogRequestView, HelperRequest, HelperRequestView, Request, RequestView,
    Scenario, ScenarioView, TablesRequest, TablesRequestView,
};
use crate::run;
use crate::run::accepted;
use vstd::prelude::*;

verus! {

/// The step that gives the namespace.
pub const NAMESPACE: usize = 0;

/// The step that gives a table with one partition.
pub const TABLE_1: usize = 1;

/// The step that gives the kind of catalog.
pub const NAME: usize = 2;

/// The step that gives the first file of the first table.
pub const FILE_1: usize = 4;

/// The step that gives the second file of the first table.
pub const FILE_2: usize = 5;

/// The step that gives another table with one partition.
pub const TABLE_2: usize = 9;

/// The step that gives the file of the second table.
pub const FILE_3: usize = 10;

/// What is asked for when the replies so far are `h`.
pub open spec fn request(h: Seq<Reply>) -> RequestView {
    let n = h.len();
    if n == NAMESPACE {
        // the namespace
        RequestView::Helper(
            HelperRequestView::ArbitraryNamespace { name: "namespace_storage_test"@ },
        )
    } else if n == TABLE_1 {
        // a table with one partition
        RequestView::Helper(
            HelperRequestView::SetupTableAndPartition {
                name: "test_table"@,
                namespace: expect::namespace(h, NAMESPACE),
            },
        )
    } else if n == NAME {
        // the kind of catalog
        RequestView::Catalog(CatalogRequestView::Name)
    } else {
        if expect::text_is(h, NAME, "grpc_client"@) && n == 3 {
            // a client does not tell sizes
            RequestView::Tables(
                TablesRequestView::ListStorageByNamespaceId {
                    namespace_id: expect::new_table(h, TABLE_1).namespace_id,
                },
            )
        } else if expect::text_is(h, NAME, "grpc_client"@) {
            RequestView::Tables(
                TablesRequestView::GetStorageById { id: expect::new_table(h, TABLE_1).id },
            )
        } else if n == 3 {
            // the table is empty
            RequestView::Run(
                ScenarioView::TableSize {
                    namespace_id: expect::new_table(h, TABLE_1).namespace_id,
                    first: expect::new_table(h, TABLE_1).id,
                    first_size: 0,
                    second: None,
                },
            )
        } else if n == FILE_1 || n == FILE_2 {
            RequestView::Helper(
                HelperRequestView::CreateAndGetFile {
                    namespace: expect::namespace(h, NAMESPACE),
                    table: expect::new_table(h, TABLE_1),
                    partition: expect::new_partition(h, TABLE_1),
                },
            )
        } else if n == 6 {
            // it has two files
            RequestView::Run(
                ScenarioView::TableSize {
                    namespace_id: expect::new_table(h, TABLE_1).namespace_id,
                    first: expect::new_table(h, TABLE_1).id,
                    first_size: expect::total_size(h, FILE_1, FILE_2),
                    second: None,
                },
            )
        } else if n == 7 {
            // one of them is deleted
            RequestView::Helper(HelperRequestView::DeleteFile { file: expect::file(h, FILE_1) })
        } else if n == 8 {
            RequestView::Run(
                ScenarioView::TableSize {
                    namespace_id: expect::new_table(h, TABLE_1).namespace_id,
                    first: expect::new_table(h, TABLE_1).id,
                    first_size: expect::file(h, FILE_2).file_size_bytes,
                    second: None,
                },
            )
        } else if n == TABLE_2 {
            RequestView::Helper(
                HelperRequestView::SetupTableAndPartition {
                    name: "table_name_2"@,
                    namespace: expect::namespace(h, NAMESPACE),
                },
            )
        } else if n == FILE_3 {
            RequestView::Helper(
                HelperRequestView::CreateAndGetFile {
                    namespace: expect::namespace(h, NAMESPACE),
                    table: expect::new_table(h, TABLE_2),
                    partition: expect::new_partition(h, TABLE_2),
                },
            )
        } else {
            // each table has the size of its own file
            RequestView::Run(
                ScenarioView::TableSize {
                    namespace_id: expect::new_table(h, TABLE_1).namespace_id,
                    first: expect::new_table(h, TABLE_1).id,
                    first_size: expect::file(h, FILE_2).file_size_bytes,
                    second: Some(
                        (expect::new_table(h, TABLE_2).id, expect::file(h, FILE_3).file_size_bytes),
                    ),
                },
            )
        }
    }
}

/// The last of the replies `h` is as it has to be, where the ones before it were.
pub open spec fn accepts(h: Seq<Reply>) -> bool {
    let n = h.len() - 1;
    if n == NAMESPACE {
        expect::got_namespace(h)
    } else if n == TABLE_1 {
        expect::got_table_and_partition(h) && expect::set_up_in(h, NAMESPACE)
    } else if n == NAME {
        expect::got_text(h)
    } else {
        if expect::text_is(h, NAME, "grpc_client"@) {
            expect::got_error(h)
        } else if n == FILE_1 || n == FILE_3 {
            expect::got_file(h)
        } else if n == FILE_2 {
            expect::got_file(h) && expect::sizes_add(h, FILE_1, FILE_2)
        } else if n == 7 {
            expect::done(h)
        } else if n == TABLE_2 {
            expect::got_table_and_partition(h)
        } else {
            expect::passed(h)
        }
    }
}

/// With the replies `h` everything has been asked for.
pub open spec fn finished(h: Seq<Reply>) -> bool {
    h.len() >= 12 || (h.len() >= 5 && expect::text_is(h, NAME, "grpc_client"@))
}

/// What is known of the first `m` replies once they have been accepted.
pub proof fn lemma_known(h: Seq<Reply>, m: int)
    requires
        0 <= m <= h.len(),
        accepted(ScenarioView::TableStorage, h, m),
    ensures
        m > NAMESPACE ==> expect::is_namespace(h, NAMESPACE),
        m > TABLE_1 ==> expect::is_table_and_partition(h, TABLE_1),
        m > NAME ==> expect::is_text(h, NAME),
        m > FILE_1 ==> (!expect::text_is(h, NAME, "grpc_client"@) ==> expect::is_file(h, FILE_1)),
        m > FILE_2 ==> (
            !expect::text_is(h, NAME, "grpc_client"@) ==> expect::is_file(h, FILE_2)
                && expect::sizes_add(h, FILE_1, FILE_2)
        ),
        m > TABLE_2 ==> (
            !expect::text_is(h, NAME, "grpc_client"@) ==> expect::is_table_and_partition(h, TABLE_2)
        ),
        m > FILE_3 ==> (!expect::text_is(h, NAME, "grpc_client"@) ==> expect::is_file(h, FILE_3)),
{
    let s = ScenarioView::TableStorage;
    if m > NAMESPACE {
        assert(run::accepts(s, h.take(NAMESPACE + 1)));
    }
    if m > TABLE_1 {
        assert(run::accepts(s, h.take(TABLE_1 + 1)));
    }
    if m > NAME {
        assert(run::accepts(s, h.take(NAME + 1)));
    }
    if m > FILE_1 {
        assert(run::accepts(s, h.take(FILE_1 + 1)));
    }
    if m > FILE_2 {
        assert(run::accepts(s, h.take(FILE_2 + 1)));
    }
    if m > TABLE_2 {
        assert(run::accepts(s, h.take(TABLE_2 + 1)));
    }
    if m > FILE_3 {
        assert(run::accepts(s, h.take(FILE_3 + 1)));
    }
}

/// What is asked for when the replies so far are `h`.
pub fn next_request<'a>(h: &'a Vec<Reply>) -> (r: Request<'a>)
    requires
        accepted(ScenarioView::TableStorage, h@, h@.len() as int),
        !finished(h@),
    ensures
        r@ =~~= request(h@),
{
    let n: usize = h.len();
    proof {
        lemma_known(h@, n as int);
    }
    if n == NAMESPACE {
        Request::Helper(HelperRequest::ArbitraryNamespace { name: "namespace_storage_test" })
    } else if n == TABLE_1 {
        Request::Helper(
            HelperRequest::SetupTableAndPartition {
                name: "test_table",
                namespace: check::namespace(h, NAMESPACE),
            },
        )
    } else if n == NAME {
        Request::Catalog(CatalogRequest::Name)
    } else {
        if check::text_is(h, NAME, "grpc_client") && n == 3 {
            Request::Tables(
                TablesRequest::ListStorageByNamespaceId {
                    namespace_id: check::new_table(h, TABLE_1).namespace_id,
                },
            )
        } else if check::text_is(h, NAME, "grpc_client") {
            Request::Tables(TablesRequest::GetStorageById { id: check::new_table(h, TABLE_1).id })
        } else if n == 3 {
            Request::Run(
                Scenario::TableSize {
                    namespace_id: check::new_table(h, TABLE_1).namespace_id,
                    first: check::new_table(h, TABLE_1).id,
                    first_size: 0,
                    second: None,
                },
            )
        } else if n == FILE_1 || n == FILE_2 {
            Request::Helper(
                HelperRequest::CreateAndGetFile {
                    namespace: check::namespace(h, NAMESPACE),
                    table: check::new_table(h, TABLE_1),
                    partition: check::new_partition(h, TABLE_1),
                },
            )
        } else if n == 6 {
            Request::Run(
                Scenario::TableSize {
                    namespace_id: check::new_table(h, TABLE_1).namespace_id,
                    first: check::new_table(h, TABLE_1).id,
                    first_size: check::total_size(h, FILE_1, FILE_2),
                    second: None,
                },
            )
        } else if n == 7 {
            Request::Helper(HelperRequest::DeleteFile { file: check::file(h, FILE_1) })
        } else if n == 8 {
            Request::Run(
                Scenario::TableSize {
                    namespace_id: check::new_table(h, TABLE_1).namespace_id,
                    first: check::new_table(h, TABLE_1).id,
                    first_size: check::file(h, FILE_2).file_size_bytes,
                    second: None,
                },
            )
        } else if n == TABLE_2 {
            Request::Helper(
                HelperRequest::SetupTableAndPartition {
                    name: "table_name_2",
                    namespace: check::namespace(h, NAMESPACE),
                },
            )
        } else if n == FILE_3 {
            Request::Helper(
                HelperRequest::CreateAndGetFile {
                    namespace: check::namespace(h, NAMESPACE),
                    table: check::new_table(h, TABLE_2),
                    partition: check::new_partition(h, TABLE_2),
                },
            )
        } else {
            Request::Run(
                Scenario::TableSize {
                    namespace_id: check::new_table(h, TABLE_1).namespace_id,
                    first: check::new_table(h, TABLE_1).id,
                    first_size: check::file(h, FILE_2).file_size_bytes,
                    second: Some(
                        (check::new_table(h, TABLE_2).id, check::file(h, FILE_3).file_size_bytes),
                    ),
                },
            )
        }
    }
}

/// Whether the last of the replies `h` is as it has to be.
pub fn accepts_last(h: &Vec<Reply>) -> (b: bool)
    requires
        h.len() > 0,
        accepted(ScenarioView::TableStorage, h@, h@.len() - 1),
        !finished(h@.drop_last()),
    ensures
        b == accepts(h@),
{
    let n: usize = h.len() - 1;
    proof {
        lemma_known(h@, n as int);
    }
    if n == NAMESPACE {
        check::got_namespace(h)
    } else if n == TABLE_1 {
        check::got_table_and_partition(h) && check::set_up_in(h, NAMESPACE)
    } else if n == NAME {
        check::got_text(h)
    } else {
        if check::text_is(h, NAME, "grpc_client") {
            check::got_error(h)
        } else if n == FILE_1 || n == FILE_3 {
            check::got_file(h)
        } else if n == FILE_2 {
            check::got_file(h) && check::sizes_add(h, FILE_1, FILE_2)
        } else if n == 7 {
            check::done(h)
        } else if n == TABLE_2 {
            check::got_table_and_partition(h)
        } else {
            check::passed(h)
        }
    }
}

/// Whether everything has been asked for.
pub fn is_finished(h: &Vec<Reply>) -> (b: bool)
    requires
        accepted(ScenarioView::TableStorage, h@, h@.len() as int),
    ensures
        b == finished(h@),
{
    proof {
        lemma_known(h@, h@.len() as int);
    }
    h.len() >= 12 || (h.len() >= 5 && check::text_is(h, NAME, "grpc_client"))
}

} // verus!
