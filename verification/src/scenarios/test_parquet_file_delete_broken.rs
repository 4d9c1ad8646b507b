//! Files are marked for deletion where a namespace has a retention period, and only there.
use crate::check;
use crate::expect;
use crate::reply::Reply;
use crate::request::{
    HelperRequest, HelperRequestView, NamespacesRequest, NamespacesRequestView, ParquetFilesRequest,
    ParquetFilesRequestView, PartitionsRequest, PartitionsRequestView, Request, RequestView,
    ScenarioView,
};
use crate::run;
use crate::run::accepted;
use vstd::prelude::*;

verus! {

/// The step that gives a namespace that keeps its data for ever.
pub const NAMESPACE_1: usize = 0;

/// The step that gives a namespace that keeps its data for a nanosecond.
pub const NAMESPACE_2: usize = 1;

/// The step that gives a table of namespace 1.
pub const TABLE_1: usize = 2;

/// The step that gives a table of namespace 2.
pub const TABLE_2: usize = 3;

/// The step that gives a partition of namespace 1.
pub const PARTITION_1: usize = 4;

/// The step that gives a partition of namespace 2.
pub const PARTITION_2: usize = 5;

/// The step that gives the parameters of a file of namespace 1.
pub const PARAMS_1: usize = 6;

/// The step that gives the parameters of a file of namespace 2.
pub const PARAMS_2: usize = 7;

/// How many requests there are.
pub const LENGTH: usize = 11;

/// What is asked for when the replies so far are `h`.
pub open spec fn request(h: Seq<Reply>) -> RequestView {
    let n = h.len();
    if n == NAMESPACE_1 {
        // a namespace that keeps its data for ever
        RequestView::Helper(HelperRequestView::ArbitraryNamespace { name: "retention_broken_1"@ })
    } else if n == NAMESPACE_2 {
        // a namespace that keeps its data for a nanosecond
        RequestView::Namespaces(
            NamespacesRequestView::Create {
                name: "retention_broken_2"@,
                partition_template: None,
                retention_period_ns: Some(1),
            },
        )
    } else if n == TABLE_1 {
        // a table of namespace 1
        RequestView::Helper(
            HelperRequestView::ArbitraryTable {
                name: "test_table"@,
                namespace: expect::namespace(h, NAMESPACE_1),
            },
        )
    } else if n == TABLE_2 {
        // a table of namespace 2
        RequestView::Helper(
            HelperRequestView::ArbitraryTable {
                name: "test_table"@,
                namespace: expect::namespace(h, NAMESPACE_2),
            },
        )
    } else if n == PARTITION_1 {
        // a partition of namespace 1
        RequestView::Partitions(
            PartitionsRequestView::CreateOrGet {
                key: "one"@,
                table_id: expect::table(h, TABLE_1).id,
            },
        )
    } else if n == PARTITION_2 {
        // a partition of namespace 2
        RequestView::Partitions(
            PartitionsRequestView::CreateOrGet {
                key: "one"@,
                table_id: expect::table(h, TABLE_2).id,
            },
        )
    } else if n == PARAMS_1 {
        // the parameters of a file of namespace 1
        RequestView::Helper(
            HelperRequestView::ArbitraryParquetFileParams {
                namespace: expect::namespace(h, NAMESPACE_1),
                table: expect::table(h, TABLE_1),
                partition: expect::partition(h, PARTITION_1),
            },
        )
    } else if n == PARAMS_2 {
        // the parameters of a file of namespace 2
        RequestView::Helper(
            HelperRequestView::ArbitraryParquetFileParams {
                namespace: expect::namespace(h, NAMESPACE_2),
                table: expect::table(h, TABLE_2),
                partition: expect::partition(h, PARTITION_2),
            },
        )
    } else if n == 8 {
        RequestView::ParquetFiles(
            ParquetFilesRequestView::Create { params: expect::params(h, PARAMS_1) },
        )
    } else if n == 9 {
        RequestView::ParquetFiles(
            ParquetFilesRequestView::Create { params: expect::params(h, PARAMS_2) },
        )
    } else {
        // only the second file is too old
        RequestView::ParquetFiles(ParquetFilesRequestView::FlagForDeleteByRetention)
    }
}

/// The last of the replies `h` is as it has to be, where the ones before it were.
pub open spec fn accepts(h: Seq<Reply>) -> bool {
    let n = h.len() - 1;
    if n == NAMESPACE_1 {
        expect::got_namespace(h)
    } else if n == NAMESPACE_2 {
        expect::got_namespace(h)
    } else if n == TABLE_1 {
        expect::got_table(h)
    } else if n == TABLE_2 {
        expect::got_table(h)
    } else if n == PARTITION_1 {
        expect::got_partition(h)
    } else if n == PARTITION_2 {
        expect::got_partition(h)
    } else if n == PARAMS_1 {
        expect::got_params(h)
    } else if n == PARAMS_2 {
        expect::got_params(h)
    } else if n == 8 {
        expect::got_file(h)
    } else if n == 9 {
        expect::got_file(h)
    } else if n == 10 {
        expect::only_located(h, PARAMS_2)
    } else {
        false
    }
}

/// With the replies `h` everything has been asked for.
pub open spec fn finished(h: Seq<Reply>) -> bool {
    h.len() >= LENGTH
}

/// What is known of the first `m` replies once they have been accepted.
pub proof fn lemma_known(h: Seq<Reply>, m: int)
    requires
        0 <= m <= h.len(),
        accepted(ScenarioView::ParquetFileDeleteBroken, h, m),
    ensures
        m > NAMESPACE_1 ==> expect::is_namespace(h, NAMESPACE_1),
        m > NAMESPACE_2 ==> expect::is_namespace(h, NAMESPACE_2),
        m > TABLE_1 ==> expect::is_table(h, TABLE_1),
        m > TABLE_2 ==> expect::is_table(h, TABLE_2),
        m > PARTITION_1 ==> expect::is_partition(h, PARTITION_1),
        m > PARTITION_2 ==> expect::is_partition(h, PARTITION_2),
        m > PARAMS_1 ==> expect::is_params(h, PARAMS_1),
        m > PARAMS_2 ==> expect::is_params(h, PARAMS_2),
{
    let s = ScenarioView::ParquetFileDeleteBroken;
    if m > NAMESPACE_1 {
        assert(run::accepts(s, h.take(NAMESPACE_1 + 1)));
    }
    if m > NAMESPACE_2 {
        assert(run::accepts(s, h.take(NAMESPACE_2 + 1)));
    }
    if m > TABLE_1 {
        assert(run::accepts(s, h.take(TABLE_1 + 1)));
    }
    if m > TABLE_2 {
        assert(run::accepts(s, h.take(TABLE_2 + 1)));
    }
    if m > PARTITION_1 {
        assert(run::accepts(s, h.take(PARTITION_1 + 1)));
    }
    if m > PARTITION_2 {
        assert(run::accepts(s, h.take(PARTITION_2 + 1)));
    }
    if m > PARAMS_1 {
        assert(run::accepts(s, h.take(PARAMS_1 + 1)));
    }
    if m > PARAMS_2 {
        assert(run::accepts(s, h.take(PARAMS_2 + 1)));
    }
}

/// What is asked for when the replies so far are `h`.
pub fn next_request<'a>(h: &'a Vec<Reply>) -> (r: Request<'a>)
    requires
        accepted(ScenarioView::ParquetFileDeleteBroken, h@, h@.len() as int),
        !finished(h@),
    ensures
        r@ =~~= request(h@),
{
    let n: usize = h.len();
    proof {
        lemma_known(h@, n as int);
    }
    if n == NAMESPACE_1 {
        Request::Helper(HelperRequest::ArbitraryNamespace { name: "retention_broken_1" })
    } else if n == NAMESPACE_2 {
        Request::Namespaces(
            NamespacesRequest::Create {
                name: "retention_broken_2",
                partition_template: None,
                retention_period_ns: Some(1),
            },
        )
    } else if n == TABLE_1 {
        Request::Helper(
            HelperRequest::ArbitraryTable {
                name: "test_table",
                namespace: check::namespace(h, NAMESPACE_1),
            },
        )
    } else if n == TABLE_2 {
        Request::Helper(
            HelperRequest::ArbitraryTable {
                name: "test_table",
                namespace: check::namespace(h, NAMESPACE_2),
            },
        )
    } else if n == PARTITION_1 {
        Request::Partitions(
            PartitionsRequest::CreateOrGet { key: "one", table_id: check::table(h, TABLE_1).id },
        )
    } else if n == PARTITION_2 {
        Request::Partitions(
            PartitionsRequest::CreateOrGet { key: "one", table_id: check::table(h, TABLE_2).id },
        )
    } else if n == PARAMS_1 {
        Request::Helper(
            HelperRequest::ArbitraryParquetFileParams {
                namespace: check::namespace(h, NAMESPACE_1),
                table: check::table(h, TABLE_1),
                partition: check::partition(h, PARTITION_1),
            },
        )
    } else if n == PARAMS_2 {
        Request::Helper(
            HelperRequest::ArbitraryParquetFileParams {
                namespace: check::namespace(h, NAMESPACE_2),
                table: check::table(h, TABLE_2),
                partition: check::partition(h, PARTITION_2),
            },
        )
    } else if n == 8 {
        Request::ParquetFiles(
            ParquetFilesRequest::Create { params: check::params(h, PARAMS_1).copy() },
        )
    } else if n == 9 {
        Request::ParquetFiles(
            ParquetFilesRequest::Create { params: check::params(h, PARAMS_2).copy() },
        )
    } else {
        Request::ParquetFiles(ParquetFilesRequest::FlagForDeleteByRetention)
    }
}

/// Whether the last of the replies `h` is as it has to be.
pub fn accepts_last(h: &Vec<Reply>) -> (b: bool)
    requires
        h.len() > 0,
        accepted(ScenarioView::ParquetFileDeleteBroken, h@, h@.len() - 1),
        !finished(h@.drop_last()),
    ensures
        b == accepts(h@),
{
    let n: usize = h.len() - 1;
    proof {
        lemma_known(h@, n as int);
    }
    if n == NAMESPACE_1 {
        check::got_namespace(h)
    } else if n == NAMESPACE_2 {
        check::got_namespace(h)
    } else if n == TABLE_1 {
        check::got_table(h)
    } else if n == TABLE_2 {
        check::got_table(h)
    } else if n == PARTITION_1 {
        check::got_partition(h)
    } else if n == PARTITION_2 {
        check::got_partition(h)
    } else if n == PARAMS_1 {
        check::got_params(h)
    } else if n == PARAMS_2 {
        check::got_params(h)
    } else if n == 8 {
        check::got_file(h)
    } else if n == 9 {
        check::got_file(h)
    } else if n == 10 {
        check::only_located(h, PARAMS_2)
    } else {
        false
    }
}

/// Whether everything has been asked for.
pub fn is_finished(h: &Vec<Reply>) -> (b: bool)
    ensures
        b == finished(h@),
{
    h.len() >= LENGTH
}

} // verus!
