//! A namespace is created, or found, and rows are written to it.
use crate::check;
use crate::expect;
use crate::naming::by_name;
use crate::reply::Reply;
use crate::request::{
    HelperRequest, HelperRequestView, NamespacesRequest, NamespacesRequestView, Request,
    RequestView, ScenarioView, ValueRequest, ValueRequestView,
};
use crate::run;
use crate::run::accepted;
use crate::types::{ErrorKind, NamespaceSchemaView, Populated, PopulatedView, SoftDeletedRows};
use vstd::prelude::*;

verus! {

/// The step that gives the namespace: the first, unless there is a namespace of that name already.
pub open spec fn found(h: Seq<Reply>) -> usize {
    if h[0] is Failed {
        1
    } else {
        0
    }
}

/// The step that gives the rows, by table.
pub open spec fn parsed(h: Seq<Reply>) -> usize {
    (found(h) + 1) as usize
}

/// The step that gives the schema of the namespace while it has no tables.
pub open spec fn empty(h: Seq<Reply>) -> usize {
    (found(h) + 2) as usize
}

/// The step that gives the tables that the schema gets.
pub open spec fn inserted(h: Seq<Reply>) -> usize {
    (found(h) + 3) as usize
}

/// The namespace with its schema, once everything has been asked for.
pub open spec fn outcome(h: Seq<Reply>) -> PopulatedView {
    PopulatedView {
        namespace: expect::namespace(h, found(h)),
        schema: NamespaceSchemaView {
            tables: if h[inserted(h) as int] is TableSchemas {
                by_name(expect::table_schemas(h, inserted(h)))
            } else {
                expect::schema(h, empty(h)).tables
            },
            ..expect::schema(h, empty(h))
        },
    }
}

/// What is asked for when the replies so far are `h`.
pub open spec fn request(h: Seq<Reply>, name: Seq<char>, lines: Seq<char>) -> RequestView {
    let n = h.len();
    if n == 0 {
        RequestView::Namespaces(
            NamespacesRequestView::Create {
                name,
                partition_template: None,
                retention_period_ns: None,
            },
        )
    } else if n == found(h) {
        // the name is taken
        RequestView::Namespaces(
            NamespacesRequestView::GetByName { name, rows: SoftDeletedRows::AllRows },
        )
    } else if n == parsed(h) {
        RequestView::Helper(HelperRequestView::LinesToBatches { lines, default_time: 42 })
    } else if n == empty(h) {
        RequestView::Value(
            ValueRequestView::EmptySchema { namespace: expect::namespace(h, found(h)) },
        )
    } else {
        RequestView::Helper(
            HelperRequestView::ValidateOrInsertSchema {
                batches: expect::batches(h, parsed(h)),
                schema: expect::schema(h, empty(h)),
            },
        )
    }
}

/// The last of the replies `h` is as it has to be, where the ones before it were.
pub open spec fn accepts(h: Seq<Reply>, name: Seq<char>, lines: Seq<char>) -> bool {
    let n = h.len() - 1;
    if n == 0 {
        expect::got_namespace(h) || expect::refused_with(h, ErrorKind::AlreadyExists)
    } else if n == found(h) {
        expect::got_namespace(h)
    } else if n == parsed(h) {
        expect::got_batches(h)
    } else if n == empty(h) {
        expect::got_schema(h)
    } else {
        expect::got_table_schemas(h) || expect::nothing(h)
    }
}

/// With the replies `h` everything has been asked for.
pub open spec fn finished(h: Seq<Reply>, name: Seq<char>, lines: Seq<char>) -> bool {
    h.len() > inserted(h)
}

/// What is known of the first `m` replies once they have been accepted.
pub proof fn lemma_known(h: Seq<Reply>, m: int, name: Seq<char>, lines: Seq<char>)
    requires
        0 <= m <= h.len(),
        accepted(ScenarioView::PopulateNamespace { name, lines }, h, m),
    ensures
        m > 0 ==> h[0] is Failed || h[0] is Namespace,
        m > found(h) ==> expect::is_namespace(h, found(h)),
        m > parsed(h) ==> expect::is_batches(h, parsed(h)),
        m > empty(h) ==> expect::is_schema(h, empty(h)),
        m > inserted(h) ==> h[inserted(h) as int] is TableSchemas
            || h[inserted(h) as int] is Nothing,
{
    if m > 0 {
        assert(run::accepts(ScenarioView::PopulateNamespace { name, lines }, h.take(1)));
        assert(h.take(1).last() == h[0]);
    }
    assert forall|k: int| found(h) <= k < m && k <= inserted(h) implies #[trigger] run::accepts(
        ScenarioView::PopulateNamespace { name, lines },
        h.take(k + 1),
    ) && found(h.take(k + 1)) == found(h) && h.take(k + 1).last() == h[k] by {
        assert(h.take(k + 1)[0] == h[0]);
    }
    if m > found(h) {
        assert(run::accepts(ScenarioView::PopulateNamespace { name, lines }, h.take(found(h) + 1)));
    }
    if m > parsed(h) {
        assert(
            run::accepts(ScenarioView::PopulateNamespace { name, lines }, h.take(parsed(h) + 1))
        );
    }
    if m > empty(h) {
        assert(run::accepts(ScenarioView::PopulateNamespace { name, lines }, h.take(empty(h) + 1)));
    }
    if m > inserted(h) {
        assert(
            run::accepts(ScenarioView::PopulateNamespace { name, lines }, h.take(inserted(h) + 1))
        );
    }
}

/// Whether the first request was refused.
fn check_failed(h: &Vec<Reply>) -> (b: bool)
    requires
        h.len() > 0,
    ensures
        b == (h@[0] is Failed),
{
    matches!(&h[0], Reply::Failed(_))
}

/// What is asked for when the replies so far are `h`.
pub fn next_request<'a>(h: &'a Vec<Reply>, name: &'a str, lines: &'a str) -> (r: Request<'a>)
    requires
        accepted(
            ScenarioView::PopulateNamespace { name: name@, lines: lines@ },
            h@,
            h@.len() as int,
        ),
        !finished(h@, name@, lines@),
    ensures
        r@ =~~= request(h@, name@, lines@),
{
    let n: usize = h.len();
    proof {
        lemma_known(h@, n as int, name@, lines@);
    }
    let found_at: usize = if n > 0 && check_failed(h) {
        1
    } else {
        0
    };
    if n == 0 {
        Request::Namespaces(
            NamespacesRequest::Create { name, partition_template: None, retention_period_ns: None },
        )
    } else if n == found_at {
        Request::Namespaces(NamespacesRequest::GetByName { name, rows: SoftDeletedRows::AllRows })
    } else if n == found_at + 1 {
        Request::Helper(HelperRequest::LinesToBatches { lines, default_time: 42 })
    } else if n == found_at + 2 {
        Request::Value(ValueRequest::EmptySchema { namespace: check::namespace(h, found_at) })
    } else {
        Request::Helper(
            HelperRequest::ValidateOrInsertSchema {
                batches: check::batches(h, found_at + 1),
                schema: check::schema(h, found_at + 2),
            },
        )
    }
}

/// Whether the last of the replies `h` is as it has to be.
pub fn accepts_last(h: &Vec<Reply>, name: &str, lines: &str) -> (b: bool)
    requires
        h.len() > 0,
        accepted(ScenarioView::PopulateNamespace { name: name@, lines: lines@ }, h@, h@.len() - 1),
        !finished(h@.drop_last(), name@, lines@),
    ensures
        b == accepts(h@, name@, lines@),
{
    let n: usize = h.len() - 1;
    proof {
        lemma_known(h@, n as int, name@, lines@);
    }
    let found_at: usize = if n > 0 && check_failed(h) {
        1
    } else {
        0
    };
    if n == 0 {
        check::got_namespace(h) || check::refused_with(h, ErrorKind::AlreadyExists)
    } else if n == found_at {
        check::got_namespace(h)
    } else if n == found_at + 1 {
        check::got_batches(h)
    } else if n == found_at + 2 {
        check::got_schema(h)
    } else {
        check::got_table_schemas(h) || check::nothing(h)
    }
}

/// Whether everything has been asked for.
pub fn is_finished(h: &Vec<Reply>, name: &str, lines: &str) -> (b: bool)
    ensures
        b == finished(h@, name@, lines@),
{
    h.len() > 0 && h.len() >= if check_failed(h) {
        5
    } else {
        4
    }
}

/// The namespace with its schema, once everything has been asked for.
pub fn take_outcome(h: Vec<Reply>, name: &str, lines: &str) -> (r: Populated)
    requires
        accepted(
            ScenarioView::PopulateNamespace { name: name@, lines: lines@ },
            h@,
            h@.len() as int,
        ),
        h@.len() == inserted(h@) + 1,
    ensures
        r@ == outcome(h@),
{
    proof {
        lemma_known(h@, h@.len() as int, name@, lines@);
    }
    let ghost all: Seq<Reply> = h@;
    let mut rest: Vec<Reply> = h;
    let tables: Option<Reply> = rest.pop();
    let schema: Option<Reply> = rest.pop();
    let batches: Option<Reply> = rest.pop();
    let namespace: Option<Reply> = rest.pop();
    match (tables, schema, namespace) {
        (Some(t), Some(Reply::Schema(mut s)), Some(Reply::Namespace(ns))) => {
            if let Reply::TableSchemas(list) = t {
                s.tables = list;
            }
            Populated { namespace: ns, schema: s }
        },
        _ => vstd::pervasive::unreached(),
    }
}

} // verus!
