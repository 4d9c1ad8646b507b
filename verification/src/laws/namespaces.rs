//! What a catalog has shown of its namespaces.
use crate::expect;
use crate::naming::by_name;
use crate::nesting::{genuine, law_a_scenario_passes_only_where_those_it_runs_do, Trace};
use crate::reply::Reply;
use crate::request::{
    HelperRequestView, NamespacesRequestView, RequestView, ScenarioView, ValueRequestView,
};
use crate::run;
use crate::run::{accepts, finished, passes};
use crate::same::views;
use crate::scenarios::{
    populate_namespace, test_delete_namespace, test_list_schemas,
    test_list_schemas_soft_deleted_rows, test_namespace, test_namespace_router_version_atomicity,
    test_namespace_soft_deletion,
};
use crate::types::{ErrorKind, NamespaceSchemaView, NamespaceView, PopulatedView, SoftDeletedRows};
use vstd::prelude::*;

verus! {

/// A namespace starts at version 0, and each change of it advances its version by one: four changes
/// of one namespace, one after the other, and one of another.
pub proof fn law_every_change_advances_the_version(h: Seq<Reply>)
    requires
        passes(ScenarioView::Namespace, h),
    ensures
        expect::namespace(h, test_namespace::CREATED).router_version == 0,
        expect::namespace(h, test_namespace::TABLES_LIMITED).router_version == 1,
        expect::namespace(h, test_namespace::COLUMNS_LIMITED).router_version == 2,
        expect::namespace(h, test_namespace::RETENTION_SET).router_version == 3,
        expect::namespace(h, test_namespace::RETENTION_UNSET).router_version == 4,
        expect::namespace(h, test_namespace::RETAINING).router_version == 0,
        h[test_namespace::RETAINING + 1] is Namespace,
        h[test_namespace::RETAINING + 1]->Namespace_0.router_version == 1,
{
    let s = ScenarioView::Namespace;
    assert(accepts(s, h.take(test_namespace::CREATED + 1)));
    assert(accepts(s, h.take(test_namespace::TABLES_LIMITED + 1)));
    assert(accepts(s, h.take(test_namespace::COLUMNS_LIMITED + 1)));
    assert(accepts(s, h.take(test_namespace::RETENTION_SET + 1)));
    assert(accepts(s, h.take(test_namespace::RETENTION_UNSET + 1)));
    assert(accepts(s, h.take(test_namespace::RETAINING + 1)));
    assert(accepts(s, h.take(test_namespace::RETAINING + 2)));
}

/// Deleting advances the version too: of each namespace that was listed, the version is one ahead
/// once it has been deleted.
pub proof fn law_deleting_advances_the_version(h: Seq<Reply>, j: int)
    requires
        passes(ScenarioView::Namespace, h),
        0 <= j < expect::namespaces(h, test_namespace::LISTED).len(),
    ensures
        run::request(ScenarioView::Namespace, h.take(test_namespace::DELETING + 2 * j)) == (
        RequestView::Namespaces(
            NamespacesRequestView::SoftDelete {
                id: expect::namespaces(h, test_namespace::LISTED)[j].id,
            },
        )),
        h[test_namespace::DELETING + 2 * j + 1] is Namespace,
        h[test_namespace::DELETING + 2 * j + 1]->Namespace_0.router_version == expect::namespaces(
            h,
            test_namespace::LISTED,
        )[j].router_version + 1,
{
    let s = ScenarioView::Namespace;
    let k = test_namespace::DELETING + 2 * j + 1;
    let t = h.take(k + 1);
    assert(k < h.len());
    assert(accepts(s, t));
    assert(t[test_namespace::LISTED as int] == h[test_namespace::LISTED as int]);
    let u = h.take(k - 1);
    assert(u[test_namespace::LISTED as int] == h[test_namespace::LISTED as int]);
    assert((u.len() - test_namespace::DELETING) / 2 == j);
}

/// No change is lost and none counts twice: however the changes that are made at the same time are
/// interleaved, all of them succeed, and the version is in the end ahead by their number.
pub proof fn law_concurrent_changes_all_count(h: Seq<Reply>)
    requires
        passes(ScenarioView::NamespaceRouterVersionAtomicity, h),
    ensures
        run::request(ScenarioView::NamespaceRouterVersionAtomicity, h.take(2)) == (
        RequestView::Concurrently(
            test_namespace_router_version_atomicity::changes(
                expect::namespace(h, test_namespace_router_version_atomicity::CREATED).id,
            ),
        )),
        h[2] is Namespaces,
        h[2]->Namespaces_0@.len() == test_namespace_router_version_atomicity::changes(
            expect::namespace(h, test_namespace_router_version_atomicity::CREATED).id,
        ).len(),
        h[3] is Namespace,
        h[3]->Namespace_0.router_version == expect::namespace(
            h,
            test_namespace_router_version_atomicity::CREATED,
        ).router_version + test_namespace_router_version_atomicity::changes(
            expect::namespace(h, test_namespace_router_version_atomicity::CREATED).id,
        ).len(),
{
    let s = ScenarioView::NamespaceRouterVersionAtomicity;
    assert(accepts(s, h.take(test_namespace_router_version_atomicity::CREATED + 1)));
    assert(accepts(s, h.take(3)));
    assert(accepts(s, h.take(4)));
    let t = h.take(2);
    assert(t[1] == h[1]);
}

/// The three kinds of change are made equally often.
pub proof fn law_kinds_of_change_are_balanced(id: i64, i: int)
    requires
        0 <= i < test_namespace_router_version_atomicity::CALLS_PER_METHOD,
    ensures
        ({
            let all = test_namespace_router_version_atomicity::changes(id);
            &&& all.len() == 3 * test_namespace_router_version_atomicity::CALLS_PER_METHOD
            &&& all[3 * i] is UpdateRetentionPeriod
            &&& all[3 * i + 1] is UpdateTableLimit
            &&& all[3 * i + 2] is UpdateColumnLimit
        }),
{
}

/// The step reads one of the two namespaces, by its id or by its name.
pub open spec fn reads(h: Seq<Reply>, k: int, namespace: usize, rows: SoftDeletedRows) -> bool {
    let asked = run::request(ScenarioView::NamespaceSoftDeletion, h.take(k));
    ||| asked == RequestView::Namespaces(
        NamespacesRequestView::GetById { id: expect::namespace(h, namespace).id, rows },
    )
    ||| asked == RequestView::Namespaces(
        NamespacesRequestView::GetByName { name: expect::namespace(h, namespace).name, rows },
    )
}

/// Reads respect soft deletion: of the namespace that was deleted and the one that was not, a read
/// finds exactly those that its choice of rows sees, whether it is by id or by name.
pub proof fn law_reads_respect_soft_deletion(
    h: Seq<Reply>,
    k: int,
    deleted: bool,
    rows: SoftDeletedRows,
    at: i64,
)
    requires
        passes(ScenarioView::NamespaceSoftDeletion, h),
        15 <= k < h.len(),
        k < test_namespace_soft_deletion::LENGTH,
        expect::namespace(h, test_namespace_soft_deletion::DELETED).id != expect::namespace(
            h,
            test_namespace_soft_deletion::ACTIVE,
        ).id,
        expect::namespace(h, test_namespace_soft_deletion::DELETED).name != expect::namespace(
            h,
            test_namespace_soft_deletion::ACTIVE,
        ).name,
        reads(
            h,
            k,
            if deleted {
                test_namespace_soft_deletion::DELETED
            } else {
                test_namespace_soft_deletion::ACTIVE
            },
            rows,
        ),
    ensures
        h[k] is Namespace <==> rows.sees(
            if deleted {
                Some(at)
            } else {
                None
            },
        ),
        h[k] is Nothing <==> !rows.sees(
            if deleted {
                Some(at)
            } else {
                None
            },
        ),
{
    let s = ScenarioView::NamespaceSoftDeletion;
    assert(accepts(s, h.take(k + 1)));
    let t = h.take(k);
    assert(t[test_namespace_soft_deletion::DELETED as int] == h[
    test_namespace_soft_deletion::DELETED as int]);
    assert(t[test_namespace_soft_deletion::ACTIVE as int] == h[
    test_namespace_soft_deletion::ACTIVE as int]);
}

/// Deleting a namespace deletes nothing else. It is not seen any more, but it is there, the same
/// but that it was deleted and that its version advanced, and so are its table, its column, its
/// partition and its two files, which are as they were. Of another namespace all of these are
/// there, too.
pub proof fn law_deleting_does_not_cascade(h: Seq<Reply>)
    requires
        passes(ScenarioView::DeleteNamespace, h),
    ensures
        h[18] is Nothing,
        h[19] is Namespace,
        ({
            let before = expect::namespace(h, test_delete_namespace::NAMESPACE_1);
            let after = h[19]->Namespace_0@;
            after == NamespaceView {
                deleted_at: after.deleted_at,
                router_version: after.router_version,
                ..before
            } && after.deleted_at is Some && after.router_version > before.router_version
        }),
        h[20] is Table,
        h[20]->Table_0@ == expect::table(h, test_delete_namespace::TABLE_1),
        h[21] is Columns && h[21]->Columns_0@.len() == 1,
        h[22] is Columns && h[22]->Columns_0@.len() == 1,
        h[23] is Partitions && h[23]->Partitions_0@.len() > 0,
        h[24] is Namespace,
        h[25] is Table,
        h[26] is Columns && h[26]->Columns_0@.len() == 1,
        h[27] is Columns && h[27]->Columns_0@.len() == 1,
        h[28] is Partitions && h[28]->Partitions_0@.len() > 0,
        h[29] is File && h[29]->File_0@ == expect::file(h, test_delete_namespace::FIRST_1),
        h[30] is File && h[30]->File_0@ == expect::file(h, test_delete_namespace::SECOND_1),
        h[31] is File && h[31]->File_0@ == expect::file(h, test_delete_namespace::FIRST_2),
        h[32] is File && h[32]->File_0@ == expect::file(h, test_delete_namespace::SECOND_2),
{
    let s = ScenarioView::DeleteNamespace;
    assert(accepts(s, h.take(19)));
    assert(accepts(s, h.take(20)));
    assert(accepts(s, h.take(21)));
    assert(accepts(s, h.take(22)));
    assert(accepts(s, h.take(23)));
    assert(accepts(s, h.take(24)));
    assert(accepts(s, h.take(25)));
    assert(accepts(s, h.take(26)));
    assert(accepts(s, h.take(27)));
    assert(accepts(s, h.take(28)));
    assert(accepts(s, h.take(29)));
    assert(accepts(s, h.take(30)));
    assert(accepts(s, h.take(31)));
    assert(accepts(s, h.take(32)));
    assert(accepts(s, h.take(33)));
}

/// The namespace that the run of step `k` filled, with its schema.
pub open spec fn filled(trace: Trace, k: usize) -> PopulatedView {
    populate_namespace::outcome(trace.runs[k as int].replies)
}

/// Schemas are listed of namespaces that are not deleted, and only of those. They are listed as
/// they
/// came into being when rows were written.
pub proof fn law_schemas_of_active_namespaces_are_listed(all: Trace, some: Trace)
    requires
        passes(ScenarioView::ListSchemas, all.replies),
        genuine(ScenarioView::ListSchemas, all),
        passes(ScenarioView::ListSchemasSoftDeletedRows, some.replies),
        genuine(ScenarioView::ListSchemasSoftDeletedRows, some),
    ensures
        expect::schemas(all.replies, 3).contains(filled(all, test_list_schemas::FIRST)),
        expect::schemas(all.replies, 3).contains(filled(all, test_list_schemas::SECOND)),
        expect::schemas(some.replies, 4).contains(
            filled(some, test_list_schemas_soft_deleted_rows::FIRST),
        ),
        !expect::schemas(some.replies, 4).contains(
            filled(some, test_list_schemas_soft_deleted_rows::SECOND),
        ),
{
    let s = ScenarioView::ListSchemas;
    assert(accepts(s, all.replies.take(4)));
    law_a_scenario_passes_only_where_those_it_runs_do(s, all, test_list_schemas::FIRST as int);
    law_a_scenario_passes_only_where_those_it_runs_do(s, all, test_list_schemas::SECOND as int);
    let d = ScenarioView::ListSchemasSoftDeletedRows;
    assert(accepts(d, some.replies.take(5)));
    law_a_scenario_passes_only_where_those_it_runs_do(
        d,
        some,
        test_list_schemas_soft_deleted_rows::FIRST as int,
    );
    law_a_scenario_passes_only_where_those_it_runs_do(
        d,
        some,
        test_list_schemas_soft_deleted_rows::SECOND as int,
    );
}

/// Listings respect soft deletion: after one of two namespaces was deleted, a listing names exactly
/// those of the two that its choice of rows sees.
pub proof fn law_listings_respect_soft_deletion(
    h: Seq<Reply>,
    k: int,
    rows: SoftDeletedRows,
    at: i64,
    name: Seq<char>,
)
    requires
        passes(ScenarioView::NamespaceSoftDeletion, h),
        0 <= k < h.len(),
        run::request(ScenarioView::NamespaceSoftDeletion, h.take(k)) == RequestView::Namespaces(
            NamespacesRequestView::List { rows },
        ),
    ensures
        h[k] is Namespaces,
        (exists|i: int|
            0 <= i < h[k]->Namespaces_0@.len() && (#[trigger] h[k]->Namespaces_0@[i])@.name == name)
            <==> {
            ||| name == "deleted-ns"@ && rows.sees(Some(at))
            ||| name == "active-ns"@ && rows.sees(None)
        },
{
    let s = ScenarioView::NamespaceSoftDeletion;
    let t = h.take(k + 1);
    assert(accepts(s, t));
    assert(t.last() == h[k]);
    let list = h[k]->Namespaces_0@;
    let names = expect::names_of(views(list));
    assert(names.to_set().contains(name) <==> exists|i: int|
        0 <= i < list.len() && (#[trigger] list[i])@.name == name) by {
        if exists|i: int| 0 <= i < list.len() && (#[trigger] list[i])@.name == name {
            let i = choose|i: int| 0 <= i < list.len() && (#[trigger] list[i])@.name == name;
            assert(names[i] == name);
        }
        if names.contains(name) {
            let i = choose|i: int| 0 <= i < names.len() && names[i] == name;
            assert(list[i]@.name == name);
        }
    }
}

/// Each namespace that is listed is deleted, which gives its id, and read again. One that is not
/// there
/// cannot be deleted.
pub proof fn law_every_listed_namespace_is_deleted(h: Seq<Reply>, j: int)
    requires
        passes(ScenarioView::Namespace, h),
        0 <= j < expect::namespaces(h, test_namespace::LISTED).len(),
    ensures
        ({
            let list = expect::namespaces(h, test_namespace::LISTED);
            let asked = |k: int| run::request(ScenarioView::Namespace, h.take(k));
            let k = test_namespace::LISTED + 1 + 2 * j;
            let end = test_namespace::LISTED + 1 + 2 * list.len();
            &&& asked(k) == RequestView::Namespaces(
                NamespacesRequestView::SoftDelete { id: list[j].id },
            )
            &&& h[k] == Reply::Id(list[j].id)
            &&& asked(k + 1) == RequestView::Namespaces(
                NamespacesRequestView::GetById { id: list[j].id, rows: SoftDeletedRows::AllRows },
            )
            &&& h[k + 1] is Namespace
            &&& h.len() == end + 1
            &&& asked(end) == RequestView::Namespaces(NamespacesRequestView::SoftDelete { id: 42 })
            &&& h[end] is Failed && h[end]->Failed_0.kind == ErrorKind::NotFound
        }),
{
    let s = ScenarioView::Namespace;
    let list = expect::namespaces(h, test_namespace::LISTED);
    let at = test_namespace::LISTED as int;
    let k = test_namespace::LISTED + 1 + 2 * j;
    let end = test_namespace::LISTED + 1 + 2 * list.len();
    assert(h.len() > end);
    assert(h.take(k)[at] == h[at] && h.take(k + 1)[at] == h[at] && h.take(k + 2)[at] == h[at]);
    assert(h.take(end)[at] == h[at] && h.take(end + 1)[at] == h[at]);
    assert(accepts(s, h.take(k + 1)));
    assert(accepts(s, h.take(k + 2)));
    assert(accepts(s, h.take(end + 1)));
    assert(h.take(k + 1).last() == h[k] && h.take(k + 2).last() == h[k + 1]);
    assert(h.take(end + 1).last() == h[end]);
    if h.len() > end + 1 {
        assert(finished(s, h.take(end + 1)));
    }
}

/// The changes that are made at the same time are of one namespace and take turns: its retention
/// period, its limit of tables and its limit of columns, each as often.
pub proof fn law_concurrent_changes_take_turns(id: i64, i: int)
    requires
        0 <= i < 25,
    ensures
        ({
            let all = test_namespace_router_version_atomicity::changes(id);
            &&& all.len() == 75
            &&& all[3 * i] == (NamespacesRequestView::UpdateRetentionPeriod {
                id,
                retention_period_ns: Some(1),
            })
            &&& all[3 * i + 1] == (NamespacesRequestView::UpdateTableLimit { id, max_tables: 100 })
            &&& all[3 * i + 2] == (NamespacesRequestView::UpdateColumnLimit {
                id,
                max_columns_per_table: 100,
            })
        }),
{
}

/// The namespace whose changes are counted is created with a name alone, starts at version 0, and
/// is
/// read by that name.
pub proof fn law_changes_are_counted_from_the_start(h: Seq<Reply>)
    requires
        passes(ScenarioView::NamespaceRouterVersionAtomicity, h),
    ensures
        ({
            let asked = |k: int|
                run::request(ScenarioView::NamespaceRouterVersionAtomicity, h.take(k));
            &&& asked(0) == RequestView::Value(ValueRequestView::Defaults)
            &&& h[0] is Defaults
            &&& asked(1) == RequestView::Namespaces(
                NamespacesRequestView::Create {
                    name: "bananas_namespace"@,
                    partition_template: None,
                    retention_period_ns: None,
                },
            )
            &&& h[1] is Namespace
            &&& h[1]->Namespace_0.id > 0
            &&& h[1]->Namespace_0@.name == "bananas_namespace"@
            &&& h[1]->Namespace_0@.partition_template == h[0]->Defaults_0@.namespace_template
            &&& h[1]->Namespace_0.router_version == 0
            &&& asked(3) == RequestView::Namespaces(
                NamespacesRequestView::GetByName {
                    name: "bananas_namespace"@,
                    rows: SoftDeletedRows::AllRows,
                },
            )
            &&& h[3] is Namespace && h[3]->Namespace_0.router_version == 75
            &&& h.len() == 4
        }),
{
    let s = ScenarioView::NamespaceRouterVersionAtomicity;
    assert(accepts(s, h.take(1)));
    assert(accepts(s, h.take(2)));
    assert(accepts(s, h.take(4)));
    if h.len() > 4 {
        assert(finished(s, h.take(4)));
    }
}

/// Every namespace that is given is asked to keep its data for ever, and none refuses.
pub proof fn law_every_namespace_keeps_for_ever(
    h: Seq<Reply>,
    namespaces: Seq<NamespaceView>,
    i: int,
)
    requires
        passes(ScenarioView::KeepForEver { namespaces }, h),
        0 <= i < namespaces.len(),
    ensures
        h.len() == namespaces.len(),
        run::request(ScenarioView::KeepForEver { namespaces }, h.take(i))
            == RequestView::Namespaces(
            NamespacesRequestView::UpdateRetentionPeriod {
                id: namespaces[i].id,
                retention_period_ns: None,
            },
        ),
        h[i] is Namespace,
{
    let s = ScenarioView::KeepForEver { namespaces };
    assert(accepts(s, h.take(i + 1)));
    assert(h.take(i + 1).last() == h[i]);
    if h.len() > namespaces.len() {
        assert(finished(s, h.take(namespaces.len() as int)));
    }
}

/// A namespace that is filled is created, or read by its name where that is taken. The rows are
/// split
/// into batches, and the schema of the namespace gets what they need. What is handed on is the
/// namespace with that schema.
pub proof fn law_a_namespace_is_created_or_found(
    h: Seq<Reply>,
    name: Seq<char>,
    lines: Seq<char>,
    outcome: Reply,
)
    requires
        passes(ScenarioView::PopulateNamespace { name, lines }, h),
        run::is_outcome(ScenarioView::PopulateNamespace { name, lines }, h, outcome),
    ensures
        ({
            let asked = |k: int|
                run::request(ScenarioView::PopulateNamespace { name, lines }, h.take(k));
            let at: int = if h[0] is Failed {
                1
            } else {
                0
            };
            let namespace = h[at]->Namespace_0@;
            &&& asked(0) == RequestView::Namespaces(
                NamespacesRequestView::Create {
                    name,
                    partition_template: None,
                    retention_period_ns: None,
                },
            )
            &&& h[0] is Failed ==> h[0]->Failed_0.kind == ErrorKind::AlreadyExists && asked(1)
                == RequestView::Namespaces(
                NamespacesRequestView::GetByName { name, rows: SoftDeletedRows::AllRows },
            )
            &&& h.len() == at + 4
            &&& h[at] is Namespace
            &&& asked(at + 1) == RequestView::Helper(
                HelperRequestView::LinesToBatches { lines, default_time: 42 },
            )
            &&& h[at + 1] is Batches
            &&& asked(at + 2) == RequestView::Value(ValueRequestView::EmptySchema { namespace })
            &&& h[at + 2] is Schema
            &&& asked(at + 3) == RequestView::Helper(
                HelperRequestView::ValidateOrInsertSchema {
                    batches: views(h[at + 1]->Batches_0@),
                    schema: h[at + 2]->Schema_0@,
                },
            )
            &&& h[at + 3] is TableSchemas || h[at + 3] is Nothing
            &&& outcome is Populated
            &&& outcome->Populated_0@.namespace == namespace
            &&& outcome->Populated_0@.schema == (NamespaceSchemaView {
                tables: if h[at + 3] is TableSchemas {
                    by_name(views(h[at + 3]->TableSchemas_0@))
                } else {
                    h[at + 2]->Schema_0@.tables
                },
                ..h[at + 2]->Schema_0@
            })
        }),
{
    let s = ScenarioView::PopulateNamespace { name, lines };
    populate_namespace::lemma_known(h, h.len() as int, name, lines);
    let at: int = if h[0] is Failed {
        1
    } else {
        0
    };
    assert(accepts(s, h.take(1)));
    assert(h.take(1).last() == h[0]);
    assert(h.take(at + 1)[0] == h[0]);
    assert(h.take(at + 2)[0] == h[0]);
    assert(h.take(at + 3)[0] == h[0]);
    if h.len() > at + 4 {
        assert(h.take(at + 4)[0] == h[0]);
        assert(finished(s, h.take(at + 4)));
    }
    assert(accepts(s, h.take(at + 1)));
    assert(accepts(s, h.take(at + 2)));
    assert(accepts(s, h.take(at + 3)));
    assert(accepts(s, h.take(at + 4)));
}

/// A namespace may be created or, where its name is taken, found. Its schema may get tables or stay
/// as
/// it is.
pub proof fn law_filling_a_namespace_passes(h: Seq<Reply>, name: Seq<char>, lines: Seq<char>)
    requires
        ({
            let at: int = if h[0] is Failed {
                1
            } else {
                0
            };
            &&& h.len() == at + 4
            &&& h[0] is Failed ==> h[0]->Failed_0.kind == ErrorKind::AlreadyExists
            &&& h[at] is Namespace
            &&& h[at + 1] is Batches
            &&& h[at + 2] is Schema
            &&& h[at + 3] is TableSchemas || h[at + 3] is Nothing
        }),
    ensures
        passes(ScenarioView::PopulateNamespace { name, lines }, h),
{
    let s = ScenarioView::PopulateNamespace { name, lines };
    assert forall|n: int| 0 < n <= h.len() implies #[trigger] accepts(s, h.take(n)) by {
        assert(h.take(n).last() == h[n - 1]);
        assert(h.take(n)[0] == h[0]);
    }
    assert forall|n: int| 0 <= n < h.len() implies !(#[trigger] finished(s, h.take(n))) by {
        if n > 0 {
            assert(h.take(n)[0] == h[0]);
        }
    }
}

/// Namespaces may be as many as there are: where deleting each gives its id and advances its
/// version by
/// one, and deleting one that is not there is refused, all is accepted.
pub proof fn law_deleting_listed_namespaces_is_accepted(h: Seq<Reply>, j: int)
    requires
        h.len() > test_namespace::LISTED,
        h[test_namespace::LISTED as int] is Namespaces,
        0 <= j <= expect::namespaces(h, test_namespace::LISTED).len(),
    ensures
        ({
            let list = expect::namespaces(h, test_namespace::LISTED);
            let k = test_namespace::LISTED + 1 + 2 * j;
            &&& j < list.len() && h.len() == k + 1 && h[k] == Reply::Id(list[j].id) ==> accepts(
                ScenarioView::Namespace,
                h,
            )
            &&& j < list.len() && h.len() == k + 2 && h[k + 1] is Namespace && h[k
                + 1]->Namespace_0.router_version == list[j].router_version + 1 ==> accepts(
                ScenarioView::Namespace,
                h,
            )
            &&& j == list.len() && h.len() == k + 1 && h[k] is Failed && h[k]->Failed_0.kind
                == ErrorKind::NotFound ==> accepts(ScenarioView::Namespace, h)
        }),
{
    let k = test_namespace::LISTED + 1 + 2 * j;
    assert((k - test_namespace::DELETING) / 2 == j && (k - test_namespace::DELETING) % 2 == 0);
    assert((k + 1 - test_namespace::DELETING) / 2 == j && (k + 1 - test_namespace::DELETING) % 2
        == 1);
}

} // verus!
