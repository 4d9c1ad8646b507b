//! What a catalog has answered of namespaces that are created, found, changed and listed.
use crate::expect;
use crate::reply::Reply;
use crate::request::{
    HelperRequestView, NamespacesRequestView, RequestView, ScenarioView, ValueRequestView,
};
use crate::run;
use crate::run::{accepts, passes};
use crate::same::lemma_two_commute;
use crate::same::views;
use crate::scenarios::test_namespace::{
    COLUMNS_LIMITED, CREATED, DEFAULTS, NEW_RETENTION_PERIOD_NS, RETAINING, RETENTION_SET, SECOND,
    TABLES_LIMITED, TEMPLATE, TEMPLATED,
};
use crate::text::{law_texts_are_ordered, text_before};
use crate::types::{ErrorKind, SoftDeletedRows, TemplatePartView};
use vstd::prelude::*;

verus! {

/// What step `k` asks for.
pub open spec fn asked(h: Seq<Reply>, k: int) -> RequestView {
    run::request(ScenarioView::Namespace, h.take(k))
}

/// A namespace that is created with a name alone has that name, a new id, the default template and
/// the default limits, and starts at version 0. A second one of that name is refused.
pub proof fn law_a_new_namespace_has_the_defaults(h: Seq<Reply>)
    requires
        passes(ScenarioView::Namespace, h),
    ensures
        asked(h, 0) == RequestView::Value(ValueRequestView::Defaults),
        h[0] is Defaults,
        asked(h, 1) == RequestView::Namespaces(
            NamespacesRequestView::Create {
                name: "test_namespace"@,
                partition_template: None,
                retention_period_ns: None,
            },
        ),
        h[1] is Namespace && h[1]->Namespace_0.id > 0,
        h[1]->Namespace_0@.name == "test_namespace"@,
        h[1]->Namespace_0@.partition_template == expect::defaults(h, DEFAULTS).namespace_template,
        h[1]->Namespace_0.router_version == 0,
        asked(h, 2) == RequestView::Namespaces(
            NamespacesRequestView::GetByName {
                name: "test_namespace"@,
                rows: SoftDeletedRows::ExcludeDeleted,
            },
        ),
        h[2] is Namespace && h[2]->Namespace_0@ == expect::namespace(h, CREATED),
        expect::namespace(h, CREATED).max_tables == expect::defaults(h, DEFAULTS).max_tables,
        expect::namespace(h, CREATED).max_columns_per_table == expect::defaults(
            h,
            DEFAULTS,
        ).max_columns_per_table,
        asked(h, 3) == RequestView::Namespaces(
            NamespacesRequestView::Create {
                name: "test_namespace"@,
                partition_template: None,
                retention_period_ns: None,
            },
        ),
        h[3] is Failed && h[3]->Failed_0.kind == ErrorKind::AlreadyExists,
{
    let s = ScenarioView::Namespace;
    assert(accepts(s, h.take(1)));
    assert(accepts(s, h.take(2)));
    assert(accepts(s, h.take(3)));
    assert(accepts(s, h.take(4)));
}

/// Answers like these are accepted.
pub proof fn law_a_new_namespace_has_the_defaults_which_is_enough(h: Seq<Reply>)
    requires
        h.len() > 3,
        h[0] is Defaults,
        h[1] is Namespace && h[1]->Namespace_0.id > 0,
        h[1]->Namespace_0@.name == "test_namespace"@,
        h[1]->Namespace_0@.partition_template == expect::defaults(h, DEFAULTS).namespace_template,
        h[1]->Namespace_0.router_version == 0,
        h[2] is Namespace && h[2]->Namespace_0@ == expect::namespace(h, CREATED),
        expect::namespace(h, CREATED).max_tables == expect::defaults(h, DEFAULTS).max_tables,
        expect::namespace(h, CREATED).max_columns_per_table == expect::defaults(
            h,
            DEFAULTS,
        ).max_columns_per_table,
        h[3] is Failed && h[3]->Failed_0.kind == ErrorKind::AlreadyExists,
    ensures
        accepts(ScenarioView::Namespace, h.take(1)),
        accepts(ScenarioView::Namespace, h.take(2)),
        accepts(ScenarioView::Namespace, h.take(3)),
        accepts(ScenarioView::Namespace, h.take(4)),
{
    assert(h.take(1).last() == h[0]);
    assert(h.take(2).last() == h[1]);
    assert(h.take(3).last() == h[2]);
    assert(h.take(4).last() == h[3]);
}

/// A namespace is found by its id and by its name as it was created, and nothing is found by
/// others.
pub proof fn law_a_namespace_is_found_as_it_was_created(h: Seq<Reply>)
    requires
        passes(ScenarioView::Namespace, h),
    ensures
        asked(h, 4) == RequestView::Namespaces(
            NamespacesRequestView::GetById {
                id: expect::namespace(h, CREATED).id,
                rows: SoftDeletedRows::ExcludeDeleted,
            },
        ),
        h[4] is Namespace && h[4]->Namespace_0@ == expect::namespace(h, CREATED),
        asked(h, 5) == RequestView::Namespaces(
            NamespacesRequestView::GetById { id: i64::MAX, rows: SoftDeletedRows::ExcludeDeleted },
        ),
        h[5] is Nothing,
        asked(h, 6) == RequestView::Namespaces(
            NamespacesRequestView::GetByName {
                name: "test_namespace"@,
                rows: SoftDeletedRows::ExcludeDeleted,
            },
        ),
        h[6] is Namespace && h[6]->Namespace_0@ == expect::namespace(h, CREATED),
        asked(h, 7) == RequestView::Namespaces(
            NamespacesRequestView::GetByName {
                name: "does_not_exist"@,
                rows: SoftDeletedRows::ExcludeDeleted,
            },
        ),
        h[7] is Nothing,
{
    let s = ScenarioView::Namespace;
    assert(accepts(s, h.take(5)));
    assert(accepts(s, h.take(6)));
    assert(accepts(s, h.take(7)));
    assert(accepts(s, h.take(8)));
}

/// Answers like these are accepted.
pub proof fn law_a_namespace_is_found_as_it_was_created_which_is_enough(h: Seq<Reply>)
    requires
        h.len() > 7,
        h[4] is Namespace && h[4]->Namespace_0@ == expect::namespace(h, CREATED),
        h[5] is Nothing,
        h[6] is Namespace && h[6]->Namespace_0@ == expect::namespace(h, CREATED),
        h[7] is Nothing,
    ensures
        accepts(ScenarioView::Namespace, h.take(5)),
        accepts(ScenarioView::Namespace, h.take(6)),
        accepts(ScenarioView::Namespace, h.take(7)),
        accepts(ScenarioView::Namespace, h.take(8)),
{
    assert(h.take(5).last() == h[4]);
    assert(h.take(6).last() == h[5]);
    assert(h.take(7).last() == h[6]);
    assert(h.take(8).last() == h[7]);
}

/// The two namespaces that were created are listed, and no others, and by name the first of them
/// does not come after the second.
pub proof fn law_exactly_the_namespaces_created_are_listed(h: Seq<Reply>)
    requires
        passes(ScenarioView::Namespace, h),
    ensures
        asked(h, 8) == RequestView::Helper(
            HelperRequestView::ArbitraryNamespace { name: "test_namespace2"@ },
        ),
        h[8] is Namespace,
        asked(h, 9) == RequestView::Namespaces(
            NamespacesRequestView::List { rows: SoftDeletedRows::ExcludeDeleted },
        ),
        h[9] is Namespaces,
        views(h[9]->Namespaces_0@).to_multiset() == seq![
            expect::namespace(h, CREATED),
            expect::namespace(h, SECOND),
        ].to_multiset(),
        !text_before(expect::namespace(h, SECOND).name, expect::namespace(h, CREATED).name),
{
    let s = ScenarioView::Namespace;
    assert(accepts(s, h.take(9)));
    assert(accepts(s, h.take(10)));
    let a = expect::namespace(h, CREATED);
    let b = expect::namespace(h, SECOND);
    let list = views(h[9]->Namespaces_0@);
    law_texts_are_ordered(a.name, b.name);
    if text_before(list[1].name, list[0].name) {
        assert(list =~= seq![b, a]);
        lemma_two_commute(b, a);
    } else {
        assert(list =~= seq![a, b]);
    }
}

/// Answers like these are accepted.
pub proof fn law_exactly_the_namespaces_created_are_listed_which_is_enough(h: Seq<Reply>)
    requires
        h.len() > 8,
        h[8] is Namespace,
    ensures
        accepts(ScenarioView::Namespace, h.take(9)),
{
    assert(h.take(9).last() == h[8]);
}

/// A change of a limit or of the retention period comes back in the namespace, whose version it
/// advances by one. A retention period can be given at once and taken away again.
pub proof fn law_changes_of_limits_and_retention_are_returned(h: Seq<Reply>)
    requires
        passes(ScenarioView::Namespace, h),
    ensures
        asked(h, 10) == RequestView::Namespaces(
            NamespacesRequestView::UpdateTableLimit {
                id: expect::namespace(h, CREATED).id,
                max_tables: 15_000,
            },
        ),
        h[10] is Namespace && h[10]->Namespace_0.max_tables == 15_000,
        h[10]->Namespace_0.router_version == expect::namespace(h, CREATED).router_version + 1,
        asked(h, 11) == RequestView::Namespaces(
            NamespacesRequestView::UpdateColumnLimit {
                id: expect::namespace(h, CREATED).id,
                max_columns_per_table: 1_500,
            },
        ),
        h[11] is Namespace && h[11]->Namespace_0.max_columns_per_table == 1_500,
        h[11]->Namespace_0.router_version == expect::namespace(
            h,
            TABLES_LIMITED,
        ).router_version + 1,
        asked(h, 12) == RequestView::Namespaces(
            NamespacesRequestView::UpdateRetentionPeriod {
                id: expect::namespace(h, CREATED).id,
                retention_period_ns: Some(NEW_RETENTION_PERIOD_NS),
            },
        ),
        h[12] is Namespace && h[12]->Namespace_0.retention_period_ns == Some(
            NEW_RETENTION_PERIOD_NS,
        ),
        h[12]->Namespace_0.router_version == expect::namespace(
            h,
            COLUMNS_LIMITED,
        ).router_version + 1,
        asked(h, 13) == RequestView::Namespaces(
            NamespacesRequestView::UpdateRetentionPeriod {
                id: expect::namespace(h, CREATED).id,
                retention_period_ns: None,
            },
        ),
        h[13] is Namespace && h[13]->Namespace_0.retention_period_ns is None,
        h[13]->Namespace_0.router_version == expect::namespace(h, RETENTION_SET).router_version + 1,
        asked(h, 14) == RequestView::Helper(
            HelperRequestView::ArbitraryNamespace { name: "test_namespace3"@ },
        ),
        h[14] is Namespace && h[14]->Namespace_0.retention_period_ns is None,
        asked(h, 15) == RequestView::Namespaces(
            NamespacesRequestView::Create {
                name: "test_namespace4"@,
                partition_template: None,
                retention_period_ns: Some(NEW_RETENTION_PERIOD_NS),
            },
        ),
        h[15] is Namespace && h[15]->Namespace_0.retention_period_ns == Some(
            NEW_RETENTION_PERIOD_NS,
        ),
        h[15]->Namespace_0.router_version == 0,
        asked(h, 16) == RequestView::Namespaces(
            NamespacesRequestView::UpdateRetentionPeriod {
                id: expect::namespace(h, RETAINING).id,
                retention_period_ns: None,
            },
        ),
        h[16] is Namespace && h[16]->Namespace_0.retention_period_ns is None,
        h[16]->Namespace_0.router_version == expect::namespace(h, RETAINING).router_version + 1,
        NEW_RETENTION_PERIOD_NS == 5 * 60 * 60 * 1_000_000_000,
{
    let s = ScenarioView::Namespace;
    assert(accepts(s, h.take(11)));
    assert(accepts(s, h.take(12)));
    assert(accepts(s, h.take(13)));
    assert(accepts(s, h.take(14)));
    assert(accepts(s, h.take(15)));
    assert(accepts(s, h.take(16)));
    assert(accepts(s, h.take(17)));
}

/// Answers like these are accepted.
pub proof fn law_changes_of_limits_and_retention_are_returned_which_is_enough(h: Seq<Reply>)
    requires
        h.len() > 16,
        h[10] is Namespace && h[10]->Namespace_0.max_tables == 15_000,
        h[10]->Namespace_0.router_version == expect::namespace(h, CREATED).router_version + 1,
        h[11] is Namespace && h[11]->Namespace_0.max_columns_per_table == 1_500,
        h[11]->Namespace_0.router_version == expect::namespace(
            h,
            TABLES_LIMITED,
        ).router_version + 1,
        h[12] is Namespace && h[12]->Namespace_0.retention_period_ns == Some(
            NEW_RETENTION_PERIOD_NS,
        ),
        h[12]->Namespace_0.router_version == expect::namespace(
            h,
            COLUMNS_LIMITED,
        ).router_version + 1,
        h[13] is Namespace && h[13]->Namespace_0.retention_period_ns is None,
        h[13]->Namespace_0.router_version == expect::namespace(h, RETENTION_SET).router_version + 1,
        h[14] is Namespace && h[14]->Namespace_0.retention_period_ns is None,
        h[15] is Namespace && h[15]->Namespace_0.retention_period_ns == Some(
            NEW_RETENTION_PERIOD_NS,
        ),
        h[15]->Namespace_0.router_version == 0,
        h[16] is Namespace && h[16]->Namespace_0.retention_period_ns is None,
        h[16]->Namespace_0.router_version == expect::namespace(h, RETAINING).router_version + 1,
    ensures
        accepts(ScenarioView::Namespace, h.take(11)),
        accepts(ScenarioView::Namespace, h.take(12)),
        accepts(ScenarioView::Namespace, h.take(13)),
        accepts(ScenarioView::Namespace, h.take(14)),
        accepts(ScenarioView::Namespace, h.take(15)),
        accepts(ScenarioView::Namespace, h.take(16)),
        accepts(ScenarioView::Namespace, h.take(17)),
{
    assert(h.take(11).last() == h[10]);
    assert(h.take(12).last() == h[11]);
    assert(h.take(13).last() == h[12]);
    assert(h.take(14).last() == h[13]);
    assert(h.take(15).last() == h[14]);
    assert(h.take(16).last() == h[15]);
    assert(h.take(17).last() == h[16]);
}

/// A namespace that is created with a template has it, and is found with it.
pub proof fn law_a_namespace_keeps_its_template(h: Seq<Reply>)
    requires
        passes(ScenarioView::Namespace, h),
    ensures
        asked(h, 17) == RequestView::Value(
            ValueRequestView::NamespaceTemplate {
                parts: seq![TemplatePartView::TagValue("tag1"@)],
            },
        ),
        h[17] is Template,
        asked(h, 18) == RequestView::Namespaces(
            NamespacesRequestView::Create {
                name: "test_namespace5"@,
                partition_template: Some(expect::template(h, TEMPLATE)),
                retention_period_ns: None,
            },
        ),
        h[18] is Namespace && h[18]->Namespace_0@.partition_template == expect::template(
            h,
            TEMPLATE,
        ),
        asked(h, 19) == RequestView::Namespaces(
            NamespacesRequestView::GetByName {
                name: "test_namespace5"@,
                rows: SoftDeletedRows::ExcludeDeleted,
            },
        ),
        h[19] is Namespace && h[19]->Namespace_0@ == expect::namespace(h, TEMPLATED),
        asked(h, 20) == RequestView::Namespaces(
            NamespacesRequestView::List { rows: SoftDeletedRows::ExcludeDeleted },
        ),
        h[20] is Namespaces,
{
    let s = ScenarioView::Namespace;
    assert(accepts(s, h.take(18)));
    assert(accepts(s, h.take(19)));
    assert(accepts(s, h.take(20)));
    assert(accepts(s, h.take(21)));
}

/// Answers like these are accepted.
pub proof fn law_a_namespace_keeps_its_template_which_is_enough(h: Seq<Reply>)
    requires
        h.len() > 20,
        h[17] is Template,
        h[18] is Namespace && h[18]->Namespace_0@.partition_template == expect::template(
            h,
            TEMPLATE,
        ),
        h[19] is Namespace && h[19]->Namespace_0@ == expect::namespace(h, TEMPLATED),
        h[20] is Namespaces,
    ensures
        accepts(ScenarioView::Namespace, h.take(18)),
        accepts(ScenarioView::Namespace, h.take(19)),
        accepts(ScenarioView::Namespace, h.take(20)),
        accepts(ScenarioView::Namespace, h.take(21)),
{
    assert(h.take(18).last() == h[17]);
    assert(h.take(19).last() == h[18]);
    assert(h.take(20).last() == h[19]);
    assert(h.take(21).last() == h[20]);
}

} // verus!
