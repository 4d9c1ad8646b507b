//! Tables can be created, found and limited.
use crate::check;
use crate::expect;
use crate::reply::Reply;
use crate::request::{
    ColumnsRequest, ColumnsRequestView, HelperRequest, HelperRequestView, NamespacesRequest,
    NamespacesRequestView, Request, RequestView, Scenario, ScenarioView, TablesRequest,
    TablesRequestView, ValueRequest, ValueRequestView,
};
use crate::run;
use crate::run::accepted;
use crate::types::{ErrorKind, TemplatePart, TemplatePartView};
use vstd::prelude::*;

verus! {

/// The step that gives the defaults.
pub const DEFAULTS: usize = 0;

/// The step that gives a namespace.
pub const FIRST: usize = 1;

/// The step that gives a snapshot of the empty namespace.
pub const S1: usize = 2;

/// The step that gives a table.
pub const TABLE: usize = 4;

/// The step that gives a snapshot with the table.
pub const S2: usize = 5;

/// The step that gives a snapshot that is asked for by name.
pub const BY_NAME: usize = 7;

/// The step that gives the template that the namespace gives.
pub const TEMPLATE: usize = 10;

/// The step that gives the id of the namespace as it is shown.
pub const ID_TEXT: usize = 11;

/// The step that gives another namespace.
pub const SECOND: usize = 17;

/// The step that gives a table of the same name.
pub const NAMESAKE: usize = 18;

/// The step that gives a snapshot of the other namespace.
pub const S3: usize = 19;

/// The step that gives a table of another name.
pub const FOO: usize = 21;

/// The step that gives the namespace with a limit of one table.
pub const LIMITED: usize = 28;

/// The step that gives the template that it gives.
pub const LIMITED_TEMPLATE: usize = 29;

/// The step that gives a template other than the default.
pub const CUSTOM: usize = 31;

/// The step that gives a table with that template.
pub const TEMPLATED: usize = 32;

/// The step that gives a template for a namespace.
pub const NAMESPACE_TEMPLATE: usize = 35;

/// The step that gives a namespace with that template.
pub const CUSTOM_NAMESPACE: usize = 36;

/// The step that gives the template that its tables get.
pub const INHERITED: usize = 37;

/// The step that gives a table of that namespace.
pub const HEIR: usize = 38;

/// How many requests there are.
pub const LENGTH: usize = 43;

/// What is asked for when the replies so far are `h`.
pub open spec fn request(h: Seq<Reply>) -> RequestView {
    let n = h.len();
    if n == DEFAULTS {
        // the defaults
        RequestView::Value(ValueRequestView::Defaults)
    } else if n == FIRST {
        // a namespace
        RequestView::Helper(HelperRequestView::ArbitraryNamespace { name: "namespace_table_test"@ })
    } else if n == S1 {
        // a snapshot of the empty namespace
        RequestView::Namespaces(
            NamespacesRequestView::Snapshot { id: expect::namespace(h, FIRST).id },
        )
    } else if n == 3 {
        RequestView::Run(
            ScenarioView::ValidateNamespaceSnapshot {
                namespace_snapshot: expect::namespace_snapshot(h, S1),
            },
        )
    } else if n == TABLE {
        // a table
        RequestView::Helper(
            HelperRequestView::ArbitraryTable {
                name: "test_table"@,
                namespace: expect::namespace(h, FIRST),
            },
        )
    } else if n == S2 {
        // a snapshot with the table
        RequestView::Namespaces(
            NamespacesRequestView::Snapshot { id: expect::namespace(h, FIRST).id },
        )
    } else if n == 6 {
        // which is newer
        RequestView::Run(
            ScenarioView::ValidateNamespaceSnapshot {
                namespace_snapshot: expect::namespace_snapshot(h, S2),
            },
        )
    } else if n == BY_NAME {
        // a snapshot that is asked for by name
        RequestView::Namespaces(
            NamespacesRequestView::SnapshotByName { name: "namespace_table_test"@ },
        )
    } else if n == 8 {
        // another name has none
        RequestView::Namespaces(NamespacesRequestView::SnapshotByName { name: "a"@ })
    } else if n == 9 {
        // the default template needs no columns
        RequestView::Columns(
            ColumnsRequestView::ListByTableId { table_id: expect::table(h, TABLE).id },
        )
    } else if n == TEMPLATE {
        // the template that the namespace gives
        RequestView::Value(
            ValueRequestView::TableTemplate {
                own_parts: None,
                namespace_template: expect::namespace(h, FIRST).partition_template,
            },
        )
    } else if n == ID_TEXT {
        // how the id of the namespace is shown
        RequestView::Value(ValueRequestView::NamespaceIdText { id: expect::namespace(h, FIRST).id })
    } else if n == 12 {
        // the name is taken
        RequestView::Tables(
            TablesRequestView::Create {
                name: "test_table"@,
                partition_template: expect::template(h, TEMPLATE),
                namespace_id: expect::namespace(h, FIRST).id,
            },
        )
    } else if n == 13 {
        // the table can be found by its id
        RequestView::Tables(TablesRequestView::GetById { id: expect::table(h, TABLE).id })
    } else if n == 14 {
        // another id finds nothing
        RequestView::Tables(TablesRequestView::GetById { id: i64::MAX })
    } else if n == 15 {
        // the namespace has one table
        RequestView::Tables(
            TablesRequestView::ListByNamespaceId { namespace_id: expect::namespace(h, FIRST).id },
        )
    } else if n == 16 {
        // another id has none
        RequestView::Tables(TablesRequestView::ListByNamespaceId { namespace_id: i64::MAX })
    } else if n == SECOND {
        // another namespace
        RequestView::Helper(HelperRequestView::ArbitraryNamespace { name: "two"@ })
    } else if n == NAMESAKE {
        // a table of the same name
        RequestView::Helper(
            HelperRequestView::ArbitraryTable {
                name: "test_table"@,
                namespace: expect::namespace(h, SECOND),
            },
        )
    } else if n == S3 {
        // a snapshot of the other namespace
        RequestView::Namespaces(
            NamespacesRequestView::Snapshot { id: expect::namespace(h, SECOND).id },
        )
    } else if n == 20 {
        RequestView::Run(
            ScenarioView::ValidateNamespaceSnapshot {
                namespace_snapshot: expect::namespace_snapshot(h, S3),
            },
        )
    } else if n == FOO {
        // a table of another name
        RequestView::Helper(
            HelperRequestView::ArbitraryTable {
                name: "foo"@,
                namespace: expect::namespace(h, SECOND),
            },
        )
    } else if n == 22 {
        // names are looked up in one namespace
        RequestView::Tables(
            TablesRequestView::GetByNamespaceAndName {
                namespace_id: i64::MAX,
                name: "test_table"@,
            },
        )
    } else if n == 23 {
        RequestView::Tables(
            TablesRequestView::GetByNamespaceAndName {
                namespace_id: expect::namespace(h, FIRST).id,
                name: "not_existing"@,
            },
        )
    } else if n == 24 {
        RequestView::Tables(
            TablesRequestView::GetByNamespaceAndName {
                namespace_id: expect::namespace(h, FIRST).id,
                name: "test_table"@,
            },
        )
    } else if n == 25 {
        RequestView::Tables(
            TablesRequestView::GetByNamespaceAndName {
                namespace_id: expect::namespace(h, SECOND).id,
                name: "test_table"@,
            },
        )
    } else if n == 26 {
        RequestView::Tables(
            TablesRequestView::GetByNamespaceAndName {
                namespace_id: expect::namespace(h, SECOND).id,
                name: "foo"@,
            },
        )
    } else if n == 27 {
        // all tables are listed, whatever their namespace
        RequestView::Tables(TablesRequestView::List)
    } else if n == LIMITED {
        // the namespace with a limit of one table
        RequestView::Namespaces(
            NamespacesRequestView::UpdateTableLimit {
                id: expect::namespace(h, FIRST).id,
                max_tables: 1,
            },
        )
    } else if n == LIMITED_TEMPLATE {
        // the template that it gives
        RequestView::Value(
            ValueRequestView::TableTemplate {
                own_parts: None,
                namespace_template: expect::namespace(h, LIMITED).partition_template,
            },
        )
    } else if n == 30 {
        // no more tables are created
        RequestView::Tables(
            TablesRequestView::Create {
                name: "definitely_unique"@,
                partition_template: expect::template(h, LIMITED_TEMPLATE),
                namespace_id: expect::namespace(h, LIMITED).id,
            },
        )
    } else if n == CUSTOM {
        // a template other than the default
        RequestView::Value(
            ValueRequestView::TableTemplate {
                own_parts: Some(
                    seq![
                        TemplatePartView::TagValue("tag1"@),
                        TemplatePartView::TimeFormat("year-%Y"@),
                        TemplatePartView::TagValue("tag2"@),
                    ],
                ),
                namespace_template: expect::namespace(h, SECOND).partition_template,
            },
        )
    } else if n == TEMPLATED {
        // a table with that template
        RequestView::Tables(
            TablesRequestView::Create {
                name: "use_a_template"@,
                partition_template: expect::template(h, CUSTOM),
                namespace_id: expect::namespace(h, SECOND).id,
            },
        )
    } else if n == 33 {
        // it has a column for each tag of the template
        RequestView::Columns(
            ColumnsRequestView::ListByTableId { table_id: expect::table(h, TEMPLATED).id },
        )
    } else if n == 34 {
        RequestView::Tables(
            TablesRequestView::GetByNamespaceAndName {
                namespace_id: expect::namespace(h, SECOND).id,
                name: "use_a_template"@,
            },
        )
    } else if n == NAMESPACE_TEMPLATE {
        // a template for a namespace
        RequestView::Value(
            ValueRequestView::NamespaceTemplate {
                parts: seq![
                    TemplatePartView::TagValue("zzz"@),
                    TemplatePartView::TagValue("aaa"@),
                    TemplatePartView::TimeFormat("year-%Y"@),
                ],
            },
        )
    } else if n == CUSTOM_NAMESPACE {
        // a namespace with that template
        RequestView::Namespaces(
            NamespacesRequestView::Create {
                name: "custom_namespace"@,
                partition_template: Some(expect::template(h, NAMESPACE_TEMPLATE)),
                retention_period_ns: None,
            },
        )
    } else if n == INHERITED {
        // the template that its tables get
        RequestView::Value(
            ValueRequestView::TableTemplate {
                own_parts: None,
                namespace_template: expect::namespace(h, CUSTOM_NAMESPACE).partition_template,
            },
        )
    } else if n == HEIR {
        // a table of that namespace
        RequestView::Tables(
            TablesRequestView::Create {
                name: "use_namespace_template"@,
                partition_template: expect::template(h, INHERITED),
                namespace_id: expect::namespace(h, CUSTOM_NAMESPACE).id,
            },
        )
    } else if n == 39 {
        // it has the template of the namespace
        RequestView::Value(
            ValueRequestView::TableTemplate {
                own_parts: None,
                namespace_template: expect::template(h, NAMESPACE_TEMPLATE),
            },
        )
    } else if n == 40 {
        // and a column for each of its tags
        RequestView::Columns(
            ColumnsRequestView::ListByTableId { table_id: expect::table(h, HEIR).id },
        )
    } else if n == 41 {
        // the namespaces are deleted
        RequestView::Namespaces(
            NamespacesRequestView::SoftDelete { id: expect::namespace(h, FIRST).id },
        )
    } else {
        RequestView::Namespaces(
            NamespacesRequestView::SoftDelete { id: expect::namespace(h, SECOND).id },
        )
    }
}

/// The last of the replies `h` is as it has to be, where the ones before it were.
pub open spec fn accepts(h: Seq<Reply>) -> bool {
    let n = h.len() - 1;
    if n == DEFAULTS {
        expect::got_defaults(h)
    } else if n == FIRST {
        expect::got_namespace(h)
    } else if n == S1 {
        expect::got_namespace_snapshot(h)
    } else if n == 3 {
        expect::passed(h)
    } else if n == TABLE {
        expect::got_table(h) && expect::fresh_table(h, DEFAULTS)
    } else if n == S2 {
        expect::got_namespace_snapshot(h)
    } else if n == 6 {
        expect::passed(h) && expect::newer(h, S2, S1)
    } else if n == BY_NAME {
        expect::got_namespace_snapshot(h)
            && expect::same_snapshot_namespace(h, S2, BY_NAME)
            && expect::not_older(h, BY_NAME, S2)
    } else if n == 8 {
        expect::refused_with(h, ErrorKind::NotFound)
    } else if n == 9 {
        expect::no_columns(h)
    } else if n == TEMPLATE {
        expect::got_template(h)
    } else if n == ID_TEXT {
        expect::got_text(h)
    } else if n == 12 {
        expect::refused_twice_in(h, ID_TEXT)
    } else if n == 13 {
        expect::same_table(h, TABLE)
    } else if n == 14 {
        expect::nothing(h)
    } else if n == 15 {
        expect::only_table(h, TABLE)
    } else if n == 16 {
        expect::no_tables(h)
    } else if n == SECOND {
        expect::got_namespace(h) && expect::other_namespace(h, FIRST)
    } else if n == NAMESAKE {
        expect::got_table(h) && expect::other_table_in(h, TABLE, SECOND)
    } else if n == S3 {
        expect::got_namespace_snapshot(h)
    } else if n == 20 {
        expect::passed(h)
    } else if n == FOO {
        expect::got_table(h)
    } else if n == 22 {
        expect::nothing(h)
    } else if n == 23 {
        expect::nothing(h)
    } else if n == 24 {
        expect::same_table(h, TABLE)
    } else if n == 25 {
        expect::same_table(h, NAMESAKE)
    } else if n == 26 {
        expect::same_table(h, FOO)
    } else if n == 27 {
        expect::three_tables(h, TABLE, NAMESAKE, FOO)
    } else if n == LIMITED {
        expect::got_namespace(h)
    } else if n == LIMITED_TEMPLATE {
        expect::got_template(h)
    } else if n == 30 {
        expect::refused_with(h, ErrorKind::LimitExceeded)
    } else if n == CUSTOM {
        expect::got_template(h)
    } else if n == TEMPLATED {
        expect::got_table(h) && expect::table_has_template(h, CUSTOM)
    } else if n == 33 {
        expect::all_tags(h) && expect::columns_named(h, "tag1"@, "tag2"@)
    } else if n == 34 {
        expect::same_table(h, TEMPLATED)
    } else if n == NAMESPACE_TEMPLATE {
        expect::got_template(h)
    } else if n == CUSTOM_NAMESPACE {
        expect::got_namespace(h)
    } else if n == INHERITED {
        expect::got_template(h)
    } else if n == HEIR {
        expect::got_table(h)
    } else if n == 39 {
        expect::is_template_of(h, HEIR)
    } else if n == 40 {
        expect::all_tags(h) && expect::columns_named(h, "aaa"@, "zzz"@)
    } else if n == 41 {
        expect::got_id(h)
    } else if n == 42 {
        expect::got_id(h)
    } else {
        false
    }
}

/// With the replies `h` everything has been asked for.
pub open spec fn finished(h: Seq<Reply>) -> bool {
    h.len() >= LENGTH
}

/// What is known of the first `m` replies once they have been accepted.
pub proof fn lemma_known(h: Seq<Reply>, m: int)
    requires
        0 <= m <= h.len(),
        accepted(ScenarioView::Table, h, m),
    ensures
        m > DEFAULTS ==> expect::is_defaults(h, DEFAULTS),
        m > FIRST ==> expect::is_namespace(h, FIRST),
        m > S1 ==> expect::is_namespace_snapshot(h, S1),
        m > TABLE ==> expect::is_table(h, TABLE),
        m > S2 ==> expect::is_namespace_snapshot(h, S2),
        m > BY_NAME ==> expect::is_namespace_snapshot(h, BY_NAME),
        m > TEMPLATE ==> expect::is_template(h, TEMPLATE),
        m > ID_TEXT ==> expect::is_text(h, ID_TEXT),
        m > SECOND ==> expect::is_namespace(h, SECOND),
        m > NAMESAKE ==> expect::is_table(h, NAMESAKE),
        m > S3 ==> expect::is_namespace_snapshot(h, S3),
        m > FOO ==> expect::is_table(h, FOO),
        m > LIMITED ==> expect::is_namespace(h, LIMITED),
        m > LIMITED_TEMPLATE ==> expect::is_template(h, LIMITED_TEMPLATE),
        m > CUSTOM ==> expect::is_template(h, CUSTOM),
        m > TEMPLATED ==> expect::is_table(h, TEMPLATED),
        m > NAMESPACE_TEMPLATE ==> expect::is_template(h, NAMESPACE_TEMPLATE),
        m > CUSTOM_NAMESPACE ==> expect::is_namespace(h, CUSTOM_NAMESPACE),
        m > INHERITED ==> expect::is_template(h, INHERITED),
        m > HEIR ==> expect::is_table(h, HEIR),
{
    let s = ScenarioView::Table;
    if m > DEFAULTS {
        assert(run::accepts(s, h.take(DEFAULTS + 1)));
    }
    if m > FIRST {
        assert(run::accepts(s, h.take(FIRST + 1)));
    }
    if m > S1 {
        assert(run::accepts(s, h.take(S1 + 1)));
    }
    if m > TABLE {
        assert(run::accepts(s, h.take(TABLE + 1)));
    }
    if m > S2 {
        assert(run::accepts(s, h.take(S2 + 1)));
    }
    if m > BY_NAME {
        assert(run::accepts(s, h.take(BY_NAME + 1)));
    }
    if m > TEMPLATE {
        assert(run::accepts(s, h.take(TEMPLATE + 1)));
    }
    if m > ID_TEXT {
        assert(run::accepts(s, h.take(ID_TEXT + 1)));
    }
    if m > SECOND {
        assert(run::accepts(s, h.take(SECOND + 1)));
    }
    if m > NAMESAKE {
        assert(run::accepts(s, h.take(NAMESAKE + 1)));
    }
    if m > S3 {
        assert(run::accepts(s, h.take(S3 + 1)));
    }
    if m > FOO {
        assert(run::accepts(s, h.take(FOO + 1)));
    }
    if m > LIMITED {
        assert(run::accepts(s, h.take(LIMITED + 1)));
    }
    if m > LIMITED_TEMPLATE {
        assert(run::accepts(s, h.take(LIMITED_TEMPLATE + 1)));
    }
    if m > CUSTOM {
        assert(run::accepts(s, h.take(CUSTOM + 1)));
    }
    if m > TEMPLATED {
        assert(run::accepts(s, h.take(TEMPLATED + 1)));
    }
    if m > NAMESPACE_TEMPLATE {
        assert(run::accepts(s, h.take(NAMESPACE_TEMPLATE + 1)));
    }
    if m > CUSTOM_NAMESPACE {
        assert(run::accepts(s, h.take(CUSTOM_NAMESPACE + 1)));
    }
    if m > INHERITED {
        assert(run::accepts(s, h.take(INHERITED + 1)));
    }
    if m > HEIR {
        assert(run::accepts(s, h.take(HEIR + 1)));
    }
}

/// What is asked for when the replies so far are `h`.
pub fn next_request<'a>(h: &'a Vec<Reply>) -> (r: Request<'a>)
    requires
        accepted(ScenarioView::Table, h@, h@.len() as int),
        !finished(h@),
    ensures
        r@ =~~= request(h@),
{
    let n: usize = h.len();
    proof {
        lemma_known(h@, n as int);
    }
    if n == DEFAULTS {
        Request::Value(ValueRequest::Defaults)
    } else if n == FIRST {
        Request::Helper(HelperRequest::ArbitraryNamespace { name: "namespace_table_test" })
    } else if n == S1 {
        Request::Namespaces(NamespacesRequest::Snapshot { id: check::namespace(h, FIRST).id })
    } else if n == 3 {
        Request::Run(
            Scenario::ValidateNamespaceSnapshot {
                namespace_snapshot: check::namespace_snapshot(h, S1),
            },
        )
    } else if n == TABLE {
        Request::Helper(
            HelperRequest::ArbitraryTable {
                name: "test_table",
                namespace: check::namespace(h, FIRST),
            },
        )
    } else if n == S2 {
        Request::Namespaces(NamespacesRequest::Snapshot { id: check::namespace(h, FIRST).id })
    } else if n == 6 {
        Request::Run(
            Scenario::ValidateNamespaceSnapshot {
                namespace_snapshot: check::namespace_snapshot(h, S2),
            },
        )
    } else if n == BY_NAME {
        Request::Namespaces(NamespacesRequest::SnapshotByName { name: "namespace_table_test" })
    } else if n == 8 {
        Request::Namespaces(NamespacesRequest::SnapshotByName { name: "a" })
    } else if n == 9 {
        Request::Columns(ColumnsRequest::ListByTableId { table_id: check::table(h, TABLE).id })
    } else if n == TEMPLATE {
        Request::Value(
            ValueRequest::TableTemplate {
                own_parts: None,
                namespace_template: &check::namespace(h, FIRST).partition_template,
            },
        )
    } else if n == ID_TEXT {
        Request::Value(ValueRequest::NamespaceIdText { id: check::namespace(h, FIRST).id })
    } else if n == 12 {
        Request::Tables(
            TablesRequest::Create {
                name: "test_table",
                partition_template: check::template(h, TEMPLATE),
                namespace_id: check::namespace(h, FIRST).id,
            },
        )
    } else if n == 13 {
        Request::Tables(TablesRequest::GetById { id: check::table(h, TABLE).id })
    } else if n == 14 {
        Request::Tables(TablesRequest::GetById { id: i64::MAX })
    } else if n == 15 {
        Request::Tables(
            TablesRequest::ListByNamespaceId { namespace_id: check::namespace(h, FIRST).id },
        )
    } else if n == 16 {
        Request::Tables(TablesRequest::ListByNamespaceId { namespace_id: i64::MAX })
    } else if n == SECOND {
        Request::Helper(HelperRequest::ArbitraryNamespace { name: "two" })
    } else if n == NAMESAKE {
        Request::Helper(
            HelperRequest::ArbitraryTable {
                name: "test_table",
                namespace: check::namespace(h, SECOND),
            },
        )
    } else if n == S3 {
        Request::Namespaces(NamespacesRequest::Snapshot { id: check::namespace(h, SECOND).id })
    } else if n == 20 {
        Request::Run(
            Scenario::ValidateNamespaceSnapshot {
                namespace_snapshot: check::namespace_snapshot(h, S3),
            },
        )
    } else if n == FOO {
        Request::Helper(
            HelperRequest::ArbitraryTable { name: "foo", namespace: check::namespace(h, SECOND) },
        )
    } else if n == 22 {
        Request::Tables(
            TablesRequest::GetByNamespaceAndName { namespace_id: i64::MAX, name: "test_table" },
        )
    } else if n == 23 {
        Request::Tables(
            TablesRequest::GetByNamespaceAndName {
                namespace_id: check::namespace(h, FIRST).id,
                name: "not_existing",
            },
        )
    } else if n == 24 {
        Request::Tables(
            TablesRequest::GetByNamespaceAndName {
                namespace_id: check::namespace(h, FIRST).id,
                name: "test_table",
            },
        )
    } else if n == 25 {
        Request::Tables(
            TablesRequest::GetByNamespaceAndName {
                namespace_id: check::namespace(h, SECOND).id,
                name: "test_table",
            },
        )
    } else if n == 26 {
        Request::Tables(
            TablesRequest::GetByNamespaceAndName {
                namespace_id: check::namespace(h, SECOND).id,
                name: "foo",
            },
        )
    } else if n == 27 {
        Request::Tables(TablesRequest::List)
    } else if n == LIMITED {
        Request::Namespaces(
            NamespacesRequest::UpdateTableLimit {
                id: check::namespace(h, FIRST).id,
                max_tables: 1,
            },
        )
    } else if n == LIMITED_TEMPLATE {
        Request::Value(
            ValueRequest::TableTemplate {
                own_parts: None,
                namespace_template: &check::namespace(h, LIMITED).partition_template,
            },
        )
    } else if n == 30 {
        Request::Tables(
            TablesRequest::Create {
                name: "definitely_unique",
                partition_template: check::template(h, LIMITED_TEMPLATE),
                namespace_id: check::namespace(h, LIMITED).id,
            },
        )
    } else if n == CUSTOM {
        Request::Value(
            ValueRequest::TableTemplate {
                own_parts: Some(
                    vec![
                        TemplatePart::TagValue("tag1".to_owned()),
                        TemplatePart::TimeFormat("year-%Y".to_owned()),
                        TemplatePart::TagValue("tag2".to_owned()),
                    ],
                ),
                namespace_template: &check::namespace(h, SECOND).partition_template,
            },
        )
    } else if n == TEMPLATED {
        Request::Tables(
            TablesRequest::Create {
                name: "use_a_template",
                partition_template: check::template(h, CUSTOM),
                namespace_id: check::namespace(h, SECOND).id,
            },
        )
    } else if n == 33 {
        Request::Columns(ColumnsRequest::ListByTableId { table_id: check::table(h, TEMPLATED).id })
    } else if n == 34 {
        Request::Tables(
            TablesRequest::GetByNamespaceAndName {
                namespace_id: check::namespace(h, SECOND).id,
                name: "use_a_template",
            },
        )
    } else if n == NAMESPACE_TEMPLATE {
        Request::Value(
            ValueRequest::NamespaceTemplate {
                parts: vec![
                    TemplatePart::TagValue("zzz".to_owned()),
                    TemplatePart::TagValue("aaa".to_owned()),
                    TemplatePart::TimeFormat("year-%Y".to_owned()),
                ],
            },
        )
    } else if n == CUSTOM_NAMESPACE {
        Request::Namespaces(
            NamespacesRequest::Create {
                name: "custom_namespace",
                partition_template: Some(check::template(h, NAMESPACE_TEMPLATE)),
                retention_period_ns: None,
            },
        )
    } else if n == INHERITED {
        Request::Value(
            ValueRequest::TableTemplate {
                own_parts: None,
                namespace_template: &check::namespace(h, CUSTOM_NAMESPACE).partition_template,
            },
        )
    } else if n == HEIR {
        Request::Tables(
            TablesRequest::Create {
                name: "use_namespace_template",
                partition_template: check::template(h, INHERITED),
                namespace_id: check::namespace(h, CUSTOM_NAMESPACE).id,
            },
        )
    } else if n == 39 {
        Request::Value(
            ValueRequest::TableTemplate {
                own_parts: None,
                namespace_template: check::template(h, NAMESPACE_TEMPLATE),
            },
        )
    } else if n == 40 {
        Request::Columns(ColumnsRequest::ListByTableId { table_id: check::table(h, HEIR).id })
    } else if n == 41 {
        Request::Namespaces(NamespacesRequest::SoftDelete { id: check::namespace(h, FIRST).id })
    } else {
        Request::Namespaces(NamespacesRequest::SoftDelete { id: check::namespace(h, SECOND).id })
    }
}

/// Whether the last of the replies `h` is as it has to be.
pub fn accepts_last(h: &Vec<Reply>) -> (b: bool)
    requires
        h.len() > 0,
        accepted(ScenarioView::Table, h@, h@.len() - 1),
        !finished(h@.drop_last()),
    ensures
        b == accepts(h@),
{
    let n: usize = h.len() - 1;
    proof {
        lemma_known(h@, n as int);
    }
    if n == DEFAULTS {
        check::got_defaults(h)
    } else if n == FIRST {
        check::got_namespace(h)
    } else if n == S1 {
        check::got_namespace_snapshot(h)
    } else if n == 3 {
        check::passed(h)
    } else if n == TABLE {
        check::got_table(h) && check::fresh_table(h, DEFAULTS)
    } else if n == S2 {
        check::got_namespace_snapshot(h)
    } else if n == 6 {
        check::passed(h) && check::newer(h, S2, S1)
    } else if n == BY_NAME {
        check::got_namespace_snapshot(h)
            && check::same_snapshot_namespace(h, S2, BY_NAME)
            && check::not_older(h, BY_NAME, S2)
    } else if n == 8 {
        check::refused_with(h, ErrorKind::NotFound)
    } else if n == 9 {
        check::no_columns(h)
    } else if n == TEMPLATE {
        check::got_template(h)
    } else if n == ID_TEXT {
        check::got_text(h)
    } else if n == 12 {
        check::refused_twice_in(h, ID_TEXT)
    } else if n == 13 {
        check::same_table(h, TABLE)
    } else if n == 14 {
        check::nothing(h)
    } else if n == 15 {
        check::only_table(h, TABLE)
    } else if n == 16 {
        check::no_tables(h)
    } else if n == SECOND {
        check::got_namespace(h) && check::other_namespace(h, FIRST)
    } else if n == NAMESAKE {
        check::got_table(h) && check::other_table_in(h, TABLE, SECOND)
    } else if n == S3 {
        check::got_namespace_snapshot(h)
    } else if n == 20 {
        check::passed(h)
    } else if n == FOO {
        check::got_table(h)
    } else if n == 22 {
        check::nothing(h)
    } else if n == 23 {
        check::nothing(h)
    } else if n == 24 {
        check::same_table(h, TABLE)
    } else if n == 25 {
        check::same_table(h, NAMESAKE)
    } else if n == 26 {
        check::same_table(h, FOO)
    } else if n == 27 {
        check::three_tables(h, TABLE, NAMESAKE, FOO)
    } else if n == LIMITED {
        check::got_namespace(h)
    } else if n == LIMITED_TEMPLATE {
        check::got_template(h)
    } else if n == 30 {
        check::refused_with(h, ErrorKind::LimitExceeded)
    } else if n == CUSTOM {
        check::got_template(h)
    } else if n == TEMPLATED {
        check::got_table(h) && check::table_has_template(h, CUSTOM)
    } else if n == 33 {
        check::all_tags(h) && check::columns_named(h, "tag1", "tag2")
    } else if n == 34 {
        check::same_table(h, TEMPLATED)
    } else if n == NAMESPACE_TEMPLATE {
        check::got_template(h)
    } else if n == CUSTOM_NAMESPACE {
        check::got_namespace(h)
    } else if n == INHERITED {
        check::got_template(h)
    } else if n == HEIR {
        check::got_table(h)
    } else if n == 39 {
        check::is_template_of(h, HEIR)
    } else if n == 40 {
        check::all_tags(h) && check::columns_named(h, "aaa", "zzz")
    } else if n == 41 {
        check::got_id(h)
    } else if n == 42 {
        check::got_id(h)
    } else {
        false
    }
}

/// Whether everything has been asked for.
pub fn is_finished(h: &Vec<Reply>) -> (b: bool)
    ensures
        b == finished(h@),
{
    h.len() >= LENGTH
}

} // verus!
