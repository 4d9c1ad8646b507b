//! Namespaces can be created, found, changed and deleted.
use crate::check;
use crate::expect;
use crate::reply::Reply;
use crate::request::{
    HelperRequest, HelperRequestView, NamespacesRequest, NamespacesRequestView, Request,
    RequestView, ScenarioView, ValueRequest, ValueRequestView,
};
use crate::run;
use crate::run::accepted;
use crate::types::{ErrorKind, Namespace, SoftDeletedRows, TemplatePart, TemplatePartView};
use vstd::prelude::*;

verus! {

/// The step that gives the defaults.
pub const DEFAULTS: usize = 0;

/// The step that gives the namespace that is changed later.
pub const CREATED: usize = 1;

/// The step that gives a second namespace.
pub const SECOND: usize = 8;

/// The step that gives the namespace with a new limit of tables.
pub const TABLES_LIMITED: usize = 10;

/// The step that gives the namespace with a new limit of columns.
pub const COLUMNS_LIMITED: usize = 11;

/// The step that gives the namespace with a retention period.
pub const RETENTION_SET: usize = 12;

/// The step that gives the namespace without its retention period.
pub const RETENTION_UNSET: usize = 13;

/// The step that gives a namespace that was created with a retention period.
pub const RETAINING: usize = 15;

/// The step that gives a template other than the default.
pub const TEMPLATE: usize = 17;

/// The step that gives a namespace with that template.
pub const TEMPLATED: usize = 18;

/// The step that gives all namespaces, which are deleted one by one.
pub const LISTED: usize = 20;

/// Five hours.
pub const NEW_RETENTION_PERIOD_NS: i64 = 18_000_000_000_000;

/// The first step after the list of all namespaces.
pub const DELETING: usize = 21;

/// What is asked for when the replies so far are `h`.
pub open spec fn request(h: Seq<Reply>) -> RequestView {
    let n = h.len();
    if n == DEFAULTS {
        // the defaults
        RequestView::Value(ValueRequestView::Defaults)
    } else if n == CREATED {
        // the namespace that is changed later
        RequestView::Namespaces(
            NamespacesRequestView::Create {
                name: "test_namespace"@,
                partition_template: None,
                retention_period_ns: None,
            },
        )
    } else if n == 2 {
        // it can be found, and has the default limits
        RequestView::Namespaces(
            NamespacesRequestView::GetByName {
                name: "test_namespace"@,
                rows: SoftDeletedRows::ExcludeDeleted,
            },
        )
    } else if n == 3 {
        // its name is taken
        RequestView::Namespaces(
            NamespacesRequestView::Create {
                name: "test_namespace"@,
                partition_template: None,
                retention_period_ns: None,
            },
        )
    } else if n == 4 {
        // it can be found by its id
        RequestView::Namespaces(
            NamespacesRequestView::GetById {
                id: expect::namespace(h, CREATED).id,
                rows: SoftDeletedRows::ExcludeDeleted,
            },
        )
    } else if n == 5 {
        // another id finds nothing
        RequestView::Namespaces(
            NamespacesRequestView::GetById { id: i64::MAX, rows: SoftDeletedRows::ExcludeDeleted },
        )
    } else if n == 6 {
        // it can be found by its name
        RequestView::Namespaces(
            NamespacesRequestView::GetByName {
                name: "test_namespace"@,
                rows: SoftDeletedRows::ExcludeDeleted,
            },
        )
    } else if n == 7 {
        // another name finds nothing
        RequestView::Namespaces(
            NamespacesRequestView::GetByName {
                name: "does_not_exist"@,
                rows: SoftDeletedRows::ExcludeDeleted,
            },
        )
    } else if n == SECOND {
        // a second namespace
        RequestView::Helper(HelperRequestView::ArbitraryNamespace { name: "test_namespace2"@ })
    } else if n == 9 {
        // both are listed
        RequestView::Namespaces(
            NamespacesRequestView::List { rows: SoftDeletedRows::ExcludeDeleted },
        )
    } else if n == TABLES_LIMITED {
        // a new limit of tables advances the version
        RequestView::Namespaces(
            NamespacesRequestView::UpdateTableLimit {
                id: expect::namespace(h, CREATED).id,
                max_tables: 15_000,
            },
        )
    } else if n == COLUMNS_LIMITED {
        // a new limit of columns advances the version
        RequestView::Namespaces(
            NamespacesRequestView::UpdateColumnLimit {
                id: expect::namespace(h, CREATED).id,
                max_columns_per_table: 1_500,
            },
        )
    } else if n == RETENTION_SET {
        // a retention period advances the version
        RequestView::Namespaces(
            NamespacesRequestView::UpdateRetentionPeriod {
                id: expect::namespace(h, CREATED).id,
                retention_period_ns: Some(NEW_RETENTION_PERIOD_NS),
            },
        )
    } else if n == RETENTION_UNSET {
        // so does taking it away
        RequestView::Namespaces(
            NamespacesRequestView::UpdateRetentionPeriod {
                id: expect::namespace(h, CREATED).id,
                retention_period_ns: None,
            },
        )
    } else if n == 14 {
        // data is kept for ever by default
        RequestView::Helper(HelperRequestView::ArbitraryNamespace { name: "test_namespace3"@ })
    } else if n == RETAINING {
        // a namespace can be created with a retention period
        RequestView::Namespaces(
            NamespacesRequestView::Create {
                name: "test_namespace4"@,
                partition_template: None,
                retention_period_ns: Some(NEW_RETENTION_PERIOD_NS),
            },
        )
    } else if n == 16 {
        // which can be taken away
        RequestView::Namespaces(
            NamespacesRequestView::UpdateRetentionPeriod {
                id: expect::namespace(h, RETAINING).id,
                retention_period_ns: None,
            },
        )
    } else if n == TEMPLATE {
        // a template other than the default
        RequestView::Value(
            ValueRequestView::NamespaceTemplate {
                parts: seq![TemplatePartView::TagValue("tag1"@)],
            },
        )
    } else if n == TEMPLATED {
        // a namespace with that template
        RequestView::Namespaces(
            NamespacesRequestView::Create {
                name: "test_namespace5"@,
                partition_template: Some(expect::template(h, TEMPLATE)),
                retention_period_ns: None,
            },
        )
    } else if n == 19 {
        // it is found with its template
        RequestView::Namespaces(
            NamespacesRequestView::GetByName {
                name: "test_namespace5"@,
                rows: SoftDeletedRows::ExcludeDeleted,
            },
        )
    } else if n == LISTED {
        // all namespaces, which are deleted one by one
        RequestView::Namespaces(
            NamespacesRequestView::List { rows: SoftDeletedRows::ExcludeDeleted },
        )
    } else {
        let list = expect::namespaces(h, LISTED);
        let j = (n - DELETING) / 2;
        if j >= list.len() {
            // no such namespace
            RequestView::Namespaces(NamespacesRequestView::SoftDelete { id: 42 })
        } else if (n - DELETING) % 2 == 0 {
            RequestView::Namespaces(NamespacesRequestView::SoftDelete { id: list[j].id })
        } else {
            RequestView::Namespaces(
                NamespacesRequestView::GetById { id: list[j].id, rows: SoftDeletedRows::AllRows },
            )
        }
    }
}

/// The last of the replies `h` is as it has to be, where the ones before it were.
pub open spec fn accepts(h: Seq<Reply>) -> bool {
    let n = h.len() - 1;
    if n == DEFAULTS {
        expect::got_defaults(h)
    } else if n == CREATED {
        expect::got_namespace(h) && expect::fresh_namespace(h, "test_namespace"@, DEFAULTS)
    } else if n == 2 {
        expect::same_namespace(h, CREATED) && expect::has_default_limits(h, CREATED, DEFAULTS)
    } else if n == 3 {
        expect::refused_with(h, ErrorKind::AlreadyExists)
    } else if n == 4 {
        expect::same_namespace(h, CREATED)
    } else if n == 5 {
        expect::nothing(h)
    } else if n == 6 {
        expect::same_namespace(h, CREATED)
    } else if n == 7 {
        expect::nothing(h)
    } else if n == SECOND {
        expect::got_namespace(h)
    } else if n == 9 {
        expect::in_name_order(h, CREATED, SECOND)
    } else if n == TABLES_LIMITED {
        expect::got_namespace(h)
            && expect::has_table_limit(h, 15_000)
            && expect::version_follows(h, CREATED, 1)
    } else if n == COLUMNS_LIMITED {
        expect::got_namespace(h)
            && expect::has_column_limit(h, 1_500)
            && expect::version_follows(h, TABLES_LIMITED, 1)
    } else if n == RETENTION_SET {
        expect::got_namespace(h)
            && expect::has_retention(h, Some(NEW_RETENTION_PERIOD_NS))
            && expect::version_follows(h, COLUMNS_LIMITED, 1)
    } else if n == RETENTION_UNSET {
        expect::got_namespace(h)
            && expect::has_retention(h, None)
            && expect::version_follows(h, RETENTION_SET, 1)
    } else if n == 14 {
        expect::has_retention(h, None)
    } else if n == RETAINING {
        expect::got_namespace(h)
            && expect::has_retention(h, Some(NEW_RETENTION_PERIOD_NS))
            && expect::has_version(h, 0)
    } else if n == 16 {
        expect::has_retention(h, None) && expect::version_follows(h, RETAINING, 1)
    } else if n == TEMPLATE {
        expect::got_template(h)
    } else if n == TEMPLATED {
        expect::got_namespace(h) && expect::has_template(h, TEMPLATE)
    } else if n == 19 {
        expect::same_namespace(h, TEMPLATED)
    } else if n == LISTED {
        expect::got_namespaces(h)
    } else {
        let list = expect::namespaces(h, LISTED);
        let j = (n - DELETING) / 2;
        if j >= list.len() {
            expect::refused_with(h, ErrorKind::NotFound)
        } else if (n - DELETING) % 2 == 0 {
            expect::got_id(h) && h.last()->Id_0 == list[j].id
        } else {
            // deleting advances the version
            expect::got_namespace(h)
                && h.last()->Namespace_0.router_version == list[j].router_version + 1
        }
    }
}

/// With the replies `h` everything has been asked for.
pub open spec fn finished(h: Seq<Reply>) -> bool {
    h.len() > DELETING && (h.len() - DELETING - 1) / 2 >= expect::namespaces(h, LISTED).len()
}

/// What is known of the first `m` replies once they have been accepted.
pub proof fn lemma_known(h: Seq<Reply>, m: int)
    requires
        0 <= m <= h.len(),
        accepted(ScenarioView::Namespace, h, m),
    ensures
        m > DEFAULTS ==> expect::is_defaults(h, DEFAULTS),
        m > CREATED ==> expect::is_namespace(h, CREATED),
        m > SECOND ==> expect::is_namespace(h, SECOND),
        m > TABLES_LIMITED ==> expect::is_namespace(h, TABLES_LIMITED),
        m > COLUMNS_LIMITED ==> expect::is_namespace(h, COLUMNS_LIMITED),
        m > RETENTION_SET ==> expect::is_namespace(h, RETENTION_SET),
        m > RETENTION_UNSET ==> expect::is_namespace(h, RETENTION_UNSET),
        m > RETAINING ==> expect::is_namespace(h, RETAINING),
        m > TEMPLATE ==> expect::is_template(h, TEMPLATE),
        m > TEMPLATED ==> expect::is_namespace(h, TEMPLATED),
        m > LISTED ==> expect::is_namespaces(h, LISTED),
{
    let s = ScenarioView::Namespace;
    if m > DEFAULTS {
        assert(run::accepts(s, h.take(DEFAULTS + 1)));
    }
    if m > CREATED {
        assert(run::accepts(s, h.take(CREATED + 1)));
    }
    if m > SECOND {
        assert(run::accepts(s, h.take(SECOND + 1)));
    }
    if m > TABLES_LIMITED {
        assert(run::accepts(s, h.take(TABLES_LIMITED + 1)));
    }
    if m > COLUMNS_LIMITED {
        assert(run::accepts(s, h.take(COLUMNS_LIMITED + 1)));
    }
    if m > RETENTION_SET {
        assert(run::accepts(s, h.take(RETENTION_SET + 1)));
    }
    if m > RETENTION_UNSET {
        assert(run::accepts(s, h.take(RETENTION_UNSET + 1)));
    }
    if m > RETAINING {
        assert(run::accepts(s, h.take(RETAINING + 1)));
    }
    if m > TEMPLATE {
        assert(run::accepts(s, h.take(TEMPLATE + 1)));
    }
    if m > TEMPLATED {
        assert(run::accepts(s, h.take(TEMPLATED + 1)));
    }
    if m > LISTED {
        assert(run::accepts(s, h.take(LISTED + 1)));
    }
}

/// What is asked for when the replies so far are `h`.
pub fn next_request<'a>(h: &'a Vec<Reply>) -> (r: Request<'a>)
    requires
        accepted(ScenarioView::Namespace, h@, h@.len() as int),
        !finished(h@),
    ensures
        r@ =~~= request(h@),
{
    let n: usize = h.len();
    proof {
        lemma_known(h@, n as int);
    }
    if n == DEFAULTS {
        Request::Value(ValueRequest::Defaults)
    } else if n == CREATED {
        Request::Namespaces(
            NamespacesRequest::Create {
                name: "test_namespace",
                partition_template: None,
                retention_period_ns: None,
            },
        )
    } else if n == 2 {
        Request::Namespaces(
            NamespacesRequest::GetByName {
                name: "test_namespace",
                rows: SoftDeletedRows::ExcludeDeleted,
            },
        )
    } else if n == 3 {
        Request::Namespaces(
            NamespacesRequest::Create {
                name: "test_namespace",
                partition_template: None,
                retention_period_ns: None,
            },
        )
    } else if n == 4 {
        Request::Namespaces(
            NamespacesRequest::GetById {
                id: check::namespace(h, CREATED).id,
                rows: SoftDeletedRows::ExcludeDeleted,
            },
        )
    } else if n == 5 {
        Request::Namespaces(
            NamespacesRequest::GetById { id: i64::MAX, rows: SoftDeletedRows::ExcludeDeleted },
        )
    } else if n == 6 {
        Request::Namespaces(
            NamespacesRequest::GetByName {
                name: "test_namespace",
                rows: SoftDeletedRows::ExcludeDeleted,
            },
        )
    } else if n == 7 {
        Request::Namespaces(
            NamespacesRequest::GetByName {
                name: "does_not_exist",
                rows: SoftDeletedRows::ExcludeDeleted,
            },
        )
    } else if n == SECOND {
        Request::Helper(HelperRequest::ArbitraryNamespace { name: "test_namespace2" })
    } else if n == 9 {
        Request::Namespaces(NamespacesRequest::List { rows: SoftDeletedRows::ExcludeDeleted })
    } else if n == TABLES_LIMITED {
        Request::Namespaces(
            NamespacesRequest::UpdateTableLimit {
                id: check::namespace(h, CREATED).id,
                max_tables: 15_000,
            },
        )
    } else if n == COLUMNS_LIMITED {
        Request::Namespaces(
            NamespacesRequest::UpdateColumnLimit {
                id: check::namespace(h, CREATED).id,
                max_columns_per_table: 1_500,
            },
        )
    } else if n == RETENTION_SET {
        Request::Namespaces(
            NamespacesRequest::UpdateRetentionPeriod {
                id: check::namespace(h, CREATED).id,
                retention_period_ns: Some(NEW_RETENTION_PERIOD_NS),
            },
        )
    } else if n == RETENTION_UNSET {
        Request::Namespaces(
            NamespacesRequest::UpdateRetentionPeriod {
                id: check::namespace(h, CREATED).id,
                retention_period_ns: None,
            },
        )
    } else if n == 14 {
        Request::Helper(HelperRequest::ArbitraryNamespace { name: "test_namespace3" })
    } else if n == RETAINING {
        Request::Namespaces(
            NamespacesRequest::Create {
                name: "test_namespace4",
                partition_template: None,
                retention_period_ns: Some(NEW_RETENTION_PERIOD_NS),
            },
        )
    } else if n == 16 {
        Request::Namespaces(
            NamespacesRequest::UpdateRetentionPeriod {
                id: check::namespace(h, RETAINING).id,
                retention_period_ns: None,
            },
        )
    } else if n == TEMPLATE {
        Request::Value(
            ValueRequest::NamespaceTemplate {
                parts: vec![TemplatePart::TagValue("tag1".to_owned())],
            },
        )
    } else if n == TEMPLATED {
        Request::Namespaces(
            NamespacesRequest::Create {
                name: "test_namespace5",
                partition_template: Some(check::template(h, TEMPLATE)),
                retention_period_ns: None,
            },
        )
    } else if n == 19 {
        Request::Namespaces(
            NamespacesRequest::GetByName {
                name: "test_namespace5",
                rows: SoftDeletedRows::ExcludeDeleted,
            },
        )
    } else if n == LISTED {
        Request::Namespaces(NamespacesRequest::List { rows: SoftDeletedRows::ExcludeDeleted })
    } else {
        let list: &'a Vec<Namespace> = check::namespaces(h, LISTED);
        let j: usize = (n - DELETING) / 2;
        if j >= list.len() {
            Request::Namespaces(NamespacesRequest::SoftDelete { id: 42 })
        } else if (n - DELETING) % 2 == 0 {
            Request::Namespaces(NamespacesRequest::SoftDelete { id: list[j].id })
        } else {
            Request::Namespaces(
                NamespacesRequest::GetById { id: list[j].id, rows: SoftDeletedRows::AllRows },
            )
        }
    }
}

/// Whether the last of the replies `h` is as it has to be.
pub fn accepts_last(h: &Vec<Reply>) -> (b: bool)
    requires
        h.len() > 0,
        accepted(ScenarioView::Namespace, h@, h@.len() - 1),
        !finished(h@.drop_last()),
    ensures
        b == accepts(h@),
{
    let n: usize = h.len() - 1;
    proof {
        lemma_known(h@, n as int);
    }
    if n == DEFAULTS {
        check::got_defaults(h)
    } else if n == CREATED {
        check::got_namespace(h) && check::fresh_namespace(h, "test_namespace", DEFAULTS)
    } else if n == 2 {
        check::same_namespace(h, CREATED) && check::has_default_limits(h, CREATED, DEFAULTS)
    } else if n == 3 {
        check::refused_with(h, ErrorKind::AlreadyExists)
    } else if n == 4 {
        check::same_namespace(h, CREATED)
    } else if n == 5 {
        check::nothing(h)
    } else if n == 6 {
        check::same_namespace(h, CREATED)
    } else if n == 7 {
        check::nothing(h)
    } else if n == SECOND {
        check::got_namespace(h)
    } else if n == 9 {
        check::in_name_order(h, CREATED, SECOND)
    } else if n == TABLES_LIMITED {
        check::got_namespace(h)
            && check::has_table_limit(h, 15_000)
            && check::version_follows(h, CREATED, 1)
    } else if n == COLUMNS_LIMITED {
        check::got_namespace(h)
            && check::has_column_limit(h, 1_500)
            && check::version_follows(h, TABLES_LIMITED, 1)
    } else if n == RETENTION_SET {
        check::got_namespace(h)
            && check::has_retention(h, Some(NEW_RETENTION_PERIOD_NS))
            && check::version_follows(h, COLUMNS_LIMITED, 1)
    } else if n == RETENTION_UNSET {
        check::got_namespace(h)
            && check::has_retention(h, None)
            && check::version_follows(h, RETENTION_SET, 1)
    } else if n == 14 {
        check::has_retention(h, None)
    } else if n == RETAINING {
        check::got_namespace(h)
            && check::has_retention(h, Some(NEW_RETENTION_PERIOD_NS))
            && check::has_version(h, 0)
    } else if n == 16 {
        check::has_retention(h, None) && check::version_follows(h, RETAINING, 1)
    } else if n == TEMPLATE {
        check::got_template(h)
    } else if n == TEMPLATED {
        check::got_namespace(h) && check::has_template(h, TEMPLATE)
    } else if n == 19 {
        check::same_namespace(h, TEMPLATED)
    } else if n == LISTED {
        check::got_namespaces(h)
    } else {
        let list: &Vec<Namespace> = check::namespaces(h, LISTED);
        let j: usize = (n - DELETING) / 2;
        if j >= list.len() {
            check::refused_with(h, ErrorKind::NotFound)
        } else if (n - DELETING) % 2 == 0 {
            match &h[n] {
                Reply::Id(id) => *id == list[j].id,
                _ => false,
            }
        } else {
            match &h[n] {
                Reply::Namespace(ns) => match list[j].router_version.checked_add(1) {
                    Some(version) => ns.router_version == version,
                    None => false,
                },
                _ => false,
            }
        }
    }
}

/// Whether everything has been asked for.
pub fn is_finished(h: &Vec<Reply>) -> (b: bool)
    requires
        accepted(ScenarioView::Namespace, h@, h@.len() as int),
    ensures
        b == finished(h@),
{
    proof {
        lemma_known(h@, h@.len() as int);
    }
    h.len() > DELETING && (h.len() - DELETING - 1) / 2 >= check::namespaces(h, LISTED).len()
}

} // verus!
