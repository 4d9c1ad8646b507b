//! What a catalog has answered of tables.
use crate::expect;
use crate::reply::Reply;
use crate::request::{
    ColumnsRequestView, HelperRequestView, NamespacesRequestView, RequestView, ScenarioView,
    TablesRequestView, ValueRequestView,
};
use crate::run;
use crate::run::{accepts, passes};
use crate::same::views;
use crate::scenarios::test_table::{
    BY_NAME, CUSTOM, CUSTOM_NAMESPACE, DEFAULTS, FIRST, FOO, HEIR, ID_TEXT, INHERITED, LIMITED,
    LIMITED_TEMPLATE, NAMESAKE, NAMESPACE_TEMPLATE, S1, S2, S3, SECOND, TABLE, TEMPLATE, TEMPLATED,
};
use crate::sorting::law_sorting_rearranges;
use crate::types::{ColumnType, ErrorKind, TemplatePartView};
use vstd::prelude::*;

verus! {

/// What step `k` asks for.
pub open spec fn asked(h: Seq<Reply>, k: int) -> RequestView {
    run::request(ScenarioView::Table, h.take(k))
}

/// A new table has a new id, the default template and no columns. What was taken of its namespace
/// before and after is a snapshot, by id and by name the same.
pub proof fn law_a_new_table_has_the_default_template(h: Seq<Reply>)
    requires
        passes(ScenarioView::Table, h),
    ensures
        asked(h, 0) == RequestView::Value(ValueRequestView::Defaults),
        h[0] is Defaults,
        asked(h, 1) == RequestView::Helper(
            HelperRequestView::ArbitraryNamespace { name: "namespace_table_test"@ },
        ),
        h[1] is Namespace,
        asked(h, 2) == RequestView::Namespaces(
            NamespacesRequestView::Snapshot { id: expect::namespace(h, FIRST).id },
        ),
        h[2] is NamespaceSnapshot,
        asked(h, 3) == RequestView::Run(
            ScenarioView::ValidateNamespaceSnapshot {
                namespace_snapshot: expect::namespace_snapshot(h, S1),
            },
        ),
        h[3] is Passed,
        asked(h, 4) == RequestView::Helper(
            HelperRequestView::ArbitraryTable {
                name: "test_table"@,
                namespace: expect::namespace(h, FIRST),
            },
        ),
        h[4] is Table && h[4]->Table_0.id > 0,
        h[4]->Table_0@.partition_template == expect::defaults(h, DEFAULTS).table_template,
        asked(h, 5) == RequestView::Namespaces(
            NamespacesRequestView::Snapshot { id: expect::namespace(h, FIRST).id },
        ),
        h[5] is NamespaceSnapshot,
        asked(h, 6) == RequestView::Run(
            ScenarioView::ValidateNamespaceSnapshot {
                namespace_snapshot: expect::namespace_snapshot(h, S2),
            },
        ),
        h[6] is Passed,
        asked(h, 7) == RequestView::Namespaces(
            NamespacesRequestView::SnapshotByName { name: "namespace_table_test"@ },
        ),
        h[7] is NamespaceSnapshot && expect::namespace_snapshot(h, S2).namespace is Some,
        expect::namespace_snapshot(h, S2).namespace == expect::namespace_snapshot(
            h,
            BY_NAME,
        ).namespace,
        asked(h, 8) == RequestView::Namespaces(
            NamespacesRequestView::SnapshotByName { name: "a"@ },
        ),
        h[8] is Failed && h[8]->Failed_0.kind == ErrorKind::NotFound,
        asked(h, 9) == RequestView::Columns(
            ColumnsRequestView::ListByTableId { table_id: expect::table(h, TABLE).id },
        ),
        h[9] is Columns && h[9]->Columns_0@.len() == 0,
{
    let s = ScenarioView::Table;
    assert(accepts(s, h.take(1)));
    assert(accepts(s, h.take(2)));
    assert(accepts(s, h.take(3)));
    assert(accepts(s, h.take(4)));
    assert(accepts(s, h.take(5)));
    assert(accepts(s, h.take(6)));
    assert(accepts(s, h.take(7)));
    assert(accepts(s, h.take(8)));
    assert(accepts(s, h.take(9)));
    assert(accepts(s, h.take(10)));
}

/// Answers like these are accepted.
pub proof fn law_a_new_table_has_the_default_template_which_is_enough(h: Seq<Reply>)
    requires
        h.len() > 9,
        h[0] is Defaults,
        h[1] is Namespace,
        h[2] is NamespaceSnapshot,
        h[3] is Passed,
        h[4] is Table && h[4]->Table_0.id > 0,
        h[4]->Table_0@.partition_template == expect::defaults(h, DEFAULTS).table_template,
        h[5] is NamespaceSnapshot,
        h[6] is Passed && expect::namespace_snapshot(h, S2).generation > expect::namespace_snapshot(
            h,
            S1,
        ).generation,
        h[7] is NamespaceSnapshot && expect::namespace_snapshot(h, S2).namespace is Some,
        expect::namespace_snapshot(h, S2).namespace == expect::namespace_snapshot(
            h,
            BY_NAME,
        ).namespace,
        expect::namespace_snapshot(h, BY_NAME).generation >= expect::namespace_snapshot(
            h,
            S2,
        ).generation,
        h[8] is Failed && h[8]->Failed_0.kind == ErrorKind::NotFound,
        h[9] is Columns && h[9]->Columns_0@.len() == 0,
    ensures
        accepts(ScenarioView::Table, h.take(1)),
        accepts(ScenarioView::Table, h.take(2)),
        accepts(ScenarioView::Table, h.take(3)),
        accepts(ScenarioView::Table, h.take(4)),
        accepts(ScenarioView::Table, h.take(5)),
        accepts(ScenarioView::Table, h.take(6)),
        accepts(ScenarioView::Table, h.take(7)),
        accepts(ScenarioView::Table, h.take(8)),
        accepts(ScenarioView::Table, h.take(9)),
        accepts(ScenarioView::Table, h.take(10)),
{
    assert(h.take(1).last() == h[0]);
    assert(h.take(2).last() == h[1]);
    assert(h.take(3).last() == h[2]);
    assert(h.take(4).last() == h[3]);
    assert(h.take(5).last() == h[4]);
    assert(h.take(6).last() == h[5]);
    assert(h.take(7).last() == h[6]);
    assert(h.take(8).last() == h[7]);
    assert(h.take(9).last() == h[8]);
    assert(h.take(10).last() == h[9]);
}

/// A second table of the same name in the same namespace is refused, and the refusal names both.
pub proof fn law_a_table_cannot_be_created_twice(h: Seq<Reply>)
    requires
        passes(ScenarioView::Table, h),
    ensures
        asked(h, 10) == RequestView::Value(
            ValueRequestView::TableTemplate {
                own_parts: None,
                namespace_template: expect::namespace(h, FIRST).partition_template,
            },
        ),
        h[10] is Template,
        asked(h, 11) == RequestView::Value(
            ValueRequestView::NamespaceIdText { id: expect::namespace(h, FIRST).id },
        ),
        h[11] is Text,
        asked(h, 12) == RequestView::Tables(
            TablesRequestView::Create {
                name: "test_table"@,
                partition_template: expect::template(h, TEMPLATE),
                namespace_id: expect::namespace(h, FIRST).id,
            },
        ),
        h[12] is Failed && h[12]->Failed_0.kind == ErrorKind::AlreadyExists,
        h[12]->Failed_0.descr@ == "table 'test_table' in namespace "@ + expect::text(h, ID_TEXT),
{
    let s = ScenarioView::Table;
    assert(accepts(s, h.take(11)));
    assert(accepts(s, h.take(12)));
    assert(accepts(s, h.take(13)));
}

/// Answers like these are accepted.
pub proof fn law_a_table_cannot_be_created_twice_which_is_enough(h: Seq<Reply>)
    requires
        h.len() > 12,
        h[10] is Template,
        h[11] is Text,
        h[12] is Failed && h[12]->Failed_0.kind == ErrorKind::AlreadyExists,
        h[12]->Failed_0.descr@ == "table 'test_table' in namespace "@ + expect::text(h, ID_TEXT),
    ensures
        accepts(ScenarioView::Table, h.take(11)),
        accepts(ScenarioView::Table, h.take(12)),
        accepts(ScenarioView::Table, h.take(13)),
{
    assert(h.take(11).last() == h[10]);
    assert(h.take(12).last() == h[11]);
    assert(h.take(13).last() == h[12]);
}

/// A table is found by its id and listed in its namespace, and nothing is found where there is
/// none.
pub proof fn law_a_table_is_found_in_its_namespace(h: Seq<Reply>)
    requires
        passes(ScenarioView::Table, h),
    ensures
        asked(h, 13) == RequestView::Tables(
            TablesRequestView::GetById { id: expect::table(h, TABLE).id },
        ),
        h[13] is Table && h[13]->Table_0@ == expect::table(h, TABLE),
        asked(h, 14) == RequestView::Tables(TablesRequestView::GetById { id: i64::MAX }),
        h[14] is Nothing,
        asked(h, 15) == RequestView::Tables(
            TablesRequestView::ListByNamespaceId { namespace_id: expect::namespace(h, FIRST).id },
        ),
        h[15] is Tables && views(h[15]->Tables_0@) == seq![expect::table(h, TABLE)],
        asked(h, 16) == RequestView::Tables(
            TablesRequestView::ListByNamespaceId { namespace_id: i64::MAX },
        ),
        h[16] is Tables && h[16]->Tables_0@.len() == 0,
{
    let s = ScenarioView::Table;
    assert(accepts(s, h.take(14)));
    assert(accepts(s, h.take(15)));
    assert(accepts(s, h.take(16)));
    assert(accepts(s, h.take(17)));
}

/// Answers like these are accepted.
pub proof fn law_a_table_is_found_in_its_namespace_which_is_enough(h: Seq<Reply>)
    requires
        h.len() > 16,
        h[13] is Table && h[13]->Table_0@ == expect::table(h, TABLE),
        h[14] is Nothing,
        h[15] is Tables && views(h[15]->Tables_0@) == seq![expect::table(h, TABLE)],
        h[16] is Tables && h[16]->Tables_0@.len() == 0,
    ensures
        accepts(ScenarioView::Table, h.take(14)),
        accepts(ScenarioView::Table, h.take(15)),
        accepts(ScenarioView::Table, h.take(16)),
        accepts(ScenarioView::Table, h.take(17)),
{
    assert(h.take(14).last() == h[13]);
    assert(h.take(15).last() == h[14]);
    assert(h.take(16).last() == h[15]);
    assert(h.take(17).last() == h[16]);
}

/// A table of a name that is taken in another namespace is another table, and lookups by namespace
/// and name tell them apart.
pub proof fn law_tables_of_the_same_name_live_in_different_namespaces(h: Seq<Reply>)
    requires
        passes(ScenarioView::Table, h),
    ensures
        asked(h, 17) == RequestView::Helper(HelperRequestView::ArbitraryNamespace { name: "two"@ }),
        h[17] is Namespace && h[17]->Namespace_0@ != expect::namespace(h, FIRST),
        asked(h, 18) == RequestView::Helper(
            HelperRequestView::ArbitraryTable {
                name: "test_table"@,
                namespace: expect::namespace(h, SECOND),
            },
        ),
        h[18] is Table && h[18]->Table_0.id != expect::table(h, TABLE).id,
        h[18]->Table_0.namespace_id == expect::namespace(h, SECOND).id,
        asked(h, 19) == RequestView::Namespaces(
            NamespacesRequestView::Snapshot { id: expect::namespace(h, SECOND).id },
        ),
        h[19] is NamespaceSnapshot,
        asked(h, 20) == RequestView::Run(
            ScenarioView::ValidateNamespaceSnapshot {
                namespace_snapshot: expect::namespace_snapshot(h, S3),
            },
        ),
        h[20] is Passed,
        asked(h, 21) == RequestView::Helper(
            HelperRequestView::ArbitraryTable {
                name: "foo"@,
                namespace: expect::namespace(h, SECOND),
            },
        ),
        h[21] is Table,
        asked(h, 22) == RequestView::Tables(
            TablesRequestView::GetByNamespaceAndName {
                namespace_id: i64::MAX,
                name: "test_table"@,
            },
        ),
        h[22] is Nothing,
        asked(h, 23) == RequestView::Tables(
            TablesRequestView::GetByNamespaceAndName {
                namespace_id: expect::namespace(h, FIRST).id,
                name: "not_existing"@,
            },
        ),
        h[23] is Nothing,
        asked(h, 24) == RequestView::Tables(
            TablesRequestView::GetByNamespaceAndName {
                namespace_id: expect::namespace(h, FIRST).id,
                name: "test_table"@,
            },
        ),
        h[24] is Table && h[24]->Table_0@ == expect::table(h, TABLE),
        asked(h, 25) == RequestView::Tables(
            TablesRequestView::GetByNamespaceAndName {
                namespace_id: expect::namespace(h, SECOND).id,
                name: "test_table"@,
            },
        ),
        h[25] is Table && h[25]->Table_0@ == expect::table(h, NAMESAKE),
        asked(h, 26) == RequestView::Tables(
            TablesRequestView::GetByNamespaceAndName {
                namespace_id: expect::namespace(h, SECOND).id,
                name: "foo"@,
            },
        ),
        h[26] is Table && h[26]->Table_0@ == expect::table(h, FOO),
{
    let s = ScenarioView::Table;
    assert(accepts(s, h.take(18)));
    assert(accepts(s, h.take(19)));
    assert(accepts(s, h.take(20)));
    assert(accepts(s, h.take(21)));
    assert(accepts(s, h.take(22)));
    assert(accepts(s, h.take(23)));
    assert(accepts(s, h.take(24)));
    assert(accepts(s, h.take(25)));
    assert(accepts(s, h.take(26)));
    assert(accepts(s, h.take(27)));
}

/// Answers like these are accepted.
pub proof fn law_tables_of_the_same_name_live_in_different_namespaces_which_is_enough(h: Seq<Reply>)
    requires
        h.len() > 26,
        h[17] is Namespace && h[17]->Namespace_0@ != expect::namespace(h, FIRST),
        h[18] is Table && h[18]->Table_0.id != expect::table(h, TABLE).id,
        h[18]->Table_0.namespace_id == expect::namespace(h, SECOND).id,
        h[19] is NamespaceSnapshot,
        h[20] is Passed,
        h[21] is Table,
        h[22] is Nothing,
        h[23] is Nothing,
        h[24] is Table && h[24]->Table_0@ == expect::table(h, TABLE),
        h[25] is Table && h[25]->Table_0@ == expect::table(h, NAMESAKE),
        h[26] is Table && h[26]->Table_0@ == expect::table(h, FOO),
    ensures
        accepts(ScenarioView::Table, h.take(18)),
        accepts(ScenarioView::Table, h.take(19)),
        accepts(ScenarioView::Table, h.take(20)),
        accepts(ScenarioView::Table, h.take(21)),
        accepts(ScenarioView::Table, h.take(22)),
        accepts(ScenarioView::Table, h.take(23)),
        accepts(ScenarioView::Table, h.take(24)),
        accepts(ScenarioView::Table, h.take(25)),
        accepts(ScenarioView::Table, h.take(26)),
        accepts(ScenarioView::Table, h.take(27)),
{
    assert(h.take(18).last() == h[17]);
    assert(h.take(19).last() == h[18]);
    assert(h.take(20).last() == h[19]);
    assert(h.take(21).last() == h[20]);
    assert(h.take(22).last() == h[21]);
    assert(h.take(23).last() == h[22]);
    assert(h.take(24).last() == h[23]);
    assert(h.take(25).last() == h[24]);
    assert(h.take(26).last() == h[25]);
    assert(h.take(27).last() == h[26]);
}

/// All tables that were created are listed, and no others.
pub proof fn law_exactly_the_tables_created_are_listed(h: Seq<Reply>)
    requires
        passes(ScenarioView::Table, h),
    ensures
        asked(h, 27) == RequestView::Tables(TablesRequestView::List),
        h[27] is Tables && views(h[27]->Tables_0@).to_multiset() == seq![
            expect::table(h, TABLE),
            expect::table(h, NAMESAKE),
            expect::table(h, FOO),
        ].to_multiset(),
{
    let s = ScenarioView::Table;
    assert(accepts(s, h.take(28)));
    law_sorting_rearranges(views(h[27]->Tables_0@));
    law_sorting_rearranges(
        seq![expect::table(h, TABLE), expect::table(h, NAMESAKE), expect::table(h, FOO)],
    );
}

/// A table above the limit of its namespace is refused.
pub proof fn law_the_limit_of_tables_holds(h: Seq<Reply>)
    requires
        passes(ScenarioView::Table, h),
    ensures
        asked(h, 28) == RequestView::Namespaces(
            NamespacesRequestView::UpdateTableLimit {
                id: expect::namespace(h, FIRST).id,
                max_tables: 1,
            },
        ),
        h[28] is Namespace,
        asked(h, 29) == RequestView::Value(
            ValueRequestView::TableTemplate {
                own_parts: None,
                namespace_template: expect::namespace(h, LIMITED).partition_template,
            },
        ),
        h[29] is Template,
        asked(h, 30) == RequestView::Tables(
            TablesRequestView::Create {
                name: "definitely_unique"@,
                partition_template: expect::template(h, LIMITED_TEMPLATE),
                namespace_id: expect::namespace(h, LIMITED).id,
            },
        ),
        h[30] is Failed && h[30]->Failed_0.kind == ErrorKind::LimitExceeded,
{
    let s = ScenarioView::Table;
    assert(accepts(s, h.take(29)));
    assert(accepts(s, h.take(30)));
    assert(accepts(s, h.take(31)));
}

/// Answers like these are accepted.
pub proof fn law_the_limit_of_tables_holds_which_is_enough(h: Seq<Reply>)
    requires
        h.len() > 30,
        h[28] is Namespace,
        h[29] is Template,
        h[30] is Failed && h[30]->Failed_0.kind == ErrorKind::LimitExceeded,
    ensures
        accepts(ScenarioView::Table, h.take(29)),
        accepts(ScenarioView::Table, h.take(30)),
        accepts(ScenarioView::Table, h.take(31)),
{
    assert(h.take(29).last() == h[28]);
    assert(h.take(30).last() == h[29]);
    assert(h.take(31).last() == h[30]);
}

/// A table that is created with a template has it and is found with it, and has a column for each
/// tag of the template.
pub proof fn law_a_table_keeps_its_template(h: Seq<Reply>)
    requires
        passes(ScenarioView::Table, h),
    ensures
        asked(h, 31) == RequestView::Value(
            ValueRequestView::TableTemplate {
                own_parts: Some(
                    seq![
                        TemplatePartView::TagValue("tag1"@),
                        TemplatePartView::TimeFormat("year-%Y"@),
                        TemplatePartView::TagValue("tag2"@),
                    ],
                ),
                namespace_template: expect::namespace(h, SECOND).partition_template,
            },
        ),
        h[31] is Template,
        asked(h, 32) == RequestView::Tables(
            TablesRequestView::Create {
                name: "use_a_template"@,
                partition_template: expect::template(h, CUSTOM),
                namespace_id: expect::namespace(h, SECOND).id,
            },
        ),
        h[32] is Table && h[32]->Table_0@.partition_template == expect::template(h, CUSTOM),
        asked(h, 33) == RequestView::Columns(
            ColumnsRequestView::ListByTableId { table_id: expect::table(h, TEMPLATED).id },
        ),
        h[33] is Columns,
        forall|i: int| 0 <= i < h[33]->Columns_0@.len() ==> (
            #[trigger] h[33]->Columns_0@[i]
        ).column_type == ColumnType::Tag,
        h[33]->Columns_0@.len() == 2,
        (h[33]->Columns_0@[0]@.name == "tag1"@ && h[33]->Columns_0@[1]@.name == "tag2"@) || (
            h[33]->Columns_0@[0]@.name == "tag2"@ && h[33]->Columns_0@[1]@.name == "tag1"@
        ),
        asked(h, 34) == RequestView::Tables(
            TablesRequestView::GetByNamespaceAndName {
                namespace_id: expect::namespace(h, SECOND).id,
                name: "use_a_template"@,
            },
        ),
        h[34] is Table && h[34]->Table_0@ == expect::table(h, TEMPLATED),
{
    let s = ScenarioView::Table;
    assert(accepts(s, h.take(32)));
    assert(accepts(s, h.take(33)));
    assert(accepts(s, h.take(34)));
    assert(accepts(s, h.take(35)));
}

/// Answers like these are accepted.
pub proof fn law_a_table_keeps_its_template_which_is_enough(h: Seq<Reply>)
    requires
        h.len() > 34,
        h[31] is Template,
        h[32] is Table && h[32]->Table_0@.partition_template == expect::template(h, CUSTOM),
        h[33] is Columns,
        forall|i: int| 0 <= i < h[33]->Columns_0@.len() ==> (
            #[trigger] h[33]->Columns_0@[i]
        ).column_type == ColumnType::Tag,
        h[33]->Columns_0@.len() == 2,
        (h[33]->Columns_0@[0]@.name == "tag1"@ && h[33]->Columns_0@[1]@.name == "tag2"@) || (
            h[33]->Columns_0@[0]@.name == "tag2"@ && h[33]->Columns_0@[1]@.name == "tag1"@
        ),
        h[34] is Table && h[34]->Table_0@ == expect::table(h, TEMPLATED),
    ensures
        accepts(ScenarioView::Table, h.take(32)),
        accepts(ScenarioView::Table, h.take(33)),
        accepts(ScenarioView::Table, h.take(34)),
        accepts(ScenarioView::Table, h.take(35)),
{
    assert(h.take(32).last() == h[31]);
    assert(h.take(33).last() == h[32]);
    assert(h.take(34).last() == h[33]);
    assert(h.take(35).last() == h[34]);
}

/// A table that brings no template has that of its namespace, and a column for each of its tags.
pub proof fn law_a_table_inherits_the_template_of_its_namespace(h: Seq<Reply>)
    requires
        passes(ScenarioView::Table, h),
    ensures
        asked(h, 35) == RequestView::Value(
            ValueRequestView::NamespaceTemplate {
                parts: seq![
                    TemplatePartView::TagValue("zzz"@),
                    TemplatePartView::TagValue("aaa"@),
                    TemplatePartView::TimeFormat("year-%Y"@),
                ],
            },
        ),
        h[35] is Template,
        asked(h, 36) == RequestView::Namespaces(
            NamespacesRequestView::Create {
                name: "custom_namespace"@,
                partition_template: Some(expect::template(h, NAMESPACE_TEMPLATE)),
                retention_period_ns: None,
            },
        ),
        h[36] is Namespace,
        asked(h, 37) == RequestView::Value(
            ValueRequestView::TableTemplate {
                own_parts: None,
                namespace_template: expect::namespace(h, CUSTOM_NAMESPACE).partition_template,
            },
        ),
        h[37] is Template,
        asked(h, 38) == RequestView::Tables(
            TablesRequestView::Create {
                name: "use_namespace_template"@,
                partition_template: expect::template(h, INHERITED),
                namespace_id: expect::namespace(h, CUSTOM_NAMESPACE).id,
            },
        ),
        h[38] is Table,
        asked(h, 39) == RequestView::Value(
            ValueRequestView::TableTemplate {
                own_parts: None,
                namespace_template: expect::template(h, NAMESPACE_TEMPLATE),
            },
        ),
        h[39] is Template && expect::table(h, HEIR).partition_template == h[39]->Template_0@,
        asked(h, 40) == RequestView::Columns(
            ColumnsRequestView::ListByTableId { table_id: expect::table(h, HEIR).id },
        ),
        h[40] is Columns,
        forall|i: int| 0 <= i < h[40]->Columns_0@.len() ==> (
            #[trigger] h[40]->Columns_0@[i]
        ).column_type == ColumnType::Tag,
        h[40]->Columns_0@.len() == 2,
        (h[40]->Columns_0@[0]@.name == "aaa"@ && h[40]->Columns_0@[1]@.name == "zzz"@) || (
            h[40]->Columns_0@[0]@.name == "zzz"@ && h[40]->Columns_0@[1]@.name == "aaa"@
        ),
        asked(h, 41) == RequestView::Namespaces(
            NamespacesRequestView::SoftDelete { id: expect::namespace(h, FIRST).id },
        ),
        h[41] is Id,
        asked(h, 42) == RequestView::Namespaces(
            NamespacesRequestView::SoftDelete { id: expect::namespace(h, SECOND).id },
        ),
        h[42] is Id,
{
    let s = ScenarioView::Table;
    assert(accepts(s, h.take(36)));
    assert(accepts(s, h.take(37)));
    assert(accepts(s, h.take(38)));
    assert(accepts(s, h.take(39)));
    assert(accepts(s, h.take(40)));
    assert(accepts(s, h.take(41)));
    assert(accepts(s, h.take(42)));
    assert(accepts(s, h.take(43)));
}

/// Answers like these are accepted.
pub proof fn law_a_table_inherits_the_template_of_its_namespace_which_is_enough(h: Seq<Reply>)
    requires
        h.len() > 42,
        h[35] is Template,
        h[36] is Namespace,
        h[37] is Template,
        h[38] is Table,
        h[39] is Template && expect::table(h, HEIR).partition_template == h[39]->Template_0@,
        h[40] is Columns,
        forall|i: int| 0 <= i < h[40]->Columns_0@.len() ==> (
            #[trigger] h[40]->Columns_0@[i]
        ).column_type == ColumnType::Tag,
        h[40]->Columns_0@.len() == 2,
        (h[40]->Columns_0@[0]@.name == "aaa"@ && h[40]->Columns_0@[1]@.name == "zzz"@) || (
            h[40]->Columns_0@[0]@.name == "zzz"@ && h[40]->Columns_0@[1]@.name == "aaa"@
        ),
        h[41] is Id,
        h[42] is Id,
    ensures
        accepts(ScenarioView::Table, h.take(36)),
        accepts(ScenarioView::Table, h.take(37)),
        accepts(ScenarioView::Table, h.take(38)),
        accepts(ScenarioView::Table, h.take(39)),
        accepts(ScenarioView::Table, h.take(40)),
        accepts(ScenarioView::Table, h.take(41)),
        accepts(ScenarioView::Table, h.take(42)),
        accepts(ScenarioView::Table, h.take(43)),
{
    assert(h.take(36).last() == h[35]);
    assert(h.take(37).last() == h[36]);
    assert(h.take(38).last() == h[37]);
    assert(h.take(39).last() == h[38]);
    assert(h.take(40).last() == h[39]);
    assert(h.take(41).last() == h[40]);
    assert(h.take(42).last() == h[41]);
    assert(h.take(43).last() == h[42]);
}

} // verus!
