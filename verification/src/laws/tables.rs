//! What a catalog has shown of its tables.
use crate::expect;
use crate::laws::answers::table::{
    asked, law_a_new_table_has_the_default_template, law_a_table_keeps_its_template,
    law_tables_of_the_same_name_live_in_different_namespaces,
};
use crate::reply::Reply;
use crate::request::{HelperRequestView, RequestView, ScenarioView, TablesRequestView};
use crate::run::{accepts, passes};
use crate::scenarios::test_table;
use vstd::prelude::*;

verus! {

/// Step `j` created a table of this name in this namespace.
pub open spec fn creates(h: Seq<Reply>, j: int, namespace_id: i64, name: Seq<char>) -> bool {
    &&& h[j] is Table
    &&& {
        ||| asked(h, j) matches RequestView::Helper(
            HelperRequestView::ArbitraryTable { name: given, namespace },
        ) && given == name && namespace.id == namespace_id
        ||| asked(h, j) matches RequestView::Tables(
            TablesRequestView::Create { name: given, namespace_id: id, .. },
        ) && given == name && id == namespace_id
    }
}

/// Step `k` looks a table up by its namespace and its name.
pub open spec fn looks_up(h: Seq<Reply>, k: int, namespace_id: i64, name: Seq<char>) -> bool {
    asked(h, k) == RequestView::Tables(
        TablesRequestView::GetByNamespaceAndName { namespace_id, name },
    )
}

proof fn lemma_names_differ()
    ensures
        "test_table"@ != "foo"@,
        "test_table"@ != "use_a_template"@,
        "test_table"@ != "use_namespace_template"@,
        "test_table"@ != "not_existing"@,
        "foo"@ != "use_a_template"@,
        "foo"@ != "use_namespace_template"@,
        "foo"@ != "not_existing"@,
        "use_a_template"@ != "use_namespace_template"@,
        "use_a_template"@ != "not_existing"@,
        "use_namespace_template"@ != "not_existing"@,
{
    reveal_strlit("test_table");
    reveal_strlit("foo");
    reveal_strlit("use_a_template");
    reveal_strlit("use_namespace_template");
    reveal_strlit("not_existing");
    assert("test_table"@.len() == 10);
    assert("foo"@.len() == 3);
    assert("use_a_template"@.len() == 14);
    assert("use_namespace_template"@.len() == 22);
    assert("not_existing"@.len() == 12);
}

proof fn lemma_lookup_steps(h: Seq<Reply>, k: int, namespace_id: i64, name: Seq<char>)
    requires
        passes(ScenarioView::Table, h),
        0 <= k < h.len(),
        looks_up(h, k, namespace_id, name),
    ensures
        k == 22 || k == 23 || k == 24 || k == 25 || k == 26 || k == 34,
{
}

proof fn lemma_creation_steps(h: Seq<Reply>, j: int, namespace_id: i64, name: Seq<char>)
    requires
        passes(ScenarioView::Table, h),
        0 <= j < h.len(),
        creates(h, j, namespace_id, name),
    ensures
        j == 4 || j == 18 || j == 21 || j == 32 || j == 38,
{
    let t = h.take(j + 1);
    assert(accepts(ScenarioView::Table, t));
    assert(t.last() == h[j]);
    if j == 12 || j == 30 {
        assert(h[j] is Failed);
    }
}

/// A lookup by namespace and name finds the table that was created there under that name, as it was
/// created, and not one of the same name in another namespace. The greatest id is that of no
/// namespace.
pub proof fn law_lookups_find_the_table_of_their_namespace(
    h: Seq<Reply>,
    j: int,
    k: int,
    namespace_id: i64,
    name: Seq<char>,
)
    requires
        passes(ScenarioView::Table, h),
        expect::namespace(h, test_table::FIRST).id != expect::namespace(h, test_table::SECOND).id,
        namespace_id < i64::MAX,
        0 <= j < k < h.len(),
        creates(h, j, namespace_id, name),
        looks_up(h, k, namespace_id, name),
    ensures
        h[k] is Table,
        h[k]->Table_0@ == h[j]->Table_0@,
{
    lemma_lookup_steps(h, k, namespace_id, name);
    lemma_creation_steps(h, j, namespace_id, name);
    lemma_names_differ();
    law_a_new_table_has_the_default_template(h);
    law_tables_of_the_same_name_live_in_different_namespaces(h);
    law_a_table_keeps_its_template(h);
}

/// A lookup by namespace and name under which no table was created finds nothing.
pub proof fn law_lookups_find_nothing_that_was_not_created(
    h: Seq<Reply>,
    k: int,
    namespace_id: i64,
    name: Seq<char>,
)
    requires
        passes(ScenarioView::Table, h),
        0 <= k < h.len(),
        looks_up(h, k, namespace_id, name),
        forall|j: int| 0 <= j < k ==> !#[trigger] creates(h, j, namespace_id, name),
    ensures
        h[k] is Nothing,
{
    lemma_lookup_steps(h, k, namespace_id, name);
    law_a_new_table_has_the_default_template(h);
    law_tables_of_the_same_name_live_in_different_namespaces(h);
    law_a_table_keeps_its_template(h);
    if k == 24 {
        assert(creates(h, 4, namespace_id, name));
    } else if k == 25 {
        assert(creates(h, 18, namespace_id, name));
    } else if k == 26 {
        assert(creates(h, 21, namespace_id, name));
    } else if k == 34 {
        assert(creates(h, 32, namespace_id, name));
    }
}

} // verus!
