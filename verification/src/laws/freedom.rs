//! What a catalog is free to choose: a reply that holds what it has to is accepted, whatever order
//! it
//! is in and whatever else it may tell.
use crate::expect;
use crate::laws::answers::partition::four;
use crate::laws::partitions::removed_ids;
use crate::naming::HasName;
use crate::reply::Reply;
use crate::request::{ScenarioView, WantView};
use crate::run::accepts;
use crate::same::views;
use crate::scenarios::test_column_create_or_get_many_unchecked_sub::progress;
use crate::scenarios::test_partition_retention::candidates;
use crate::scenarios::{
    test_get_time, test_list_by_partiton_not_to_delete, test_list_schemas,
    test_list_schemas_soft_deleted_rows, test_namespace, test_parquet_file,
    test_partitions_new_file_between, test_table,
};
use crate::sorting::{
    ids_ascend, ids_distinct, latest_by_id, law_distinct_elements_are_all_kept,
    law_order_does_not_matter, law_sorting_finds_the_ordered_list, Keyed,
};
use crate::text::{law_texts_are_ordered, text_before};
use crate::types::{
    ColumnSchemaView, ColumnType, ColumnView, EntryView, NamespaceView, ParquetFileView,
    PartitionSnapshotView, PartitionView, TableSchemaView, TableSnapshotView, TableView,
};
use vstd::prelude::*;

verus! {

/// All tables may be listed in any order.
pub proof fn law_tables_are_listed_in_any_order(h: Seq<Reply>)
    requires
        h.len() == 28,
        h[27] is Tables,
        ({
            let all = seq![
                expect::table(h, test_table::TABLE),
                expect::table(h, test_table::NAMESAKE),
                expect::table(h, test_table::FOO),
            ];
            ids_distinct(all) && views(h[27]->Tables_0@).to_multiset() == all.to_multiset()
        }),
    ensures
        accepts(ScenarioView::Table, h),
{
    let all = seq![
        expect::table(h, test_table::TABLE),
        expect::table(h, test_table::NAMESAKE),
        expect::table(h, test_table::FOO),
    ];
    law_order_does_not_matter(all, views(h[27]->Tables_0@));
}

/// Two namespaces may be listed in any order.
pub proof fn law_namespaces_are_listed_in_any_order(h: Seq<Reply>)
    requires
        h.len() == 10,
        h[9] is Namespaces,
        ({
            let a = expect::namespace(h, test_namespace::CREATED);
            let b = expect::namespace(h, test_namespace::SECOND);
            let list = views(h[9]->Namespaces_0@);
            text_before(a.name, b.name) && (list == seq![a, b] || list == seq![b, a])
        }),
    ensures
        accepts(ScenarioView::Namespace, h),
{
    let a = expect::namespace(h, test_namespace::CREATED);
    let b = expect::namespace(h, test_namespace::SECOND);
    law_texts_are_ordered(a.name, b.name);
}

/// The reply lists namespaces with exactly these names, in any order and however often.
pub open spec fn names_are(reply: Reply, names: Set<Seq<char>>) -> bool {
    &&& reply is Namespaces
    &&& forall|name: Seq<char>|
        #![trigger names.contains(name)]
        names.contains(name) <==> exists|i: int|
            0 <= i < reply->Namespaces_0@.len() && (#[trigger] reply->Namespaces_0@[i])@.name
                == name
}

proof fn lemma_names(reply: Reply, names: Set<Seq<char>>)
    requires
        names_are(reply, names),
    ensures
        expect::names_of(views(reply->Namespaces_0@)).to_set() == names,
{
    let list = reply->Namespaces_0@;
    let found = expect::names_of(views(list));
    assert forall|name: Seq<char>| found.contains(name) <==> names.contains(name) by {
        if found.contains(name) {
            let i = choose|i: int| 0 <= i < found.len() && found[i] == name;
            assert(list[i]@.name == name);
        }
        if names.contains(name) {
            let i = choose|i: int| 0 <= i < list.len() && (#[trigger] list[i])@.name == name;
            assert(found[i] == name);
        }
    }
    assert(found.to_set() =~= names);
}

/// Namespaces of which one is deleted may be listed in any order, and more than once.
pub proof fn law_namespaces_are_listed_by_name(h: Seq<Reply>)
    requires
        13 <= h.len() <= 15,
        names_are(
            h.last(),
            if h.len() == 13 {
                set!["deleted-ns"@, "active-ns"@]
            } else if h.len() == 14 {
                set!["deleted-ns"@]
            } else {
                set!["active-ns"@]
            },
        ),
    ensures
        accepts(ScenarioView::NamespaceSoftDeletion, h),
{
    if h.len() == 13 {
        lemma_names(h.last(), set!["deleted-ns"@, "active-ns"@]);
    } else if h.len() == 14 {
        lemma_names(h.last(), set!["deleted-ns"@]);
    } else {
        lemma_names(h.last(), set!["active-ns"@]);
    }
}

/// The reply gives two columns with these names, in any order.
pub open spec fn gives_columns(reply: Reply, a: Seq<char>, b: Seq<char>) -> bool {
    &&& reply is Columns
    &&& reply->Columns_0@.len() == 2
    &&& {
        ||| reply->Columns_0@[0]@.name == a && reply->Columns_0@[1]@.name == b
        ||| reply->Columns_0@[0]@.name == b && reply->Columns_0@[1]@.name == a
    }
}

/// The columns of a template, and columns that are created together, may come in any order.
pub proof fn law_columns_come_in_any_order(h: Seq<Reply>)
    ensures
        h.len() == 34 && gives_columns(h[33], "tag1"@, "tag2"@) && (forall|i: int|
            0 <= i < 2 ==> (#[trigger] h[33]->Columns_0@[i]).column_type == ColumnType::Tag)
            ==> accepts(ScenarioView::Table, h),
        h.len() == 41 && gives_columns(h[40], "aaa"@, "zzz"@) && (forall|i: int|
            0 <= i < 2 ==> (#[trigger] h[40]->Columns_0@[i]).column_type == ColumnType::Tag)
            ==> accepts(ScenarioView::Table, h),
        h.len() == 20 && gives_columns(h[19], "column_test"@, "new_column"@) ==> accepts(
            ScenarioView::Column,
            h,
        ),
        h.len() == 24 && gives_columns(h[23], "apples"@, "oranges"@) ==> accepts(
            ScenarioView::Column,
            h,
        ),
{
}

/// Partitions may be found in any order.
pub proof fn law_partitions_are_found_in_any_order(h: Seq<Reply>)
    requires
        h.len() == 10,
        ids_distinct(four(h)),
        h[9] is Partitions,
        views(h[9]->Partitions_0@).to_multiset() == four(h).to_multiset(),
        forall|i: int|
            0 <= i < h[9]->Partitions_0@.len() ==> (
            #[trigger] h[9]->Partitions_0@[i])@.sort_key_ids is None,
    ensures
        accepts(ScenarioView::Partition, h),
{
    law_distinct_elements_are_all_kept(four(h));
    law_order_does_not_matter(four(h), views(h[9]->Partitions_0@));
}

/// The partitions of a table may be listed in any order.
pub proof fn law_partitions_are_listed_in_any_order(h: Seq<Reply>)
    requires
        h.len() == 13,
        ids_distinct(four(h)),
        h[12] is Partitions,
        ids_distinct(views(h[12]->Partitions_0@)),
        views(h[12]->Partitions_0@).to_multiset() == four(h).to_multiset(),
        forall|i: int| 0 <= i < 4 ==> (#[trigger] four(h)[i]).sort_key_ids is None,
    ensures
        accepts(ScenarioView::Partition, h),
{
    broadcast use vstd::seq_lib::group_to_multiset_ensures;

    let list = views(h[12]->Partitions_0@);
    law_distinct_elements_are_all_kept(four(h));
    law_distinct_elements_are_all_kept(list);
    law_order_does_not_matter(four(h), list);
    let kept = latest_by_id(list);
    assert forall|i: int| 0 <= i < kept.len() implies (
    #[trigger] kept[i]).sort_key_ids is None by {
        assert(kept.contains(kept[i]));
        assert(four(h).to_multiset().count(kept[i]) > 0);
        assert(four(h).contains(kept[i]));
    }
}

/// The most recent partitions may be listed with any more partitions than those that are known to
/// come first only as long as there are four, and fewer may be any that many.
pub proof fn law_some_recent_partitions_are_enough(h: Seq<Reply>)
    ensures
        h.len() == 50 && h[49] is Partitions && h[49]->Partitions_0@.len() == 4 ==> accepts(
            ScenarioView::Partition,
            h,
        ),
        h.len() == 51 && h[50] is Partitions && h[50]->Partitions_0@.len() == 2 ==> accepts(
            ScenarioView::Partition,
            h,
        ),
{
}

/// What is known of ids may be told in any order.
pub proof fn law_known_ids_are_told_in_any_order(h: Seq<Reply>, max_l0_files: u32)
    ensures
        ({
            let one = expect::file(h, test_parquet_file::FILE_1).object_store_id;
            let seven = expect::file(h, test_parquet_file::FILE_7).object_store_id;
            let eight = expect::uuid(h, test_parquet_file::ID_8);
            let first = expect::partition(h, test_parquet_file::PARTITION).id;
            let second = expect::partition(h, test_parquet_file::PARTITION_2).id;
            &&& h.len() == 106 && h[105] is ObjectStoreIds
                && h[105]->ObjectStoreIds_0@.to_multiset() == seq![one, seven].to_multiset()
                ==> accepts(ScenarioView::ParquetFile { max_l0_files }, h)
            &&& h.len() == 107 && h[106] is Located && h[106]->Located_0@.to_multiset() == seq![
                (second, one),
                (second, seven),
                (first, eight),
            ].to_multiset() ==> accepts(ScenarioView::ParquetFile { max_l0_files }, h)
            &&& h.len() == 80 && h[79] is Located && h[79]->Located_0@.len() > 1 ==> accepts(
                ScenarioView::ParquetFile { max_l0_files },
                h,
            )
        }),
{
}

/// The files of a partition may be listed in any order.
pub proof fn law_files_of_a_partition_are_listed_in_any_order(h: Seq<Reply>)
    requires
        15 <= h.len() <= 16,
        h.last() is Files,
        Seq::new(
            h.last()->Files_0@.len(),
            |i: int| h.last()->Files_0@[i].object_store_id,
        ).to_multiset() == seq![
            expect::params(h, test_list_by_partiton_not_to_delete::PARAMS).object_store_id,
            expect::uuid(h, test_list_by_partiton_not_to_delete::LEVEL_1_ID),
        ].to_multiset(),
    ensures
        accepts(ScenarioView::ListByPartitionNotToDelete, h),
{
    let files = h.last()->Files_0@;
    assert(Seq::new(files.len(), |i: int| files[i].object_store_id) =~= expect::file_ids(
        views(files),
    ));
}

/// Partitions with new files may be found in any order.
pub proof fn law_new_files_are_found_in_any_order(h: Seq<Reply>)
    requires
        h.len() == 39 || h.len() == 50,
        h.last() is Ids,
        ({
            let a = expect::partition(h, test_partitions_new_file_between::PARTITION_1).id;
            let b = expect::partition(h, test_partitions_new_file_between::PARTITION_2).id;
            a < b && h.last()->Ids_0@.to_multiset() == seq![a, b].to_multiset()
        }),
    ensures
        accepts(ScenarioView::PartitionsNewFileBetween, h),
{
    let a = expect::partition(h, test_partitions_new_file_between::PARTITION_1).id;
    let b = expect::partition(h, test_partitions_new_file_between::PARTITION_2).id;
    law_sorting_finds_the_ordered_list(seq![a, b], h.last()->Ids_0@);
}

/// The partitions that were removed, and those that remain, may be told in any order.
pub proof fn law_removed_partitions_are_told_in_any_order(h: Seq<Reply>)
    requires
        ids_ascend(candidates(h, false)) && ids_distinct(candidates(h, false)),
        ids_ascend(candidates(h, true)) && ids_distinct(candidates(h, true)),
    ensures
        h.len() == 53 && h[52] is Retired && removed_ids(h).to_multiset() == candidates(
            h,
            false,
        ).to_multiset() ==> accepts(ScenarioView::PartitionRetention, h),
        h.len() == 54 && h[53] is Ids && h[53]->Ids_0@.to_multiset() == candidates(
            h,
            true,
        ).to_multiset() ==> accepts(ScenarioView::PartitionRetention, h),
{
    if h.len() == 53 && removed_ids(h).to_multiset() == candidates(h, false).to_multiset() {
        law_sorting_finds_the_ordered_list(candidates(h, false), removed_ids(h));
        assert(removed_ids(h) =~= expect::seconds(h[52]->Retired_0@));
    }
    if h.len() == 54 && h[53]->Ids_0@.to_multiset() == candidates(h, true).to_multiset() {
        law_sorting_finds_the_ordered_list(candidates(h, true), h[53]->Ids_0@);
    }
}

/// Other namespaces may be listed with their schemas, too.
pub proof fn law_other_schemas_may_be_listed(h: Seq<Reply>)
    ensures
        h.len() == 4 && h[3] is Schemas && views(h[3]->Schemas_0@).contains(
            expect::populated(h, test_list_schemas::FIRST),
        ) && views(h[3]->Schemas_0@).contains(expect::populated(h, test_list_schemas::SECOND))
            ==> accepts(ScenarioView::ListSchemas, h),
        h.len() == 5 && h[4] is Schemas && views(h[4]->Schemas_0@).contains(
            expect::populated(h, test_list_schemas_soft_deleted_rows::FIRST),
        ) && !views(h[4]->Schemas_0@).contains(
            expect::populated(h, test_list_schemas_soft_deleted_rows::SECOND),
        ) ==> accepts(ScenarioView::ListSchemasSoftDeletedRows, h),
{
}

/// The time that is told may be a second off, either way.
pub proof fn law_the_time_may_be_a_second_off(h: Seq<Reply>)
    requires
        h.len() == 2,
        h[0] is Second,
        h[1] is Second,
    ensures
        accepts(ScenarioView::GetTime, h) <==> -1 <= h[1]->Second_0 - expect::second(
            h,
            test_get_time::SYSTEM,
        ) <= 1,
{
}

/// A snapshot of a partition may hold its files in another order than the catalog lists them in.
pub proof fn law_files_of_a_snapshot_are_in_any_order(
    h: Seq<Reply>,
    partition_snapshot: PartitionSnapshotView,
)
    requires
        h.len() == 1,
        h[0] is Files,
        partition_snapshot.files is Some,
        ids_distinct(views(h[0]->Files_0@)),
        partition_snapshot.files->0.to_multiset() == views(h[0]->Files_0@).to_multiset(),
    ensures
        accepts(ScenarioView::ValidatePartitionSnapshot { partition_snapshot }, h),
{
    law_order_does_not_matter(views(h[0]->Files_0@), partition_snapshot.files->0);
}

/// A snapshot of a table may hold its columns in another order than the catalog lists them in.
pub proof fn law_columns_of_a_snapshot_are_in_any_order(
    h: Seq<Reply>,
    table_snapshot: TableSnapshotView,
)
    requires
        h.len() == 2,
        h[1] is Columns,
        table_snapshot.columns is Some,
        ids_distinct(views(h[1]->Columns_0@)),
        table_snapshot.columns->0.to_multiset() == views(h[1]->Columns_0@).to_multiset(),
    ensures
        accepts(ScenarioView::ValidateTableSnapshot { table_snapshot }, h),
{
    law_order_does_not_matter(views(h[1]->Columns_0@), table_snapshot.columns->0);
}

/// Columns that are created together may come in any order: it is enough that each name that was
/// asked for comes once, with the type that was asked for last, and in the table given.
pub proof fn law_requested_columns_come_in_any_order(
    h: Seq<Reply>,
    calls: Seq<Seq<(Seq<char>, ColumnType)>>,
    want: WantView,
    i: int,
)
    requires
        h.len() > 2,
        progress(h, h.len() - 1) == (i, false),
        0 <= i < calls.len(),
        i + 1 < calls.len() || want is Columns,
        h.last() is Columns,
        ({
            let got = views(h.last()->Columns_0@);
            let types = expect::requested_types(calls[i]);
            &&& got.len() == types.len()
            &&& forall|a: int, b: int|
                0 <= a < b < got.len() ==> (#[trigger] got[a]).name != (#[trigger] got[b]).name
            &&& forall|a: int|
                0 <= a < got.len() ==> (#[trigger] got[a]).table_id == h[1]->Table_0.id
                    && types.contains_pair(got[a].name, got[a].column_type)
        }),
    ensures
        accepts(ScenarioView::ManyColumns { calls, want }, h),
{
}

/// Whatever is listed is told apart by its id, and what a schema holds by its name.
pub proof fn law_things_are_told_apart_by_id(
    namespace: NamespaceView,
    table: TableView,
    column: ColumnView,
    partition: PartitionView,
    file: ParquetFileView,
    entry: EntryView,
    id: i64,
    table_schema: TableSchemaView,
    column_schema: ColumnSchemaView,
)
    ensures
        namespace.key() == namespace.id,
        table.key() == table.id,
        column.key() == column.id,
        partition.key() == partition.id,
        file.key() == file.id,
        entry.key() == entry.id,
        id.key() == id,
        table_schema.its_name() == table_schema.name,
        column_schema.its_name() == column_schema.name,
{
}

} // verus!
