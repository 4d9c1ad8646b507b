//! What a catalog has shown of its partitions.
use crate::expect;
use crate::reply::Reply;
use crate::request::{
    HelperRequestView, PartitionsRequestView, RequestView, ScenarioView, ValueRequestView,
};
use crate::retention::{candidate, law_only_removable_partitions_go, removable, CANDIDATES, DATED};
use crate::run;
use crate::run::{accepts, passes};
use crate::same::views;
use crate::scenarios::test_partition;
use crate::scenarios::test_partition_retention;
use crate::scenarios::test_partition_retention::{
    candidates, created_at, days_before, first_candidates, lemma_known, partition_step,
};
use crate::sorting::law_sorting_rearranges;
use vstd::prelude::*;

verus! {

/// The id of the partition of the `i`-th candidate.
pub open spec fn candidate_id(h: Seq<Reply>, i: int) -> i64 {
    expect::partition(h, partition_step(i)).id
}

/// The ids of the partitions of all candidates.
pub open spec fn candidate_ids(h: Seq<Reply>) -> Seq<i64> {
    Seq::new(CANDIDATES as nat, |i: int| candidate_id(h, i))
}

/// The candidates are created as they are described: each with its time of creation, with a key
/// that shows the date given, or none, and with a file or without.
pub proof fn law_candidates_are_created_as_described(h: Seq<Reply>, i: int)
    requires
        passes(ScenarioView::PartitionRetention, h),
        0 <= i < CANDIDATES,
    ensures
        ({
            let c = candidate(i);
            let k = partition_step(i) as int;
            let asked = |j: int| run::request(ScenarioView::PartitionRetention, h.take(j));
            &&& asked(k) matches RequestView::Helper(
                HelperRequestView::PartitionWithCreatedAt { key, created_at: at, .. },
            )
            &&& at == created_at(h, c.created)
            &&& c.days_ago is Some <==> i < DATED
            &&& c.days_ago matches Some(days) ==> asked(k - 1) == RequestView::Value(
                ValueRequestView::DateText { time: days_before(h, days) },
            ) && h[k - 1] is Text && key == h[k - 1]->Text_0@
            &&& c.has_parquet_files <==> asked(
                k + 1,
            ) matches RequestView::Helper(HelperRequestView::ArbitraryParquetFileParams { .. })
        }),
{
    lemma_known(h, h.len() as int);
    let k = partition_step(i) as int;
    assert(k + 1 < h.len());
    let t = h.take(k);
    assert(forall|j: int| 0 <= j < k ==> t[j] == h[j]);
    let u = h.take(k - 1);
    assert(forall|j: int| 0 <= j < k - 1 ==> u[j] == h[j]);
}

proof fn lemma_candidates_are_split(h: Seq<Reply>, count: int)
    requires
        0 <= count <= CANDIDATES,
    ensures
        first_candidates(h, true, count).to_multiset().add(
            first_candidates(h, false, count).to_multiset(),
        ) =~= candidate_ids(h).take(count).to_multiset(),
    decreases count,
{
    broadcast use vstd::seq_lib::group_to_multiset_ensures;

    let all = candidate_ids(h);
    if count > 0 {
        lemma_candidates_are_split(h, count - 1);
        assert(all.take(count) =~= all.take(count - 1).push(candidate_id(h, count - 1)));
    } else {
        assert(all.take(0) =~= Seq::<i64>::empty());
    }
}

/// The ids of the partitions that were removed.
pub open spec fn removed_ids(h: Seq<Reply>) -> Seq<i64> {
    Seq::new(h[52]->Retired_0@.len(), |i: int| h[52]->Retired_0@[i].1)
}

/// No partition is lost, none is made up, and none is both removed and retained: what is removed
/// and what remains are together all partitions that were created.
pub proof fn law_partitions_are_removed_or_remain(h: Seq<Reply>)
    requires
        passes(ScenarioView::PartitionRetention, h),
    ensures
        h[52] is Retired && h[53] is Ids,
        removed_ids(h).to_multiset().add(h[53]->Ids_0@.to_multiset())
            == candidate_ids(h).to_multiset(),
{
    let s = ScenarioView::PartitionRetention;
    lemma_removed_and_remaining(h);
    lemma_candidates_are_split(h, CANDIDATES as int);
    assert(candidate_ids(h).take(CANDIDATES as int) =~= candidate_ids(h));
    assert(removed_ids(h).to_multiset().add(h[53]->Ids_0@.to_multiset())
        =~= candidate_ids(h).to_multiset());
}

proof fn lemma_removed_and_remaining(h: Seq<Reply>)
    requires
        passes(ScenarioView::PartitionRetention, h),
    ensures
        h[52] is Retired && h[53] is Ids,
        removed_ids(h).to_multiset() == candidates(h, false).to_multiset(),
        h[53]->Ids_0@.to_multiset() == candidates(h, true).to_multiset(),
{
    let s = ScenarioView::PartitionRetention;
    let t = h.take(53);
    let u = h.take(54);
    assert(accepts(s, t));
    assert(accepts(s, u));
    assert(u.last() == h[53] && t.last() == h[52]);
    lemma_candidates_agree(t, h, false, CANDIDATES as int);
    lemma_candidates_agree(u, h, true, CANDIDATES as int);
    assert(removed_ids(h) =~= expect::seconds(h[52]->Retired_0@));
    law_sorting_rearranges(removed_ids(h));
    law_sorting_rearranges(h[53]->Ids_0@);
}

proof fn lemma_candidates_agree(t: Seq<Reply>, h: Seq<Reply>, retain: bool, count: int)
    requires
        count <= CANDIDATES,
        t.len() >= 52,
        t == h.take(t.len() as int),
        t.len() <= h.len(),
    ensures
        first_candidates(t, retain, count) == first_candidates(h, retain, count),
    decreases count,
{
    if count > 0 {
        lemma_candidates_agree(t, h, retain, count - 1);
        let k = partition_step(count - 1) as int;
        assert(k < 52);
        assert(t[k] == h[k]);
    }
}

proof fn lemma_first_candidates_contain(h: Seq<Reply>, retain: bool, count: int, i: int)
    requires
        0 <= count <= CANDIDATES,
        0 <= i < CANDIDATES,
        candidate_ids(h).no_duplicates(),
    ensures
        first_candidates(h, retain, count).contains(candidate_id(h, i)) <==> i < count && candidate(
            i,
        ).retain == retain,
    decreases count,
{
    if count > 0 {
        lemma_first_candidates_contain(h, retain, count - 1, i);
        let before = first_candidates(h, retain, count - 1);
        let now = first_candidates(h, retain, count);
        assert(candidate_ids(h)[i] == candidate_id(h, i));
        assert(candidate_ids(h)[count - 1] == candidate_id(h, count - 1));
        if candidate(count - 1).retain == retain {
            assert(now == before.push(candidate_id(h, count - 1)));
            assert(now[now.len() - 1] == candidate_id(h, count - 1));
            if before.contains(candidate_id(h, i)) {
                let j = choose|j: int| 0 <= j < before.len() && before[j] == candidate_id(h, i);
                assert(now[j] == candidate_id(h, i));
            }
            if now.contains(candidate_id(h, i)) {
                let j = choose|j: int| 0 <= j < now.len() && now[j] == candidate_id(h, i);
                if j < before.len() {
                    assert(before[j] == candidate_id(h, i));
                }
            }
        }
    }
}

/// A partition is removed exactly where it holds nothing and never will again: its key shows a date
/// that is not kept any more, it has no files, and it was not created a moment ago. Every other one
/// remains.
pub proof fn law_removable_partitions_are_removed(h: Seq<Reply>, i: int)
    requires
        passes(ScenarioView::PartitionRetention, h),
        candidate_ids(h).no_duplicates(),
        0 <= i < CANDIDATES,
    ensures
        removed_ids(h).contains(candidate_id(h, i)) <==> removable(
            candidate(i),
        ),
        h[53]->Ids_0@.contains(candidate_id(h, i)) <==> !removable(candidate(i)),
{
    broadcast use vstd::seq_lib::group_to_multiset_ensures;

    let id = candidate_id(h, i);
    let removed = removed_ids(h);
    let remaining = h[53]->Ids_0@;
    lemma_removed_and_remaining(h);
    law_only_removable_partitions_go(i);
    lemma_first_candidates_contain(h, false, CANDIDATES as int, i);
    lemma_first_candidates_contain(h, true, CANDIDATES as int, i);
    assert(removed.contains(id) <==> removed.to_multiset().count(id) > 0);
    assert(candidates(h, false).contains(id) <==> candidates(h, false).to_multiset().count(id) > 0);
    assert(remaining.contains(id) <==> remaining.to_multiset().count(id) > 0);
    assert(candidates(h, true).contains(id) <==> candidates(h, true).to_multiset().count(id) > 0);
}

/// Of the reasons why the compaction of a partition was skipped only the last is kept, and once it
/// is removed none is left.
pub proof fn law_last_reason_is_kept(h: Seq<Reply>)
    requires
        passes(ScenarioView::Partition, h),
    ensures
        h[31] is SkippedList && h[36] is SkippedList && h[47] is SkippedList,
        h[31]->SkippedList_0@.len() == 1,
        h[31]->SkippedList_0@[0]@.reason == "I am le tired"@,
        h[36]->SkippedList_0@.len() == 1,
        h[36]->SkippedList_0@[0]@.reason == "I'm on fire"@,
        h[31]->SkippedList_0@[0].partition_id == h[36]->SkippedList_0@[0].partition_id,
        h[47]->SkippedList_0@.len() == 0,
{
    let s = ScenarioView::Partition;
    assert(accepts(s, h.take(32)));
    assert(accepts(s, h.take(37)));
    assert(accepts(s, h.take(48)));
}

/// Of the most recent partitions as many are listed as were asked for or are there, and the one
/// that
/// was created last comes first: asked for more than there are, all four are listed, the two with
/// sort
/// keys before the two that are older and have none.
pub proof fn law_most_recent_partitions_come_first(h: Seq<Reply>, k: int, n: usize)
    requires
        passes(ScenarioView::Partition, h),
        0 <= k < h.len(),
        run::request(ScenarioView::Partition, h.take(k)) == RequestView::Partitions(
            PartitionsRequestView::MostRecentN { n },
        ),
    ensures
        h[k] is Partitions,
        h[k]->Partitions_0@.len() == if n < 4 {
            n as int
        } else {
            4
        },
        n > 4 ==> {
            let list = views(h[k]->Partitions_0@);
            &&& list[0].id == expect::partition(h, test_partition::SKIPPED_TOO).id
            &&& list[0].sort_key_ids == Some(seq![3i64, 4])
            &&& list[1].id == expect::partition(h, test_partition::SKIPPED).id
            &&& list[1].sort_key_ids == Some(seq![2i64, 1, 4, 3])
            &&& list[2].sort_key_ids is None
            &&& list[3].sort_key_ids is None
        },
        test_partition::FOO < test_partition::BAR < test_partition::SKIPPED
            < test_partition::SKIPPED_TOO,
{
    let s = ScenarioView::Partition;
    let t = h.take(k + 1);
    assert(accepts(s, t));
    assert(t.last() == h[k]);
    assert(t[test_partition::SKIPPED as int] == h[test_partition::SKIPPED as int]);
    assert(t[test_partition::SKIPPED_TOO as int] == h[test_partition::SKIPPED_TOO as int]);
}

/// Of all partitions exactly two are removed: those that have no file, show a date that is over a
/// week
/// ago, and were created over a day ago or at a time that is not known.
pub proof fn law_exactly_two_partitions_are_removed(h: Seq<Reply>)
    requires
        passes(ScenarioView::PartitionRetention, h),
    ensures
        removed_ids(h).to_multiset() == seq![
            expect::partition(h, test_partition_retention::PARTITION_4).id,
            expect::partition(h, test_partition_retention::PARTITION_5).id,
        ].to_multiset(),
        h[53]->Ids_0@.len() == 16,
{
    broadcast use vstd::seq_lib::group_to_multiset_ensures;

    lemma_removed_and_remaining(h);
    reveal_with_fuel(first_candidates, 19);
    assert(candidates(h, false) =~= seq![
        expect::partition(h, test_partition_retention::PARTITION_4).id,
        expect::partition(h, test_partition_retention::PARTITION_5).id,
    ]);
    assert(candidates(h, true).len() == 16);
    assert(h[53]->Ids_0@.len() == h[53]->Ids_0@.to_multiset().len());
}

} // verus!
