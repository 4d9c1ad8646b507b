//! Lists in the order of their ids.
use crate::same::{same_refs, views, Same};
use vstd::prelude::*;

verus! {

/// Models of things that have an id.
pub trait Keyed: Sized {
    /// The id.
    spec fn key(self) -> i64;
}

/// Things that have an id.
pub trait Identified: View where Self::V: Keyed {
    /// The id.
    fn id(&self) -> (id: i64)
        ensures
            id == self@.key(),
    ;
}

impl Keyed for i64 {
    open spec fn key(self) -> i64 {
        self
    }
}

impl Identified for i64 {
    fn id(&self) -> (id: i64) {
        *self
    }
}

/// `x` put into the list `s`, before the elements at its end whose ids are greater.
pub open spec fn insert_by_id<T: Keyed>(s: Seq<T>, x: T) -> Seq<T>
    decreases s.len(),
{
    if s.len() == 0 {
        seq![x]
    } else if s.last().key() <= x.key() {
        s.push(x)
    } else {
        insert_by_id(s.drop_last(), x).push(s.last())
    }
}

/// The elements of `s` in the order of their ids; elements of equal ids keep their order.
pub open spec fn sorted_by_id<T: Keyed>(s: Seq<T>) -> Seq<T>
    decreases s.len(),
{
    if s.len() == 0 {
        s
    } else {
        insert_by_id(sorted_by_id(s.drop_last()), s.last())
    }
}

/// Two lists have equal elements once both are in the order of their ids.
pub open spec fn same_by_id<T: Keyed>(a: Seq<T>, b: Seq<T>) -> bool {
    sorted_by_id(a) == sorted_by_id(b)
}

/// The elements of `s` that have another id.
pub open spec fn without_id<T: Keyed>(s: Seq<T>, id: i64) -> Seq<T>
    decreases s.len(),
{
    if s.len() == 0 {
        s
    } else if s.last().key() == id {
        without_id(s.drop_last(), id)
    } else {
        without_id(s.drop_last(), id).push(s.last())
    }
}

/// The elements of `s` in the order of their ids; of those with the same id, only the last.
pub open spec fn latest_by_id<T: Keyed>(s: Seq<T>) -> Seq<T>
    decreases s.len(),
{
    if s.len() == 0 {
        s
    } else {
        insert_by_id(without_id(latest_by_id(s.drop_last()), s.last().key()), s.last())
    }
}

proof fn lemma_insert_position<T: Keyed>(s: Seq<T>, x: T, p: int)
    requires
        0 <= p <= s.len(),
        forall|j: int| p <= j < s.len() ==> (#[trigger] s[j]).key() > x.key(),
        p > 0 ==> s[p - 1].key() <= x.key(),
    ensures
        insert_by_id(s, x) == s.insert(p, x),
    decreases s.len(),
{
    if s.len() > 0 {
        if p == s.len() {
            assert(s.insert(p, x) =~= s.push(x));
        } else {
            assert(s[s.len() - 1].key() > x.key());
            let t = s.drop_last();
            assert forall|j: int| p <= j < t.len() implies (#[trigger] t[j]).key() > x.key() by {
                assert(t[j] == s[j]);
            }
            lemma_insert_position(t, x, p);
            assert(s.insert(p, x) =~= t.insert(p, x).push(s.last()));
        }
    } else {
        assert(s.insert(p, x) =~= seq![x]);
    }
}

/// References to the elements of `list`.
pub fn refs<'a, T: View>(list: &'a Vec<T>) -> (r: Vec<&'a T>)
    ensures
        views(r@) == views(list@),
{
    let mut r: Vec<&'a T> = Vec::new();
    let mut i: usize = 0;
    while i < list.len()
        invariant
            i <= list.len(),
            r@.len() == i,
            forall|j: int| 0 <= j < i ==> *r@[j] == list@[j],
        decreases list.len() - i,
    {
        r.push(&list[i]);
        i += 1;
    }
    proof {
        assert(views(r@) =~= views(list@));
    }
    r
}

/// `x` put into the list, behind the elements whose ids are not greater.
fn insert_ref<'a, T: Identified>(list: &mut Vec<&'a T>, x: &'a T) where T::V: Keyed
    ensures
        views(final(list)@) == insert_by_id(views(old(list)@), x@),
{
    let ghost before: Seq<T::V> = views(list@);
    let mut p: usize = list.len();
    while p > 0 && list[p - 1].id() > x.id()
        invariant
            p <= list.len(),
            before == views(list@),
            forall|j: int| p <= j < list.len() ==> (#[trigger] before[j]).key() > x@.key(),
        decreases p,
    {
        p -= 1;
        proof {
            assert(before[p as int] == list@[p as int]@);
        }
    }
    proof {
        if p > 0 {
            assert(before[p - 1] == list@[p - 1]@);
        }
        lemma_insert_position(before, x@, p as int);
    }
    list.insert(p, x);
    proof {
        assert(views(list@) =~= before.insert(p as int, x@));
    }
}

/// The elements of `list` in the order of their ids.
pub fn sort_by_id<'a, T: Identified>(list: &Vec<&'a T>) -> (sorted: Vec<&'a T>) where T::V: Keyed
    ensures
        views(sorted@) == sorted_by_id(views(list@)),
{
    let mut sorted: Vec<&'a T> = Vec::new();
    let mut i: usize = 0;
    let ghost all: Seq<T::V> = views(list@);
    proof {
        assert(views(sorted@) =~= sorted_by_id(all.take(0)));
    }
    while i < list.len()
        invariant
            i <= list.len(),
            all == views(list@),
            views(sorted@) == sorted_by_id(all.take(i as int)),
        decreases list.len() - i,
    {
        let x: &'a T = list[i];
        proof {
            assert(all.take(i + 1).drop_last() =~= all.take(i as int));
            assert(all.take(i + 1).last() == x@);
        }
        insert_ref(&mut sorted, x);
        i += 1;
    }
    proof {
        assert(all.take(list@.len() as int) =~= all);
    }
    sorted
}

/// The elements of `list` that have another id.
fn drop_id<'a, T: Identified>(list: &Vec<&'a T>, id: i64) -> (rest: Vec<&'a T>) where T::V: Keyed
    ensures
        views(rest@) == without_id(views(list@), id),
{
    let mut rest: Vec<&'a T> = Vec::new();
    let ghost all: Seq<T::V> = views(list@);
    let mut i: usize = 0;
    proof {
        assert(views(rest@) =~= without_id(all.take(0), id));
    }
    while i < list.len()
        invariant
            i <= list.len(),
            all == views(list@),
            views(rest@) == without_id(all.take(i as int), id),
        decreases list.len() - i,
    {
        let x: &'a T = list[i];
        let ghost before: Seq<T::V> = views(rest@);
        proof {
            assert(all.take(i + 1).drop_last() =~= all.take(i as int));
            assert(all.take(i + 1).last() == x@);
        }
        if x.id() != id {
            rest.push(x);
            proof {
                assert(views(rest@) =~= before.push(x@));
            }
        }
        i += 1;
    }
    proof {
        assert(all.take(list@.len() as int) =~= all);
    }
    rest
}

/// The elements of `list` in the order of their ids; of those with the same id, only the last.
pub fn keep_latest_by_id<'a, T: Identified>(list: &Vec<&'a T>) -> (kept: Vec<&'a T>) where
    T::V: Keyed,

    ensures
        views(kept@) == latest_by_id(views(list@)),
{
    let mut kept: Vec<&'a T> = Vec::new();
    let ghost all: Seq<T::V> = views(list@);
    let mut i: usize = 0;
    proof {
        assert(views(kept@) =~= latest_by_id(all.take(0)));
    }
    while i < list.len()
        invariant
            i <= list.len(),
            all == views(list@),
            views(kept@) == latest_by_id(all.take(i as int)),
        decreases list.len() - i,
    {
        let x: &'a T = list[i];
        proof {
            assert(all.take(i + 1).drop_last() =~= all.take(i as int));
            assert(all.take(i + 1).last() == x@);
        }
        let mut rest: Vec<&'a T> = drop_id(&kept, x.id());
        insert_ref(&mut rest, x);
        kept = rest;
        i += 1;
    }
    proof {
        assert(all.take(list@.len() as int) =~= all);
    }
    kept
}

/// Whether two lists have equal elements once both are in the order of their ids.
pub fn check_same_by_id<T: Identified + Same>(a: &Vec<&T>, b: &Vec<&T>) -> (same: bool) where
    T::V: Keyed,

    ensures
        same == same_by_id(views(a@), views(b@)),
{
    let x: Vec<&T> = sort_by_id(a);
    let y: Vec<&T> = sort_by_id(b);
    same_refs(&x, &y)
}

/// The ids of a list grow from element to element.
pub open spec fn ids_ascend<T: Keyed>(s: Seq<T>) -> bool {
    forall|i: int, j: int| 0 <= i < j < s.len() ==> (#[trigger] s[i]).key() <= (
        #[trigger] s[j]
    ).key()
}

/// No two elements of a list have the same id.
pub open spec fn ids_distinct<T: Keyed>(s: Seq<T>) -> bool {
    forall|i: int, j: int|
        0 <= i < s.len() && 0 <= j < s.len() && i != j ==> (#[trigger] s[i]).key() != (
        #[trigger] s[j]).key()
}

proof fn lemma_insert_keeps<T: Keyed>(s: Seq<T>, x: T)
    requires
        ids_ascend(s),
    ensures
        ids_ascend(insert_by_id(s, x)),
        insert_by_id(s, x).len() == s.len() + 1,
        insert_by_id(s, x).to_multiset() == s.to_multiset().insert(x),
    decreases s.len(),
{
    broadcast use vstd::seq_lib::group_to_multiset_ensures;

    if s.len() == 0 {
        assert(seq![x] =~= s.push(x));
    } else if s.last().key() <= x.key() {
        assert forall|i: int, j: int| 0 <= i < j < s.len() + 1 implies (
            #[trigger] s.push(x)[i]
        ).key()
            <= (#[trigger] s.push(x)[j]).key() by {
            if j == s.len() && i < s.len() - 1 {
                assert(s[i].key() <= s[s.len() - 1].key());
            }
        }
    } else {
        let t = s.drop_last();
        assert(ids_ascend(t)) by {
            assert forall|i: int, j: int| 0 <= i < j < t.len() implies (#[trigger] t[i]).key() <= (
            #[trigger] t[j]).key() by {
                assert(t[i] == s[i] && t[j] == s[j]);
            }
        }
        lemma_insert_keeps(t, x);
        let r = insert_by_id(t, x);
        assert(t.push(s.last()) =~= s);
        assert(r.push(s.last()).to_multiset() =~= s.to_multiset().insert(x));
        assert forall|i: int, j: int|
            0 <= i < j < r.len() + 1 implies (#[trigger] r.push(s.last())[i]).key() <= (
        #[trigger] r.push(s.last())[j]).key() by {
            if j == r.len() {
                assert(r.contains(r[i]));
                assert(r.to_multiset().count(r[i]) > 0);
                if r[i] != x {
                    assert(t.to_multiset().count(r[i]) > 0);
                    assert(t.contains(r[i]));
                    let k = choose|k: int| 0 <= k < t.len() && t[k] == r[i];
                    assert(s[k].key() <= s[s.len() - 1].key());
                }
            }
        }
    }
}

/// Sorting a list brings its ids in order, and neither adds nor drops an element.
pub proof fn law_sorting_rearranges<T: Keyed>(s: Seq<T>)
    ensures
        ids_ascend(sorted_by_id(s)),
        sorted_by_id(s).len() == s.len(),
        sorted_by_id(s).to_multiset() == s.to_multiset(),
    decreases s.len(),
{
    broadcast use vstd::seq_lib::group_to_multiset_ensures;

    if s.len() > 0 {
        law_sorting_rearranges(s.drop_last());
        lemma_insert_keeps(sorted_by_id(s.drop_last()), s.last());
        assert(s.drop_last().push(s.last()) =~= s);
    }
}

proof fn lemma_sorted_lists_agree<T: Keyed>(a: Seq<T>, b: Seq<T>)
    requires
        ids_ascend(a),
        ids_ascend(b),
        ids_distinct(a),
        a.to_multiset() == b.to_multiset(),
    ensures
        a == b,
    decreases a.len(),
{
    broadcast use vstd::seq_lib::group_to_multiset_ensures;

    assert(a.len() == a.to_multiset().len() == b.to_multiset().len());
    if a.len() == 0 {
        assert(a =~= b);
    } else {
        let n = a.len() - 1;
        assert(a.contains(a[n]));
        assert(b.to_multiset().count(a[n]) > 0);
        assert(b.contains(a[n]));
        let j = choose|j: int| 0 <= j < b.len() && b[j] == a[n];
        assert(b.contains(b[n]));
        assert(a.to_multiset().count(b[n]) > 0);
        assert(a.contains(b[n]));
        let i = choose|i: int| 0 <= i < a.len() && a[i] == b[n];
        assert(b[j].key() <= b[n].key());
        assert(a[i].key() <= a[n].key());
        assert(i == n);
        let ta = a.drop_last();
        let tb = b.drop_last();
        assert(a =~= ta.push(a[n]));
        assert(b =~= tb.push(a[n]));
        assert(ta.to_multiset() =~= a.to_multiset().remove(a[n]));
        assert(tb.to_multiset() =~= b.to_multiset().remove(a[n]));
        assert forall|p: int, q: int| 0 <= p < q < ta.len() implies (#[trigger] ta[p]).key() <= (
        #[trigger] ta[q]).key() by {
            assert(ta[p] == a[p] && ta[q] == a[q]);
        }
        assert forall|p: int, q: int| 0 <= p < q < tb.len() implies (#[trigger] tb[p]).key() <= (
        #[trigger] tb[q]).key() by {
            assert(tb[p] == b[p] && tb[q] == b[q]);
        }
        assert forall|p: int, q: int|
            0 <= p < ta.len() && 0 <= q < ta.len() && p != q implies (#[trigger] ta[p]).key() != (
        #[trigger] ta[q]).key() by {
            assert(ta[p] == a[p] && ta[q] == a[q]);
        }
        lemma_sorted_lists_agree(ta, tb);
    }
}

proof fn lemma_sorting_keeps_distinct<T: Keyed>(s: Seq<T>)
    requires
        ids_distinct(s),
    ensures
        ids_distinct(sorted_by_id(s)),
{
    broadcast use vstd::seq_lib::group_to_multiset_ensures;

    law_sorting_rearranges(s);
    let r = sorted_by_id(s);
    assert(s.no_duplicates()) by {
        assert forall|i: int, j: int|
            0 <= i < s.len() && 0 <= j < s.len() && i != j implies s[i] != s[j] by {
            assert(s[i].key() != s[j].key());
        }
    }
    s.lemma_multiset_has_no_duplicates();
    assert forall|x: T| r.to_multiset().contains(x) implies r.to_multiset().count(x) == 1 by {
        assert(s.to_multiset().contains(x));
    }
    r.lemma_multiset_has_no_duplicates_conv();
    assert forall|i: int, j: int|
        0 <= i < r.len() && 0 <= j < r.len() && i != j implies (#[trigger] r[i]).key() != (
    #[trigger] r[j]).key() by {
        assert(r[i] != r[j]);
        assert(r.contains(r[i]) && r.contains(r[j]));
        assert(s.to_multiset().count(r[i]) > 0 && s.to_multiset().count(r[j]) > 0);
        assert(s.contains(r[i]) && s.contains(r[j]));
        let p = choose|p: int| 0 <= p < s.len() && s[p] == r[i];
        let q = choose|q: int| 0 <= q < s.len() && s[q] == r[j];
        assert(s[p].key() != s[q].key());
    }
}

/// Where ids are distinct, comparing two lists in the order of their ids is comparing what they
/// hold, however often, whatever order they came in.
pub proof fn law_order_does_not_matter<T: Keyed>(a: Seq<T>, b: Seq<T>)
    requires
        ids_distinct(a),
    ensures
        same_by_id(a, b) <==> a.to_multiset() == b.to_multiset(),
{
    law_sorting_rearranges(a);
    law_sorting_rearranges(b);
    if a.to_multiset() == b.to_multiset() {
        lemma_sorting_keeps_distinct(a);
        lemma_sorted_lists_agree(sorted_by_id(a), sorted_by_id(b));
    }
}

/// `x` stands in the list, and no element behind it has its id.
pub open spec fn is_latest<T: Keyed>(s: Seq<T>, x: T) -> bool {
    exists|i: int| is_latest_at(s, x, i)
}

/// `x` stands at this place of the list, and no element behind it has its id.
pub open spec fn is_latest_at<T: Keyed>(s: Seq<T>, x: T, i: int) -> bool {
    &&& 0 <= i < s.len()
    &&& s[i] == x
    &&& forall|j: int| i < j < s.len() ==> (#[trigger] s[j]).key() != x.key()
}

proof fn lemma_without<T: Keyed>(s: Seq<T>, id: i64, x: T)
    requires
        ids_ascend(s),
        ids_distinct(s),
    ensures
        without_id(s, id).contains(x) <==> s.contains(x) && x.key() != id,
        ids_ascend(without_id(s, id)),
        ids_distinct(without_id(s, id)),
    decreases s.len(),
{
    if s.len() > 0 {
        let t = s.drop_last();
        let r = without_id(t, id);
        let all = without_id(s, id);
        assert(s =~= t.push(s.last()));
        lemma_without(t, id, x);
        assert(s.contains(x) <==> t.contains(x) || x == s.last()) by {
            if t.contains(x) {
                let i = choose|i: int| 0 <= i < t.len() && t[i] == x;
                assert(s[i] == x);
            }
            assert(s[s.len() - 1] == s.last());
        }
        if s.last().key() != id {
            assert forall|i: int| 0 <= i < r.len() implies (#[trigger] r[i]).key()
                < s.last().key() by {
                lemma_without(t, id, r[i]);
                assert(r.contains(r[i]));
                let j = choose|j: int| 0 <= j < t.len() && t[j] == r[i];
                assert(s[j].key() <= s[s.len() - 1].key());
                assert(s[j].key() != s[s.len() - 1].key());
            }
            assert(all == r.push(s.last()));
            assert(all.contains(x) <==> r.contains(x) || x == s.last()) by {
                if r.contains(x) {
                    let i = choose|i: int| 0 <= i < r.len() && r[i] == x;
                    assert(all[i] == x);
                }
                assert(all[r.len() as int] == s.last());
            }
        }
    }
}

/// Of elements with the same id only the last is kept, nothing else is dropped, and what is kept is
/// in
/// the order of the ids.
pub proof fn law_the_latest_is_kept<T: Keyed>(s: Seq<T>, x: T)
    ensures
        latest_by_id(s).contains(x) <==> is_latest(s, x),
        ids_ascend(latest_by_id(s)),
        ids_distinct(latest_by_id(s)),
    decreases s.len(),
{
    broadcast use vstd::seq_lib::group_to_multiset_ensures;

    if s.len() > 0 {
        let t = s.drop_last();
        let last = s.last();
        let before = latest_by_id(t);
        let rest = without_id(before, last.key());
        let all = latest_by_id(s);
        law_the_latest_is_kept(t, x);
        lemma_without(before, last.key(), x);
        lemma_insert_keeps(rest, last);
        assert(all == insert_by_id(rest, last));
        assert forall|y: T| all.contains(y) == (rest.contains(y) || y == last) by {
            assert(all.to_multiset().count(y) > 0 <==> all.contains(y));
            assert(rest.to_multiset().count(y) > 0 <==> rest.contains(y));
        }
        assert forall|y: T| rest.contains(y) implies #[trigger] y.key() != last.key() by {
            lemma_without(before, last.key(), y);
        }
        assert(ids_distinct(all)) by {
            lemma_insert_keeps_distinct(rest, last);
        }
        if is_latest(s, x) {
            let i = choose|i: int| is_latest_at(s, x, i);
            if i < t.len() {
                assert(s[s.len() - 1].key() != x.key());
                assert forall|j: int| i < j < t.len() implies (#[trigger] t[j]).key()
                    != x.key() by {
                    assert(s[j] == t[j]);
                }
                assert(is_latest_at(t, x, i));
            }
        }
        if is_latest(t, x) && x.key() != last.key() {
            let i = choose|i: int| is_latest_at(t, x, i);
            assert forall|j: int| i < j < s.len() implies (#[trigger] s[j]).key() != x.key() by {
                if j < t.len() {
                    assert(s[j] == t[j]);
                }
            }
            assert(is_latest_at(s, x, i));
        }
        if x == last {
            assert(is_latest_at(s, x, s.len() - 1));
        }
        if is_latest(t, x) && x.key() == last.key() && is_latest(s, x) {
            let i = choose|i: int| is_latest_at(s, x, i);
            assert(i == s.len() - 1);
        }
    } else {
        assert(!is_latest(s, x));
    }
}

proof fn lemma_insert_keeps_distinct<T: Keyed>(s: Seq<T>, x: T)
    requires
        ids_distinct(s),
        forall|y: T| s.contains(y) ==> #[trigger] y.key() != x.key(),
    ensures
        ids_distinct(insert_by_id(s, x)),
    decreases s.len(),
{
    if s.len() > 0 {
        assert(s.contains(s[s.len() - 1]));
        if s.last().key() <= x.key() {
            assert forall|i: int| 0 <= i < s.len() implies (#[trigger] s[i]).key() != x.key() by {
                assert(s.contains(s[i]));
            }
        } else {
            let t = s.drop_last();
            let r = insert_by_id(t, x);
            assert forall|y: T| t.contains(y) implies #[trigger] y.key() != x.key() by {
                let i = choose|i: int| 0 <= i < t.len() && t[i] == y;
                assert(s.contains(s[i]));
            }
            lemma_insert_keeps_distinct(t, x);
            assert forall|i: int| 0 <= i < r.len() implies (#[trigger] r[i]).key()
                != s.last().key() by {
                lemma_inserted(t, x, i);
                if r[i] != x {
                    let j = choose|j: int| 0 <= j < t.len() && t[j] == r[i];
                    assert(s[j].key() != s[s.len() - 1].key());
                }
            }
        }
    }
}

proof fn lemma_inserted<T: Keyed>(s: Seq<T>, x: T, i: int)
    requires
        0 <= i < insert_by_id(s, x).len(),
    ensures
        insert_by_id(s, x)[i] == x || s.contains(insert_by_id(s, x)[i]),
    decreases s.len(),
{
    if s.len() > 0 {
        let t = s.drop_last();
        if s.last().key() <= x.key() {
            if i < s.len() {
                assert(s.contains(s[i]));
            }
        } else {
            let r = insert_by_id(t, x);
            if i < r.len() {
                lemma_inserted(t, x, i);
                if r[i] != x {
                    let j = choose|j: int| 0 <= j < t.len() && t[j] == r[i];
                    assert(s[j] == r[i]);
                }
            } else {
                assert(s.contains(s[s.len() - 1]));
            }
        }
    }
}

/// Where no id comes twice, everything is kept.
pub proof fn law_distinct_elements_are_all_kept<T: Keyed>(s: Seq<T>)
    requires
        ids_distinct(s),
    ensures
        latest_by_id(s) == sorted_by_id(s),
        latest_by_id(s).to_multiset() == s.to_multiset(),
    decreases s.len(),
{
    broadcast use vstd::seq_lib::group_to_multiset_ensures;

    law_sorting_rearranges(s);
    if s.len() > 0 {
        let t = s.drop_last();
        assert forall|i: int, j: int|
            0 <= i < t.len() && 0 <= j < t.len() && i != j implies (#[trigger] t[i]).key() != (
        #[trigger] t[j]).key() by {
            assert(t[i] == s[i] && t[j] == s[j]);
        }
        law_distinct_elements_are_all_kept(t);
        law_sorting_rearranges(t);
        let r = latest_by_id(t);
        assert forall|i: int| 0 <= i < r.len() implies (#[trigger] r[i]).key()
            != s.last().key() by {
            assert(r.contains(r[i]));
            assert(t.to_multiset().count(r[i]) > 0);
            assert(t.contains(r[i]));
            let j = choose|j: int| 0 <= j < t.len() && t[j] == r[i];
            assert(s[j].key() != s[s.len() - 1].key());
        }
        lemma_without_absent(r, s.last().key());
    }
}

proof fn lemma_without_absent<T: Keyed>(s: Seq<T>, id: i64)
    requires
        forall|i: int| 0 <= i < s.len() ==> (#[trigger] s[i]).key() != id,
    ensures
        without_id(s, id) == s,
    decreases s.len(),
{
    if s.len() > 0 {
        let t = s.drop_last();
        assert forall|i: int| 0 <= i < t.len() implies (#[trigger] t[i]).key() != id by {
            assert(t[i] == s[i]);
        }
        lemma_without_absent(t, id);
        assert(s[s.len() - 1].key() != id);
        assert(t.push(s.last()) =~= s);
    }
}

/// A list that is in the order of its ids stays as it is, and one with the same elements becomes
/// it,
/// where no id comes twice.
pub proof fn law_sorting_finds_the_ordered_list<T: Keyed>(s: Seq<T>, t: Seq<T>)
    requires
        ids_ascend(s),
        ids_distinct(s),
        t.to_multiset() == s.to_multiset(),
    ensures
        sorted_by_id(s) == s,
        sorted_by_id(t) == s,
{
    law_sorting_rearranges(s);
    law_sorting_rearranges(t);
    lemma_sorted_lists_agree(s, sorted_by_id(s));
    lemma_sorted_lists_agree(s, sorted_by_id(t));
}

} // verus!
