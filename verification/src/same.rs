//! Equality of values by their models.
use vstd::prelude::*;

verus! {

/// The models of a list's elements, in the list's order.
pub open spec fn views<T: View>(list: Seq<T>) -> Seq<T::V> {
    list.map_values(|x: T| x@)
}

/// The model of an optional value.
pub open spec fn view_option<T: View>(x: Option<T>) -> Option<T::V> {
    match x {
        Some(v) => Some(v@),
        None => None,
    }
}

/// The model of an optional list.
pub open spec fn view_option_list<T: View>(x: Option<Vec<T>>) -> Option<Seq<T::V>> {
    match x {
        Some(v) => Some(views(v@)),
        None => None,
    }
}

/// Values that can be compared by their models.
pub trait Same: View {
    /// Whether the two have the same model.
    fn same(&self, other: &Self) -> (b: bool)
        ensures
            b == (self@ == other@),
    ;
}

impl Same for i64 {
    fn same(&self, other: &Self) -> (b: bool) {
        *self == *other
    }
}

impl Same for u8 {
    fn same(&self, other: &Self) -> (b: bool) {
        *self == *other
    }
}

impl Same for u128 {
    fn same(&self, other: &Self) -> (b: bool) {
        *self == *other
    }
}

impl Same for String {
    fn same(&self, other: &Self) -> (b: bool) {
        *self == *other
    }
}

impl Same for (i64, u128) {
    fn same(&self, other: &Self) -> (b: bool) {
        self.0 == other.0 && self.1 == other.1
    }
}

/// Whether two lists of references are to equal elements.
pub fn same_refs<T: Same>(a: &Vec<&T>, b: &Vec<&T>) -> (same: bool)
    ensures
        same == (views(a@) == views(b@)),
{
    let ghost p: Seq<T::V> = views(a@);
    let ghost q: Seq<T::V> = views(b@);
    if a.len() != b.len() {
        proof {
            assert(p.len() != q.len());
        }
        return false;
    }
    let mut i: usize = 0;
    while i < a.len()
        invariant
            i <= a.len(),
            a.len() == b.len() == p.len() == q.len(),
            p == views(a@),
            q == views(b@),
            forall|j: int| 0 <= j < i ==> p[j] == q[j],
        decreases a.len() - i,
    {
        proof {
            assert(p[i as int] == a@[i as int]@);
            assert(q[i as int] == b@[i as int]@);
        }
        if !a[i].same(b[i]) {
            return false;
        }
        i += 1;
    }
    proof {
        assert(p =~= q);
    }
    true
}

/// Whether two lists have equal elements in the same order.
pub fn same_list<T: Same>(a: &Vec<T>, b: &Vec<T>) -> (same: bool)
    ensures
        same == (views(a@) == views(b@)),
{
    proof {
        assert(views(a@).len() == a@.len());
        assert(views(b@).len() == b@.len());
    }
    if a.len() != b.len() {
        return false;
    }
    let mut i: usize = 0;
    while i < a.len()
        invariant
            i <= a.len(),
            a.len() == b.len(),
            forall|j: int| 0 <= j < i ==> views(a@)[j] == views(b@)[j],
        decreases a.len() - i,
    {
        proof {
            assert(views(a@)[i as int] == a@[i as int]@);
            assert(views(b@)[i as int] == b@[i as int]@);
        }
        if !a[i].same(&b[i]) {
            return false;
        }
        i += 1;
    }
    proof {
        assert(views(a@) =~= views(b@));
    }
    true
}

/// Whether two optional lists are both absent, or both there and equal.
pub fn same_option_list<T: Same>(a: &Option<Vec<T>>, b: &Option<Vec<T>>) -> (same: bool)
    ensures
        same == (view_option_list(*a) == view_option_list(*b)),
{
    match (a, b) {
        (Some(x), Some(y)) => same_list(x, y),
        (None, None) => true,
        _ => false,
    }
}

/// Whether two lists of integers are equal.
pub fn same_ints(a: &Vec<i64>, b: &Vec<i64>) -> (same: bool)
    ensures
        same == (a@ == b@),
{
    proof {
        assert(views(a@) =~= a@);
        assert(views(b@) =~= b@);
    }
    same_list(a, b)
}

/// Whether two lists of bytes are equal.
pub fn same_bytes(a: &Vec<u8>, b: &Vec<u8>) -> (same: bool)
    ensures
        same == (a@ == b@),
{
    proof {
        assert(views(a@) =~= a@);
        assert(views(b@) =~= b@);
    }
    same_list(a, b)
}

/// Whether two optional lists of integers are both absent, or both there and equal.
pub fn same_option_ints(a: &Option<Vec<i64>>, b: &Option<Vec<i64>>) -> (same: bool)
    ensures
        same == (view_option(*a) == view_option(*b)),
{
    match (a, b) {
        (Some(x), Some(y)) => same_ints(x, y),
        (None, None) => true,
        _ => false,
    }
}

/// Whether two optional lists of bytes are both absent, or both there and equal.
pub fn same_option_bytes(a: &Option<Vec<u8>>, b: &Option<Vec<u8>>) -> (same: bool)
    ensures
        same == (view_option(*a) == view_option(*b)),
{
    match (a, b) {
        (Some(x), Some(y)) => same_bytes(x, y),
        (None, None) => true,
        _ => false,
    }
}

/// Whether `list` has an element that equals `x`.
pub fn list_contains<T: Same>(list: &Vec<T>, x: &T) -> (found: bool)
    ensures
        found == views(list@).contains(x@),
{
    let mut i: usize = 0;
    while i < list.len()
        invariant
            i <= list.len(),
            forall|j: int| 0 <= j < i ==> views(list@)[j] != x@,
        decreases list.len() - i,
    {
        proof {
            assert(views(list@)[i as int] == list@[i as int]@);
        }
        if list[i].same(x) {
            proof {
                assert(views(list@).contains(x@));
            }
            return true;
        }
        i += 1;
    }
    false
}

/// How often `x` occurs in `list`.
fn occurrences<T: Same>(list: &Vec<T>, x: &T) -> (n: usize)
    ensures
        n == views(list@).to_multiset().count(x@),
{
    broadcast use vstd::seq_lib::group_to_multiset_ensures;

    let mut n: usize = 0;
    let mut i: usize = 0;
    let ghost all: Seq<T::V> = views(list@);
    proof {
        assert(all.take(0) =~= Seq::<T::V>::empty());
    }
    while i < list.len()
        invariant
            n <= i <= list.len(),
            all == views(list@),
            n == all.take(i as int).to_multiset().count(x@),
        decreases list.len() - i,
    {
        proof {
            broadcast use vstd::seq_lib::group_to_multiset_ensures;

            assert(all.take(i + 1) =~= all.take(i as int).push(all[i as int]));
            assert(all.take(i + 1).to_multiset() == all.take(i as int).to_multiset().insert(
                all[i as int],
            ));
            assert(all[i as int] == list@[i as int]@);
        }
        if list[i].same(x) {
            n += 1;
        }
        i += 1;
    }
    proof {
        assert(all.take(list@.len() as int) =~= all);
    }
    n
}

/// Whether every element of `a` occurs in `b` as often as in `a`.
fn occurs_as_often<T: Same>(a: &Vec<T>, b: &Vec<T>) -> (often: bool)
    ensures
        often == (forall|v: T::V| #[trigger]
            views(a@).contains(v) ==> views(a@).to_multiset().count(v) == views(
                b@,
            ).to_multiset().count(v)),
{
    let mut i: usize = 0;
    while i < a.len()
        invariant
            i <= a.len(),
            forall|j: int|
                0 <= j < i ==> views(a@).to_multiset().count(#[trigger] views(a@)[j]) == views(
                    b@,
                ).to_multiset().count(views(a@)[j]),
        decreases a.len() - i,
    {
        proof {
            assert(views(a@)[i as int] == a@[i as int]@);
        }
        if occurrences(a, &a[i]) != occurrences(b, &a[i]) {
            proof {
                assert(views(a@).contains(views(a@)[i as int]));
            }
            return false;
        }
        i += 1;
    }
    true
}

/// Whether two lists hold the same elements, each as often, in whatever order.
pub fn same_elements<T: Same>(a: &Vec<T>, b: &Vec<T>) -> (same: bool)
    ensures
        same == (views(a@).to_multiset() == views(b@).to_multiset()),
{
    broadcast use vstd::seq_lib::group_to_multiset_ensures;

    let same: bool = occurs_as_often(a, b) && occurs_as_often(b, a);
    proof {
        if same {
            let p = views(a@).to_multiset();
            let q = views(b@).to_multiset();
            assert forall|v: T::V| p.count(v) == q.count(v) by {
                if p.count(v) > 0 {
                    assert(views(a@).contains(v));
                } else if q.count(v) > 0 {
                    assert(views(b@).contains(v));
                }
            }
            assert(p =~= q);
        }
    }
    same
}

/// Whether every element of `a` occurs in `b`.
fn all_occur(a: &Vec<i64>, b: &Vec<i64>) -> (r: bool)
    ensures
        r == (forall|i: int| 0 <= i < a@.len() ==> b@.contains(#[trigger] a@[i])),
{
    let mut i: usize = 0;
    while i < a.len()
        invariant
            i <= a.len(),
            forall|j: int| 0 <= j < i ==> b@.contains(#[trigger] a@[j]),
        decreases a.len() - i,
    {
        let mut found: bool = false;
        let mut k: usize = 0;
        while k < b.len()
            invariant
                k <= b.len(),
                i < a.len(),
                found == (exists|j: int| 0 <= j < k && b@[j] == a@[i as int]),
            decreases b.len() - k,
        {
            if b[k] == a[i] {
                found = true;
            }
            k += 1;
        }
        if !found {
            proof {
                assert(!b@.contains(a@[i as int]));
            }
            return false;
        }
        i += 1;
    }
    true
}

/// Whether two lists have the same elements, in any order and however often.
pub fn same_set(a: &Vec<i64>, b: &Vec<i64>) -> (same: bool)
    ensures
        same == (a@.to_set() == b@.to_set()),
{
    let same: bool = all_occur(a, b) && all_occur(b, a);
    proof {
        if same {
            assert(a@.to_set() =~= b@.to_set());
        } else if a@.to_set() == b@.to_set() {
            assert forall|i: int| 0 <= i < a@.len() implies b@.contains(#[trigger] a@[i]) by {
                assert(a@.to_set().contains(a@[i]));
            }
            assert forall|i: int| 0 <= i < b@.len() implies a@.contains(#[trigger] b@[i]) by {
                assert(b@.to_set().contains(b@[i]));
            }
        }
    }
    same
}

/// Two things are the same two in either order.
pub proof fn lemma_two_commute<T>(a: T, b: T)
    ensures
        seq![a, b].to_multiset() == seq![b, a].to_multiset(),
{
    broadcast use vstd::seq_lib::group_to_multiset_ensures;

    let x = seq![a, b];
    let y = seq![b, a];
    assert(x =~= Seq::empty().push(a).push(b));
    assert(y =~= Seq::empty().push(b).push(a));
    assert(x.to_multiset() =~= y.to_multiset());
}

} // verus!
