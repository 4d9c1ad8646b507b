//! Lists by the names of their elements.
use crate::same::{views, Same};
use crate::text::text_eq;
use vstd::prelude::*;

verus! {

/// Models of things that have a name.
pub trait HasName: Sized {
    /// The name.
    spec fn its_name(self) -> Seq<char>;
}

/// Things that have a name.
pub trait Named: View where Self::V: HasName {
    /// The name.
    fn name(&self) -> (name: &str)
        ensures
            name@ == self@.its_name(),
    ;
}

/// The elements of `s` by their names: of those with the same name the last. What order the list is
/// in does not matter, unless a name comes twice.
pub open spec fn by_name<T: HasName>(s: Seq<T>) -> Map<Seq<char>, T>
    decreases s.len(),
{
    if s.len() == 0 {
        Map::empty()
    } else {
        by_name(s.drop_last()).insert(s.last().its_name(), s.last())
    }
}

proof fn lemma_last_counts<T: HasName>(s: Seq<T>, i: int)
    requires
        0 <= i < s.len(),
        forall|j: int| i < j < s.len() ==> (#[trigger] s[j]).its_name() != s[i].its_name(),
    ensures
        by_name(s).contains_pair(s[i].its_name(), s[i]),
    decreases s.len(),
{
    if i < s.len() - 1 {
        let rest = s.drop_last();
        assert forall|j: int| i < j < rest.len() implies (#[trigger] rest[j]).its_name()
            != rest[i].its_name() by {
            assert(rest[j] == s[j]);
        }
        lemma_last_counts(rest, i);
        assert(s[s.len() - 1].its_name() != s[i].its_name());
    }
}

proof fn lemma_has_place<T: HasName>(s: Seq<T>, name: Seq<char>) -> (i: int)
    requires
        by_name(s).contains_key(name),
    ensures
        0 <= i < s.len(),
        s[i].its_name() == name,
    decreases s.len(),
{
    if s.last().its_name() == name {
        s.len() - 1
    } else {
        lemma_has_place(s.drop_last(), name)
    }
}

/// The place of the element of this name. Of several the last counts.
fn find_name<T: Named>(list: &Vec<T>, name: &str) -> (found: Option<usize>) where T::V: HasName
    ensures
        match found {
            Some(i) => i < list.len() && by_name(views(list@)).contains_pair(
                name@,
                list@[i as int]@,
            ),
            None => !by_name(views(list@)).contains_key(name@),
        },
{
    let ghost all: Seq<T::V> = views(list@);
    let mut i: usize = list.len();
    while i > 0
        invariant
            i <= list.len(),
            all == views(list@),
            forall|j: int| i <= j < list.len() ==> (#[trigger] all[j]).its_name() != name@,
        decreases i,
    {
        i -= 1;
        proof {
            assert(all[i as int] == list@[i as int]@);
        }
        if text_eq(list[i].name(), name) {
            proof {
                lemma_last_counts(all, i as int);
            }
            return Some(i);
        }
    }
    proof {
        if by_name(all).contains_key(name@) {
            let j = lemma_has_place(all, name@);
            assert(all[j].its_name() != name@);
        }
    }
    None
}

/// Whether each name in `a` is in `b`, too, and for the same.
fn is_within<T: Named + Same>(a: &Vec<T>, b: &Vec<T>) -> (within: bool) where T::V: HasName
    ensures
        within == by_name(views(a@)).submap_of(by_name(views(b@))),
{
    let ghost left: Map<Seq<char>, T::V> = by_name(views(a@));
    let ghost right: Map<Seq<char>, T::V> = by_name(views(b@));
    let mut i: usize = 0;
    while i < a.len()
        invariant
            i <= a.len(),
            left == by_name(views(a@)),
            right == by_name(views(b@)),
            forall|j: int|
                0 <= j < i ==> {
                    let name = (#[trigger] views(a@)[j]).its_name();
                    left.contains_key(name) && right.contains_pair(name, left[name])
                },
        decreases a.len() - i,
    {
        proof {
            assert(views(a@)[i as int] == a@[i as int]@);
        }
        match (find_name(a, a[i].name()), find_name(b, a[i].name())) {
            (Some(p), Some(q)) => {
                if !a[p].same(&b[q]) {
                    return false;
                }
            },
            (Some(_), None) => {
                return false;
            },
            (None, _) => {
                proof {
                    lemma_is_listed(views(a@), i as int);
                }
            },
        }
        i += 1;
    }
    proof {
        assert forall|name: Seq<char>| #[trigger]
            left.contains_key(name) implies right.contains_pair(name, left[name]) by {
            let j = lemma_has_place(views(a@), name);
            assert(views(a@)[j].its_name() == name);
        }
    }
    true
}

proof fn lemma_is_listed<T: HasName>(s: Seq<T>, i: int)
    requires
        0 <= i < s.len(),
    ensures
        by_name(s).contains_key(s[i].its_name()),
    decreases s.len(),
{
    if i < s.len() - 1 {
        assert(s.drop_last()[i] == s[i]);
        lemma_is_listed(s.drop_last(), i);
    }
}

/// Whether two lists have the same names, each for the same.
pub fn same_by_name<T: Named + Same>(a: &Vec<T>, b: &Vec<T>) -> (same: bool) where T::V: HasName
    ensures
        same == (by_name(views(a@)) == by_name(views(b@))),
{
    let same: bool = is_within(a, b) && is_within(b, a);
    proof {
        if same {
            assert(by_name(views(a@)) =~= by_name(views(b@)));
        }
    }
    same
}

/// No name comes twice.
pub open spec fn names_differ<T: HasName>(s: Seq<T>) -> bool {
    forall|i: int, j: int|
        0 <= i < j < s.len() ==> (#[trigger] s[i]).its_name() != (#[trigger] s[j]).its_name()
}

/// Where no name comes twice, two lists are the same by name exactly where each is the other in
/// some order.
pub proof fn law_order_of_names_does_not_matter<T: HasName>(a: Seq<T>, b: Seq<T>)
    requires
        names_differ(a),
        names_differ(b),
    ensures
        by_name(a) == by_name(b) <==> a.to_multiset() == b.to_multiset(),
{
    broadcast use vstd::seq_lib::group_to_multiset_ensures;

    if by_name(a) == by_name(b) {
        assert forall|x: T| #[trigger] a.to_multiset().count(x) == b.to_multiset().count(x) by {
            lemma_counts(a, x);
            lemma_counts(b, x);
        }
        assert(a.to_multiset() =~= b.to_multiset());
    }
    if a.to_multiset() == b.to_multiset() {
        assert forall|name: Seq<char>| #[trigger]
            by_name(a).contains_key(name) == by_name(b).contains_key(name) by {
            if by_name(a).contains_key(name) {
                let i = lemma_has_place(a, name);
                lemma_counts(a, a[i]);
                lemma_counts(b, a[i]);
                assert(a.to_multiset().count(a[i]) > 0);
            }
            if by_name(b).contains_key(name) {
                let i = lemma_has_place(b, name);
                lemma_counts(a, b[i]);
                lemma_counts(b, b[i]);
                assert(b.to_multiset().count(b[i]) > 0);
            }
        }
        assert forall|name: Seq<char>| #[trigger] by_name(a).contains_key(name) implies by_name(
            a,
        )[name] == by_name(b)[name] by {
            let i = lemma_has_place(a, name);
            lemma_counts(a, a[i]);
            lemma_counts(b, a[i]);
            assert(a.to_multiset().count(a[i]) > 0);
            lemma_last_counts(a, i);
        }
        assert(by_name(a) =~= by_name(b));
    }
}

proof fn lemma_counts<T: HasName>(s: Seq<T>, x: T)
    requires
        names_differ(s),
    ensures
        s.to_multiset().count(x) == if by_name(s).contains_pair(x.its_name(), x) {
            1nat
        } else {
            0
        },
{
    broadcast use vstd::seq_lib::group_to_multiset_ensures;

    if s.contains(x) {
        let i = choose|i: int| 0 <= i < s.len() && s[i] == x;
        lemma_last_counts(s, i);
        assert(s.no_duplicates()) by {
            assert forall|k: int, l: int| 0 <= k < s.len()
                && 0 <= l < s.len()
                && k != l implies s[k]
                != s[l] by {
                if k < l {
                    assert(s[k].its_name() != s[l].its_name());
                } else {
                    assert(s[l].its_name() != s[k].its_name());
                }
            }
        }
        s.lemma_multiset_has_no_duplicates();
        assert(s.to_multiset().contains(x));
    } else if by_name(s).contains_pair(x.its_name(), x) {
        let i = lemma_has_place(s, x.its_name());
        lemma_last_counts(s, i);
        assert(s[i] == x);
    }
}

/// Of elements with the same name the last counts, and a name counts only where an element has it.
pub proof fn law_the_last_of_a_name_counts<T: HasName>(s: Seq<T>, name: Seq<char>)
    ensures
        by_name(s).contains_key(name) <==> exists|i: int|
            0 <= i < s.len() && (#[trigger] s[i]).its_name() == name,
        forall|i: int|
            0 <= i < s.len() && (#[trigger] s[i]).its_name() == name && (forall|j: int|
                i < j < s.len() ==> (#[trigger] s[j]).its_name() != name) ==> by_name(s)[name]
                == s[i],
{
    if by_name(s).contains_key(name) {
        let i = lemma_has_place(s, name);
        assert(s[i].its_name() == name);
    }
    if exists|i: int| 0 <= i < s.len() && (#[trigger] s[i]).its_name() == name {
        let i = choose|i: int| 0 <= i < s.len() && (#[trigger] s[i]).its_name() == name;
        lemma_is_listed(s, i);
    }
    assert forall|i: int|
        0 <= i < s.len() && (#[trigger] s[i]).its_name() == name && (forall|j: int|
            i < j < s.len() ==> (#[trigger] s[j]).its_name() != name) implies by_name(s)[name]
        == s[i] by {
        lemma_last_counts(s, i);
    }
}

} // verus!
