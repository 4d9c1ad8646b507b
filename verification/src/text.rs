//! Comparing, ordering and searching text.
use vstd::prelude::*;
use vstd::utf8::encode_utf8;

verus! {

/// Whether two texts hold the same characters.
pub fn text_eq(a: &str, b: &str) -> (same: bool)
    ensures
        same == (a@ == b@),
{
    a.to_owned() == b.to_owned()
}

/// The characters of a text, one after the other.
pub fn to_chars(s: &str) -> (chars: Vec<char>)
    ensures
        chars@ == s@,
{
    let mut chars: Vec<char> = Vec::new();
    let n: usize = s.unicode_len();
    let mut i: usize = 0;
    while i < n
        invariant
            n == s@.len(),
            i <= n,
            chars@ == s@.take(i as int),
        decreases n - i,
    {
        chars.push(s.get_char(i));
        proof {
            assert(s@.take(i + 1) == s@.take(i as int).push(s@[i as int]));
        }
        i += 1;
    }
    proof {
        assert(s@.take(n as int) == s@);
    }
    chars
}

/// `needle` stands in `text` with its first character at position `at`.
pub open spec fn occurs_at(text: Seq<char>, needle: Seq<char>, at: int) -> bool {
    &&& 0 <= at
    &&& at + needle.len() <= text.len()
    &&& text.subrange(at, at + needle.len()) == needle
}

/// `needle` stands somewhere in `text`.
pub open spec fn occurs_in(text: Seq<char>, needle: Seq<char>) -> bool {
    exists|at: int| occurs_at(text, needle, at)
}

/// Whether `needle` stands somewhere in `text`.
pub fn contains_text(text: &str, needle: &str) -> (found: bool)
    ensures
        found == occurs_in(text@, needle@),
{
    let t: Vec<char> = to_chars(text);
    let s: Vec<char> = to_chars(needle);
    if s.len() > t.len() {
        return false;
    }
    if s.len() == 0 {
        proof {
            assert(t@.subrange(0, 0) =~= s@);
            assert(occurs_at(text@, needle@, 0));
        }
        return true;
    }
    let last: usize = t.len() - s.len();
    let mut at: usize = 0;
    while at <= last
        invariant
            t@ == text@,
            s@ == needle@,
            0 < s.len() <= t.len(),
            last == t.len() - s.len(),
            at <= last + 1,
            forall|j: int| 0 <= j < at ==> !occurs_at(text@, needle@, j),
        decreases last + 1 - at,
    {
        let mut k: usize = 0;
        while k < s.len() && t[at + k] == s[k]
            invariant
                at + s.len() <= t.len(),
                k <= s.len(),
                forall|j: int| 0 <= j < k ==> t@[at + j] == s@[j],
            decreases s.len() - k,
        {
            k += 1;
        }
        if k == s.len() {
            proof {
                assert(t@.subrange(at as int, at + s@.len()) =~= s@);
                assert(occurs_at(text@, needle@, at as int));
            }
            return true;
        }
        proof {
            assert(t@.subrange(at as int, at + s@.len())[k as int] == t@[at + k]);
            assert(!occurs_at(text@, needle@, at as int));
        }
        at += 1;
    }
    proof {
        assert forall|j: int| !occurs_at(text@, needle@, j) by {
            if 0 <= j && j + needle@.len() <= text@.len() {
                assert(j < at);
            }
        }
    }
    false
}

/// `a` stands before `b` in the order of a dictionary whose alphabet is ordered by code point.
pub open spec fn text_before(a: Seq<char>, b: Seq<char>) -> bool {
    exists|k: int| first_difference(a, b, k)
}

/// `a` and `b` agree on their first `k` characters, and then `a` ends or goes on with the smaller
/// character.
pub open spec fn first_difference(a: Seq<char>, b: Seq<char>, k: int) -> bool {
    &&& 0 <= k <= a.len()
    &&& k < b.len()
    &&& forall|j: int| 0 <= j < k ==> a[j] == b[j]
    &&& k < a.len() ==> (a[k] as u32) < (b[k] as u32)
}

/// Of two texts one stands before the other one, or they are equal, and never two of these at once.
pub proof fn law_texts_are_ordered(a: Seq<char>, b: Seq<char>)
    ensures
        text_before(a, b) ==> !text_before(b, a),
        text_before(a, b) ==> a != b,
        text_before(a, b) || text_before(b, a) || a == b,
{
    if text_before(a, b) && (text_before(b, a) || a == b) {
        let i = choose|i: int| first_difference(a, b, i);
        if a == b {
            assert(first_difference(a, a, i));
        } else {
            let j = choose|j: int| first_difference(b, a, j);
            if i < j {
                assert(b[i] == a[i]);
            } else if j < i {
                assert(a[j] == b[j]);
            }
        }
    }
    if !text_before(a, b) && a != b {
        let k = lemma_agree_up_to(a, b, 0);
        assert(!first_difference(a, b, k));
        if k == a.len() && k == b.len() {
            assert(a =~= b);
        }
        if k < a.len() && k < b.len() {
            lemma_code_points_differ(a[k], b[k]);
        }
        assert(first_difference(b, a, k));
    }
}

proof fn lemma_code_points_differ(x: char, y: char)
    requires
        x != y,
    ensures
        x as u32 != y as u32,
{
}

proof fn lemma_agree_up_to(a: Seq<char>, b: Seq<char>, n: int) -> (k: int)
    requires
        0 <= n <= a.len(),
        n <= b.len(),
        forall|j: int| 0 <= j < n ==> a[j] == b[j],
    ensures
        n <= k <= a.len(),
        k <= b.len(),
        forall|j: int| 0 <= j < k ==> a[j] == b[j],
        k < a.len() && k < b.len() ==> a[k] != b[k],
    decreases a.len() - n,
{
    if n < a.len() && n < b.len() && a[n] == b[n] {
        lemma_agree_up_to(a, b, n + 1)
    } else {
        n
    }
}

/// Whether `a` stands before `b` in dictionary order.
pub fn is_before(a: &str, b: &str) -> (before: bool)
    ensures
        before == text_before(a@, b@),
{
    let x: Vec<char> = to_chars(a);
    let y: Vec<char> = to_chars(b);
    let mut k: usize = 0;
    while k < x.len() && k < y.len() && x[k] == y[k]
        invariant
            x@ == a@,
            y@ == b@,
            k <= x.len(),
            k <= y.len(),
            forall|j: int| 0 <= j < k ==> x@[j] == y@[j],
        decreases x.len() - k,
    {
        k += 1;
    }
    let before: bool = k < y.len() && (k == x.len() || (x[k] as u32) < (y[k] as u32));
    proof {
        if before {
            assert(first_difference(a@, b@, k as int));
        } else {
            assert forall|i: int| !first_difference(a@, b@, i) by {
                if first_difference(a@, b@, i) {
                    if i < k {
                        assert(x@[i] == y@[i]);
                    } else if k < i {
                        assert(a@[k as int] == b@[k as int]);
                    }
                }
            }
        }
    }
    before
}

/// The texts that a list holds, each once.
pub open spec fn text_set(list: Seq<String>) -> Set<Seq<char>> {
    list.map_values(|s: String| s@).to_set()
}

/// Two lists of texts do not hold the same set of texts.
#[derive(Debug, PartialEq, Eq, Clone, Copy)]
pub struct SetsDiffer;

/// Whether `list` holds the text `s`.
pub fn list_holds(list: &Vec<String>, s: &str) -> (found: bool)
    ensures
        found == text_set(list@).contains(s@),
{
    let ghost views: Seq<Seq<char>> = list@.map_values(|s: String| s@);
    let mut i: usize = 0;
    while i < list.len()
        invariant
            i <= list.len(),
            views == list@.map_values(|s: String| s@),
            forall|j: int| 0 <= j < i ==> views[j] != s@,
        decreases list.len() - i,
    {
        proof {
            assert(views[i as int] == list@[i as int]@);
        }
        if text_eq(list[i].as_str(), s) {
            proof {
                assert(views.contains(s@));
            }
            return true;
        }
        i += 1;
    }
    proof {
        assert(!views.contains(s@));
    }
    false
}

/// Whether every text of `a` is in `b`.
fn all_held(a: &Vec<String>, b: &Vec<String>) -> (held: bool)
    ensures
        held == text_set(a@).subset_of(text_set(b@)),
{
    let ghost views: Seq<Seq<char>> = a@.map_values(|s: String| s@);
    let mut i: usize = 0;
    while i < a.len()
        invariant
            i <= a.len(),
            views == a@.map_values(|s: String| s@),
            forall|j: int| 0 <= j < i ==> text_set(b@).contains(#[trigger] views[j]),
        decreases a.len() - i,
    {
        proof {
            assert(views[i as int] == a@[i as int]@);
        }
        if !list_holds(b, a[i].as_str()) {
            proof {
                assert(views.contains(views[i as int]));
            }
            return false;
        }
        i += 1;
    }
    proof {
        assert forall|t: Seq<char>| text_set(a@).contains(t) implies text_set(b@).contains(t) by {
            let j: int = choose|j: int| 0 <= j < views.len() && views[j] == t;
            assert(text_set(b@).contains(views[j]));
        }
    }
    true
}

/// Asserts that the set of strings `a` is equal to the set `b`, tolerating duplicates.
pub fn assert_string_set_eq(a: &Vec<String>, b: &Vec<String>) -> (verdict: Result<(), SetsDiffer>)
    ensures
        verdict is Ok <==> text_set(a@) == text_set(b@),
{
    if all_held(a, b) && all_held(b, a) {
        proof {
            assert(text_set(a@) =~= text_set(b@));
        }
        Ok(())
    } else {
        Err(SetsDiffer)
    }
}

/// The text occurs in the list.
pub open spec fn is_listed(list: Seq<String>, text: Seq<char>) -> bool {
    exists|i: int| 0 <= i < list.len() && (#[trigger] list[i])@ == text
}

proof fn lemma_set_of_listed(list: Seq<String>, text: Seq<char>)
    ensures
        text_set(list).contains(text) <==> is_listed(list, text),
{
    let views = list.map_values(|s: String| s@);
    if views.contains(text) {
        let i = choose|i: int| 0 <= i < views.len() && views[i] == text;
        assert(list[i]@ == text);
    }
    if is_listed(list, text) {
        let i = choose|i: int| 0 <= i < list.len() && (#[trigger] list[i])@ == text;
        assert(views[i] == text);
    }
}

/// Lists of texts are compared whatever their order, and duplicates are tolerated: two of them are
/// equal as sets exactly where each text occurs in both or in neither.
pub proof fn law_sets_ignore_order_and_duplicates(a: Seq<String>, b: Seq<String>)
    ensures
        text_set(a) == text_set(b) <==> forall|t: Seq<char>|
            #[trigger] is_listed(a, t) <==> is_listed(b, t),
{
    assert forall|t: Seq<char>| #[trigger] text_set(a).contains(t) <==> is_listed(a, t) by {
        lemma_set_of_listed(a, t);
    }
    assert forall|t: Seq<char>| #[trigger] text_set(b).contains(t) <==> is_listed(b, t) by {
        lemma_set_of_listed(b, t);
    }
    if text_set(a) == text_set(b) {
        assert forall|t: Seq<char>| #[trigger] is_listed(a, t) <==> is_listed(b, t) by {
            assert(text_set(a).contains(t) <==> text_set(b).contains(t));
        }
    }
    if forall|t: Seq<char>| #[trigger] is_listed(a, t) <==> is_listed(b, t) {
        assert(text_set(a) =~= text_set(b));
    }
}

/// Whether the bytes are the text in UTF-8.
pub fn is_utf8_of(bytes: &Vec<u8>, text: &str) -> (b: bool)
    ensures
        b == (bytes@ == encode_utf8(text@)),
{
    let encoded: &[u8] = text.as_bytes();
    if bytes.len() != encoded.len() {
        return false;
    }
    let mut i: usize = 0;
    while i < bytes.len()
        invariant
            i <= bytes.len(),
            bytes@.len() == encoded@.len(),
            encoded@ == encode_utf8(text@),
            forall|j: int| 0 <= j < i ==> bytes@[j] == encoded@[j],
        decreases bytes.len() - i,
    {
        if bytes[i] != encoded[i] {
            return false;
        }
        i += 1;
    }
    proof {
        assert(bytes@ =~= encoded@);
    }
    true
}

/// A text occurs in another exactly where the other one is something, the text, and something else.
pub proof fn law_texts_occur_between_others(text: Seq<char>, needle: Seq<char>)
    ensures
        occurs_in(text, needle) <==> exists|before: Seq<char>, after: Seq<char>|
            text == #[trigger] (before + needle + after),
{
    if occurs_in(text, needle) {
        let at = choose|at: int| occurs_at(text, needle, at);
        let before = text.take(at);
        let after = text.skip(at + needle.len());
        assert(text =~= before + needle + after) by {
            assert forall|i: int| at <= i < at + needle.len() implies text[i] == needle[i - at] by {
                assert(text.subrange(at, at + needle.len())[i - at] == text[i]);
            }
        }
    }
    if exists|before: Seq<char>, after: Seq<char>| text == #[trigger] (before + needle + after) {
        let (before, after) = choose|before: Seq<char>, after: Seq<char>|
            text == #[trigger] (before + needle + after);
        let at = before.len() as int;
        assert(text.subrange(at, at + needle.len()) =~= needle);
        assert(occurs_at(text, needle, at));
    }
}

/// A text stands before those that it begins, and of two texts that begin alike the one stands
/// before
/// the other that goes on with the smaller character.
pub proof fn law_texts_are_ordered_like_words(
    common: Seq<char>,
    x: char,
    a: Seq<char>,
    y: char,
    b: Seq<char>,
)
    ensures
        text_before(common, common + seq![x] + a),
        (x as u32) < (y as u32) ==> text_before(common + seq![x] + a, common + seq![y] + b),
{
    assert(first_difference(common, common + seq![x] + a, common.len() as int));
    if (x as u32) < (y as u32) {
        assert(first_difference(
            common + seq![x] + a,
            common + seq![y] + b,
            common.len() as int,
        ));
    }
}

} // verus!
