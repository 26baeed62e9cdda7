//! Small exercises on vectors and strings: the median and the most frequent
//! value of a list of integers, and pig latin.
use vstd::prelude::*;
use vstd::relations::total_ordering;

verus! {

/// The order in which integers are sorted: ascending.
pub open spec fn int_le() -> spec_fn(i32, i32) -> bool {
    |x: i32, y: i32| x <= y
}

/// `s` in ascending order.
pub open spec fn ascending(s: Seq<i32>) -> Seq<i32> {
    s.sort_by(int_le())
}

/// Sorting keeps the length.
pub proof fn lemma_ascending_len(s: Seq<i32>)
    ensures
        ascending(s).len() == s.len(),
{
    assert(total_ordering(int_le()));
    s.lemma_sort_by_ensures(int_le());
    broadcast use vstd::seq_lib::to_multiset_len;
    assert(ascending(s).to_multiset().len() == s.to_multiset().len());
}

/// Relies on `slice::sort`: it arranges the integers in ascending order, and
/// integers have only one ascending arrangement.
#[verifier::external_body]
fn sort_ascending(v: &mut Vec<i32>)
    ensures
        final(v)@ == ascending(old(v)@),
{
    v.sort();
}

/// The middle value of `v` once sorted, or -1 where there is no single
/// middle value (an empty list or an even length).
pub fn get_midian(v: &Vec<i32>) -> (r: i32)
    ensures
        v@.len() % 2 == 0 ==> r == -1,
        v@.len() % 2 == 1 ==> r == ascending(v@)[(v@.len() / 2) as int],
{
    if v.len() == 0 {
        return -1;
    }
    let mut sorted = v.clone();
    assert(sorted@ == v@);
    let mid: usize = sorted.len() / 2;
    sort_ascending(&mut sorted);
    proof {
        lemma_ascending_len(v@);
    }
    if sorted.len() % 2 == 0 {
        -1
    } else {
        sorted[mid]
    }
}

/// How many times `x` occurs in `s`.
pub open spec fn occurrences(s: Seq<i32>, x: i32) -> nat
    decreases s.len(),
{
    if s.len() == 0 {
        0
    } else {
        occurrences(s.drop_last(), x) + if s.last() == x {
            1nat
        } else {
            0nat
        }
    }
}

/// Every value of `s` occurs equally often: no value is more frequent.
pub open spec fn counts_all_equal(s: Seq<i32>) -> bool {
    forall|i: int, j: int|
        0 <= i < s.len() && 0 <= j < s.len() ==> occurrences(s, #[trigger] s[i]) == occurrences(
            s,
            #[trigger] s[j],
        )
}

/// Position `i` holds a most frequent value of `s`, and is the first such
/// position.
pub open spec fn first_most_frequent_at(s: Seq<i32>, i: int) -> bool {
    &&& 0 <= i < s.len()
    &&& forall|j: int| 0 <= j < s.len() ==> occurrences(s, #[trigger] s[j]) <= occurrences(s, s[i])
    &&& forall|j: int| 0 <= j < i ==> occurrences(s, #[trigger] s[j]) < occurrences(s, s[i])
}

proof fn lemma_occurrences_bound(s: Seq<i32>, x: i32)
    ensures
        occurrences(s, x) <= s.len(),
    decreases s.len(),
{
    if s.len() > 0 {
        lemma_occurrences_bound(s.drop_last(), x);
    }
}

/// How many times `x` occurs in `v`.
fn count_of(v: &Vec<i32>, x: i32) -> (c: usize)
    ensures
        c == occurrences(v@, x),
{
    let mut c: usize = 0;
    let mut k: usize = 0;
    while k < v.len()
        invariant
            k <= v@.len(),
            c == occurrences(v@.subrange(0, k as int), x),
        decreases v@.len() - k,
    {
        proof {
            assert(v@.subrange(0, k + 1).drop_last() =~= v@.subrange(0, k as int));
            lemma_occurrences_bound(v@.subrange(0, k as int), x);
        }
        if v[k] == x {
            c = c + 1;
        }
        k = k + 1;
    }
    assert(v@.subrange(0, v@.len() as int) =~= v@);
    c
}

/// The value that occurs most often in `v`; where several do, the one seen
/// first. -1 where `v` is empty or every value occurs equally often.
pub fn get_most_frequent(v: &Vec<i32>) -> (r: i32)
    ensures
        v@.len() == 0 || counts_all_equal(v@) ==> r == -1,
        !(v@.len() == 0 || counts_all_equal(v@)) ==> exists|i: int|
            first_most_frequent_at(v@, i) && r == v@[i],
{
    if v.len() == 0 {
        return -1;
    }
    let first_count = count_of(v, v[0]);
    let mut best: usize = 0;
    let mut best_count = first_count;
    let mut all_equal = true;
    let mut i: usize = 1;
    while i < v.len()
        invariant
            1 <= i <= v@.len(),
            best < i,
            first_count == occurrences(v@, v@[0]),
            best_count == occurrences(v@, v@[best as int]),
            forall|j: int| 0 <= j < i ==> occurrences(v@, #[trigger] v@[j]) <= best_count,
            forall|j: int| 0 <= j < best ==> occurrences(v@, #[trigger] v@[j]) < best_count,
            all_equal <==> forall|j: int|
                0 <= j < i ==> occurrences(v@, #[trigger] v@[j]) == first_count,
        decreases v@.len() - i,
    {
        let c = count_of(v, v[i]);
        if c != first_count {
            all_equal = false;
        }
        if c > best_count {
            best = i;
            best_count = c;
        }
        i = i + 1;
    }
    if all_equal {
        assert(counts_all_equal(v@));
        -1
    } else {
        proof {
            let w = choose|j: int| 0 <= j < v@.len() && occurrences(v@, #[trigger] v@[j]) != first_count;
            assert(!counts_all_equal(v@)) by {
                assert(occurrences(v@, v@[w]) != occurrences(v@, v@[0]));
            }
            assert(first_most_frequent_at(v@, best as int));
        }
        v[best]
    }
}

/// The five lower-case vowels.
pub open spec fn vowel(c: char) -> bool {
    c == 'a' || c == 'e' || c == 'i' || c == 'o' || c == 'u'
}

pub fn is_vowel(c: char) -> (r: bool)
    ensures
        r == vowel(c),
{
    c == 'a' || c == 'e' || c == 'i' || c == 'o' || c == 'u'
}

/// A word in pig latin: a word that starts with a vowel gets "-hay"; any
/// other loses its first letter, which comes back after a hyphen, followed
/// by "ay".
pub open spec fn pig_latin(s: Seq<char>) -> Seq<char> {
    if vowel(s[0]) {
        s + seq!['-', 'h', 'a', 'y']
    } else {
        s.drop_first() + seq!['-', s[0], 'a', 'y']
    }
}

/// `s` in pig latin; `s` must not be empty.
pub fn piglatinize(s: &str) -> (r: String)
    requires
        s@.len() > 0,
    ensures
        r@ == pig_latin(s@),
{
    let initial_letter = s.get_char(0);
    if !is_vowel(initial_letter) {
        let n = s.unicode_len();
        let mut r = String::from_str(s.substring_char(1, n));
        r.append("-");
        r.append(s.substring_char(0, 1));
        r.append("ay");
        proof {
            reveal_strlit("-");
            reveal_strlit("ay");
            assert(r@ =~= pig_latin(s@));
        }
        r
    } else {
        let mut r = String::from_str(s);
        r.append("-hay");
        proof {
            reveal_strlit("-hay");
            assert(r@ =~= pig_latin(s@));
        }
        r
    }
}

} // verus!
