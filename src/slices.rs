//! Views into strings: the first word, and the end of the first line.
use vstd::prelude::*;

verus! {

/// The part of `s` before the first `c`; all of `s` where there is none.
pub open spec fn prefix_before(s: Seq<char>, c: char) -> Seq<char>
    decreases s.len(),
{
    if s.len() == 0 {
        s
    } else if s[0] == c {
        Seq::empty()
    } else {
        seq![s[0]] + prefix_before(s.drop_first(), c)
    }
}

proof fn lemma_prefix_before(s: Seq<char>, c: char, k: int)
    requires
        0 <= k <= s.len(),
        forall|j: int| 0 <= j < k ==> s[j] != c,
        k < s.len() ==> s[k] == c,
    ensures
        prefix_before(s, c) == s.subrange(0, k),
    decreases s.len(),
{
    if s.len() > 0 && k > 0 {
        lemma_prefix_before(s.drop_first(), c, k - 1);
        assert(seq![s[0]] + s.drop_first().subrange(0, k - 1) =~= s.subrange(0, k));
    } else {
        assert(s.subrange(0, k) =~= Seq::<char>::empty());
    }
}

/// The position of the first `c` in `s`, or its length where there is none.
fn find_char(s: &str, c: char) -> (k: usize)
    ensures
        prefix_before(s@, c) == s@.subrange(0, k as int),
        k <= s@.len(),
        k < s@.len() ==> s@[k as int] == c,
{
    let n = s.unicode_len();
    let mut k: usize = 0;
    while k < n
        invariant
            n == s@.len(),
            k <= n,
            forall|j: int| 0 <= j < k ==> s@[j] != c,
        decreases n - k,
    {
        if s.get_char(k) == c {
            proof {
                lemma_prefix_before(s@, c, k as int);
            }
            return k;
        }
        k = k + 1;
    }
    proof {
        lemma_prefix_before(s@, c, k as int);
    }
    k
}

/// The first word of `s`: everything before the first space.
pub fn first_word(s: &str) -> (r: &str)
    ensures
        r@ == prefix_before(s@, ' '),
{
    let k = find_char(s, ' ');
    s.substring_char(0, k)
}

/// The first line of `s`: the text before the first line feed, without the
/// carriage return of a "\r\n" ending.
pub open spec fn first_line(s: Seq<char>) -> Seq<char> {
    let l = prefix_before(s, '\n');
    if l.len() < s.len() && l.len() > 0 && l.last() == '\r' {
        l.drop_last()
    } else {
        l
    }
}

/// The last character of the first line of `text`; none where the text or
/// that line is empty.
pub fn last_char_of_first_line(text: &str) -> (r: Option<char>)
    ensures
        r == if first_line(text@).len() == 0 {
            None
        } else {
            Some(first_line(text@).last())
        },
{
    let n = text.unicode_len();
    let k = find_char(text, '\n');
    let mut end = k;
    if k < n && k > 0 && text.get_char(k - 1) == '\r' {
        end = k - 1;
    }
    if end == 0 {
        None
    } else {
        Some(text.get_char(end - 1))
    }
}

} // verus!
