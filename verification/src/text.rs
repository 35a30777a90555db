//! Searching in text, over the characters of a string.
//!
//! The specifications speak of a text as a `Seq<char>`. The executable
//! functions work on the `Vec<char>` that [`chars_of`] gives for a string.

use vstd::prelude::*;

verus! {

/// `pat` stands in `s` at index `i`.
pub open spec fn occurs_at(s: Seq<char>, pat: Seq<char>, i: int) -> bool {
    0 <= i && i + pat.len() <= s.len() && s.subrange(i, i + pat.len()) == pat
}

/// `pat` stands somewhere in `s`.
pub open spec fn contains_seq(s: Seq<char>, pat: Seq<char>) -> bool {
    exists|i: int| occurs_at(s, pat, i)
}

/// `i` is where `pat` stands in `s` for the first time.
pub open spec fn is_first_occurrence(s: Seq<char>, pat: Seq<char>, i: int) -> bool {
    occurs_at(s, pat, i) && forall|j: int| 0 <= j < i ==> !occurs_at(s, pat, j)
}

/// Where `pat` stands in `s` for the first time; of a text without `pat`
/// nothing is said.
pub open spec fn first_occurrence(s: Seq<char>, pat: Seq<char>) -> int {
    choose|i: int| is_first_occurrence(s, pat, i)
}

/// The index of the last `c` in `s`, or -1 where `s` holds no `c`.
pub open spec fn last_index_of(s: Seq<char>, c: char) -> int
    decreases s.len(),
{
    if s.len() == 0 {
        -1
    } else if s.last() == c {
        s.len() - 1
    } else {
        last_index_of(s.drop_last(), c)
    }
}

/// How often `c` stands in `s`.
pub open spec fn count_char(s: Seq<char>, c: char) -> nat
    decreases s.len(),
{
    if s.len() == 0 {
        0
    } else {
        count_char(s.drop_last(), c) + if s.last() == c {
            1nat
        } else {
            0nat
        }
    }
}

/// `last_index_of` gives -1 exactly for a text without `c`, and else the
/// index of a `c` after which no other `c` comes.
pub proof fn lemma_last_index_of(s: Seq<char>, c: char)
    ensures
        -1 <= last_index_of(s, c) < s.len(),
        last_index_of(s, c) == -1 <==> !s.contains(c),
        last_index_of(s, c) >= 0 ==> s[last_index_of(s, c)] == c,
        forall|j: int| last_index_of(s, c) < j < s.len() ==> s[j] != c,
    decreases s.len(),
{
    if s.len() > 0 {
        if s.last() == c {
            assert(s[s.len() - 1] == c);
        } else {
            let t = s.drop_last();
            lemma_last_index_of(t, c);
            assert forall|j: int| last_index_of(s, c) < j < s.len() implies s[j] != c by {
                if j < t.len() {
                    assert(t[j] == s[j]);
                }
            }
            if last_index_of(t, c) >= 0 {
                assert(s[last_index_of(t, c)] == c);
            } else {
                assert forall|j: int| 0 <= j < s.len() implies s[j] != c by {
                    if j < t.len() {
                        assert(t[j] == s[j]);
                        assert(!t.contains(c));
                    }
                }
            }
        }
    }
}

/// An index that holds `c`, with no `c` behind it, is the last index of `c`.
pub proof fn lemma_last_index_is(s: Seq<char>, c: char, i: int)
    requires
        0 <= i < s.len(),
        s[i] == c,
        forall|j: int| i < j < s.len() ==> s[j] != c,
    ensures
        last_index_of(s, c) == i,
{
    lemma_last_index_of(s, c);
    let k = last_index_of(s, c);
    assert(s.contains(c));
    if k < i {
        assert(s[i] != c);
    }
    if k > i {
        assert(s[k] != c);
    }
}

/// A text without `c` has no last index of `c`.
pub proof fn lemma_last_index_none(s: Seq<char>, c: char)
    requires
        forall|j: int| 0 <= j < s.len() ==> s[j] != c,
    ensures
        last_index_of(s, c) == -1,
{
    lemma_last_index_of(s, c);
    if s.contains(c) {
        let j = choose|j: int| 0 <= j < s.len() && s[j] == c;
        assert(s[j] != c);
    }
}

/// An occurrence in the part of a text from `from` on is an occurrence in the
/// text, `from` further on.
pub proof fn lemma_occurs_at_skip(s: Seq<char>, pat: Seq<char>, from: int, j: int)
    requires
        0 <= from <= s.len(),
        0 <= j,
    ensures
        occurs_at(s.skip(from), pat, j) == occurs_at(s, pat, from + j),
{
    if j + pat.len() <= s.len() - from {
        assert(s.skip(from).subrange(j, j + pat.len()) =~= s.subrange(
            from + j,
            from + j + pat.len(),
        ));
    }
}

/// Below an occurrence of `pat` there is a first one.
pub proof fn lemma_least_occurrence(s: Seq<char>, pat: Seq<char>, i: int) -> (first: int)
    requires
        occurs_at(s, pat, i),
    ensures
        first <= i,
        is_first_occurrence(s, pat, first),
    decreases i,
{
    if exists|j: int| 0 <= j < i && occurs_at(s, pat, j) {
        let j = choose|j: int| 0 <= j < i && occurs_at(s, pat, j);
        lemma_least_occurrence(s, pat, j)
    } else {
        i
    }
}

/// In a text that holds `pat`, `first_occurrence` is where it stands first.
pub proof fn lemma_first_occurrence(s: Seq<char>, pat: Seq<char>)
    requires
        contains_seq(s, pat),
    ensures
        is_first_occurrence(s, pat, first_occurrence(s, pat)),
{
    let i = choose|i: int| occurs_at(s, pat, i);
    let first = lemma_least_occurrence(s, pat, i);
    assert(is_first_occurrence(s, pat, first));
}

/// A text in which no character is `c` holds `c` zero times.
pub proof fn lemma_count_char_none(s: Seq<char>, c: char)
    requires
        forall|j: int| 0 <= j < s.len() ==> s[j] != c,
    ensures
        count_char(s, c) == 0,
    decreases s.len(),
{
    if s.len() > 0 {
        let t = s.drop_last();
        assert forall|j: int| 0 <= j < t.len() implies t[j] != c by {
            assert(t[j] == s[j]);
        }
        lemma_count_char_none(t, c);
    }
}

/// The count of `c` in a text put together from two is the sum of the counts.
pub proof fn lemma_count_char_concat(a: Seq<char>, b: Seq<char>, c: char)
    ensures
        count_char(a + b, c) == count_char(a, c) + count_char(b, c),
    decreases b.len(),
{
    if b.len() == 0 {
        assert(a + b =~= a);
    } else {
        assert((a + b).drop_last() =~= a + b.drop_last());
        assert((a + b).last() == b.last());
        lemma_count_char_concat(a, b.drop_last(), c);
    }
}

/// The characters of a string.
pub fn chars_of(s: &str) -> (v: Vec<char>)
    ensures
        v@ == s@,
{
    let mut v: Vec<char> = Vec::new();
    for c in it: s.chars()
        invariant
            v@ == s@.take(it.index() as int),
            it.seq() == s@,
    {
        v.push(c);
    }
    v
}

/// The index of the last `c` in `doc`.
pub fn find_last(doc: &Vec<char>, c: char) -> (r: Option<usize>)
    ensures
        match r {
            Some(i) => i < doc@.len() && i as int == last_index_of(doc@, c),
            None => last_index_of(doc@, c) == -1,
        },
{
    let mut i: usize = doc.len();
    while i > 0
        invariant
            i <= doc.len(),
            forall|j: int| i <= j < doc.len() ==> doc@[j] != c,
        decreases i,
    {
        i = i - 1;
        if doc[i] == c {
            proof {
                lemma_last_index_is(doc@, c, i as int);
            }
            return Some(i);
        }
    }
    proof {
        lemma_last_index_none(doc@, c);
    }
    None
}

/// Whether `pat` stands in `doc` at index `at`.
pub fn matches_at(doc: &Vec<char>, pat: &Vec<char>, at: usize) -> (b: bool)
    ensures
        b == occurs_at(doc@, pat@, at as int),
{
    if pat.len() > doc.len() || at > doc.len() - pat.len() {
        return false;
    }
    let mut k: usize = 0;
    while k < pat.len()
        invariant
            k <= pat.len(),
            at + pat.len() <= doc.len(),
            forall|j: int| 0 <= j < k ==> doc@[at + j] == pat@[j],
        decreases pat.len() - k,
    {
        if doc[at + k] != pat[k] {
            proof {
                let sub = doc@.subrange(at as int, at + pat.len());
                assert(sub[k as int] == doc@[at + k]);
            }
            return false;
        }
        k = k + 1;
    }
    proof {
        let sub = doc@.subrange(at as int, at + pat.len());
        assert(sub =~= pat@);
    }
    true
}

/// Where `pat` stands in `doc` for the first time at or behind `from`.
pub fn find_from(doc: &Vec<char>, pat: &Vec<char>, from: usize) -> (r: Option<usize>)
    ensures
        match r {
            Some(i) => from <= i && occurs_at(doc@, pat@, i as int) && forall|j: int|
                from <= j < i ==> !occurs_at(doc@, pat@, j),
            None => forall|j: int| from <= j ==> !occurs_at(doc@, pat@, j),
        },
{
    if pat.len() > doc.len() {
        return None;
    }
    let last: usize = doc.len() - pat.len();
    let mut i: usize = from;
    while i <= last
        invariant
            from <= i,
            pat.len() <= doc.len(),
            last == doc.len() - pat.len(),
            forall|j: int| from <= j < i ==> !occurs_at(doc@, pat@, j),
        decreases last + 1 - i,
    {
        if matches_at(doc, pat, i) {
            return Some(i);
        }
        if i == last {
            return None;
        }
        i = i + 1;
    }
    None
}

/// Whether `pat` stands somewhere in `doc`.
pub fn contains_chars(doc: &Vec<char>, pat: &Vec<char>) -> (b: bool)
    ensures
        b == contains_seq(doc@, pat@),
{
    find_from(doc, pat, 0).is_some()
}

/// `s` ends with `suffix`.
pub open spec fn ends_with_seq(s: Seq<char>, suffix: Seq<char>) -> bool {
    suffix.len() <= s.len() && s.skip(s.len() - suffix.len()) == suffix
}

/// Whether `doc` ends with `pat`.
pub fn ends_with_chars(doc: &Vec<char>, pat: &Vec<char>) -> (b: bool)
    ensures
        b == ends_with_seq(doc@, pat@),
{
    if pat.len() > doc.len() {
        return false;
    }
    let at = doc.len() - pat.len();
    let b = matches_at(doc, pat, at);
    proof {
        assert(doc@.skip(at as int) =~= doc@.subrange(at as int, at + pat@.len()));
    }
    b
}

/// Whether two vectors hold the same characters.
pub fn same_chars(a: &Vec<char>, b: &Vec<char>) -> (same: bool)
    ensures
        same == (a@ == b@),
{
    if a.len() != b.len() {
        return false;
    }
    let same = matches_at(a, b, 0);
    proof {
        assert(a@.subrange(0, b@.len() as int) =~= a@);
    }
    same
}

/// Whether two strings hold the same text.
pub fn same_text(a: &str, b: &str) -> (same: bool)
    ensures
        same == (a@ == b@),
{
    let left = chars_of(a);
    let right = chars_of(b);
    same_chars(&left, &right)
}

/// Appends a character to a string.
///
/// Trusted: this is `String::push` of the standard library, which puts the
/// character at the end of the string and leaves the rest as it is.
#[verifier::external_body]
fn push_char(text: &mut String, c: char)
    ensures
        final(text)@ == old(text)@.push(c),
{
    text.push(c)
}

/// The string that holds the characters of `chars` from `from` up to `to`.
pub fn string_of(chars: &Vec<char>, from: usize, to: usize) -> (text: String)
    requires
        from <= to <= chars.len(),
    ensures
        text@ == chars@.subrange(from as int, to as int),
{
    let mut text = String::new();
    let mut i: usize = from;
    while i < to
        invariant
            from <= i <= to <= chars.len(),
            text@ == chars@.subrange(from as int, i as int),
        decreases to - i,
    {
        push_char(&mut text, chars[i]);
        i = i + 1;
        proof {
            assert(text@ =~= chars@.subrange(from as int, i as int));
        }
    }
    text
}

/// The text of an optional string.
pub open spec fn text_of(text: Option<String>) -> Option<Seq<char>> {
    match text {
        Some(text) => Some(text@),
        None => None,
    }
}

/// The strings of a vector, each as its characters.
pub open spec fn texts_view(texts: Seq<String>) -> Seq<Seq<char>> {
    Seq::new(texts.len(), |i: int| texts[i]@)
}

} // verus!
