//! The parts of a text: what stands between separators, its words and its
//! lines, and the text without the white space or the suffix at its ends.

use crate::text::{chars_of, ends_with_seq, matches_at, string_of, texts_view};
use vstd::prelude::*;

verus! {

/// The index of the first `c` in `s`, or -1 where `s` holds no `c`.
pub open spec fn first_index_of(s: Seq<char>, c: char) -> int
    decreases s.len(),
{
    if s.len() == 0 {
        -1
    } else if s[0] == c {
        0
    } else if first_index_of(s.skip(1), c) < 0 {
        -1
    } else {
        first_index_of(s.skip(1), c) + 1
    }
}

/// `first_index_of` gives -1 exactly for a text without `c`, and else the
/// index of a `c` before which no other `c` stands.
pub proof fn lemma_first_index_of(s: Seq<char>, c: char)
    ensures
        -1 <= first_index_of(s, c) < s.len(),
        first_index_of(s, c) == -1 <==> !s.contains(c),
        first_index_of(s, c) >= 0 ==> s[first_index_of(s, c)] == c,
        forall|j: int| 0 <= j < s.len() && (j < first_index_of(s, c) || first_index_of(s, c) < 0)
            ==> s[j] != c,
    decreases s.len(),
{
    if s.len() > 0 && s[0] != c {
        let t = s.skip(1);
        lemma_first_index_of(t, c);
        assert forall|j: int|
            0 <= j < s.len() && (j < first_index_of(s, c) || first_index_of(s, c) < 0) implies s[j]
            != c by {
            if j > 0 {
                assert(t[j - 1] == s[j]);
            }
        }
        if first_index_of(t, c) >= 0 {
            assert(s[first_index_of(t, c) + 1] == c);
        }
    } else if s.len() > 0 {
        assert(s[0] == c);
    }
}

/// An index that holds `c`, with no `c` before it, is the first index of `c`.
pub proof fn lemma_first_index_is(s: Seq<char>, c: char, i: int)
    requires
        0 <= i < s.len(),
        s[i] == c,
        forall|j: int| 0 <= j < i ==> s[j] != c,
    ensures
        first_index_of(s, c) == i,
{
    lemma_first_index_of(s, c);
    let k = first_index_of(s, c);
    assert(s.contains(c));
    if k > i {
        assert(s[i] != c);
    }
}

/// The parts of `s` between the occurrences of `c`: one part more than there
/// are occurrences, and a part is empty where two occurrences meet or where
/// `s` starts or ends with one.
pub open spec fn split_at_char(s: Seq<char>, c: char) -> Seq<Seq<char>>
    decreases s.len(),
{
    let at = first_index_of(s, c);
    if 0 <= at < s.len() {
        seq![s.take(at)] + split_at_char(s.skip(at + 1), c)
    } else {
        seq![s]
    }
}

/// The parts of `doc` between the occurrences of `c`.
pub fn split_text(doc: &Vec<char>, c: char) -> (parts: Vec<String>)
    ensures
        texts_view(parts@) == split_at_char(doc@, c),
{
    let mut parts: Vec<String> = Vec::new();
    let mut start: usize = 0;
    let mut i: usize = 0;
    proof {
        assert(doc@.skip(0) =~= doc@);
        assert(texts_view(parts@) + split_at_char(doc@, c) =~= split_at_char(doc@, c));
    }
    while i < doc.len()
        invariant
            start <= i <= doc.len(),
            forall|j: int| start <= j < i ==> doc@[j] != c,
            split_at_char(doc@, c) == texts_view(parts@) + split_at_char(
                doc@.skip(start as int),
                c,
            ),
        decreases doc.len() - i,
    {
        if doc[i] == c {
            let part = string_of(doc, start, i);
            proof {
                let rest = doc@.skip(start as int);
                assert forall|j: int| 0 <= j < i - start implies rest[j] != c by {
                    assert(rest[j] == doc@[start + j]);
                }
                lemma_first_index_is(rest, c, i - start);
                assert(rest.take(i - start) =~= part@);
                assert(rest.skip(i - start + 1) =~= doc@.skip(i + 1));
                assert(texts_view(parts@.push(part)) =~= texts_view(parts@) + seq![part@]);
            }
            parts.push(part);
            start = i + 1;
        }
        i = i + 1;
    }
    let part = string_of(doc, start, doc.len());
    proof {
        let rest = doc@.skip(start as int);
        assert forall|j: int| 0 <= j < rest.len() implies rest[j] != c by {
            assert(rest[j] == doc@[start + j]);
        }
        lemma_first_index_of(rest, c);
        assert(rest =~= part@);
        assert(texts_view(parts@.push(part)) =~= texts_view(parts@) + seq![part@]);
    }
    parts.push(part);
    parts
}

/// Whether a character is white space: one of the characters to which
/// Unicode gives the property `White_Space`.
pub open spec fn is_white_space(c: char) -> bool {
    let code = c as u32;
    ||| 0x9 <= code <= 0xd
    ||| code == 0x20
    ||| code == 0x85
    ||| code == 0xa0
    ||| code == 0x1680
    ||| 0x2000 <= code <= 0x200a
    ||| code == 0x2028
    ||| code == 0x2029
    ||| code == 0x202f
    ||| code == 0x205f
    ||| code == 0x3000
}

/// Whether a character is white space.
pub fn is_whitespace(c: char) -> (b: bool)
    ensures
        b == is_white_space(c),
{
    let code = c as u32;
    (0x9 <= code && code <= 0xd) || code == 0x20 || code == 0x85 || code == 0xa0 || code == 0x1680
        || (0x2000 <= code && code <= 0x200a) || code == 0x2028 || code == 0x2029 || code
        == 0x202f || code == 0x205f || code == 0x3000
}

/// How many characters of white space `s` starts with.
pub open spec fn leading_space(s: Seq<char>) -> nat
    decreases s.len(),
{
    if s.len() > 0 && is_white_space(s[0]) {
        1 + leading_space(s.skip(1))
    } else {
        0
    }
}

/// How many characters of white space `s` ends with.
pub open spec fn trailing_space(s: Seq<char>) -> nat
    decreases s.len(),
{
    if s.len() > 0 && is_white_space(s.last()) {
        1 + trailing_space(s.drop_last())
    } else {
        0
    }
}

/// `s` without the white space that it starts and ends with.
pub open spec fn trimmed(s: Seq<char>) -> Seq<char> {
    let from = leading_space(s) as int;
    let rest = s.skip(from);
    rest.take(rest.len() - trailing_space(rest))
}

/// `doc` without the white space that it starts and ends with.
pub fn trim_chars(doc: &Vec<char>) -> (r: Vec<char>)
    ensures
        r@ == trimmed(doc@),
{
    let mut from: usize = 0;
    proof {
        assert(doc@.skip(0) =~= doc@);
    }
    while from < doc.len() && is_whitespace(doc[from])
        invariant
            from <= doc.len(),
            leading_space(doc@) == from + leading_space(doc@.skip(from as int)),
        decreases doc.len() - from,
    {
        proof {
            assert(doc@.skip(from as int).skip(1) =~= doc@.skip(from + 1));
        }
        from = from + 1;
    }
    let ghost rest = doc@.skip(from as int);
    let mut to: usize = doc.len();
    proof {
        assert(doc@.subrange(from as int, to as int) =~= rest);
    }
    while to > from && is_whitespace(doc[to - 1])
        invariant
            from <= to <= doc.len(),
            rest == doc@.skip(from as int),
            trailing_space(rest) == (doc.len() - to) + trailing_space(
                doc@.subrange(from as int, to as int),
            ),
        decreases to,
    {
        proof {
            assert(doc@.subrange(from as int, to as int).drop_last() =~= doc@.subrange(
                from as int,
                to - 1,
            ));
        }
        to = to - 1;
    }
    let mut r: Vec<char> = Vec::new();
    let mut i: usize = from;
    while i < to
        invariant
            from <= i <= to <= doc.len(),
            r@ == doc@.subrange(from as int, i as int),
        decreases to - i,
    {
        r.push(doc[i]);
        i = i + 1;
        proof {
            assert(r@ =~= doc@.subrange(from as int, i as int));
        }
    }
    proof {
        assert(leading_space(doc@) == from);
        assert(trailing_space(rest) == doc.len() - to);
        assert(trimmed(doc@) =~= doc@.subrange(from as int, to as int));
    }
    r
}

/// The words of `s` from the index `from` on, where `word` holds the
/// characters of the word that `from` stands in, as far as they come before
/// `from`. A word is a run of characters that are not white space, as long
/// as it can be.
pub open spec fn words_from(s: Seq<char>, from: int, word: Seq<char>) -> Seq<Seq<char>>
    decreases s.len() - from,
{
    if from < 0 || from >= s.len() {
        if word.len() > 0 {
            seq![word]
        } else {
            Seq::empty()
        }
    } else if is_white_space(s[from]) {
        if word.len() > 0 {
            seq![word] + words_from(s, from + 1, Seq::empty())
        } else {
            words_from(s, from + 1, Seq::empty())
        }
    } else {
        words_from(s, from + 1, word.push(s[from]))
    }
}

/// The words of `s`: what stands between white space, in order. There is no
/// empty word.
pub open spec fn words(s: Seq<char>) -> Seq<Seq<char>> {
    words_from(s, 0, Seq::empty())
}

/// The words of `doc`.
pub fn split_words(doc: &Vec<char>) -> (parts: Vec<String>)
    ensures
        texts_view(parts@) == words(doc@),
{
    let mut parts: Vec<String> = Vec::new();
    let mut start: usize = 0;
    let mut i: usize = 0;
    proof {
        assert(doc@.subrange(0, 0) =~= Seq::<char>::empty());
        assert(texts_view(parts@) + words(doc@) =~= words(doc@));
    }
    while i < doc.len()
        invariant
            start <= i <= doc.len(),
            words(doc@) == texts_view(parts@) + words_from(
                doc@,
                i as int,
                doc@.subrange(start as int, i as int),
            ),
        decreases doc.len() - i,
    {
        if is_whitespace(doc[i]) {
            if start < i {
                let part = string_of(doc, start, i);
                proof {
                    assert(texts_view(parts@.push(part)) =~= texts_view(parts@) + seq![part@]);
                }
                parts.push(part);
            }
            start = i + 1;
            proof {
                assert(doc@.subrange(start as int, start as int) =~= Seq::<char>::empty());
            }
        } else {
            proof {
                assert(doc@.subrange(start as int, i as int).push(doc@[i as int])
                    =~= doc@.subrange(start as int, i + 1));
            }
        }
        i = i + 1;
    }
    if start < i {
        let part = string_of(doc, start, i);
        proof {
            assert(texts_view(parts@.push(part)) =~= texts_view(parts@) + seq![part@]);
        }
        parts.push(part);
    } else {
        proof {
            assert(texts_view(parts@) + Seq::<Seq<char>>::empty() =~= texts_view(parts@));
        }
    }
    parts
}

/// A line without the carriage return at its end, if it has one.
pub open spec fn without_return(line: Seq<char>) -> Seq<char> {
    if line.len() > 0 && line.last() == '\r' {
        line.drop_last()
    } else {
        line
    }
}

/// The lines of `s`. A line ends with a line feed, or with a carriage return
/// and a line feed, which are not part of it. What follows the last line feed
/// is a line too, unless it is empty.
pub open spec fn lines_of(s: Seq<char>) -> Seq<Seq<char>> {
    let parts = split_at_char(s, '\n');
    let ended = Seq::new((parts.len() - 1) as nat, |i: int| without_return(parts[i]));
    if parts.last().len() == 0 {
        ended
    } else {
        ended.push(parts.last())
    }
}

/// A text has one part at least.
pub proof fn lemma_split_not_empty(s: Seq<char>, c: char)
    ensures
        split_at_char(s, c).len() >= 1,
{
}

/// The lines of `doc`.
pub fn split_lines(doc: &Vec<char>) -> (lines: Vec<String>)
    ensures
        texts_view(lines@) == lines_of(doc@),
{
    let parts = split_text(doc, '\n');
    proof {
        lemma_split_not_empty(doc@, '\n');
    }
    let ghost all = split_at_char(doc@, '\n');
    let mut lines: Vec<String> = Vec::new();
    let mut k: usize = 0;
    while k + 1 < parts.len()
        invariant
            parts.len() >= 1,
            k + 1 <= parts.len(),
            texts_view(parts@) == all,
            lines@.len() == k,
            forall|i: int| 0 <= i < k ==> (#[trigger] lines@[i])@ == without_return(all[i]),
        decreases parts.len() - k,
    {
        let line = chars_of(parts[k].as_str());
        let end = if line.len() > 0 && line[line.len() - 1] == '\r' {
            line.len() - 1
        } else {
            line.len()
        };
        let text = string_of(&line, 0, end);
        proof {
            assert(all[k as int] == parts@[k as int]@);
            assert(text@ =~= without_return(all[k as int]));
        }
        lines.push(text);
        k = k + 1;
    }
    let last = &parts[k];
    let ghost ended = Seq::new((all.len() - 1) as nat, |i: int| without_return(all[i]));
    proof {
        assert(all[k as int] == parts@[k as int]@);
        assert(all.last() == last@);
        assert(texts_view(lines@) =~= ended);
    }
    if last.as_str().unicode_len() > 0 {
        let text = last.clone();
        proof {
            assert(texts_view(lines@.push(text)) =~= ended.push(text@));
        }
        lines.push(text);
    }
    lines
}

/// `s` without `suffix` at its end, as often as it stands there. An empty
/// suffix takes nothing away.
pub open spec fn without_trailing(s: Seq<char>, suffix: Seq<char>) -> Seq<char>
    decreases s.len(),
{
    if suffix.len() > 0 && ends_with_seq(s, suffix) {
        without_trailing(s.take(s.len() - suffix.len()), suffix)
    } else {
        s
    }
}

/// `doc` without `suffix` at its end, as often as it stands there.
pub fn strip_trailing(doc: &Vec<char>, suffix: &Vec<char>) -> (r: String)
    ensures
        r@ == without_trailing(doc@, suffix@),
{
    let m = suffix.len();
    let mut end: usize = doc.len();
    proof {
        assert(doc@.take(end as int) =~= doc@);
    }
    while m > 0 && end >= m && matches_at(doc, suffix, end - m)
        invariant
            m == suffix.len(),
            end <= doc.len(),
            without_trailing(doc@, suffix@) == without_trailing(doc@.take(end as int), suffix@),
        decreases end,
    {
        proof {
            let head = doc@.take(end as int);
            assert(head.skip(head.len() - m) =~= doc@.subrange(end - m, end - m + m));
            assert(head.take(head.len() - m) =~= doc@.take(end - m));
        }
        end = end - m;
    }
    proof {
        let head = doc@.take(end as int);
        if m > 0 && end >= m {
            assert(head.skip(head.len() - m) =~= doc@.subrange(end - m, end - m + m));
        }
        assert(head =~= doc@.subrange(0, end as int));
    }
    string_of(doc, 0, end)
}

} // verus!
