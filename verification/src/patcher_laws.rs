//! What holds of the patched documents, for every document, name, path and
//! value.

use crate::patcher::{
    body_end, insert_after_each, lemma_insert_at_first_occurrence,
    lemma_insert_without_occurrence, option_inserted, option_line, package_entry,
    package_inserted, package_list_marker,
};
use crate::text::{
    contains_seq, count_char, first_occurrence, is_first_occurrence, last_index_of,
    lemma_count_char_concat, lemma_count_char_none, lemma_first_occurrence, lemma_last_index_is,
    lemma_last_index_of, lemma_least_occurrence, lemma_occurs_at_skip, occurs_at,
};
use vstd::prelude::*;

verus! {

/// `pat` stands in `s` twice, the second time behind the end of the first.
pub open spec fn occurs_twice(s: Seq<char>, pat: Seq<char>) -> bool {
    exists|i: int, j: int|
        occurs_at(s, pat, i) && occurs_at(s, pat, j) && i + pat.len() <= j
}

/// A part `b` of `a + b + c` stands behind `a`.
proof fn lemma_occurs_in_middle(a: Seq<char>, b: Seq<char>, c: Seq<char>)
    ensures
        occurs_at(a + b + c, b, a.len() as int),
{
    assert((a + b + c).subrange(a.len() as int, (a.len() + b.len()) as int) =~= b);
}

/// The marker of the package list is not empty.
proof fn lemma_marker_not_empty()
    ensures
        package_list_marker().len() > 0,
{
    reveal_strlit("environment.systemPackages = with pkgs; [");
}

/// In a document that holds the marker of the package list, the entry of the
/// package stands directly behind the first marker. The document is unchanged
/// up to the end of that marker. Behind the entry comes the rest of the
/// document, with the entry put behind each further marker; where there is no
/// further marker, the rest is unchanged, so that the result is the document
/// with the entry inserted at one place.
pub proof fn law_package_follows_marker(document: Seq<char>, name: Seq<char>)
    requires
        contains_seq(document, package_list_marker()),
    ensures
        ({
            let marker = package_list_marker();
            let entry = package_entry(name);
            let first = first_occurrence(document, marker);
            let end = first + marker.len();
            let patched = package_inserted(document, name);
            let rest = document.skip(end);
            &&& is_first_occurrence(document, marker, first)
            &&& patched == document.take(end) + entry + insert_after_each(rest, marker, entry)
            &&& occurs_at(patched, marker + entry, first)
            &&& !contains_seq(rest, marker) ==> patched == document.take(end) + entry + rest
        }),
{
    let marker = package_list_marker();
    let entry = package_entry(name);
    let first = first_occurrence(document, marker);
    let end = first + marker.len();
    let patched = package_inserted(document, name);
    let rest = document.skip(end);
    lemma_marker_not_empty();
    lemma_first_occurrence(document, marker);
    lemma_insert_at_first_occurrence(document, marker, entry, first);
    if !contains_seq(rest, marker) {
        lemma_insert_without_occurrence(rest, marker, entry);
    }
    assert(document.take(end) =~= document.take(first) + marker) by {
        assert(document.subrange(first, end) == marker);
    }
    let tail = insert_after_each(rest, marker, entry);
    assert(patched =~= document.take(first) + (marker + entry) + tail);
    lemma_occurs_in_middle(document.take(first), marker + entry, tail);
}

/// How often `pat` stands in `s`, the occurrences taken from the left and not
/// overlapping.
pub open spec fn occurrences(s: Seq<char>, pat: Seq<char>) -> nat
    decreases s.len(),
{
    if pat.len() == 0 || s.len() < pat.len() {
        0
    } else if s.take(pat.len() as int) == pat {
        1 + occurrences(s.skip(pat.len() as int), pat)
    } else {
        occurrences(s.skip(1), pat)
    }
}

/// `part` can be had from `whole` by taking characters out of it.
pub open spec fn is_left_by_removal(part: Seq<char>, whole: Seq<char>) -> bool
    decreases whole.len(),
{
    if part.len() == 0 {
        true
    } else if whole.len() == 0 {
        false
    } else if part[0] == whole[0] && is_left_by_removal(part.skip(1), whole.skip(1)) {
        true
    } else {
        is_left_by_removal(part, whole.skip(1))
    }
}

/// A text is left of itself with a prefix before it.
proof fn lemma_left_behind_prefix(part: Seq<char>, prefix: Seq<char>, whole: Seq<char>)
    requires
        is_left_by_removal(part, whole),
    ensures
        is_left_by_removal(part, prefix + whole),
    decreases prefix.len(),
{
    if prefix.len() == 0 {
        assert(prefix + whole =~= whole);
    } else {
        lemma_left_behind_prefix(part, prefix.skip(1), whole);
        assert((prefix + whole).skip(1) =~= prefix.skip(1) + whole);
    }
}

/// What is left of two texts is left with the same prefix before both.
proof fn lemma_left_with_common_prefix(prefix: Seq<char>, part: Seq<char>, whole: Seq<char>)
    requires
        is_left_by_removal(part, whole),
    ensures
        is_left_by_removal(prefix + part, prefix + whole),
    decreases prefix.len(),
{
    if prefix.len() == 0 {
        assert(prefix + part =~= part);
        assert(prefix + whole =~= whole);
    } else {
        lemma_left_with_common_prefix(prefix.skip(1), part, whole);
        assert((prefix + part).skip(1) =~= prefix.skip(1) + part);
        assert((prefix + whole).skip(1) =~= prefix.skip(1) + whole);
    }
}

/// A text with insertions behind a pattern is the text and the insertions,
/// and nothing else: it is as much longer as the insertions are long, and
/// the text is left when characters are taken out of it.
pub proof fn lemma_insertions_only(s: Seq<char>, pat: Seq<char>, ins: Seq<char>)
    ensures
        insert_after_each(s, pat, ins).len() == s.len() + occurrences(s, pat) * ins.len(),
        is_left_by_removal(s, insert_after_each(s, pat, ins)),
    decreases s.len(),
{
    let m = pat.len() as int;
    if pat.len() == 0 || s.len() < pat.len() {
        lemma_left_of_itself(s);
        assert(occurrences(s, pat) * ins.len() == 0) by (nonlinear_arith)
            requires
                occurrences(s, pat) == 0,
        ;
    } else if s.take(m) == pat {
        let rest = s.skip(m);
        let grown = insert_after_each(rest, pat, ins);
        lemma_insertions_only(rest, pat, ins);
        let further = occurrences(rest, pat);
        assert(occurrences(s, pat) * ins.len() == ins.len() + further * ins.len())
            by (nonlinear_arith)
            requires
                occurrences(s, pat) == 1 + further,
        ;
        assert(insert_after_each(s, pat, ins).len() == m + ins.len() + grown.len());
        lemma_left_behind_prefix(rest, ins, grown);
        lemma_left_with_common_prefix(pat, rest, ins + grown);
        assert(pat + rest =~= s);
        assert(pat + (ins + grown) =~= pat + ins + grown);
    } else {
        let rest = s.skip(1);
        lemma_insertions_only(rest, pat, ins);
        lemma_left_with_common_prefix(seq![s[0]], rest, insert_after_each(rest, pat, ins));
        assert(seq![s[0]] + rest =~= s);
    }
}

/// A text is left of itself.
proof fn lemma_left_of_itself(s: Seq<char>)
    ensures
        is_left_by_removal(s, s),
    decreases s.len(),
{
    if s.len() > 0 {
        lemma_left_of_itself(s.skip(1));
    }
}

/// In a document that holds the marker of the package list, nothing is
/// changed but that the entry of the package is put in: the result is longer
/// by one entry for each marker, and the document is left when those
/// characters are taken out again.
pub proof fn law_package_keeps_document(document: Seq<char>, name: Seq<char>)
    requires
        contains_seq(document, package_list_marker()),
    ensures
        ({
            let patched = package_inserted(document, name);
            let markers = occurrences(document, package_list_marker());
            &&& markers >= 1
            &&& patched.len() == document.len() + markers * package_entry(name).len()
            &&& is_left_by_removal(document, patched)
        }),
{
    let marker = package_list_marker();
    lemma_insertions_only(document, marker, package_entry(name));
    lemma_marker_not_empty();
    if occurrences(document, marker) == 0 {
        lemma_no_occurrences(document, marker);
    }
}

/// A text in which the pattern is counted zero times does not hold it.
proof fn lemma_no_occurrences(s: Seq<char>, pat: Seq<char>)
    requires
        pat.len() > 0,
        occurrences(s, pat) == 0,
    ensures
        !contains_seq(s, pat),
    decreases s.len(),
{
    if s.len() >= pat.len() {
        assert(s.take(pat.len() as int) =~= s.subrange(0, pat.len() as int));
        let rest = s.skip(1);
        lemma_no_occurrences(rest, pat);
        assert forall|j: int| !occurs_at(s, pat, j) by {
            if j >= 1 {
                lemma_occurs_at_skip(s, pat, 1, j - 1);
            }
        }
    }
}

/// How often a closing brace stands in a document up to its last one: once
/// less than in the whole document.
proof fn lemma_count_before_last_brace(document: Seq<char>)
    ensures
        count_char(document.take(body_end(document)), '}') == if count_char(document, '}') > 0 {
            count_char(document, '}') - 1
        } else {
            0
        },
        last_index_of(document, '}') >= 0 <==> count_char(document, '}') > 0,
{
    lemma_last_index_of(document, '}');
    let at = last_index_of(document, '}');
    if at >= 0 {
        let head = document.take(at);
        let tail = document.skip(at + 1);
        assert(document =~= head + seq!['}'] + tail);
        lemma_count_char_none(tail, '}');
        lemma_count_char_concat(head + seq!['}'], tail, '}');
        lemma_count_char_concat(head, seq!['}'], '}');
        assert(count_char(seq!['}'], '}') == 1) by {
            lemma_count_char_none(seq!['}'].drop_last(), '}');
        }
    } else {
        assert(document.take(document.len() as int) =~= document);
        lemma_count_char_none(document, '}');
    }
}

/// In a document without the marker of the package list, a new list is put
/// where the document's last closing brace stood, or at its end if it has
/// none. The document is unchanged before that place. The new list holds the
/// package alone, and one closing brace follows it, which ends the
/// result. So the result has as many closing braces as the document, or one
/// where the document has none, and those of the name besides.
pub proof fn law_package_list_created(document: Seq<char>, name: Seq<char>)
    requires
        !contains_seq(document, package_list_marker()),
    ensures
        ({
            let at = body_end(document);
            let patched = package_inserted(document, name);
            let list = package_list_marker() + package_entry(name) + "\n  ];"@;
            &&& 0 <= at <= document.len()
            &&& patched.take(at) == document.take(at)
            &&& patched == document.take(at) + "\n  "@ + list + "\n}"@
            &&& occurs_at(patched, list, at + 3)
            &&& last_index_of(patched, '}') == patched.len() - 1
            &&& count_char(patched, '}') == count_char(name, '}') + if count_char(document, '}')
                > 0 {
                count_char(document, '}')
            } else {
                1
            }
        }),
{
    let at = body_end(document);
    let patched = package_inserted(document, name);
    let marker = package_list_marker();
    let list = marker + package_entry(name) + "\n  ];"@;
    let head = document.take(at);
    reveal_strlit("environment.systemPackages = with pkgs; [");
    reveal_strlit("\n  ");
    reveal_strlit("\n    ");
    reveal_strlit("\n  ];\n}");
    reveal_strlit("\n  ];");
    reveal_strlit("\n}");
    lemma_last_index_of(document, '}');
    assert("\n  ];\n}"@ =~= "\n  ];"@ + "\n}"@);
    assert(patched =~= head + "\n  "@ + list + "\n}"@);
    assert(patched.take(at) =~= head);
    lemma_occurs_in_middle(head + "\n  "@, list, "\n}"@);
    lemma_last_index_is(patched, '}', patched.len() - 1);
    // The closing braces, part by part.
    lemma_count_before_last_brace(document);
    lemma_count_char_none("\n  "@, '}');
    lemma_count_char_none(marker, '}');
    lemma_count_char_none("\n    "@, '}');
    lemma_count_char_none("\n  ];"@, '}');
    assert(count_char("\n}"@, '}') == 1) by {
        assert("\n}"@.drop_last() =~= seq!['\n']);
        lemma_count_char_none(seq!['\n'], '}');
    }
    lemma_count_char_concat(head + "\n  "@ + list, "\n}"@, '}');
    lemma_count_char_concat(head + "\n  "@, list, '}');
    lemma_count_char_concat(head, "\n  "@, '}');
    lemma_count_char_concat(marker + package_entry(name), "\n  ];"@, '}');
    lemma_count_char_concat(marker, package_entry(name), '}');
    lemma_count_char_concat("\n    "@, name, '}');
}

/// The line of the option stands in the patched document, with the text
/// `path = value;` in it, and directly behind the line comes the last closing
/// brace of the result. Before the line the document is unchanged, and from
/// its last closing brace on it follows the line unchanged.
pub proof fn law_option_before_closing_brace(
    document: Seq<char>,
    path: Seq<char>,
    value: Seq<char>,
)
    ensures
        ({
            let at = body_end(document);
            let line = option_line(path, value);
            let patched = option_inserted(document, path, value);
            &&& 0 <= at <= document.len()
            &&& patched.take(at) == document.take(at)
            &&& occurs_at(patched, line, at)
            &&& occurs_at(patched, path + " = "@ + value + ";"@, at + 2)
            &&& last_index_of(patched, '}') == at + line.len()
            &&& last_index_of(document, '}') >= 0 ==> patched.skip(at + line.len())
                == document.skip(at)
        }),
{
    let at = body_end(document);
    let line = option_line(path, value);
    let patched = option_inserted(document, path, value);
    let head = document.take(at);
    reveal_strlit("  ");
    reveal_strlit(" = ");
    reveal_strlit(";\n");
    reveal_strlit(";");
    reveal_strlit("}");
    lemma_last_index_of(document, '}');
    let tail = if last_index_of(document, '}') >= 0 {
        document.skip(at)
    } else {
        "}"@
    };
    if last_index_of(document, '}') < 0 {
        assert(head =~= document);
    }
    assert(patched =~= head + line + tail);
    assert(patched.take(at) =~= head);
    lemma_occurs_in_middle(head, line, tail);
    let text = path + " = "@ + value + ";"@;
    assert(line =~= "  "@ + text + seq!['\n']);
    assert(patched =~= (head + "  "@) + text + (seq!['\n'] + tail));
    lemma_occurs_in_middle(head + "  "@, text, seq!['\n'] + tail);
    assert(patched.skip(at + line.len()) =~= tail);
    assert forall|j: int| at + line.len() < j < patched.len() implies patched[j] != '}' by {
        assert(patched[j] == tail[j - at - line.len()]);
        if last_index_of(document, '}') >= 0 {
            assert(tail[j - at - line.len()] == document[j - line.len()]);
        }
    }
    assert(patched[at + line.len()] == tail[0]);
    lemma_last_index_is(patched, '}', at + line.len());
}

/// Whatever the document, after one call the entry of the package stands
/// directly behind a marker of the package list.
pub proof fn law_entry_behind_marker(document: Seq<char>, name: Seq<char>) -> (at: int)
    ensures
        occurs_at(package_inserted(document, name), package_list_marker(), at),
        occurs_at(
            package_inserted(document, name),
            package_entry(name),
            at + package_list_marker().len(),
        ),
{
    let marker = package_list_marker();
    let entry = package_entry(name);
    let patched = package_inserted(document, name);
    lemma_marker_not_empty();
    if contains_seq(document, marker) {
        law_package_follows_marker(document, name);
        let first = first_occurrence(document, marker);
        let end = first + marker.len();
        let tail = insert_after_each(document.skip(end), marker, entry);
        assert(document.take(end) =~= document.take(first) + marker) by {
            assert(document.subrange(first, end) == marker);
        }
        assert(patched =~= document.take(first) + marker + (entry + tail));
        lemma_occurs_in_middle(document.take(first), marker, entry + tail);
        lemma_occurs_in_middle(document.take(end), entry, tail);
        first
    } else {
        lemma_last_index_of(document, '}');
        let head = document.take(body_end(document)) + "\n  "@;
        assert(patched =~= head + marker + (entry + "\n  ];\n}"@));
        lemma_occurs_in_middle(head, marker, entry + "\n  ];\n}"@);
        assert(patched =~= (head + marker) + entry + "\n  ];\n}"@);
        lemma_occurs_in_middle(head + marker, entry, "\n  ];\n}"@);
        head.len() as int
    }
}

/// A text that holds the pattern or the insertion holds the insertion after
/// the insertion is put behind each pattern.
proof fn lemma_insertion_stays(s: Seq<char>, pat: Seq<char>, ins: Seq<char>) -> (at: int)
    requires
        pat.len() > 0,
        contains_seq(s, pat) || contains_seq(s, ins),
    ensures
        occurs_at(insert_after_each(s, pat, ins), ins, at),
{
    if contains_seq(s, pat) {
        lemma_first_occurrence(s, pat);
        let first = first_occurrence(s, pat);
        lemma_insert_at_first_occurrence(s, pat, ins, first);
        let end = first + pat.len();
        lemma_occurs_in_middle(s.take(end), ins, insert_after_each(s.skip(end), pat, ins));
        end
    } else {
        lemma_insert_without_occurrence(s, pat, ins);
        choose|i: int| occurs_at(s, ins, i)
    }
}

/// A package that is put in twice stands in the document twice: the second
/// call does not look for the entry that the first one made.
pub proof fn law_package_twice(document: Seq<char>, name: Seq<char>)
    ensures
        occurs_twice(
            package_inserted(package_inserted(document, name), name),
            package_entry(name),
        ),
{
    let marker = package_list_marker();
    let entry = package_entry(name);
    let once = package_inserted(document, name);
    let twice = package_inserted(once, name);
    lemma_marker_not_empty();
    let behind = law_entry_behind_marker(document, name);
    let first = lemma_least_occurrence(once, marker, behind);
    lemma_first_occurrence(once, marker);
    assert(first == first_occurrence(once, marker));
    law_package_follows_marker(once, name);
    let end = first + marker.len();
    let rest = once.skip(end);
    let tail = insert_after_each(rest, marker, entry);
    assert(twice == once.take(end) + entry + tail);
    // The first entry of the result is the one that the second call made.
    lemma_occurs_in_middle(once.take(end), entry, tail);
    // The entry of the first call stands behind it, or was split by a new one.
    lemma_occurs_at_skip(once, entry, end, behind + marker.len() - end);
    let k = lemma_insertion_stays(rest, marker, entry);
    assert(twice.skip(end + entry.len()) =~= tail);
    lemma_occurs_at_skip(twice, entry, end + entry.len(), k);
    assert(occurs_at(twice, entry, end));
    assert(occurs_at(twice, entry, end + entry.len() + k));
}

} // verus!
