//! The text patcher: a package or an option is put into the text of a
//! configuration document.
//!
//! The document is not parsed. A package goes behind the marker that opens the
//! list of system packages; where the document has no such list, a new list is
//! put before the last closing brace. An option goes before the last closing
//! brace. The last closing brace of the text is taken to be the one that closes
//! the document's top-level block.

use crate::text::{
    chars_of, contains_seq, find_from, find_last, is_first_occurrence, last_index_of,
    lemma_occurs_at_skip, occurs_at,
};
use vstd::prelude::*;

verus! {

/// The text that opens the list of system packages.
pub const PACKAGE_LIST_MARKER: &'static str = "environment.systemPackages = with pkgs; [";

/// The marker that opens the list of system packages, as characters.
pub open spec fn package_list_marker() -> Seq<char> {
    PACKAGE_LIST_MARKER@
}

/// What stands for a package in the list: a new line, indented by four blanks,
/// that holds the name.
pub open spec fn package_entry(name: Seq<char>) -> Seq<char> {
    "\n    "@ + name
}

/// A new list of system packages with `name` as its only member, followed by
/// the closing brace of the document.
pub open spec fn package_block(name: Seq<char>) -> Seq<char> {
    "\n  "@ + package_list_marker() + package_entry(name) + "\n  ];\n}"@
}

/// The line that sets the option at `path` to `value`.
pub open spec fn option_line(path: Seq<char>, value: Seq<char>) -> Seq<char> {
    "  "@ + path + " = "@ + value + ";\n"@
}

/// `s` with `ins` put in behind every occurrence of `pat`. The occurrences are
/// taken from the left and do not overlap.
pub open spec fn insert_after_each(s: Seq<char>, pat: Seq<char>, ins: Seq<char>) -> Seq<char>
    decreases s.len(),
{
    if pat.len() == 0 || s.len() < pat.len() {
        s
    } else if s.take(pat.len() as int) == pat {
        pat + ins + insert_after_each(s.skip(pat.len() as int), pat, ins)
    } else {
        seq![s[0]] + insert_after_each(s.skip(1), pat, ins)
    }
}

/// Where the body of the document ends: the index of its last closing brace,
/// or its length where it has none.
pub open spec fn body_end(document: Seq<char>) -> int {
    if last_index_of(document, '}') >= 0 {
        last_index_of(document, '}')
    } else {
        document.len() as int
    }
}

/// The document with the package `name` put in.
///
/// Where the document holds the marker of the package list, the entry of the
/// package follows each occurrence of the marker. Where it does not, the
/// document is cut at its last closing brace and a new list follows, which
/// ends with the closing brace.
pub open spec fn package_inserted(document: Seq<char>, name: Seq<char>) -> Seq<char> {
    if contains_seq(document, package_list_marker()) {
        insert_after_each(document, package_list_marker(), package_entry(name))
    } else {
        document.take(body_end(document)) + package_block(name)
    }
}

/// The document with the option line for `path` and `value` put in: before
/// the last closing brace, or, where the document has none, at the end with a
/// closing brace behind it.
pub open spec fn option_inserted(document: Seq<char>, path: Seq<char>, value: Seq<char>) -> Seq<
    char,
> {
    let at = last_index_of(document, '}');
    if at >= 0 {
        document.take(at) + option_line(path, value) + document.skip(at)
    } else {
        document + option_line(path, value) + "}"@
    }
}

/// A text without the pattern stays as it is.
pub proof fn lemma_insert_without_occurrence(s: Seq<char>, pat: Seq<char>, ins: Seq<char>)
    requires
        !contains_seq(s, pat),
    ensures
        insert_after_each(s, pat, ins) == s,
    decreases s.len(),
{
    if pat.len() > 0 && s.len() >= pat.len() {
        assert(s.take(pat.len() as int) =~= s.subrange(0, pat.len() as int));
        assert(!occurs_at(s, pat, 0));
        let rest = s.skip(1);
        assert forall|j: int| !occurs_at(rest, pat, j) by {
            if 0 <= j {
                lemma_occurs_at_skip(s, pat, 1, j);
                assert(!occurs_at(s, pat, 1 + j));
            }
        }
        lemma_insert_without_occurrence(rest, pat, ins);
        assert(seq![s[0]] + rest =~= s);
    }
}

/// Up to the end of the first occurrence of the pattern the text stays as it
/// is; then comes the insertion, and then what the rest of the text becomes.
pub proof fn lemma_insert_at_first_occurrence(
    s: Seq<char>,
    pat: Seq<char>,
    ins: Seq<char>,
    first: int,
)
    requires
        pat.len() > 0,
        is_first_occurrence(s, pat, first),
    ensures
        insert_after_each(s, pat, ins) == s.take(first + pat.len()) + ins + insert_after_each(
            s.skip(first + pat.len()),
            pat,
            ins,
        ),
    decreases first,
{
    let m = pat.len() as int;
    assert(s.take(m) =~= s.subrange(0, 0 + m));
    if first == 0 {
    } else {
        assert(!occurs_at(s, pat, 0));
        let rest = s.skip(1);
        lemma_occurs_at_skip(s, pat, 1, first - 1);
        assert forall|j: int| 0 <= j < first - 1 implies !occurs_at(rest, pat, j) by {
            lemma_occurs_at_skip(s, pat, 1, j);
        }
        lemma_insert_at_first_occurrence(rest, pat, ins, first - 1);
        assert(seq![s[0]] + rest.take(first - 1 + m) =~= s.take(first + m));
        assert(rest.skip(first - 1 + m) =~= s.skip(first + m));
        assert(insert_after_each(s, pat, ins) =~= s.take(first + m) + ins + insert_after_each(
            s.skip(first + m),
            pat,
            ins,
        ));
    }
}

/// `content` with `ins` put in behind every occurrence of `pat`.
fn insert_behind_each(content: &str, doc: &Vec<char>, pat: &Vec<char>, ins: &str) -> (r: String)
    requires
        doc@ == content@,
        pat@.len() > 0,
    ensures
        r@ == insert_after_each(content@, pat@, ins@),
{
    let n = doc.len();
    let m = pat.len();
    let mut out = String::new();
    let mut copied: usize = 0;
    proof {
        assert(doc@.skip(0) =~= doc@);
        assert(out@ + doc@ =~= doc@);
    }
    loop
        invariant
            doc@ == content@,
            n == doc.len(),
            m == pat.len(),
            m > 0,
            copied <= n,
            insert_after_each(doc@, pat@, ins@) == out@ + insert_after_each(
                doc@.skip(copied as int),
                pat@,
                ins@,
            ),
        decreases n - copied,
    {
        let ghost rest = doc@.skip(copied as int);
        match find_from(doc, pat, copied) {
            Some(i) => {
                proof {
                    lemma_occurs_at_skip(doc@, pat@, copied as int, i - copied);
                    assert forall|j: int| 0 <= j < i - copied implies !occurs_at(rest, pat@, j) by {
                        lemma_occurs_at_skip(doc@, pat@, copied as int, j);
                    }
                    lemma_insert_at_first_occurrence(rest, pat@, ins@, i - copied);
                    assert(rest.take(i - copied + m) =~= doc@.subrange(copied as int, i + m));
                    assert(rest.skip(i - copied + m) =~= doc@.skip(i + m));
                }
                out.append(content.substring_char(copied, i + m));
                out.append(ins);
                copied = i + m;
            },
            None => {
                proof {
                    assert forall|j: int| !occurs_at(rest, pat@, j) by {
                        if 0 <= j {
                            lemma_occurs_at_skip(doc@, pat@, copied as int, j);
                        }
                    }
                    lemma_insert_without_occurrence(rest, pat@, ins@);
                    assert(rest =~= doc@.subrange(copied as int, n as int));
                }
                out.append(content.substring_char(copied, n));
                return out;
            },
        }
    }
}

/// Puts the package `package` into the text of a configuration document.
///
/// Where the document holds the marker of the package list, the package
/// becomes the first member of the list: its entry follows the marker, and
/// every other character of the document stays. A document that holds the
/// marker more than once gets the entry behind each. Where the document does
/// not hold the marker, it is cut at its last closing brace (or not at all, if
/// it has none) and a new list with this one member follows, closed by a
/// brace. The same package is put in again by every call.
pub fn add_package_to_config(content: &str, package: &str) -> (r: String)
    ensures
        r@ == package_inserted(content@, package@),
{
    let doc = chars_of(content);
    let marker = chars_of(PACKAGE_LIST_MARKER);
    proof {
        reveal_strlit("environment.systemPackages = with pkgs; [");
    }
    match find_from(&doc, &marker, 0) {
        Some(_first) => {
            let mut entry = String::new();
            entry.append("\n    ");
            entry.append(package);
            insert_behind_each(content, &doc, &marker, entry.as_str())
        },
        None => {
            let end = match find_last(&doc, '}') {
                Some(at) => at,
                None => doc.len(),
            };
            let mut out = String::new();
            out.append(content.substring_char(0, end));
            out.append("\n  ");
            out.append(PACKAGE_LIST_MARKER);
            out.append("\n    ");
            out.append(package);
            out.append("\n  ];\n}");
            proof {
                assert(out@ =~= content@.take(end as int) + package_block(package@));
            }
            out
        },
    }
}

/// Puts the line `  path = value;` into the text of a configuration document,
/// before its last closing brace. A document without a closing brace gets the
/// line and a closing brace at its end. `value` is taken as it stands. The
/// line is put in again by every call.
pub fn add_option_to_config(content: &str, path: &str, value: &str) -> (r: String)
    ensures
        r@ == option_inserted(content@, path@, value@),
{
    let doc = chars_of(content);
    let mut line = String::new();
    line.append("  ");
    line.append(path);
    line.append(" = ");
    line.append(value);
    line.append(";\n");
    let mut out = String::new();
    match find_last(&doc, '}') {
        Some(at) => {
            out.append(content.substring_char(0, at));
            out.append(line.as_str());
            out.append(content.substring_char(at, doc.len()));
        },
        None => {
            out.append(content);
            out.append(line.as_str());
            out.append("}");
        },
    }
    out
}

} // verus!
