//! What is known of a package before it is installed.

use crate::session::{pairs_view, Event, EventView, Invocation, InvocationView};
use crate::session::concat3;
use crate::text::{chars_of, same_chars, texts_view};
use crate::words::{trim_chars, trimmed};
use vstd::prelude::*;

verus! {

/// The program that tells whether the license of `package` is free.
pub open spec fn license_query_command(package: Seq<char>) -> InvocationView {
    InvocationView {
        program: "nix"@,
        args: seq!["eval"@, "nixpkgs#"@ + package + ".meta.license.free"@],
        env: Seq::empty(),
    }
}

/// The invocation of the program that tells whether the license of `package`
/// is free. Its standard output is to be collected.
pub fn license_query(package: &str) -> (r: Invocation)
    ensures
        r@ == license_query_command(package@),
{
    let mut args: Vec<String> = Vec::new();
    args.push("eval".to_owned());
    args.push(concat3("nixpkgs#", package, ".meta.license.free"));
    let env: Vec<(String, String)> = Vec::new();
    proof {
        assert(texts_view(args@) =~= seq![
            "eval"@,
            "nixpkgs#"@ + package@ + ".meta.license.free"@,
        ]);
        assert(pairs_view(env@) =~= Seq::<(Seq<char>, Seq<char>)>::empty());
    }
    Invocation { program: "nix".to_owned(), args, env }
}

/// Whether the answer to the license query says that the package is unfree:
/// the program has run, and what it wrote is `false` between white space.
pub open spec fn says_unfree(answer: EventView) -> bool {
    answer matches EventView::Exited { output, .. } && trimmed(output) == "false"@
}

/// Whether a package is unfree, by the answer to its license query. A
/// package is unfree only where the query has run and has written `false`;
/// how the query ended plays no part. A query that could not be started
/// leaves the package free.
pub fn is_unfree_package(answer: &Event) -> (unfree: bool)
    ensures
        unfree == says_unfree(answer@),
{
    match answer {
        Event::Exited { success: _, code: _, output } => {
            let text = trim_chars(&chars_of(output.as_str()));
            let no = chars_of("false");
            same_chars(&text, &no)
        },
        _ => false,
    }
}

} // verus!
