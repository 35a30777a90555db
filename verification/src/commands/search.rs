//! The command that searches the packages.

use crate::config::Config;
use crate::process::{
    command_line, foreground, run_command, strs_view, CommandSession, CommandSessionView,
};
use crate::session::{Step, StepView};
use crate::text::texts_view;
use vstd::prelude::*;

verus! {

/// The first step of the command: the packages are searched for `query`.
pub open spec fn search_opening(
    query: Seq<char>,
    passthrough: Seq<Seq<char>>,
    allow_unfree: bool,
) -> (CommandSessionView, StepView) {
    foreground(
        command_line("nix"@, seq!["search"@, "nixpkgs"@, query], passthrough, allow_unfree),
        "Failed to search packages"@,
    )
}

/// Starts the search for `query`.
pub fn execute(query: &str, passthrough_args: &[String], config: &Config) -> (r: (
    CommandSession,
    Step,
))
    ensures
        (r.0@, r.1@) == search_opening(query@, texts_view(passthrough_args@), config.allow_unfree),
{
    let args: [&str; 3] = ["search", "nixpkgs", query];
    proof {
        assert(strs_view(args@) =~= seq!["search"@, "nixpkgs"@, query@]);
    }
    CommandSession::foreground(
        run_command("nix", args.as_slice(), passthrough_args, config),
        "Failed to search packages",
    )
}

} // verus!
