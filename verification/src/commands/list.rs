//! The command that lists the installed packages.

use crate::config::Config;
use crate::process::{
    command_line, foreground, run_command, strs_view, CommandSession, CommandSessionView,
};
use crate::session::{Step, StepView};
use crate::text::texts_view;
use vstd::prelude::*;

verus! {

/// The first step of the command: the profile is listed.
pub open spec fn list_opening(passthrough: Seq<Seq<char>>, allow_unfree: bool) -> (
    CommandSessionView,
    StepView,
) {
    foreground(
        command_line("nix"@, seq!["profile"@, "list"@], passthrough, allow_unfree),
        "Failed to list packages"@,
    )
}

/// Starts the listing of the installed packages.
pub fn execute(passthrough_args: &[String], config: &Config) -> (r: (CommandSession, Step))
    ensures
        (r.0@, r.1@) == list_opening(texts_view(passthrough_args@), config.allow_unfree),
{
    let args: [&str; 2] = ["profile", "list"];
    proof {
        assert(strs_view(args@) =~= seq!["profile"@, "list"@]);
    }
    CommandSession::foreground(
        run_command("nix", args.as_slice(), passthrough_args, config),
        "Failed to list packages",
    )
}

} // verus!
