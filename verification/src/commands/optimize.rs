//! The command that optimizes the store.

use crate::config::Config;
use crate::process::{
    background, background_command_line, command_line, foreground, run_command,
    run_command_background, strs_view, CommandSession, CommandSessionView,
};
use crate::session::{Step, StepView};
use crate::text::texts_view;
use vstd::prelude::*;

verus! {

/// The first step of the command: the store is optimized by a program that
/// is waited for where `in_foreground` is set, and else started in the
/// background.
pub open spec fn optimize_opening(
    in_foreground: bool,
    passthrough: Seq<Seq<char>>,
    allow_unfree: bool,
) -> (CommandSessionView, StepView) {
    let args = seq!["store"@, "optimize-store"@];
    if in_foreground {
        foreground(
            command_line("nix"@, args, passthrough, allow_unfree),
            "Failed to optimize store"@,
        )
    } else {
        background(background_command_line("nix"@, args, passthrough))
    }
}

/// Starts the optimization of the store.
pub fn execute(foreground: bool, passthrough_args: &[String], config: &Config) -> (r: (
    CommandSession,
    Step,
))
    ensures
        (r.0@, r.1@) == optimize_opening(
            foreground,
            texts_view(passthrough_args@),
            config.allow_unfree,
        ),
{
    let args: [&str; 2] = ["store", "optimize-store"];
    proof {
        assert(strs_view(args@) =~= seq!["store"@, "optimize-store"@]);
    }
    if foreground {
        CommandSession::foreground(
            run_command("nix", args.as_slice(), passthrough_args, config),
            "Failed to optimize store",
        )
    } else {
        CommandSession::background(
            run_command_background("nix", args.as_slice(), passthrough_args),
        )
    }
}

} // verus!
