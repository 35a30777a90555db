//! The command that collects garbage in the store.

use crate::config::Config;
use crate::process::{
    background, background_command_line, command_line, foreground, run_command,
    run_command_background, strs_view, CommandSession, CommandSessionView,
};
use crate::session::{Step, StepView};
use crate::text::texts_view;
use vstd::prelude::*;

verus! {

/// The first step of the command: the collector is run, with `-d` where old
/// generations are to be deleted; it is waited for where `foreground` is
/// set, and else started in the background.
pub open spec fn gc_opening(
    delete_old: bool,
    in_foreground: bool,
    passthrough: Seq<Seq<char>>,
    allow_unfree: bool,
) -> (CommandSessionView, StepView) {
    let args = if delete_old {
        seq!["-d"@]
    } else {
        Seq::empty()
    };
    if in_foreground {
        foreground(
            command_line("nix-collect-garbage"@, args, passthrough, allow_unfree),
            "Failed to collect garbage"@,
        )
    } else {
        background(background_command_line("nix-collect-garbage"@, args, passthrough))
    }
}

/// Starts the collection of garbage.
pub fn execute(delete_old: bool, foreground: bool, passthrough_args: &[String], config: &Config) -> (r:
    (CommandSession, Step))
    ensures
        (r.0@, r.1@) == gc_opening(
            delete_old,
            foreground,
            texts_view(passthrough_args@),
            config.allow_unfree,
        ),
{
    let with_flag: [&str; 1] = ["-d"];
    let without: [&str; 0] = [];
    let args: &[&str] = if delete_old {
        with_flag.as_slice()
    } else {
        without.as_slice()
    };
    proof {
        assert(strs_view(with_flag@) =~= seq!["-d"@]);
        assert(strs_view(without@) =~= Seq::<Seq<char>>::empty());
    }
    if foreground {
        CommandSession::foreground(
            run_command("nix-collect-garbage", args, passthrough_args, config),
            "Failed to collect garbage",
        )
    } else {
        CommandSession::background(
            run_command_background("nix-collect-garbage", args, passthrough_args),
        )
    }
}

} // verus!
