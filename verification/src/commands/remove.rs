//! The command that removes packages from the profile.

use crate::config::Config;
use crate::process::{
    command_line, foreground, refused, run_command, strs_view, CommandSession,
    CommandSessionView,
};
use crate::session::{Step, StepView};
use crate::text::{text_of, texts_view};
use vstd::prelude::*;

verus! {

/// The shell command that removes every package of the profile.
pub const REMOVE_ALL_SCRIPT: &'static str =
    "nix profile list | awk '{print $4}' | xargs -I{} nix profile remove {}";

/// The first step of the command: every package is removed where `all` is
/// set, else the package that is named. A command that names no package and
/// does not ask for all of them is refused.
pub open spec fn remove_opening(
    all: bool,
    package: Option<Seq<char>>,
    passthrough: Seq<Seq<char>>,
    allow_unfree: bool,
) -> (CommandSessionView, StepView) {
    if all {
        foreground(
            command_line("sh"@, seq!["-c"@, REMOVE_ALL_SCRIPT@], passthrough, allow_unfree),
            "Failed to remove all packages"@,
        )
    } else {
        match package {
            Some(name) => foreground(
                command_line("nix"@, seq!["profile"@, "remove"@, name], passthrough, allow_unfree),
                "Failed to remove package"@,
            ),
            None => refused("Either --all or package must be specified"@),
        }
    }
}

/// Starts the removal of one package, or of all of them.
pub fn execute(all: bool, package: Option<String>, passthrough_args: &[String], config: &Config) -> (r:
    (CommandSession, Step))
    ensures
        (r.0@, r.1@) == remove_opening(
            all,
            text_of(package),
            texts_view(passthrough_args@),
            config.allow_unfree,
        ),
{
    if all {
        let args: [&str; 2] = ["-c", REMOVE_ALL_SCRIPT];
        proof {
            assert(strs_view(args@) =~= seq!["-c"@, REMOVE_ALL_SCRIPT@]);
        }
        CommandSession::foreground(
            run_command("sh", args.as_slice(), passthrough_args, config),
            "Failed to remove all packages",
        )
    } else {
        match package {
            Some(name) => {
                let args: [&str; 3] = ["profile", "remove", name.as_str()];
                proof {
                    assert(strs_view(args@) =~= seq!["profile"@, "remove"@, name@]);
                }
                CommandSession::foreground(
                    run_command("nix", args.as_slice(), passthrough_args, config),
                    "Failed to remove package",
                )
            },
            None => CommandSession::refused("Either --all or package must be specified"),
        }
    }
}

} // verus!
