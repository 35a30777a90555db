//! The command that updates packages of the profile.

use crate::config::Config;
use crate::process::{
    command_line, foreground, refused, run_command, strs_view, CommandSession,
    CommandSessionView,
};
use crate::session::{Step, StepView};
use crate::text::{text_of, texts_view};
use vstd::prelude::*;

verus! {

/// The first step of the command: every package is updated where `all` is
/// set, else the package that is named. A command that names no package and
/// does not ask for all of them is refused.
pub open spec fn update_opening(
    all: bool,
    package: Option<Seq<char>>,
    passthrough: Seq<Seq<char>>,
    allow_unfree: bool,
) -> (CommandSessionView, StepView) {
    if all {
        foreground(
            command_line("nix"@, seq!["profile"@, "upgrade"@, ".*"@], passthrough, allow_unfree),
            "Failed to update all packages"@,
        )
    } else {
        match package {
            Some(name) => foreground(
                command_line("nix"@, seq!["profile"@, "upgrade"@, name], passthrough, allow_unfree),
                "Failed to update package"@,
            ),
            None => refused("Either --all or package must be specified"@),
        }
    }
}

/// Starts the update of one package, or of all of them.
pub fn execute(all: bool, package: Option<String>, passthrough_args: &[String], config: &Config) -> (r:
    (CommandSession, Step))
    ensures
        (r.0@, r.1@) == update_opening(
            all,
            text_of(package),
            texts_view(passthrough_args@),
            config.allow_unfree,
        ),
{
    if all {
        let args: [&str; 3] = ["profile", "upgrade", ".*"];
        proof {
            assert(strs_view(args@) =~= seq!["profile"@, "upgrade"@, ".*"@]);
        }
        CommandSession::foreground(
            run_command("nix", args.as_slice(), passthrough_args, config),
            "Failed to update all packages",
        )
    } else {
        match package {
            Some(name) => {
                let args: [&str; 3] = ["profile", "upgrade", name.as_str()];
                proof {
                    assert(strs_view(args@) =~= seq!["profile"@, "upgrade"@, name@]);
                }
                CommandSession::foreground(
                    run_command("nix", args.as_slice(), passthrough_args, config),
                    "Failed to update package",
                )
            },
            None => CommandSession::refused("Either --all or package must be specified"),
        }
    }
}

} // verus!
