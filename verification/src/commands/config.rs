//! The command that shows the settings, or changes one.

use crate::config::Config;
use crate::session::{lines_view, out_line, Line, LineView};
use vstd::prelude::*;

verus! {

/// What the command on the settings asks of its caller.
#[derive(Debug, Clone, PartialEq, Eq)]
pub struct SettingsReport {
    /// Whether the settings were changed and are to be kept for later runs,
    /// before the lines are printed. A failure to keep them is passed over.
    pub save: bool,
    /// The lines to print.
    pub output: Vec<Line>,
    /// The exit code.
    pub code: i32,
}

/// What the user is told: that the setting was changed, or what it is.
pub open spec fn settings_lines(allow_unfree: Option<bool>, current: bool) -> Seq<LineView> {
    match allow_unfree {
        Some(allow) => seq![
            out_line(
                "Updated unfree package setting: "@ + if allow {
                    "allowed"@
                } else {
                    "disallowed"@
                },
            ),
        ],
        None => seq![
            out_line("Current settings:"@),
            out_line(
                "  Allow unfree packages: "@ + if current {
                    "true"@
                } else {
                    "false"@
                },
            ),
        ],
    }
}

/// Changes the setting for unfree packages where `allow_unfree` holds one,
/// and asks for it to be saved; shows the setting where it holds none. The
/// exit code is 0.
pub fn execute(allow_unfree: Option<bool>, config: &mut Config) -> (report: SettingsReport)
    ensures
        final(config).allow_unfree == match allow_unfree {
            Some(allow) => allow,
            None => old(config).allow_unfree,
        },
        report.save == allow_unfree is Some,
        report.code == 0,
        lines_view(report.output@) == settings_lines(allow_unfree, old(config).allow_unfree),
{
    let mut output: Vec<Line> = Vec::new();
    match allow_unfree {
        Some(allow) => {
            config.allow_unfree = allow;
            let mut text = "Updated unfree package setting: ".to_owned();
            if allow {
                text.append("allowed");
            } else {
                text.append("disallowed");
            }
            output.push(Line { text, error: false });
            proof {
                assert(lines_view(output@) =~= settings_lines(allow_unfree, old(config).allow_unfree));
            }
            SettingsReport { save: true, output, code: 0 }
        },
        None => {
            let mut text = "  Allow unfree packages: ".to_owned();
            if config.allow_unfree {
                text.append("true");
            } else {
                text.append("false");
            }
            output.push(Line { text: "Current settings:".to_owned(), error: false });
            output.push(Line { text, error: false });
            proof {
                assert(lines_view(output@) =~= settings_lines(allow_unfree, old(config).allow_unfree));
            }
            SettingsReport { save: false, output, code: 0 }
        },
    }
}

} // verus!
