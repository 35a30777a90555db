//! The installation of a package: into the profile of the user first, so
//! that it can be used at once, and then into the system packages, after
//! which the system is rebuilt and the package leaves the profile.

use crate::commands::system::{
    failure_reason, rebuild_command, rebuild_invocation, NIXOS_CONFIG_PATH, UNEXPECTED_REPLY,
};
use crate::config::Config;
use crate::package::{is_unfree_package, license_query, license_query_command, says_unfree};
use crate::patcher::{add_package_to_config, package_inserted};
use crate::process::{command_line, run_command, strs_view};
use crate::session::{
    concat2, concat3, err_line, out_line, pairs_view, saying, saying_both_step, saying_step,
    silent, silent_step, Action, ActionView, Event, EventView, Invocation, InvocationView, Line,
    RunMode, Step, StepView,
};
use crate::text::{chars_of, contains_chars, contains_seq, text_of, texts_view};
use crate::words::{lines_of, split_lines, split_words, words};
use vstd::prelude::*;

verus! {

/// The name under which a line of the profile list holds the package
/// `package_name`: the fourth word of the line, where the line has four words
/// and the fourth holds the name.
pub open spec fn package_id_in_line(line: Seq<char>, package_name: Seq<char>) -> Option<
    Seq<char>,
> {
    let fields = words(line);
    if fields.len() >= 4 && contains_seq(fields[3], package_name) {
        Some(fields[3])
    } else {
        None
    }
}

/// The name under which the first of the lines that hold the package holds
/// it.
pub open spec fn package_id_in(lines: Seq<Seq<char>>, package_name: Seq<char>) -> Option<
    Seq<char>,
>
    decreases lines.len(),
{
    if lines.len() == 0 {
        None
    } else if package_id_in_line(lines[0], package_name) is Some {
        package_id_in_line(lines[0], package_name)
    } else {
        package_id_in(lines.skip(1), package_name)
    }
}

/// Finds the package in the list of the profile, which holds one package on
/// each line. The result is the fourth word of the first line that has four
/// words and the name of the package in the fourth.
pub fn find_package_id(profile_output: &str, package_name: &str) -> (id: Option<String>)
    ensures
        text_of(id) == package_id_in(lines_of(profile_output@), package_name@),
{
    let lines = split_lines(&chars_of(profile_output));
    let name = chars_of(package_name);
    let ghost all = lines_of(profile_output@);
    let mut k: usize = 0;
    proof {
        assert(all.skip(0) =~= all);
    }
    while k < lines.len()
        invariant
            k <= lines.len(),
            texts_view(lines@) == all,
            all == lines_of(profile_output@),
            name@ == package_name@,
            package_id_in(all, package_name@) == package_id_in(all.skip(k as int), package_name@),
        decreases lines.len() - k,
    {
        let fields = split_words(&chars_of(lines[k].as_str()));
        proof {
            assert(all[k as int] == lines@[k as int]@);
            assert(all.skip(k as int)[0] == all[k as int]);
            assert(all.skip(k as int).skip(1) =~= all.skip(k + 1));
        }
        if fields.len() >= 4 {
            let ghost fourth = fields@[3]@;
            proof {
                assert(texts_view(fields@)[3] == fourth);
            }
            if contains_chars(&chars_of(fields[3].as_str()), &name) {
                return Some(fields[3].clone());
            }
        }
        k = k + 1;
    }
    None
}

/// What the installation waits for.
#[derive(Debug, Clone, Copy, PartialEq, Eq, Structural)]
pub enum InstallStage {
    /// The answer to the license query.
    LicenseCheck,
    /// The end of the installation into the profile.
    ProfileInstall,
    /// The text of the permanent document.
    DocumentRead,
    /// The writing of the changed document.
    DocumentWrite,
    /// The end of the rebuild.
    Rebuild,
    /// The list of the profile.
    ProfileList,
    /// The end of the removal from the profile.
    ProfileRemove,
    /// Nothing: the session has asked for the exit.
    Finished,
}

/// The installation of a package, under way.
#[derive(Debug, Clone, PartialEq, Eq)]
pub struct InstallSession {
    pub package: String,
    pub passthrough_args: Vec<String>,
    pub config: Config,
    /// The path of the permanent document.
    pub document: String,
    pub stage: InstallStage,
}

/// An [`InstallSession`] as the specifications see it.
pub struct InstallSessionView {
    pub package: Seq<char>,
    pub passthrough_args: Seq<Seq<char>>,
    pub config: Config,
    pub document: Seq<char>,
    pub stage: InstallStage,
}

impl View for InstallSession {
    type V = InstallSessionView;

    open spec fn view(&self) -> InstallSessionView {
        InstallSessionView {
            package: self.package@,
            passthrough_args: texts_view(self.passthrough_args@),
            config: self.config,
            document: self.document@,
            stage: self.stage,
        }
    }
}

/// The session at another stage.
pub open spec fn install_at(session: InstallSessionView, stage: InstallStage) -> InstallSessionView {
    InstallSessionView { stage, ..session }
}

/// The program that puts the package into the profile.
pub open spec fn profile_install_command(session: InstallSessionView) -> InvocationView {
    command_line(
        "nix"@,
        seq!["profile"@, "install"@, "nixpkgs#"@ + session.package],
        session.passthrough_args,
        session.config.allow_unfree,
    )
}

/// The program that lists the profile.
pub open spec fn profile_list_command() -> InvocationView {
    InvocationView { program: "nix"@, args: seq!["profile"@, "list"@], env: Seq::empty() }
}

/// The program that takes the package out of the profile, where the profile
/// holds it as `id`.
pub open spec fn profile_remove_command(session: InstallSessionView, id: Seq<char>) -> InvocationView {
    command_line(
        "nix"@,
        seq!["profile"@, "remove"@, id],
        Seq::empty(),
        session.config.allow_unfree,
    )
}

/// The last step of an installation that went well.
pub open spec fn installed(session: InstallSessionView) -> (InstallSessionView, StepView) {
    (
        install_at(session, InstallStage::Finished),
        saying(
            out_line(
                "Successfully installed "@ + session.package + " and added to system packages!"@,
            ),
            ActionView::Exit { code: 0 },
        ),
    )
}

/// The last step of an installation that one line on standard error ends.
pub open spec fn install_failed(session: InstallSessionView, text: Seq<char>) -> (
    InstallSessionView,
    StepView,
) {
    (
        install_at(session, InstallStage::Finished),
        saying(err_line(text), ActionView::Exit { code: 1 }),
    )
}

/// The last step of an installation that could not change the permanent
/// document.
pub open spec fn document_failed(session: InstallSessionView, event: EventView) -> (
    InstallSessionView,
    StepView,
) {
    (
        install_at(session, InstallStage::Finished),
        StepView {
            output: seq![
                err_line("Failed to modify configuration: "@ + failure_reason(event)),
                err_line("Failed to add package to system configuration"@),
            ],
            action: ActionView::Exit { code: 1 },
        },
    )
}

/// The first step of the installation of `package`, and the session that
/// waits for its answer: the license query.
pub open spec fn install_opening(
    package: Seq<char>,
    passthrough_args: Seq<Seq<char>>,
    config: Config,
    document: Seq<char>,
) -> (InstallSessionView, StepView) {
    (
        InstallSessionView {
            package,
            passthrough_args,
            config,
            document,
            stage: InstallStage::LicenseCheck,
        },
        silent(
            ActionView::Run { invocation: license_query_command(package), mode: RunMode::Capture },
        ),
    )
}

/// The step that follows an event.
///
/// - After the license query: an unfree package is refused with exit code 1
///   unless the settings allow unfree packages; else the package is
///   installed into the profile.
/// - After the installation into the profile, however it ended: the permanent
///   document is read. Where the installation could not be started, the
///   session ends with exit code 1.
/// - After the document was read, the text with the package put in is
///   written to the same path; after that, the system is rebuilt. A document
///   that cannot be read or written ends the session with exit code 1.
/// - After a rebuild that ended with success, the profile is listed; any
///   other rebuild ends the session with exit code 1.
/// - After the list: where it holds the package, the package is taken out of
///   the profile, and the session ends with exit code 0 whether or not that
///   could be started; where it does not, or where there is no list, the
///   session ends with exit code 0 at once.
pub open spec fn install_next(session: InstallSessionView, event: EventView) -> (
    InstallSessionView,
    StepView,
) {
    let package = session.package;
    match session.stage {
        InstallStage::LicenseCheck => if says_unfree(event) && !session.config.allow_unfree {
            (
                install_at(session, InstallStage::Finished),
                StepView {
                    output: seq![
                        out_line("Warning: "@ + package + " is an unfree package."@),
                        out_line("To allow installation, run: nx config --allow-unfree true"@),
                    ],
                    action: ActionView::Exit { code: 1 },
                },
            )
        } else {
            (
                install_at(session, InstallStage::ProfileInstall),
                saying(
                    out_line("Installing "@ + package + " to profile for immediate use..."@),
                    ActionView::Run {
                        invocation: profile_install_command(session),
                        mode: RunMode::Wait,
                    },
                ),
            )
        },
        InstallStage::ProfileInstall => match event {
            EventView::Exited { .. } => (
                install_at(session, InstallStage::DocumentRead),
                saying(
                    out_line("Adding "@ + package + " to system packages..."@),
                    ActionView::Read { path: session.document },
                ),
            ),
            _ => install_failed(session, "Failed to install package to profile"@),
        },
        InstallStage::DocumentRead => match event {
            EventView::Content { text } => (
                install_at(session, InstallStage::DocumentWrite),
                silent(
                    ActionView::Write {
                        path: session.document,
                        content: package_inserted(text, package),
                    },
                ),
            ),
            _ => document_failed(session, event),
        },
        InstallStage::DocumentWrite => match event {
            EventView::Done => (
                install_at(session, InstallStage::Rebuild),
                StepView {
                    output: seq![
                        out_line(
                            "Added "@ + package
                                + " to system packages. Run 'sudo nixos-rebuild switch' to apply."@,
                        ),
                        out_line("Rebuilding system configuration..."@),
                    ],
                    action: ActionView::Run {
                        invocation: rebuild_command(None),
                        mode: RunMode::Wait,
                    },
                },
            ),
            _ => document_failed(session, event),
        },
        InstallStage::Rebuild => if event matches EventView::Exited { success, .. } && success {
            (
                install_at(session, InstallStage::ProfileList),
                saying(
                    out_line("Removing "@ + package + " from profile..."@),
                    ActionView::Run {
                        invocation: profile_list_command(),
                        mode: RunMode::Capture,
                    },
                ),
            )
        } else {
            install_failed(session, "Failed to rebuild system"@)
        },
        InstallStage::ProfileList => match event {
            EventView::Exited { success, code, output } => match package_id_in(
                lines_of(output),
                package,
            ) {
                Some(id) => (
                    install_at(session, InstallStage::ProfileRemove),
                    silent(
                        ActionView::Run {
                            invocation: profile_remove_command(session, id),
                            mode: RunMode::Wait,
                        },
                    ),
                ),
                None => installed(session),
            },
            _ => installed(session),
        },
        InstallStage::ProfileRemove => match event {
            EventView::Exited { .. } => installed(session),
            _ => (
                install_at(session, InstallStage::Finished),
                StepView {
                    output: seq![
                        err_line("Warning: Failed to remove package from profile"@),
                        out_line(
                            "Successfully installed "@ + package
                                + " and added to system packages!"@,
                        ),
                    ],
                    action: ActionView::Exit { code: 0 },
                },
            ),
        },
        InstallStage::Finished => install_failed(session, UNEXPECTED_REPLY@),
    }
}

fn profile_list_invocation() -> (r: Invocation)
    ensures
        r@ == profile_list_command(),
{
    let mut args: Vec<String> = Vec::new();
    args.push("profile".to_owned());
    args.push("list".to_owned());
    let env: Vec<(String, String)> = Vec::new();
    proof {
        assert(texts_view(args@) =~= seq!["profile"@, "list"@]);
        assert(pairs_view(env@) =~= Seq::<(Seq<char>, Seq<char>)>::empty());
    }
    Invocation { program: "nix".to_owned(), args, env }
}

impl InstallSession {
    fn at(self, stage: InstallStage) -> (r: InstallSession)
        ensures
            r@ == install_at(self@, stage),
    {
        InstallSession {
            package: self.package,
            passthrough_args: self.passthrough_args,
            config: self.config,
            document: self.document,
            stage,
        }
    }

    fn success_line(&self) -> (line: Line)
        ensures
            line@ == out_line(
                "Successfully installed "@ + self.package@ + " and added to system packages!"@,
            ),
    {
        Line {
            text: concat3(
                "Successfully installed ",
                self.package.as_str(),
                " and added to system packages!",
            ),
            error: false,
        }
    }

    fn done(self) -> (r: (InstallSession, Step))
        ensures
            (r.0@, r.1@) == installed(self@),
    {
        let line = self.success_line();
        (self.at(InstallStage::Finished), saying_step(line.text, false, Action::Exit { code: 0 }))
    }

    fn failed(self, text: &str) -> (r: (InstallSession, Step))
        ensures
            (r.0@, r.1@) == install_failed(self@, text@),
    {
        (
            self.at(InstallStage::Finished),
            saying_step(text.to_owned(), true, Action::Exit { code: 1 }),
        )
    }

    fn failed_at_document(self, event: Event) -> (r: (InstallSession, Step))
        ensures
            (r.0@, r.1@) == document_failed(self@, event@),
    {
        let reason = match event {
            Event::Failed { reason } => reason,
            _ => UNEXPECTED_REPLY.to_owned(),
        };
        let first = Line {
            text: concat2("Failed to modify configuration: ", reason.as_str()),
            error: true,
        };
        let second = Line {
            text: "Failed to add package to system configuration".to_owned(),
            error: true,
        };
        (
            self.at(InstallStage::Finished),
            saying_both_step(first, second, Action::Exit { code: 1 }),
        )
    }

    /// Starts the installation of `package`, whose permanent document lies
    /// at `document`.
    pub fn begin(package: &str, passthrough_args: &[String], config: &Config, document: &str) -> (r:
        (InstallSession, Step))
        ensures
            (r.0@, r.1@) == install_opening(
                package@,
                texts_view(passthrough_args@),
                *config,
                document@,
            ),
    {
        let mut further: Vec<String> = Vec::new();
        let mut i: usize = 0;
        while i < passthrough_args.len()
            invariant
                i <= passthrough_args.len(),
                further@.len() == i,
                forall|j: int| 0 <= j < i ==> (#[trigger] further@[j])@ == passthrough_args@[j]@,
            decreases passthrough_args.len() - i,
        {
            further.push(passthrough_args[i].clone());
            i = i + 1;
        }
        proof {
            assert(texts_view(further@) =~= texts_view(passthrough_args@));
        }
        let session = InstallSession {
            package: package.to_owned(),
            passthrough_args: further,
            config: *config,
            document: document.to_owned(),
            stage: InstallStage::LicenseCheck,
        };
        let step = silent_step(
            Action::Run { invocation: license_query(package), mode: RunMode::Capture },
        );
        (session, step)
    }

    /// Whether the session has asked for the exit.
    pub fn is_finished(&self) -> (b: bool)
        ensures
            b == (self.stage == InstallStage::Finished),
    {
        match self.stage {
            InstallStage::Finished => true,
            _ => false,
        }
    }

    /// Takes the answer to the action of the last step and gives the next
    /// step: see [`install_next`].
    pub fn advance(self, event: Event) -> (r: (InstallSession, Step))
        ensures
            (r.0@, r.1@) == install_next(self@, event@),
    {
        match self.stage {
            InstallStage::LicenseCheck => {
                if is_unfree_package(&event) && !self.config.allow_unfree {
                    let first = Line {
                        text: concat3("Warning: ", self.package.as_str(), " is an unfree package."),
                        error: false,
                    };
                    let second = Line {
                        text: "To allow installation, run: nx config --allow-unfree true".to_owned(),
                        error: false,
                    };
                    (
                        self.at(InstallStage::Finished),
                        saying_both_step(first, second, Action::Exit { code: 1 }),
                    )
                } else {
                    let text = concat3(
                        "Installing ",
                        self.package.as_str(),
                        " to profile for immediate use...",
                    );
                    let target = concat2("nixpkgs#", self.package.as_str());
                    let args: [&str; 3] = ["profile", "install", target.as_str()];
                    proof {
                        assert(strs_view(args@) =~= seq![
                            "profile"@,
                            "install"@,
                            "nixpkgs#"@ + self.package@,
                        ]);
                    }
                    let invocation = run_command(
                        "nix",
                        args.as_slice(),
                        self.passthrough_args.as_slice(),
                        &self.config,
                    );
                    (
                        self.at(InstallStage::ProfileInstall),
                        saying_step(text, false, Action::Run { invocation, mode: RunMode::Wait }),
                    )
                }
            },
            InstallStage::ProfileInstall => match event {
                Event::Exited { .. } => {
                    let text = concat3("Adding ", self.package.as_str(), " to system packages...");
                    let path = self.document.clone();
                    (
                        self.at(InstallStage::DocumentRead),
                        saying_step(text, false, Action::Read { path }),
                    )
                },
                _ => self.failed("Failed to install package to profile"),
            },
            InstallStage::DocumentRead => match event {
                Event::Content { text } => {
                    let content = add_package_to_config(text.as_str(), self.package.as_str());
                    let path = self.document.clone();
                    (
                        self.at(InstallStage::DocumentWrite),
                        silent_step(Action::Write { path, content }),
                    )
                },
                _ => self.failed_at_document(event),
            },
            InstallStage::DocumentWrite => match event {
                Event::Done => {
                    let first = Line {
                        text: concat3(
                            "Added ",
                            self.package.as_str(),
                            " to system packages. Run 'sudo nixos-rebuild switch' to apply.",
                        ),
                        error: false,
                    };
                    let second = Line {
                        text: "Rebuilding system configuration...".to_owned(),
                        error: false,
                    };
                    let action = Action::Run {
                        invocation: rebuild_invocation(None),
                        mode: RunMode::Wait,
                    };
                    (self.at(InstallStage::Rebuild), saying_both_step(first, second, action))
                },
                _ => self.failed_at_document(event),
            },
            InstallStage::Rebuild => {
                let success = match event {
                    Event::Exited { success, .. } => success,
                    _ => false,
                };
                if success {
                    let text = concat3("Removing ", self.package.as_str(), " from profile...");
                    let action = Action::Run {
                        invocation: profile_list_invocation(),
                        mode: RunMode::Capture,
                    };
                    (self.at(InstallStage::ProfileList), saying_step(text, false, action))
                } else {
                    self.failed("Failed to rebuild system")
                }
            },
            InstallStage::ProfileList => match event {
                Event::Exited { success: _, code: _, output } => {
                    match find_package_id(output.as_str(), self.package.as_str()) {
                        Some(id) => {
                            let args: [&str; 3] = ["profile", "remove", id.as_str()];
                            let none: Vec<String> = Vec::new();
                            proof {
                                assert(strs_view(args@) =~= seq!["profile"@, "remove"@, id@]);
                                assert(texts_view(none@) =~= Seq::<Seq<char>>::empty());
                                assert(seq!["profile"@, "remove"@, id@] + Seq::<Seq<char>>::empty()
                                    =~= seq!["profile"@, "remove"@, id@]);
                            }
                            let invocation = run_command(
                                "nix",
                                args.as_slice(),
                                none.as_slice(),
                                &self.config,
                            );
                            proof {
                                assert(invocation@ == profile_remove_command(self@, id@));
                            }
                            (
                                self.at(InstallStage::ProfileRemove),
                                silent_step(Action::Run { invocation, mode: RunMode::Wait }),
                            )
                        },
                        None => self.done(),
                    }
                },
                _ => self.done(),
            },
            InstallStage::ProfileRemove => match event {
                Event::Exited { .. } => self.done(),
                _ => {
                    let first = Line {
                        text: "Warning: Failed to remove package from profile".to_owned(),
                        error: true,
                    };
                    let second = self.success_line();
                    (
                        self.at(InstallStage::Finished),
                        saying_both_step(first, second, Action::Exit { code: 0 }),
                    )
                },
            },
            InstallStage::Finished => self.failed(UNEXPECTED_REPLY),
        }
    }
}

/// Starts the installation of `package` on the system's own permanent
/// document.
pub fn install(package: &str, passthrough_args: &[String], config: &Config) -> (r: (
    InstallSession,
    Step,
))
    ensures
        (r.0@, r.1@) == install_opening(
            package@,
            texts_view(passthrough_args@),
            *config,
            NIXOS_CONFIG_PATH@,
        ),
{
    InstallSession::begin(package, passthrough_args, config, NIXOS_CONFIG_PATH)
}

} // verus!
