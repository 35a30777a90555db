//! Changes to the system configuration: made in the permanent document, or
//! staged in a temporary document that is applied later.
//!
//! A change is a package to add, a program or service to enable, or an option
//! to set. A permanent change is written into the permanent document. A
//! temporary change is written into the staging document, which is created
//! with a fixed skeleton when it is first needed. "Apply" hands the staging
//! document to the rebuild of the system; "show" prints it. The staging
//! document is never deleted here.
//!
//! Each of these is a [`SystemSession`]: see [`crate::session`].

use crate::cli::{SystemCommands, SystemCommandsView};
use crate::config::Config;
use crate::patcher::{
    add_option_to_config, add_package_to_config, option_inserted, package_inserted,
};
use crate::session::{
    concat2, concat3, err_line, lines_view, out_line, pairs_view, saying, saying_step, silent,
    silent_step, Action, ActionView, Event, EventView, Invocation, InvocationView, Line, RunMode,
    Step, StepView,
};
use crate::text::texts_view;
use vstd::prelude::*;

verus! {

/// Where the permanent document of the system lies.
pub const NIXOS_CONFIG_PATH: &'static str = "/etc/nixos/configuration.nix";

/// Where the staging document lies.
pub const TEMP_CONFIG_PATH: &'static str = "/etc/nixos/.nx-temp.nix";

/// What a new staging document holds.
pub const STAGING_SKELETON: &'static str =
    "# Temporary configuration changes\n{ config, pkgs, ... }:\n{\n}\n";

/// The reason that is named where a reply does not answer the action that
/// was asked for.
pub const UNEXPECTED_REPLY: &'static str = "unexpected reply to the pending action";

/// The two documents that changes go to.
#[derive(Debug, Clone, PartialEq, Eq)]
pub struct ConfigPaths {
    /// The permanent document. It is never created here.
    pub permanent: String,
    /// The staging document.
    pub staging: String,
}

/// [`ConfigPaths`] as the specifications see them.
pub struct ConfigPathsView {
    pub permanent: Seq<char>,
    pub staging: Seq<char>,
}

impl View for ConfigPaths {
    type V = ConfigPathsView;

    open spec fn view(&self) -> ConfigPathsView {
        ConfigPathsView { permanent: self.permanent@, staging: self.staging@ }
    }
}

/// The paths of the system's own documents.
pub open spec fn system_paths() -> ConfigPathsView {
    ConfigPathsView { permanent: NIXOS_CONFIG_PATH@, staging: TEMP_CONFIG_PATH@ }
}

/// The path of the permanent document of the system.
pub fn get_config_path() -> (path: String)
    ensures
        path@ == NIXOS_CONFIG_PATH@,
{
    NIXOS_CONFIG_PATH.to_owned()
}

/// The path of the staging document of the system.
pub fn get_temp_path() -> (path: String)
    ensures
        path@ == TEMP_CONFIG_PATH@,
{
    TEMP_CONFIG_PATH.to_owned()
}

impl ConfigPaths {
    /// The paths of the system's own documents.
    pub fn system() -> (paths: ConfigPaths)
        ensures
            paths@ == system_paths(),
    {
        ConfigPaths { permanent: get_config_path(), staging: get_temp_path() }
    }
}

/// One requested change to a configuration document.
#[derive(Debug, Clone, PartialEq, Eq)]
pub enum ChangeRequest {
    /// `name` is to be a member of the list of system packages.
    AddPackage { name: String },
    /// The program or service at `path` is to be enabled: the option
    /// `path.enable` is to be `true`.
    SetBooleanFlag { path: String },
    /// The option at `path` is to be `value`, which is an expression of the
    /// configuration language and is taken as it stands.
    SetOption { path: String, value: String },
}

/// A [`ChangeRequest`] as the specifications see it.
pub enum ChangeRequestView {
    AddPackage { name: Seq<char> },
    SetBooleanFlag { path: Seq<char> },
    SetOption { path: Seq<char>, value: Seq<char> },
}

impl View for ChangeRequest {
    type V = ChangeRequestView;

    open spec fn view(&self) -> ChangeRequestView {
        match self {
            ChangeRequest::AddPackage { name } => ChangeRequestView::AddPackage { name: name@ },
            ChangeRequest::SetBooleanFlag { path } => ChangeRequestView::SetBooleanFlag {
                path: path@,
            },
            ChangeRequest::SetOption { path, value } => ChangeRequestView::SetOption {
                path: path@,
                value: value@,
            },
        }
    }
}

/// The path of the option that a request sets; of a request for a package
/// nothing is said.
pub open spec fn option_path(request: ChangeRequestView) -> Seq<char> {
    match request {
        ChangeRequestView::AddPackage { name } => name,
        ChangeRequestView::SetBooleanFlag { path } => path + ".enable"@,
        ChangeRequestView::SetOption { path, value } => path,
    }
}

/// The value that a request sets its option to; of a request for a package
/// nothing is said.
pub open spec fn option_value(request: ChangeRequestView) -> Seq<char> {
    match request {
        ChangeRequestView::AddPackage { name } => name,
        ChangeRequestView::SetBooleanFlag { path } => "true"@,
        ChangeRequestView::SetOption { path, value } => value,
    }
}

/// The document with the requested change made.
pub open spec fn changed(document: Seq<char>, request: ChangeRequestView) -> Seq<char> {
    match request {
        ChangeRequestView::AddPackage { name } => package_inserted(document, name),
        _ => option_inserted(document, option_path(request), option_value(request)),
    }
}

/// What the user is told after a change was written.
pub open spec fn confirmation(request: ChangeRequestView, permanent: bool) -> Seq<char> {
    match request {
        ChangeRequestView::AddPackage { name } => if permanent {
            "Added "@ + name
                + " to system packages. Run 'sudo nixos-rebuild switch' to apply."@
        } else {
            "Added "@ + name
                + " to temporary configuration. Run 'nx sys apply' to apply changes."@
        },
        _ => "Set "@ + option_path(request) + " = "@ + option_value(request) + if permanent {
            ". Run 'sudo nixos-rebuild switch' to apply."@
        } else {
            " in temporary configuration. Run 'nx sys apply' to apply changes."@
        },
    }
}

/// The text of a configuration document with the requested change made.
///
/// A package is put into the list of system packages, an option before the
/// last closing brace; a request to enable `path` sets `path.enable` to
/// `true`.
pub fn modify_config_file(content: &str, request: &ChangeRequest) -> (r: String)
    ensures
        r@ == changed(content@, request@),
{
    match request {
        ChangeRequest::AddPackage { name } => add_package_to_config(content, name.as_str()),
        ChangeRequest::SetBooleanFlag { path } => {
            let option = concat2(path.as_str(), ".enable");
            add_option_to_config(content, option.as_str(), "true")
        },
        ChangeRequest::SetOption { path, value } => add_option_to_config(
            content,
            path.as_str(),
            value.as_str(),
        ),
    }
}

/// What the user is told after the requested change was written: that the
/// rebuild of the system applies a permanent change, or that a temporary one
/// waits to be applied.
pub fn confirmation_text(request: &ChangeRequest, permanent: bool) -> (r: String)
    ensures
        r@ == confirmation(request@, permanent),
{
    match request {
        ChangeRequest::AddPackage { name } => {
            if permanent {
                concat3(
                    "Added ",
                    name.as_str(),
                    " to system packages. Run 'sudo nixos-rebuild switch' to apply.",
                )
            } else {
                concat3(
                    "Added ",
                    name.as_str(),
                    " to temporary configuration. Run 'nx sys apply' to apply changes.",
                )
            }
        },
        ChangeRequest::SetBooleanFlag { path } => {
            let option = concat2(path.as_str(), ".enable");
            option_confirmation(option.as_str(), "true", permanent)
        },
        ChangeRequest::SetOption { path, value } => option_confirmation(
            path.as_str(),
            value.as_str(),
            permanent,
        ),
    }
}

fn option_confirmation(path: &str, value: &str, permanent: bool) -> (r: String)
    ensures
        r@ == "Set "@ + path@ + " = "@ + value@ + if permanent {
            ". Run 'sudo nixos-rebuild switch' to apply."@
        } else {
            " in temporary configuration. Run 'nx sys apply' to apply changes."@
        },
{
    let mut r = String::new();
    r.append("Set ");
    r.append(path);
    r.append(" = ");
    r.append(value);
    if permanent {
        r.append(". Run 'sudo nixos-rebuild switch' to apply.");
    } else {
        r.append(" in temporary configuration. Run 'nx sys apply' to apply changes.");
    }
    r
}

/// What the rebuild of the system is started with: for the system's own
/// document, or for the document at `config_override`.
pub open spec fn rebuild_command(config_override: Option<Seq<char>>) -> InvocationView {
    InvocationView {
        program: "sudo"@,
        args: match config_override {
            Some(path) => seq![
                "nixos-rebuild"@,
                "switch"@,
                "-I"@,
                "nixos-config="@ + path,
            ],
            None => seq!["nixos-rebuild"@, "switch"@],
        },
        env: Seq::empty(),
    }
}

/// The invocation of the rebuild of the system, which builds and activates a
/// configuration: the system's own where `config_override` is `None`, else
/// the document at that path.
pub fn rebuild_invocation(config_override: Option<&str>) -> (r: Invocation)
    ensures
        r@ == rebuild_command(
            match config_override {
                Some(path) => Some(path@),
                None => None,
            },
        ),
{
    let mut args: Vec<String> = Vec::new();
    args.push("nixos-rebuild".to_owned());
    args.push("switch".to_owned());
    match config_override {
        Some(path) => {
            args.push("-I".to_owned());
            args.push(concat2("nixos-config=", path));
            proof {
                assert(texts_view(args@) =~= seq![
                    "nixos-rebuild"@,
                    "switch"@,
                    "-I"@,
                    "nixos-config="@ + path@,
                ]);
            }
        },
        None => {
            proof {
                assert(texts_view(args@) =~= seq!["nixos-rebuild"@, "switch"@]);
            }
        },
    }
    let env: Vec<(String, String)> = Vec::new();
    proof {
        assert(pairs_view(env@) =~= Seq::<(Seq<char>, Seq<char>)>::empty());
    }
    Invocation { program: "sudo".to_owned(), args, env }
}

/// What a session does.
#[derive(Debug, Clone, PartialEq, Eq)]
pub enum Operation {
    /// Make a change: in the permanent document, or in the staging document.
    Change { request: ChangeRequest, permanent: bool },
    /// Hand the staging document to the rebuild of the system.
    Apply,
    /// Print the staging document.
    Show,
}

/// An [`Operation`] as the specifications see it.
pub enum OperationView {
    Change { request: ChangeRequestView, permanent: bool },
    Apply,
    Show,
}

impl View for Operation {
    type V = OperationView;

    open spec fn view(&self) -> OperationView {
        match self {
            Operation::Change { request, permanent } => OperationView::Change {
                request: request@,
                permanent: *permanent,
            },
            Operation::Apply => OperationView::Apply,
            Operation::Show => OperationView::Show,
        }
    }
}

/// What a session waits for.
#[derive(Debug, Clone, Copy, PartialEq, Eq, Structural)]
pub enum Stage {
    /// Whether the staging document exists.
    StagingProbe,
    /// The writing of the skeleton into the new staging document.
    StagingCreation,
    /// The text of the document.
    DocumentRead,
    /// The writing of the changed document.
    DocumentWrite,
    /// The end of the rebuild.
    Rebuild,
    /// Nothing: the session has asked for the exit.
    Finished,
}

/// A command on the system configuration, under way.
#[derive(Debug, Clone, PartialEq, Eq)]
pub struct SystemSession {
    pub operation: Operation,
    pub paths: ConfigPaths,
    pub stage: Stage,
}

/// A [`SystemSession`] as the specifications see it.
pub struct SystemSessionView {
    pub operation: OperationView,
    pub paths: ConfigPathsView,
    pub stage: Stage,
}

impl View for SystemSession {
    type V = SystemSessionView;

    open spec fn view(&self) -> SystemSessionView {
        SystemSessionView { operation: self.operation@, paths: self.paths@, stage: self.stage }
    }
}

/// Whether the session changes the permanent document.
pub open spec fn is_permanent(operation: OperationView) -> bool {
    operation matches OperationView::Change { permanent, .. } && permanent
}

/// The document that the session reads or writes.
pub open spec fn target_path(operation: OperationView, paths: ConfigPathsView) -> Seq<char> {
    if is_permanent(operation) {
        paths.permanent
    } else {
        paths.staging
    }
}

/// The session at another stage.
pub open spec fn at_stage(session: SystemSessionView, stage: Stage) -> SystemSessionView {
    SystemSessionView { stage, ..session }
}

/// The session ends with success and one line on standard output.
pub open spec fn succeed(session: SystemSessionView, text: Seq<char>) -> (
    SystemSessionView,
    StepView,
) {
    (at_stage(session, Stage::Finished), saying(out_line(text), ActionView::Exit { code: 0 }))
}

/// The session ends with exit code 1 and one line on standard error.
pub open spec fn fail(session: SystemSessionView, text: Seq<char>) -> (
    SystemSessionView,
    StepView,
) {
    (at_stage(session, Stage::Finished), saying(err_line(text), ActionView::Exit { code: 1 }))
}

/// The session goes on to another stage with an action, without a word.
pub open spec fn proceed(session: SystemSessionView, stage: Stage, action: ActionView) -> (
    SystemSessionView,
    StepView,
) {
    (at_stage(session, stage), silent(action))
}

/// Why an action failed: the reason that the event gives, or, of an event
/// that does not answer the action, that it does not.
pub open spec fn failure_reason(event: EventView) -> Seq<char> {
    match event {
        EventView::Failed { reason } => reason,
        _ => UNEXPECTED_REPLY@,
    }
}

/// The first step of an operation, and the session that waits for its answer.
///
/// A change to the permanent document starts by reading it. Everything else
/// starts by asking whether the staging document exists.
pub open spec fn opening(operation: OperationView, paths: ConfigPathsView) -> (
    SystemSessionView,
    StepView,
) {
    if is_permanent(operation) {
        (
            SystemSessionView { operation, paths, stage: Stage::DocumentRead },
            silent(ActionView::Read { path: paths.permanent }),
        )
    } else {
        (
            SystemSessionView { operation, paths, stage: Stage::StagingProbe },
            silent(ActionView::Probe { path: paths.staging }),
        )
    }
}

/// What a change is said to have failed at.
pub open spec fn change_failure(permanent: bool, reason: Seq<char>) -> Seq<char> {
    if permanent {
        "Failed to modify configuration: "@ + reason
    } else {
        "Failed to modify temporary configuration: "@ + reason
    }
}

/// The step that follows the answer to whether the staging document exists.
pub open spec fn after_probe(session: SystemSessionView, event: EventView) -> (
    SystemSessionView,
    StepView,
) {
    let staging = session.paths.staging;
    match session.operation {
        OperationView::Change { .. } => match event {
            EventView::Probed { exists } => if exists {
                proceed(session, Stage::DocumentRead, ActionView::Read { path: staging })
            } else {
                proceed(
                    session,
                    Stage::StagingCreation,
                    ActionView::Write { path: staging, content: STAGING_SKELETON@ },
                )
            },
            _ => fail(session, "Failed to create temporary config: "@ + failure_reason(event)),
        },
        OperationView::Apply => match event {
            EventView::Probed { exists } => if exists {
                proceed(
                    session,
                    Stage::Rebuild,
                    ActionView::Run {
                        invocation: rebuild_command(Some(staging)),
                        mode: RunMode::Wait,
                    },
                )
            } else {
                succeed(session, "No temporary changes to apply."@)
            },
            _ => fail(session, "Failed to run nixos-rebuild: "@ + failure_reason(event)),
        },
        OperationView::Show => match event {
            EventView::Probed { exists } => if exists {
                proceed(session, Stage::DocumentRead, ActionView::Read { path: staging })
            } else {
                succeed(session, "No pending changes."@)
            },
            _ => fail(
                session,
                "Failed to read temporary configuration: "@ + failure_reason(event),
            ),
        },
    }
}

/// The step that follows the answer to the reading of the document.
pub open spec fn after_read(session: SystemSessionView, event: EventView) -> (
    SystemSessionView,
    StepView,
) {
    let target = target_path(session.operation, session.paths);
    match session.operation {
        OperationView::Change { request, permanent } => match event {
            EventView::Content { text } => proceed(
                session,
                Stage::DocumentWrite,
                ActionView::Write { path: target, content: changed(text, request) },
            ),
            _ => fail(session, change_failure(permanent, failure_reason(event))),
        },
        OperationView::Show => match event {
            EventView::Content { text } => (
                at_stage(session, Stage::Finished),
                StepView {
                    output: seq![
                        out_line("Pending changes in temporary configuration:"@),
                        out_line(text),
                    ],
                    action: ActionView::Exit { code: 0 },
                },
            ),
            _ => fail(
                session,
                "Failed to read temporary configuration: "@ + failure_reason(event),
            ),
        },
        OperationView::Apply => fail(session, UNEXPECTED_REPLY@),
    }
}

/// The step that follows an event.
///
/// - After the question whether the staging document exists: a change goes
///   on to read the document, and first has the skeleton written where the
///   document does not exist; "apply" starts the rebuild with the staging
///   document, and ends with "nothing to apply" where there is none; "show"
///   reads the document, and ends with "no pending changes" where there is
///   none.
/// - After the skeleton was written, the change reads the document.
/// - After the document was read, a change has the changed text written to
///   the same path, and "show" prints the text as it is and ends.
/// - After the changed text was written, the change ends with its
///   confirmation.
/// - After the rebuild, "apply" ends with success if the rebuild did.
/// - An event that reports a failure, or that does not answer the action that
///   was asked for, ends the session with exit code 1 and a line on standard
///   error; nothing is written after a failure.
pub open spec fn next(session: SystemSessionView, event: EventView) -> (
    SystemSessionView,
    StepView,
) {
    match session.stage {
        Stage::StagingProbe => after_probe(session, event),
        Stage::StagingCreation => match event {
            EventView::Done => proceed(
                session,
                Stage::DocumentRead,
                ActionView::Read { path: session.paths.staging },
            ),
            _ => fail(session, "Failed to create temporary config: "@ + failure_reason(event)),
        },
        Stage::DocumentRead => after_read(session, event),
        Stage::DocumentWrite => match session.operation {
            OperationView::Change { request, permanent } => match event {
                EventView::Done => succeed(session, confirmation(request, permanent)),
                _ => fail(session, change_failure(permanent, failure_reason(event))),
            },
            _ => fail(session, UNEXPECTED_REPLY@),
        },
        Stage::Rebuild => match event {
            EventView::Exited { success, code, output } => if success {
                succeed(session, "Successfully applied temporary changes."@)
            } else {
                fail(session, "Failed to apply changes."@)
            },
            _ => fail(session, "Failed to run nixos-rebuild: "@ + failure_reason(event)),
        },
        Stage::Finished => fail(session, UNEXPECTED_REPLY@),
    }
}

/// The operation that a command of the command line asks for.
pub open spec fn operation_of(command: SystemCommandsView) -> OperationView {
    match command {
        SystemCommandsView::Package { package, permanent } => OperationView::Change {
            request: ChangeRequestView::AddPackage { name: package },
            permanent,
        },
        SystemCommandsView::Enable { program, permanent } => OperationView::Change {
            request: ChangeRequestView::SetBooleanFlag { path: program },
            permanent,
        },
        SystemCommandsView::SetOption { path, value, permanent } => OperationView::Change {
            request: ChangeRequestView::SetOption { path, value },
            permanent,
        },
        SystemCommandsView::Apply => OperationView::Apply,
        SystemCommandsView::Show => OperationView::Show,
    }
}

fn finish(session: SystemSession, text: String, error: bool) -> (r: (SystemSession, Step))
    ensures
        error ==> (r.0@, r.1@) == fail(session@, text@),
        !error ==> (r.0@, r.1@) == succeed(session@, text@),
{
    let code: i32 = if error {
        1
    } else {
        0
    };
    (
        SystemSession { operation: session.operation, paths: session.paths, stage: Stage::Finished },
        saying_step(text, error, Action::Exit { code }),
    )
}

fn go_on(session: SystemSession, stage: Stage, action: Action) -> (r: (SystemSession, Step))
    ensures
        (r.0@, r.1@) == proceed(session@, stage, action@),
{
    (
        SystemSession { operation: session.operation, paths: session.paths, stage },
        silent_step(action),
    )
}

fn reason_of(event: Event) -> (reason: String)
    ensures
        reason@ == failure_reason(event@),
{
    match event {
        Event::Failed { reason } => reason,
        _ => UNEXPECTED_REPLY.to_owned(),
    }
}

impl SystemSession {
    /// Starts an operation on the documents at `paths`.
    pub fn begin(operation: Operation, paths: ConfigPaths) -> (r: (SystemSession, Step))
        ensures
            (r.0@, r.1@) == opening(operation@, paths@),
    {
        let permanent = match &operation {
            Operation::Change { permanent, .. } => *permanent,
            _ => false,
        };
        if permanent {
            let action = Action::Read { path: paths.permanent.clone() };
            (SystemSession { operation, paths, stage: Stage::DocumentRead }, silent_step(action))
        } else {
            let action = Action::Probe { path: paths.staging.clone() };
            (SystemSession { operation, paths, stage: Stage::StagingProbe }, silent_step(action))
        }
    }

    /// Whether the session has asked for the exit.
    pub fn is_finished(&self) -> (b: bool)
        ensures
            b == (self.stage == Stage::Finished),
    {
        match self.stage {
            Stage::Finished => true,
            _ => false,
        }
    }

    /// Takes the answer to the action of the last step and gives the next
    /// step: see [`next`].
    pub fn advance(self, event: Event) -> (r: (SystemSession, Step))
        ensures
            (r.0@, r.1@) == next(self@, event@),
    {
        match self.stage {
            Stage::StagingProbe => self.advance_after_probe(event),
            Stage::StagingCreation => match event {
                Event::Done => {
                    let action = Action::Read { path: self.paths.staging.clone() };
                    go_on(self, Stage::DocumentRead, action)
                },
                _ => {
                    let text = concat2(
                        "Failed to create temporary config: ",
                        reason_of(event).as_str(),
                    );
                    finish(self, text, true)
                },
            },
            Stage::DocumentRead => self.advance_after_read(event),
            Stage::DocumentWrite => match &self.operation {
                Operation::Change { request, permanent } => match event {
                    Event::Done => {
                        let text = confirmation_text(request, *permanent);
                        finish(self, text, false)
                    },
                    _ => {
                        let text = change_failure_text(*permanent, reason_of(event).as_str());
                        finish(self, text, true)
                    },
                },
                _ => finish(self, UNEXPECTED_REPLY.to_owned(), true),
            },
            Stage::Rebuild => match event {
                Event::Exited { success, code: _, output: _ } => {
                    if success {
                        finish(self, "Successfully applied temporary changes.".to_owned(), false)
                    } else {
                        finish(self, "Failed to apply changes.".to_owned(), true)
                    }
                },
                _ => {
                    let text = concat2("Failed to run nixos-rebuild: ", reason_of(event).as_str());
                    finish(self, text, true)
                },
            },
            Stage::Finished => finish(self, UNEXPECTED_REPLY.to_owned(), true),
        }
    }

    fn advance_after_probe(self, event: Event) -> (r: (SystemSession, Step))
        ensures
            (r.0@, r.1@) == after_probe(self@, event@),
    {
        match &self.operation {
            Operation::Change { .. } => match event {
                Event::Probed { exists } => {
                    let path = self.paths.staging.clone();
                    if exists {
                        go_on(self, Stage::DocumentRead, Action::Read { path })
                    } else {
                        let content = ensure_temp_config();
                        go_on(self, Stage::StagingCreation, Action::Write { path, content })
                    }
                },
                _ => {
                    let text = concat2(
                        "Failed to create temporary config: ",
                        reason_of(event).as_str(),
                    );
                    finish(self, text, true)
                },
            },
            Operation::Apply => match event {
                Event::Probed { exists } => {
                    if exists {
                        let invocation = rebuild_invocation(Some(self.paths.staging.as_str()));
                        go_on(
                            self,
                            Stage::Rebuild,
                            Action::Run { invocation, mode: RunMode::Wait },
                        )
                    } else {
                        finish(self, "No temporary changes to apply.".to_owned(), false)
                    }
                },
                _ => {
                    let text = concat2("Failed to run nixos-rebuild: ", reason_of(event).as_str());
                    finish(self, text, true)
                },
            },
            Operation::Show => match event {
                Event::Probed { exists } => {
                    if exists {
                        let path = self.paths.staging.clone();
                        go_on(self, Stage::DocumentRead, Action::Read { path })
                    } else {
                        finish(self, "No pending changes.".to_owned(), false)
                    }
                },
                _ => {
                    let text = concat2(
                        "Failed to read temporary configuration: ",
                        reason_of(event).as_str(),
                    );
                    finish(self, text, true)
                },
            },
        }
    }

    fn advance_after_read(self, event: Event) -> (r: (SystemSession, Step))
        ensures
            (r.0@, r.1@) == after_read(self@, event@),
    {
        match &self.operation {
            Operation::Change { request, permanent } => match event {
                Event::Content { text } => {
                    let content = modify_config_file(text.as_str(), request);
                    let path = if *permanent {
                        self.paths.permanent.clone()
                    } else {
                        self.paths.staging.clone()
                    };
                    go_on(self, Stage::DocumentWrite, Action::Write { path, content })
                },
                _ => {
                    let text = change_failure_text(*permanent, reason_of(event).as_str());
                    finish(self, text, true)
                },
            },
            Operation::Show => match event {
                Event::Content { text } => {
                    let mut output: Vec<Line> = Vec::new();
                    output.push(
                        Line {
                            text: "Pending changes in temporary configuration:".to_owned(),
                            error: false,
                        },
                    );
                    output.push(Line { text, error: false });
                    proof {
                        assert(lines_view(output@) =~= seq![
                            out_line("Pending changes in temporary configuration:"@),
                            out_line(text@),
                        ]);
                    }
                    (
                        SystemSession {
                            operation: self.operation,
                            paths: self.paths,
                            stage: Stage::Finished,
                        },
                        Step { output, action: Action::Exit { code: 0 } },
                    )
                },
                _ => {
                    let text = concat2(
                        "Failed to read temporary configuration: ",
                        reason_of(event).as_str(),
                    );
                    finish(self, text, true)
                },
            },
            Operation::Apply => finish(self, UNEXPECTED_REPLY.to_owned(), true),
        }
    }
}

fn change_failure_text(permanent: bool, reason: &str) -> (r: String)
    ensures
        r@ == change_failure(permanent, reason@),
{
    if permanent {
        concat2("Failed to modify configuration: ", reason)
    } else {
        concat2("Failed to modify temporary configuration: ", reason)
    }
}

/// What is written into the staging document when it is created.
pub fn ensure_temp_config() -> (content: String)
    ensures
        content@ == STAGING_SKELETON@,
{
    STAGING_SKELETON.to_owned()
}

/// The operation that a command of the command line asks for.
pub fn operation_for(command: SystemCommands) -> (operation: Operation)
    ensures
        operation@ == operation_of(command@),
{
    match command {
        SystemCommands::Package { package, permanent } => Operation::Change {
            request: ChangeRequest::AddPackage { name: package },
            permanent,
        },
        SystemCommands::Enable { program, permanent } => Operation::Change {
            request: ChangeRequest::SetBooleanFlag { path: program },
            permanent,
        },
        SystemCommands::SetOption { path, value, permanent } => Operation::Change {
            request: ChangeRequest::SetOption { path, value },
            permanent,
        },
        SystemCommands::Apply => Operation::Apply,
        SystemCommands::Show => Operation::Show,
    }
}

/// Starts a command on the system configuration, on the system's own
/// documents. The further arguments of the command line and the settings play
/// no part in it.
pub fn execute(command: SystemCommands, passthrough_args: &[String], config: &Config) -> (r: (
    SystemSession,
    Step,
))
    ensures
        (r.0@, r.1@) == opening(operation_of(command@), system_paths()),
{
    SystemSession::begin(operation_for(command), ConfigPaths::system())
}

} // verus!
