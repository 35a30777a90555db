use std::collections::{HashMap, HashSet};

use nx_wrapper::cli::SystemCommands;
use nx_wrapper::config::Config;
use nx_wrapper::session::{Action, Event, Invocation, Line, RunMode, Step};
use nx_wrapper::commands::system::{
    confirmation_text, ensure_temp_config, execute, get_config_path, get_temp_path,
    modify_config_file, rebuild_invocation, ChangeRequest, ConfigPaths, Operation, Stage,
    SystemSession, STAGING_SKELETON,
};

/// A machine in memory that answers the actions of a session.
struct Machine {
    files: HashMap<String, String>,
    read_only: HashSet<String>,
    rebuild_succeeds: bool,
    rebuild_starts: bool,
    commands: Vec<(Invocation, RunMode)>,
    printed: Vec<Line>,
    actions: usize,
}

impl Machine {
    fn new() -> Machine {
        Machine {
            files: HashMap::new(),
            read_only: HashSet::new(),
            rebuild_succeeds: true,
            rebuild_starts: true,
            commands: Vec::new(),
            printed: Vec::new(),
            actions: 0,
        }
    }

    fn with_file(mut self, path: &str, text: &str) -> Machine {
        self.files.insert(path.to_string(), text.to_string());
        self
    }

    fn answer(&mut self, action: Action) -> Event {
        self.actions += 1;
        match action {
            Action::Probe { path } => Event::Probed { exists: self.files.contains_key(&path) },
            Action::Read { path } => match self.files.get(&path) {
                Some(text) => Event::Content { text: text.clone() },
                None => Event::Failed { reason: "No such file or directory (os error 2)".to_string() },
            },
            Action::Write { path, content } => {
                if self.read_only.contains(&path) {
                    Event::Failed { reason: "Permission denied (os error 13)".to_string() }
                } else {
                    self.files.insert(path, content);
                    Event::Done
                }
            }
            Action::Run { invocation, mode } => {
                self.commands.push((invocation, mode));
                if !self.rebuild_starts {
                    Event::Failed { reason: "No such file or directory (os error 2)".to_string() }
                } else if self.rebuild_succeeds {
                    Event::Exited { success: true, code: Some(0), output: String::new() }
                } else {
                    Event::Exited { success: false, code: Some(3), output: String::new() }
                }
            }
            Action::Exit { .. } => unreachable!(),
        }
    }

    fn run(&mut self, started: (SystemSession, Step)) -> i32 {
        let (mut session, mut step) = started;
        loop {
            self.printed.extend(step.output);
            if let Action::Exit { code } = step.action {
                assert!(session.is_finished());
                return code;
            }
            assert!(!session.is_finished());
            let event = self.answer(step.action);
            let (waiting, following) = session.advance(event);
            session = waiting;
            step = following;
        }
    }
}

fn paths() -> ConfigPaths {
    ConfigPaths { permanent: "/t/configuration.nix".to_string(), staging: "/t/.nx-temp.nix".to_string() }
}

fn change(request: ChangeRequest, permanent: bool) -> (SystemSession, Step) {
    SystemSession::begin(Operation::Change { request, permanent }, paths())
}

fn out(text: &str) -> Line {
    Line { text: text.to_string(), error: false }
}

fn err(text: &str) -> Line {
    Line { text: text.to_string(), error: true }
}

fn host_name() -> ChangeRequest {
    ChangeRequest::SetOption { path: "networking.hostName".to_string(), value: "\"myhost\"".to_string() }
}

#[test]
fn system_paths_are_fixed() {
    assert_eq!(get_config_path(), "/etc/nixos/configuration.nix");
    assert_eq!(get_temp_path(), "/etc/nixos/.nx-temp.nix");
    let system = ConfigPaths::system();
    assert_eq!(system.permanent, "/etc/nixos/configuration.nix");
    assert_eq!(system.staging, "/etc/nixos/.nx-temp.nix");
}

#[test]
fn skeleton_is_fixed() {
    assert_eq!(ensure_temp_config(), "# Temporary configuration changes\n{ config, pkgs, ... }:\n{\n}\n");
    assert_eq!(ensure_temp_config(), STAGING_SKELETON);
}

#[test]
fn scenario_option_into_absent_staging() {
    let mut machine = Machine::new();
    let code = machine.run(change(host_name(), false));
    assert_eq!(code, 0);
    assert_eq!(
        machine.files["/t/.nx-temp.nix"],
        "# Temporary configuration changes\n{ config, pkgs, ... }:\n{\n  networking.hostName = \"myhost\";\n}\n"
    );
    let text = &machine.files["/t/.nx-temp.nix"];
    assert!(text.find("networking.hostName = \"myhost\";").unwrap() < text.rfind('}').unwrap());
    assert_eq!(machine.files.len(), 1);
    assert!(machine.commands.is_empty());
    assert_eq!(
        machine.printed,
        vec![out("Set networking.hostName = \"myhost\" in temporary configuration. Run 'nx sys apply' to apply changes.")]
    );
}

#[test]
fn staging_is_created_with_the_skeleton_first() {
    let (session, step) = change(host_name(), false);
    assert_eq!(step, Step { output: vec![], action: Action::Probe { path: "/t/.nx-temp.nix".to_string() } });
    assert_eq!(session.stage, Stage::StagingProbe);
    let (session, step) = session.advance(Event::Probed { exists: false });
    assert_eq!(
        step.action,
        Action::Write { path: "/t/.nx-temp.nix".to_string(), content: STAGING_SKELETON.to_string() }
    );
    assert_eq!(session.stage, Stage::StagingCreation);
    let (session, step) = session.advance(Event::Done);
    assert_eq!(step.action, Action::Read { path: "/t/.nx-temp.nix".to_string() });
    assert_eq!(session.stage, Stage::DocumentRead);
}

#[test]
fn existing_staging_is_not_created_again() {
    let (session, _) = change(host_name(), false);
    let (session, step) = session.advance(Event::Probed { exists: true });
    assert_eq!(step, Step { output: vec![], action: Action::Read { path: "/t/.nx-temp.nix".to_string() } });
    assert_eq!(session.stage, Stage::DocumentRead);
}

#[test]
fn ensuring_twice_is_ensuring_once() {
    // The staging document that a first change created is kept by the second.
    let mut machine = Machine::new();
    assert_eq!(machine.run(change(host_name(), false)), 0);
    let after_first = machine.files["/t/.nx-temp.nix"].clone();
    let enable = ChangeRequest::SetBooleanFlag { path: "programs.fish".to_string() };
    assert_eq!(machine.run(change(enable.clone(), false)), 0);
    assert_eq!(
        machine.files["/t/.nx-temp.nix"],
        modify_config_file(&after_first, &enable)
    );
    assert_eq!(
        machine.files["/t/.nx-temp.nix"],
        "# Temporary configuration changes\n{ config, pkgs, ... }:\n{\n  networking.hostName = \"myhost\";\n  programs.fish.enable = true;\n}\n"
    );
    // A change to a staging document that holds the skeleton already gives
    // what a change to an absent one gives.
    let mut fresh = Machine::new();
    let mut ensured = Machine::new().with_file("/t/.nx-temp.nix", STAGING_SKELETON);
    assert_eq!(fresh.run(change(host_name(), false)), ensured.run(change(host_name(), false)));
    assert_eq!(fresh.files, ensured.files);
    assert_eq!(fresh.printed, ensured.printed);
}

#[test]
fn scenario_package_into_permanent_document() {
    let mut machine = Machine::new().with_file("/t/configuration.nix", "{ config, pkgs, ... }:\n{\n}\n");
    let code = machine.run(change(ChangeRequest::AddPackage { name: "git".to_string() }, true));
    assert_eq!(code, 0);
    let text = &machine.files["/t/configuration.nix"];
    assert_eq!(
        text,
        "{ config, pkgs, ... }:\n{\n\n  environment.systemPackages = with pkgs; [\n    git\n  ];\n}"
    );
    assert!(text.contains("environment.systemPackages = with pkgs; [\n    git\n  ];"));
    assert!(text.ends_with("];\n}"));
    assert!(!machine.files.contains_key("/t/.nx-temp.nix"));
    assert_eq!(
        machine.printed,
        vec![out("Added git to system packages. Run 'sudo nixos-rebuild switch' to apply.")]
    );
    assert_eq!(machine.actions, 2);
}

#[test]
fn permanent_document_is_never_created() {
    let mut machine = Machine::new();
    let code = machine.run(change(ChangeRequest::AddPackage { name: "git".to_string() }, true));
    assert_eq!(code, 1);
    assert!(machine.files.is_empty());
    assert_eq!(
        machine.printed,
        vec![err("Failed to modify configuration: No such file or directory (os error 2)")]
    );
    assert_eq!(machine.actions, 1);
}

#[test]
fn failed_write_of_the_permanent_document() {
    let mut machine = Machine::new().with_file("/t/configuration.nix", "{\n}\n");
    machine.read_only.insert("/t/configuration.nix".to_string());
    let code = machine.run(change(host_name(), true));
    assert_eq!(code, 1);
    assert_eq!(machine.files["/t/configuration.nix"], "{\n}\n");
    assert_eq!(
        machine.printed,
        vec![err("Failed to modify configuration: Permission denied (os error 13)")]
    );
}

#[test]
fn failed_creation_of_the_staging_document() {
    let mut machine = Machine::new();
    machine.read_only.insert("/t/.nx-temp.nix".to_string());
    let code = machine.run(change(host_name(), false));
    assert_eq!(code, 1);
    assert!(machine.files.is_empty());
    assert_eq!(
        machine.printed,
        vec![err("Failed to create temporary config: Permission denied (os error 13)")]
    );
    assert_eq!(machine.actions, 2);
}

#[test]
fn failed_write_of_the_staging_document() {
    let mut machine = Machine::new().with_file("/t/.nx-temp.nix", STAGING_SKELETON);
    machine.read_only.insert("/t/.nx-temp.nix".to_string());
    let code = machine.run(change(host_name(), false));
    assert_eq!(code, 1);
    assert_eq!(machine.files["/t/.nx-temp.nix"], STAGING_SKELETON);
    assert_eq!(
        machine.printed,
        vec![err("Failed to modify temporary configuration: Permission denied (os error 13)")]
    );
}

#[test]
fn failed_read_of_the_staging_document() {
    let (session, _) = change(host_name(), false);
    let (session, _) = session.advance(Event::Probed { exists: true });
    let (session, step) = session.advance(Event::Failed { reason: "Permission denied (os error 13)".to_string() });
    assert_eq!(
        step,
        Step {
            output: vec![err("Failed to modify temporary configuration: Permission denied (os error 13)")],
            action: Action::Exit { code: 1 },
        }
    );
    assert!(session.is_finished());
}

#[test]
fn enable_sets_the_enable_option_to_true() {
    let enable = ChangeRequest::SetBooleanFlag { path: "services.docker".to_string() };
    assert_eq!(modify_config_file("{\n}\n", &enable), "{\n  services.docker.enable = true;\n}\n");
    let same = ChangeRequest::SetOption { path: "services.docker.enable".to_string(), value: "true".to_string() };
    assert_eq!(modify_config_file("{\n}\n", &enable), modify_config_file("{\n}\n", &same));
    assert_eq!(
        confirmation_text(&enable, true),
        "Set services.docker.enable = true. Run 'sudo nixos-rebuild switch' to apply."
    );
    assert_eq!(
        confirmation_text(&enable, false),
        "Set services.docker.enable = true in temporary configuration. Run 'nx sys apply' to apply changes."
    );
}

#[test]
fn confirmations_tell_permanent_from_temporary() {
    let package = ChangeRequest::AddPackage { name: "git".to_string() };
    assert_eq!(
        confirmation_text(&package, true),
        "Added git to system packages. Run 'sudo nixos-rebuild switch' to apply."
    );
    assert_eq!(
        confirmation_text(&package, false),
        "Added git to temporary configuration. Run 'nx sys apply' to apply changes."
    );
    assert_eq!(
        confirmation_text(&host_name(), true),
        "Set networking.hostName = \"myhost\". Run 'sudo nixos-rebuild switch' to apply."
    );
}

#[test]
fn temporary_package_goes_to_the_staging_document() {
    let mut machine = Machine::new().with_file("/t/configuration.nix", "{\n}\n");
    let code = machine.run(change(ChangeRequest::AddPackage { name: "git".to_string() }, false));
    assert_eq!(code, 0);
    assert_eq!(machine.files["/t/configuration.nix"], "{\n}\n");
    assert_eq!(
        machine.files["/t/.nx-temp.nix"],
        "# Temporary configuration changes\n{ config, pkgs, ... }:\n{\n\n  environment.systemPackages = with pkgs; [\n    git\n  ];\n}"
    );
    assert_eq!(
        machine.printed,
        vec![out("Added git to temporary configuration. Run 'nx sys apply' to apply changes.")]
    );
}

#[test]
fn apply_without_staging_runs_nothing() {
    let mut machine = Machine::new().with_file("/t/configuration.nix", "{\n}\n");
    let code = machine.run(SystemSession::begin(Operation::Apply, paths()));
    assert_eq!(code, 0);
    assert!(machine.commands.is_empty());
    assert_eq!(machine.printed, vec![out("No temporary changes to apply.")]);
    assert_eq!(machine.files.len(), 1);
    assert_eq!(machine.actions, 1);
}

#[test]
fn apply_with_staging_runs_the_rebuild_once() {
    let mut machine = Machine::new().with_file("/t/.nx-temp.nix", STAGING_SKELETON);
    let code = machine.run(SystemSession::begin(Operation::Apply, paths()));
    assert_eq!(code, 0);
    let rebuild = Invocation {
        program: "sudo".to_string(),
        args: vec![
            "nixos-rebuild".to_string(),
            "switch".to_string(),
            "-I".to_string(),
            "nixos-config=/t/.nx-temp.nix".to_string(),
        ],
        env: vec![],
    };
    assert_eq!(machine.commands, vec![(rebuild, RunMode::Wait)]);
    assert_eq!(machine.printed, vec![out("Successfully applied temporary changes.")]);
    // The staging document stays, and a second "apply" applies it again.
    assert_eq!(machine.files["/t/.nx-temp.nix"], STAGING_SKELETON);
    assert_eq!(machine.run(SystemSession::begin(Operation::Apply, paths())), 0);
    assert_eq!(machine.commands.len(), 2);
    assert_eq!(machine.commands[0], machine.commands[1]);
}

#[test]
fn apply_reports_a_failed_rebuild() {
    let mut machine = Machine::new().with_file("/t/.nx-temp.nix", STAGING_SKELETON);
    machine.rebuild_succeeds = false;
    let code = machine.run(SystemSession::begin(Operation::Apply, paths()));
    assert_eq!(code, 1);
    assert_eq!(machine.printed, vec![err("Failed to apply changes.")]);
    assert_eq!(machine.commands.len(), 1);
    assert_eq!(machine.files["/t/.nx-temp.nix"], STAGING_SKELETON);
}

#[test]
fn apply_reports_a_rebuild_that_did_not_start() {
    let mut machine = Machine::new().with_file("/t/.nx-temp.nix", STAGING_SKELETON);
    machine.rebuild_starts = false;
    let code = machine.run(SystemSession::begin(Operation::Apply, paths()));
    assert_eq!(code, 1);
    assert_eq!(
        machine.printed,
        vec![err("Failed to run nixos-rebuild: No such file or directory (os error 2)")]
    );
}

#[test]
fn rebuild_has_two_forms() {
    let own = rebuild_invocation(None);
    assert_eq!(own.program, "sudo");
    assert_eq!(own.args, vec!["nixos-rebuild".to_string(), "switch".to_string()]);
    assert!(own.env.is_empty());
    let other = rebuild_invocation(Some("/tmp/x.nix"));
    assert_eq!(
        other.args,
        vec![
            "nixos-rebuild".to_string(),
            "switch".to_string(),
            "-I".to_string(),
            "nixos-config=/tmp/x.nix".to_string()
        ]
    );
}

#[test]
fn scenario_show_prints_the_staging_document() {
    let text = "# Temporary configuration changes\n{ config, pkgs, ... }:\n{\n  a.enable = true;\n  b = \"c\";\n}\n";
    let mut machine = Machine::new().with_file("/t/.nx-temp.nix", text);
    let code = machine.run(SystemSession::begin(Operation::Show, paths()));
    assert_eq!(code, 0);
    assert_eq!(
        machine.printed,
        vec![out("Pending changes in temporary configuration:"), out(text)]
    );
    assert_eq!(machine.files["/t/.nx-temp.nix"], text);
    assert!(machine.commands.is_empty());
}

#[test]
fn show_after_two_changes() {
    let mut machine = Machine::new();
    machine.run(change(ChangeRequest::SetBooleanFlag { path: "programs.fish".to_string() }, false));
    machine.run(change(host_name(), false));
    machine.printed.clear();
    assert_eq!(machine.run(SystemSession::begin(Operation::Show, paths())), 0);
    assert_eq!(
        machine.printed[1].text,
        "# Temporary configuration changes\n{ config, pkgs, ... }:\n{\n  programs.fish.enable = true;\n  networking.hostName = \"myhost\";\n}\n"
    );
}

#[test]
fn show_without_staging() {
    let mut machine = Machine::new();
    let code = machine.run(SystemSession::begin(Operation::Show, paths()));
    assert_eq!(code, 0);
    assert_eq!(machine.printed, vec![out("No pending changes.")]);
    assert!(machine.files.is_empty());
}

#[test]
fn show_reports_a_failed_read() {
    let (session, _) = SystemSession::begin(Operation::Show, paths());
    let (session, _) = session.advance(Event::Probed { exists: true });
    let (_, step) = session.advance(Event::Failed { reason: "Permission denied (os error 13)".to_string() });
    assert_eq!(
        step,
        Step {
            output: vec![err("Failed to read temporary configuration: Permission denied (os error 13)")],
            action: Action::Exit { code: 1 },
        }
    );
}

#[test]
fn reply_that_does_not_answer_ends_the_session() {
    let (session, _) = change(host_name(), true);
    let (session, step) = session.advance(Event::Probed { exists: true });
    assert_eq!(
        step,
        Step {
            output: vec![err("Failed to modify configuration: unexpected reply to the pending action")],
            action: Action::Exit { code: 1 },
        }
    );
    let (_, step) = session.advance(Event::Done);
    assert_eq!(
        step,
        Step { output: vec![err("unexpected reply to the pending action")], action: Action::Exit { code: 1 } }
    );
}

#[test]
fn execute_starts_on_the_documents_of_the_system() {
    let config = Config::default();
    assert!(!config.allow_unfree);
    let (session, step) = execute(
        SystemCommands::Package { package: "git".to_string(), permanent: true },
        &[],
        &config,
    );
    assert_eq!(step.action, Action::Read { path: "/etc/nixos/configuration.nix".to_string() });
    assert_eq!(
        session.operation,
        Operation::Change { request: ChangeRequest::AddPackage { name: "git".to_string() }, permanent: true }
    );
    let (session, step) = execute(
        SystemCommands::Enable { program: "programs.fish".to_string(), permanent: false },
        &[],
        &config,
    );
    assert_eq!(step.action, Action::Probe { path: "/etc/nixos/.nx-temp.nix".to_string() });
    assert_eq!(
        session.operation,
        Operation::Change {
            request: ChangeRequest::SetBooleanFlag { path: "programs.fish".to_string() },
            permanent: false
        }
    );
    let (session, _) = execute(
        SystemCommands::SetOption { path: "a".to_string(), value: "1".to_string(), permanent: false },
        &["--ignored".to_string()],
        &config,
    );
    assert_eq!(
        session.operation,
        Operation::Change {
            request: ChangeRequest::SetOption { path: "a".to_string(), value: "1".to_string() },
            permanent: false
        }
    );
    let (session, step) = execute(SystemCommands::Apply, &[], &config);
    assert_eq!(session.operation, Operation::Apply);
    assert_eq!(step.action, Action::Probe { path: "/etc/nixos/.nx-temp.nix".to_string() });
    let (session, step) = execute(SystemCommands::Show, &[], &config);
    assert_eq!(session.operation, Operation::Show);
    assert_eq!(step.action, Action::Probe { path: "/etc/nixos/.nx-temp.nix".to_string() });
}
