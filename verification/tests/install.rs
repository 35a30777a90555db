use nx_wrapper::commands::install::{find_package_id, install, InstallSession, InstallStage};
use nx_wrapper::config::Config;
use nx_wrapper::package::{is_unfree_package, license_query};
use nx_wrapper::session::{Action, Event, Invocation, Line, RunMode, Step};

fn strings(texts: &[&str]) -> Vec<String> {
    texts.iter().map(|text| text.to_string()).collect()
}

fn out(text: &str) -> Line {
    Line { text: text.to_string(), error: false }
}

fn err(text: &str) -> Line {
    Line { text: text.to_string(), error: true }
}

fn exited(success: bool, output: &str) -> Event {
    Event::Exited { success, code: Some(if success { 0 } else { 1 }), output: output.to_string() }
}

fn failed() -> Event {
    Event::Failed { reason: "No such file or directory (os error 2)".to_string() }
}

fn nix(args: &[&str], unfree: bool) -> Invocation {
    let env = if unfree { vec![("NIXPKGS_ALLOW_UNFREE".to_string(), "1".to_string())] } else { vec![] };
    Invocation { program: "nix".to_string(), args: strings(args), env }
}

const PROFILE: &str = "0 flake:nixpkgs#legacyPackages.x86_64-linux.hello github:NixOS/nixpkgs/abc#hello /nix/store/aaa-hello-2.12\n\
1 flake:nixpkgs#legacyPackages.x86_64-linux.git github:NixOS/nixpkgs/abc#git /nix/store/bbb-git-2.40\r\n\
short line git\n\
2 x y /nix/store/ccc-git-lfs-3.0\n";

#[test]
fn package_is_found_in_the_fourth_word() {
    assert_eq!(find_package_id(PROFILE, "git"), Some("/nix/store/bbb-git-2.40".to_string()));
    assert_eq!(find_package_id(PROFILE, "hello"), Some("/nix/store/aaa-hello-2.12".to_string()));
    assert_eq!(find_package_id(PROFILE, "git-lfs"), Some("/nix/store/ccc-git-lfs-3.0".to_string()));
    assert_eq!(find_package_id(PROFILE, "vim"), None);
    assert_eq!(find_package_id("", "git"), None);
    assert_eq!(find_package_id("a b c", "c"), None);
    assert_eq!(find_package_id("a b git d", "git"), None);
    assert_eq!(find_package_id("  a\tb  c   d-git-e   f ", "git"), Some("d-git-e".to_string()));
    assert_eq!(find_package_id("a b c d", ""), Some("d".to_string()));
}

#[test]
fn license_query_asks_for_the_package() {
    assert_eq!(license_query("steam"), nix(&["eval", "nixpkgs#steam.meta.license.free"], false));
}

#[test]
fn package_is_unfree_where_the_query_writes_false() {
    assert!(is_unfree_package(&exited(true, "false\n")));
    assert!(is_unfree_package(&exited(false, "  false")));
    assert!(!is_unfree_package(&exited(true, "true\n")));
    assert!(!is_unfree_package(&exited(true, "")));
    assert!(!is_unfree_package(&exited(true, "false false")));
    assert!(!is_unfree_package(&failed()));
    assert!(!is_unfree_package(&Event::Done));
}

#[test]
fn unfree_package_is_refused() {
    let (session, step) = install("steam", &[], &Config { allow_unfree: false });
    assert_eq!(
        step,
        Step {
            output: vec![],
            action: Action::Run {
                invocation: nix(&["eval", "nixpkgs#steam.meta.license.free"], false),
                mode: RunMode::Capture,
            },
        }
    );
    assert_eq!(session.document, "/etc/nixos/configuration.nix");
    let (session, step) = session.advance(exited(true, "false\n"));
    assert_eq!(
        step,
        Step {
            output: vec![
                out("Warning: steam is an unfree package."),
                out("To allow installation, run: nx config --allow-unfree true"),
            ],
            action: Action::Exit { code: 1 },
        }
    );
    assert!(session.is_finished());
}

#[test]
fn unfree_package_is_installed_where_allowed() {
    let (session, _) = install("steam", &strings(&["-v"]), &Config { allow_unfree: true });
    let (session, step) = session.advance(exited(true, "false\n"));
    assert_eq!(
        step,
        Step {
            output: vec![out("Installing steam to profile for immediate use...")],
            action: Action::Run {
                invocation: nix(&["profile", "install", "nixpkgs#steam", "-v", "--impure"], true),
                mode: RunMode::Wait,
            },
        }
    );
    assert_eq!(session.stage, InstallStage::ProfileInstall);
}

fn through_rebuild() -> InstallSession {
    let (session, _) = InstallSession::begin("git", &[], &Config::default(), "/t/configuration.nix");
    let (session, step) = session.advance(failed());
    assert_eq!(
        step,
        Step {
            output: vec![out("Installing git to profile for immediate use...")],
            action: Action::Run {
                invocation: nix(&["profile", "install", "nixpkgs#git"], false),
                mode: RunMode::Wait,
            },
        }
    );
    // How the installation into the profile ended plays no part.
    let (session, step) = session.advance(exited(false, ""));
    assert_eq!(
        step,
        Step {
            output: vec![out("Adding git to system packages...")],
            action: Action::Read { path: "/t/configuration.nix".to_string() },
        }
    );
    let (session, step) = session.advance(Event::Content { text: "{\n}\n".to_string() });
    assert_eq!(
        step,
        Step {
            output: vec![],
            action: Action::Write {
                path: "/t/configuration.nix".to_string(),
                content: "{\n\n  environment.systemPackages = with pkgs; [\n    git\n  ];\n}".to_string(),
            },
        }
    );
    let (session, step) = session.advance(Event::Done);
    assert_eq!(
        step,
        Step {
            output: vec![
                out("Added git to system packages. Run 'sudo nixos-rebuild switch' to apply."),
                out("Rebuilding system configuration..."),
            ],
            action: Action::Run {
                invocation: Invocation {
                    program: "sudo".to_string(),
                    args: strings(&["nixos-rebuild", "switch"]),
                    env: vec![],
                },
                mode: RunMode::Wait,
            },
        }
    );
    assert_eq!(session.stage, InstallStage::Rebuild);
    session
}

#[test]
fn installation_goes_through_profile_document_and_rebuild() {
    let session = through_rebuild();
    let (session, step) = session.advance(exited(true, ""));
    assert_eq!(
        step,
        Step {
            output: vec![out("Removing git from profile...")],
            action: Action::Run { invocation: nix(&["profile", "list"], false), mode: RunMode::Capture },
        }
    );
    let (session, step) = session.advance(exited(true, PROFILE));
    assert_eq!(
        step,
        Step {
            output: vec![],
            action: Action::Run {
                invocation: nix(&["profile", "remove", "/nix/store/bbb-git-2.40"], false),
                mode: RunMode::Wait,
            },
        }
    );
    let (session, step) = session.advance(exited(true, ""));
    assert_eq!(
        step,
        Step {
            output: vec![out("Successfully installed git and added to system packages!")],
            action: Action::Exit { code: 0 },
        }
    );
    assert!(session.is_finished());
}

#[test]
fn installation_ends_where_the_profile_does_not_hold_the_package() {
    let (session, _) = through_rebuild().advance(exited(true, ""));
    let (_, step) = session.clone().advance(exited(true, "0 a b /nix/store/x-vim\n"));
    assert_eq!(
        step,
        Step {
            output: vec![out("Successfully installed git and added to system packages!")],
            action: Action::Exit { code: 0 },
        }
    );
    let (_, step) = session.advance(failed());
    assert_eq!(
        step,
        Step {
            output: vec![out("Successfully installed git and added to system packages!")],
            action: Action::Exit { code: 0 },
        }
    );
}

#[test]
fn failed_removal_from_the_profile_is_a_warning() {
    let (session, _) = through_rebuild().advance(exited(true, ""));
    let (session, _) = session.advance(exited(true, PROFILE));
    let (_, step) = session.advance(failed());
    assert_eq!(
        step,
        Step {
            output: vec![
                err("Warning: Failed to remove package from profile"),
                out("Successfully installed git and added to system packages!"),
            ],
            action: Action::Exit { code: 0 },
        }
    );
}

#[test]
fn removal_from_the_profile_keeps_the_settings() {
    let (session, _) = InstallSession::begin("git", &strings(&["-v"]), &Config { allow_unfree: true }, "/t/c.nix");
    let (session, _) = session.advance(exited(true, "true"));
    let (session, _) = session.advance(exited(true, ""));
    let (session, _) = session.advance(Event::Content { text: "{}".to_string() });
    let (session, _) = session.advance(Event::Done);
    let (session, _) = session.advance(exited(true, ""));
    let (_, step) = session.advance(exited(true, "0 a b git-1"));
    assert_eq!(
        step.action,
        Action::Run { invocation: nix(&["profile", "remove", "git-1", "--impure"], true), mode: RunMode::Wait }
    );
}

#[test]
fn failed_rebuild_ends_the_installation() {
    let (session, step) = through_rebuild().advance(exited(false, ""));
    assert_eq!(step, Step { output: vec![err("Failed to rebuild system")], action: Action::Exit { code: 1 } });
    assert!(session.is_finished());
    let (_, step) = through_rebuild().advance(failed());
    assert_eq!(step, Step { output: vec![err("Failed to rebuild system")], action: Action::Exit { code: 1 } });
}

#[test]
fn profile_installation_that_does_not_start_ends_the_installation() {
    let (session, _) = install("git", &[], &Config::default());
    let (session, _) = session.advance(exited(true, "true"));
    let (session, step) = session.advance(failed());
    assert_eq!(
        step,
        Step { output: vec![err("Failed to install package to profile")], action: Action::Exit { code: 1 } }
    );
    assert!(session.is_finished());
}

#[test]
fn document_that_cannot_be_changed_ends_the_installation() {
    let (session, _) = install("git", &[], &Config::default());
    let (session, _) = session.advance(exited(true, "true"));
    let (session, _) = session.advance(exited(true, ""));
    let expected = Step {
        output: vec![
            err("Failed to modify configuration: No such file or directory (os error 2)"),
            err("Failed to add package to system configuration"),
        ],
        action: Action::Exit { code: 1 },
    };
    let (_, step) = session.clone().advance(failed());
    assert_eq!(step, expected);
    let (session, _) = session.advance(Event::Content { text: "{}".to_string() });
    let (session, step) = session.advance(failed());
    assert_eq!(step, expected);
    let (_, step) = session.advance(Event::Done);
    assert_eq!(
        step,
        Step { output: vec![err("unexpected reply to the pending action")], action: Action::Exit { code: 1 } }
    );
}
