use nx_wrapper::config::Config;
use nx_wrapper::process::{run_command, run_command_background, CommandSession};
use nx_wrapper::session::{Action, Event, Invocation, Line, RunMode, Step};

fn strings(texts: &[&str]) -> Vec<String> {
    texts.iter().map(|text| text.to_string()).collect()
}

fn exit(output: Vec<Line>, code: i32) -> Step {
    Step { output, action: Action::Exit { code } }
}

#[test]
fn command_without_unfree_packages() {
    let config = Config { allow_unfree: false };
    let invocation = run_command("nix", &["profile", "list"], &strings(&["--json"]), &config);
    assert_eq!(
        invocation,
        Invocation { program: "nix".to_string(), args: strings(&["profile", "list", "--json"]), env: vec![] }
    );
    let plain = run_command("nix", &[], &[], &config);
    assert_eq!(plain, Invocation { program: "nix".to_string(), args: vec![], env: vec![] });
}

#[test]
fn command_with_unfree_packages_is_impure() {
    let config = Config { allow_unfree: true };
    let invocation = run_command("nix", &["profile", "install", "nixpkgs#x"], &strings(&["-v"]), &config);
    assert_eq!(invocation.args, strings(&["profile", "install", "nixpkgs#x", "-v", "--impure"]));
    assert_eq!(invocation.env, vec![("NIXPKGS_ALLOW_UNFREE".to_string(), "1".to_string())]);
}

#[test]
fn impure_is_not_given_twice() {
    let config = Config { allow_unfree: true };
    let invocation = run_command("nix", &["search"], &strings(&["--impure", "-v"]), &config);
    assert_eq!(invocation.args, strings(&["search", "--impure", "-v"]));
    assert_eq!(invocation.env, vec![("NIXPKGS_ALLOW_UNFREE".to_string(), "1".to_string())]);
    // Among the arguments of the command itself it does not count.
    let own = run_command("nix", &["--impure"], &[], &config);
    assert_eq!(own.args, strings(&["--impure", "--impure"]));
}

#[test]
fn background_command_takes_no_settings() {
    let invocation = run_command_background("nix", &["store", "optimize-store"], &strings(&["-v"]));
    assert_eq!(
        invocation,
        Invocation { program: "nix".to_string(), args: strings(&["store", "optimize-store", "-v"]), env: vec![] }
    );
}

#[test]
fn foreground_command_passes_the_exit_code_on() {
    let invocation = run_command("nix", &["profile", "list"], &[], &Config::default());
    let (session, step) = CommandSession::foreground(invocation.clone(), "Failed to list packages");
    assert_eq!(step, Step { output: vec![], action: Action::Run { invocation, mode: RunMode::Wait } });
    assert!(!session.is_finished());
    let (ended, last) = session
        .clone()
        .advance(Event::Exited { success: false, code: Some(7), output: String::new() });
    assert_eq!(last, exit(vec![], 7));
    assert!(ended.is_finished());
    let (_, last) = session
        .clone()
        .advance(Event::Exited { success: true, code: Some(0), output: String::new() });
    assert_eq!(last, exit(vec![], 0));
    let (_, last) = session
        .clone()
        .advance(Event::Exited { success: false, code: None, output: String::new() });
    assert_eq!(last, exit(vec![], 1));
    let (_, last) = session.advance(Event::Failed { reason: "not found".to_string() });
    assert_eq!(last, exit(vec![Line { text: "Failed to list packages".to_string(), error: true }], 1));
}

#[test]
fn background_command_ends_with_zero() {
    let invocation = run_command_background("nix-collect-garbage", &[], &[]);
    let (session, step) = CommandSession::background(invocation.clone());
    assert_eq!(step, Step { output: vec![], action: Action::Run { invocation, mode: RunMode::Detach } });
    let (_, last) = session.clone().advance(Event::Done);
    assert_eq!(last, exit(vec![Line { text: "Process started in background".to_string(), error: false }], 0));
    let (_, last) = session.advance(Event::Failed { reason: "not found".to_string() });
    assert_eq!(
        last,
        exit(vec![Line { text: "Failed to start background process".to_string(), error: true }], 0)
    );
}

#[test]
fn refused_command_runs_nothing() {
    let (session, step) = CommandSession::refused("Either --all or package must be specified");
    assert!(session.is_finished());
    assert_eq!(
        step,
        exit(vec![Line { text: "Either --all or package must be specified".to_string(), error: true }], 1)
    );
    let (_, again) = session.advance(Event::Done);
    assert_eq!(
        again,
        exit(vec![Line { text: "unexpected reply to the pending action".to_string(), error: true }], 1)
    );
}
