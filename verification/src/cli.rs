//! The commands of the tool, as the command line gives them.

use vstd::prelude::*;

verus! {

/// What the command line holds: a command, and further arguments that are
/// handed on to the program that the command runs.
#[derive(Debug, Clone, PartialEq, Eq)]
pub struct Cli {
    pub command: Commands,
    pub passthrough_args: Vec<String>,
}

/// The commands.
#[derive(Debug, Clone, PartialEq, Eq)]
#[allow(inconsistent_fields)]
pub enum Commands {
    /// Install a package.
    Install { package: String },
    /// Remove one package, or all of them.
    Remove { all: bool, package: Option<String> },
    /// Collect garbage in the store, and delete old generations where
    /// `delete_old` is set.
    GarbageCollect { delete_old: bool, foreground: bool },
    /// Optimize the store.
    Optimize { foreground: bool },
    /// List the installed packages.
    List,
    /// Update one package, or all of them.
    Update { all: bool, package: Option<String> },
    /// Search the packages.
    Search { query: String },
    /// Show the settings, or change one.
    Config { allow_unfree: Option<bool> },
    /// Change the system configuration.
    System { command: SystemCommands },
}

/// The commands on the system configuration.
#[derive(Debug, Clone, PartialEq, Eq)]
pub enum SystemCommands {
    /// Add a package to the system packages.
    Package { package: String, permanent: bool },
    /// Enable a program or a service, such as `programs.fish`.
    Enable { program: String, permanent: bool },
    /// Set an option to a value, which is an expression of the configuration
    /// language.
    SetOption { path: String, value: String, permanent: bool },
    /// Apply the staged changes.
    Apply,
    /// Show the staged changes.
    Show,
}

/// [`SystemCommands`] as the specifications see them.
pub enum SystemCommandsView {
    Package { package: Seq<char>, permanent: bool },
    Enable { program: Seq<char>, permanent: bool },
    SetOption { path: Seq<char>, value: Seq<char>, permanent: bool },
    Apply,
    Show,
}

impl View for SystemCommands {
    type V = SystemCommandsView;

    open spec fn view(&self) -> SystemCommandsView {
        match self {
            SystemCommands::Package { package, permanent } => SystemCommandsView::Package {
                package: package@,
                permanent: *permanent,
            },
            SystemCommands::Enable { program, permanent } => SystemCommandsView::Enable {
                program: program@,
                permanent: *permanent,
            },
            SystemCommands::SetOption { path, value, permanent } => SystemCommandsView::SetOption {
                path: path@,
                value: value@,
                permanent: *permanent,
            },
            SystemCommands::Apply => SystemCommandsView::Apply,
            SystemCommands::Show => SystemCommandsView::Show,
        }
    }
}

} // verus!
