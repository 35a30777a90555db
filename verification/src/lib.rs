//! A friendly front end for the Nix package manager and for the configuration
//! of a NixOS system.
//!
//! The heart of the library is the change of the system configuration: a
//! package, a program or an option is put into the text of the permanent
//! configuration document, or into a staging document that is applied later
//! ([`patcher`], [`commands::system`]). Around it stand the other commands
//! of the tool ([`commands`]) and the writing of an expression that builds a
//! package from its sources ([`generate`]).
//!
//! Nothing here reads a file, runs a program or prints a line. A command is
//! a session that asks its caller for one action after the other and is told
//! what came of each ([`session`]); what a command does to the files of a
//! machine is proved against a model of the machine ([`world`],
//! [`commands::system_laws`]).

pub mod cli;
pub mod commands;
pub mod config;
pub mod generate;
pub mod package;
pub mod patcher;
pub mod patcher_laws;
pub mod process;
pub mod session;
pub mod text;
pub mod words;
pub mod world;
