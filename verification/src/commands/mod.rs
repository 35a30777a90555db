//! The commands of the tool, one module each.
//!
//! A command touches nothing itself: it is a session, which asks its caller
//! for one action after the other (see [`crate::session`]).

pub mod config;
pub mod gc;
pub mod install;
pub mod install_laws;
pub mod list;
pub mod optimize;
pub mod remove;
pub mod search;
pub mod system;
pub mod system_laws;
pub mod update;
