//! The user's settings.

use vstd::prelude::*;

verus! {

/// The settings that the user keeps between runs.
#[derive(Debug, Clone, Copy, PartialEq, Eq, Structural)]
pub struct Config {
    /// Whether packages with an unfree license may be installed.
    pub allow_unfree: bool,
}

impl Default for Config {
    /// The settings of a user who has not chosen any: unfree packages are not
    /// allowed.
    fn default() -> (config: Config)
        ensures
            !config.allow_unfree,
    {
        Config { allow_unfree: false }
    }
}

} // verus!
