//! Options of the command line.

use vstd::prelude::*;

verus! {

/// What the user asked for on the command line.
#[derive(Debug, Clone, PartialEq, Eq)]
pub struct Cli {
    /// The credential, which may also come from the environment.
    pub apikey: Option<String>,
    /// Path of the settings file.
    pub config: Option<String>,
    /// More output.
    pub debug: bool,
    /// Test the remote calls in place of starting the dashboard.
    pub test: bool,
}

/// What the program runs.
#[derive(Debug, Clone, Copy, PartialEq, Eq, Structural)]
pub enum RunMode {
    /// A self-test of the remote calls.
    Test,
    /// The interactive dashboard.
    Dashboard,
}

impl Cli {
    /// What the options ask for.
    pub fn mode(&self) -> (r: RunMode)
        ensures
            r == if self.test {
                RunMode::Test
            } else {
                RunMode::Dashboard
            },
    {
        if self.test {
            RunMode::Test
        } else {
            RunMode::Dashboard
        }
    }
}

} // verus!
