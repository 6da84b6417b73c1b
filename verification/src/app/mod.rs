//! Start of the program: the credential with which the session runs.

use vstd::prelude::*;
use crate::config::Config;

verus! {

/// Why the program did not start.
#[derive(Debug, Clone, Copy, PartialEq, Eq, Structural)]
pub enum StartupError {
    /// Neither the command line nor the settings hold a credential.
    MissingApiKey,
    /// The remote service refused the credential or could not be reached.
    AuthenticationFailed,
}

impl StartupError {
    /// The cause, as told to the user.
    pub fn message(&self) -> (r: &'static str)
        ensures
            r@ == match *self {
                StartupError::MissingApiKey =>
                    "Linear Personal API Key is required. Set LINEAR_API_KEY environment variable or provide --token"@,
                StartupError::AuthenticationFailed =>
                    "Failed to authenticate with Linear API. Please check your Personal API Key."@,
            },
    {
        match self {
            StartupError::MissingApiKey =>
                "Linear Personal API Key is required. Set LINEAR_API_KEY environment variable or provide --token",
            StartupError::AuthenticationFailed =>
                "Failed to authenticate with Linear API. Please check your Personal API Key.",
        }
    }
}

/// The credential to use: that of the command line where there is one, else
/// that of the settings.
pub open spec fn spec_resolve_api_key(api_key: Option<String>, config: Config) -> Result<
    String,
    StartupError,
> {
    match api_key {
        Some(token) => Ok(token),
        None => match config.api_key {
            Some(token) => Ok(token),
            None => Err(StartupError::MissingApiKey),
        },
    }
}

/// The program once its credential is known.
#[derive(Debug, Clone, PartialEq, Eq)]
pub struct App {
    /// The credential sent with every request.
    pub api_key: String,
}

impl App {
    /// Picks the credential of the session: the one given on the command
    /// line, else the one of the settings. Fails where neither is there.
    pub fn new(config: Config, api_key: Option<String>) -> (r: Result<App, StartupError>)
        ensures
            match spec_resolve_api_key(api_key, config) {
                Ok(token) => r == Ok::<App, StartupError>(App { api_key: token }),
                Err(e) => r == Err::<App, StartupError>(e),
            },
    {
        match api_key {
            Some(token) => Ok(App { api_key: token }),
            None => match config.api_key {
                Some(token) => Ok(App { api_key: token }),
                None => Err(StartupError::MissingApiKey),
            },
        }
    }

    /// How many of the fetched teams the self-test lists.
    pub fn listed_teams(fetched: usize) -> (n: usize)
        ensures
            n == if fetched < 3 {
                fetched
            } else {
                3
            },
    {
        if fetched < 3 {
            fetched
        } else {
            3
        }
    }
}

} // verus!
