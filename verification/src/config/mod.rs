//! Settings of the program and their defaults.

use vstd::prelude::*;
use vstd::string::StringExecFns;

verus! {

/// Seconds between two refreshes where no setting says otherwise.
pub const DEFAULT_REFRESH_INTERVAL: u64 = 30;

/// The settings of the program.
#[derive(Debug, Clone, PartialEq, Eq)]
pub struct Config {
    pub api_key: Option<String>,
    pub refresh_interval: u64,
    pub default_team_id: Option<String>,
    pub theme: ThemeConfig,
}

/// The colours of the dashboard, by name.
#[derive(Debug, Clone, PartialEq, Eq)]
pub struct ThemeConfig {
    pub primary_color: String,
    pub secondary_color: String,
    pub background_color: String,
    pub text_color: String,
}

impl Default for ThemeConfig {
    /// Blue on black with cyan accents and white text.
    fn default() -> (r: Self)
        ensures
            r.primary_color@ == "blue"@,
            r.secondary_color@ == "cyan"@,
            r.background_color@ == "black"@,
            r.text_color@ == "white"@,
    {
        ThemeConfig {
            primary_color: String::from_str("blue"),
            secondary_color: String::from_str("cyan"),
            background_color: String::from_str("black"),
            text_color: String::from_str("white"),
        }
    }
}

impl Default for Config {
    /// No credential, no default team, a refresh every 30 seconds and the
    /// default theme.
    fn default() -> (r: Self)
        ensures
            r.api_key is None,
            r.refresh_interval == DEFAULT_REFRESH_INTERVAL,
            r.default_team_id is None,
            r.theme.primary_color@ == "blue"@,
            r.theme.secondary_color@ == "cyan"@,
            r.theme.background_color@ == "black"@,
            r.theme.text_color@ == "white"@,
    {
        Config {
            api_key: None,
            refresh_interval: DEFAULT_REFRESH_INTERVAL,
            default_team_id: None,
            theme: ThemeConfig::default(),
        }
    }
}

/// Where the settings come from.
#[derive(Debug, Clone, PartialEq, Eq)]
pub enum ConfigSource {
    /// The file that the user named.
    Given { path: String },
    /// The file `config.toml` in the program's own configuration directory.
    Standard,
}

impl Config {
    /// The settings read from a file, after the credential of the
    /// environment, if there is one, has taken the place of the file's.
    pub open spec fn spec_with_env_api_key(self, env_api_key: Option<String>) -> Config {
        match env_api_key {
            Some(token) => Config { api_key: Some(token), ..self },
            None => self,
        }
    }

    /// Overrides the credential of the file by that of the environment,
    /// where the environment has one. Nothing else changes.
    pub fn with_env_api_key(self, env_api_key: Option<String>) -> (r: Config)
        ensures
            r == self.spec_with_env_api_key(env_api_key),
    {
        match env_api_key {
            Some(token) => {
                let mut config = self;
                config.api_key = Some(token);
                config
            },
            None => self,
        }
    }

    /// Which file holds the settings: the one that the user named, else the
    /// standard one.
    pub fn source(config_path: Option<&str>) -> (r: ConfigSource)
        ensures
            match config_path {
                Some(path) => r matches ConfigSource::Given { path: p } && p@ == path@,
                None => r == ConfigSource::Standard,
            },
    {
        match config_path {
            Some(path) => ConfigSource::Given { path: String::from_str(path) },
            None => ConfigSource::Standard,
        }
    }
}

} // verus!
