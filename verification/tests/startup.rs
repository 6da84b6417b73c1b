use ltui::app::{App, StartupError};
use ltui::cli::{Cli, RunMode};
use ltui::config::{Config, ConfigSource, ThemeConfig, DEFAULT_REFRESH_INTERVAL};

#[test]
fn default_config() {
    let config = Config::default();
    assert_eq!(config.api_key, None);
    assert_eq!(config.refresh_interval, 30);
    assert_eq!(config.refresh_interval, DEFAULT_REFRESH_INTERVAL);
    assert_eq!(config.default_team_id, None);
    assert_eq!(config.theme, ThemeConfig::default());
}

#[test]
fn default_theme() {
    let theme = ThemeConfig::default();
    assert_eq!(theme.primary_color, "blue");
    assert_eq!(theme.secondary_color, "cyan");
    assert_eq!(theme.background_color, "black");
    assert_eq!(theme.text_color, "white");
}

#[test]
fn environment_overrides_the_credential_of_the_file() {
    let mut file = Config::default();
    file.api_key = Some("from-file".to_string());
    file.refresh_interval = 10;
    let merged = file.clone().with_env_api_key(Some("from-env".to_string()));
    assert_eq!(merged.api_key, Some("from-env".to_string()));
    assert_eq!(merged.refresh_interval, 10);
    assert_eq!(merged.theme, file.theme);
    assert_eq!(file.clone().with_env_api_key(None), file);
}

#[test]
fn config_source_prefers_the_given_path() {
    assert_eq!(
        Config::source(Some("/tmp/my.toml")),
        ConfigSource::Given { path: "/tmp/my.toml".to_string() }
    );
    assert_eq!(Config::source(None), ConfigSource::Standard);
}

#[test]
fn command_line_credential_wins() {
    let mut config = Config::default();
    config.api_key = Some("from-config".to_string());
    let app = App::new(config, Some("from-cli".to_string())).unwrap();
    assert_eq!(app.api_key, "from-cli");
}

#[test]
fn config_credential_is_the_fallback() {
    let mut config = Config::default();
    config.api_key = Some("from-config".to_string());
    let app = App::new(config, None).unwrap();
    assert_eq!(app.api_key, "from-config");
}

#[test]
fn missing_credential_is_fatal() {
    let failure = App::new(Config::default(), None).unwrap_err();
    assert_eq!(failure, StartupError::MissingApiKey);
    assert_eq!(
        failure.message(),
        "Linear Personal API Key is required. Set LINEAR_API_KEY environment variable or provide --token"
    );
    assert_eq!(
        StartupError::AuthenticationFailed.message(),
        "Failed to authenticate with Linear API. Please check your Personal API Key."
    );
}

#[test]
fn self_test_lists_at_most_three_teams() {
    assert_eq!(App::listed_teams(0), 0);
    assert_eq!(App::listed_teams(2), 2);
    assert_eq!(App::listed_teams(3), 3);
    assert_eq!(App::listed_teams(40), 3);
}

#[test]
fn run_mode_follows_the_test_flag() {
    let mut cli = Cli { apikey: None, config: None, debug: false, test: false };
    assert_eq!(cli.mode(), RunMode::Dashboard);
    cli.test = true;
    cli.debug = true;
    assert_eq!(cli.mode(), RunMode::Test);
}
