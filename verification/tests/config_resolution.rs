use hc_runner::{CliSettings, Config, Error, FileSettings, Level, Settings};

fn cli_base() -> CliSettings {
    CliSettings {
        command: vec!["fake_command".to_string()],
        slug: "test".to_string(),
        quiet: false,
        verbose: 0,
        success_only: false,
        timeout: None,
        url: None,
    }
}

fn empty_settings() -> Settings {
    Settings { url: None, timeout: None }
}

#[test]
fn test_timeout_overrides() {
    // Built-in default.
    let mut cli = cli_base();
    cli.url = Some("https://n8henrie.com".to_string());
    let config = Config::resolve(cli.clone(), FileSettings::Missing, empty_settings()).unwrap();
    assert_eq!(config.timeout, 10);

    // The config file overrides the default.
    let file = FileSettings::Loaded(Settings { url: None, timeout: Some(20) });
    let config = Config::resolve(cli.clone(), file.clone(), empty_settings()).unwrap();
    assert_eq!(config.timeout, 20);

    // The config file wins over the environment.
    let env = Settings { url: None, timeout: Some(30) };
    let config = Config::resolve(cli.clone(), file.clone(), env.clone()).unwrap();
    assert_eq!(config.timeout, 20);

    // The environment overrides the default when the file is silent.
    let config = Config::resolve(cli.clone(), FileSettings::Missing, env.clone()).unwrap();
    assert_eq!(config.timeout, 30);

    // A command-line flag wins over everything.
    cli.timeout = Some(40);
    let config = Config::resolve(cli, file, env).unwrap();
    assert_eq!(config.timeout, 40);
}

#[test]
fn url_precedence_cli_over_file_over_env() {
    let env = Settings { url: Some("http://env.example/".to_string()), timeout: None };
    let file =
        FileSettings::Loaded(Settings { url: Some("http://file.example/".to_string()), timeout: None });

    // Environment alone.
    let config = Config::resolve(cli_base(), FileSettings::Missing, env.clone()).unwrap();
    assert_eq!(config.url, "http://env.example/");

    // The file wins over the environment.
    let config = Config::resolve(cli_base(), file.clone(), env.clone()).unwrap();
    assert_eq!(config.url, "http://file.example/");

    // The command line wins over both.
    let mut cli = cli_base();
    cli.url = Some("http://cli.example/".to_string());
    let config = Config::resolve(cli, file, env).unwrap();
    assert_eq!(config.url, "http://cli.example/");
}

#[test]
fn missing_url_in_all_sources_is_an_error() {
    let r = Config::resolve(cli_base(), FileSettings::Missing, empty_settings());
    assert_eq!(r.unwrap_err(), Error::MissingUrl);

    // A file without a url key does not help.
    let file = FileSettings::Loaded(Settings { url: None, timeout: Some(20) });
    let r = Config::resolve(cli_base(), file, empty_settings());
    assert_eq!(r.unwrap_err(), Error::MissingUrl);
}

#[test]
fn malformed_url_in_any_source_is_an_error() {
    let mut cli = cli_base();
    cli.url = Some("not a url".to_string());
    let r = Config::resolve(cli, FileSettings::Missing, empty_settings());
    assert_eq!(r.unwrap_err(), Error::InvalidUrl);

    // A malformed URL is rejected even in a source that a higher one
    // overrides.
    let mut cli = cli_base();
    cli.url = Some("http://cli.example/".to_string());
    let env = Settings { url: Some("::notaurl::".to_string()), timeout: None };
    let r = Config::resolve(cli, FileSettings::Missing, env);
    assert_eq!(r.unwrap_err(), Error::InvalidUrl);
}

#[test]
fn unreadable_file_is_an_error() {
    let mut cli = cli_base();
    cli.url = Some("http://cli.example/".to_string());
    let r = Config::resolve(cli, FileSettings::Malformed, empty_settings());
    assert_eq!(r.unwrap_err(), Error::Settings);
}

#[test]
fn url_is_normalized_by_parsing() {
    // A host-only URL gains its root path: the stored base URL is the
    // parsed URL's serialization, not the raw input.
    let mut cli = cli_base();
    cli.url = Some("http://example.com".to_string());
    let config = Config::resolve(cli, FileSettings::Missing, empty_settings()).unwrap();
    assert_eq!(config.url, "http://example.com/");
}

#[test]
fn resolve_keeps_command_slug_and_flags() {
    let mut cli = cli_base();
    cli.command = vec!["echo".to_string(), "foo".to_string()];
    cli.slug = "winner".to_string();
    cli.success_only = true;
    cli.url = Some("http://example.com/".to_string());
    let config = Config::resolve(cli, FileSettings::Missing, empty_settings()).unwrap();
    assert_eq!(config.command, vec!["echo".to_string(), "foo".to_string()]);
    assert_eq!(config.slug, "winner");
    assert!(config.success_only);
}

#[test]
fn verbosity_levels() {
    assert_eq!(hc_runner::parse_verbosity(0), Level::Warn);
    assert_eq!(hc_runner::parse_verbosity(1), Level::Info);
    assert_eq!(hc_runner::parse_verbosity(2), Level::Debug);
    assert_eq!(hc_runner::parse_verbosity(3), Level::Trace);
    assert_eq!(hc_runner::parse_verbosity(255), Level::Trace);
}

#[test]
fn quiet_forces_the_quietest_level() {
    let mut cli = cli_base();
    cli.url = Some("http://example.com/".to_string());
    cli.quiet = true;
    cli.verbose = 0;
    let config = Config::resolve(cli, FileSettings::Missing, empty_settings()).unwrap();
    assert_eq!(config.verbosity, Level::Error);
}

#[test]
fn verbose_count_sets_the_level() {
    let mut cli = cli_base();
    cli.url = Some("http://example.com/".to_string());
    cli.verbose = 2;
    let config = Config::resolve(cli, FileSettings::Missing, empty_settings()).unwrap();
    assert_eq!(config.verbosity, Level::Debug);
}

#[test]
fn config_search_path_prefers_the_override() {
    let r = hc_runner::config_search_path(
        Some("/tmp/override.toml".to_string()),
        Some("/home/user/.config/app/config.toml".to_string()),
    );
    assert_eq!(r, Some("/tmp/override.toml".to_string()));

    let r = hc_runner::config_search_path(
        None,
        Some("/home/user/.config/app/config.toml".to_string()),
    );
    assert_eq!(r, Some("/home/user/.config/app/config.toml".to_string()));

    let r = hc_runner::config_search_path(None, None);
    assert_eq!(r, None);
}

#[test]
fn search_note_needs_two_verbose_flags() {
    assert!(!hc_runner::wants_search_note(0));
    assert!(!hc_runner::wants_search_note(1));
    assert!(hc_runner::wants_search_note(2));
    assert!(hc_runner::wants_search_note(3));
}

#[test]
fn slug_validation() {
    assert!(hc_runner::is_valid_slug("winner"));
    assert!(hc_runner::is_valid_slug("_"));
    assert!(!hc_runner::is_valid_slug(""));
    assert!(!hc_runner::is_valid_slug("a/b"));
    assert!(!hc_runner::is_valid_slug("a?b"));
    assert!(!hc_runner::is_valid_slug("a#b"));
}

#[test]
fn error_messages() {
    assert_eq!(Error::MissingUrl.message(), "base URL not found");
    assert_eq!(Error::Settings.message(), "settings error");
    assert_eq!(
        Error::EmptyExitCode.message(),
        "command exited with empty exit status code"
    );
}
