//! The layered configuration resolver.
//!
//! Three sources can supply a value: command-line flags, a config file,
//! and environment variables, in that order of precedence, with a built-in
//! default below all three (only the timeout has one). The resolver takes
//! each source as plain, already-read values and merges them into one
//! validated [`Config`]; reading the command line, the file and the
//! environment is the caller's job.

use vstd::prelude::*;

use crate::errors::Error;
use crate::foreign::{parse_base_url, url_normal_of};
use crate::notify::slug_ok;

verus! {

/// A log level, quietest first.
#[derive(Clone, Copy, Debug, PartialEq, Eq, Structural)]
pub enum Level {
    Error,
    Warn,
    Info,
    Debug,
    Trace,
}

/// The level that a count of verbosity flags asks for: none means warnings,
/// and each repetition opens one level further, saturating at the noisiest.
pub open spec fn spec_verbosity(n: u8) -> Level {
    if n == 0 {
        Level::Warn
    } else if n == 1 {
        Level::Info
    } else if n == 2 {
        Level::Debug
    } else {
        Level::Trace
    }
}

/// Maps a count of verbosity flags to a log level.
pub fn parse_verbosity(n: u8) -> (l: Level)
    ensures
        l == spec_verbosity(n),
{
    match n {
        0 => Level::Warn,
        1 => Level::Info,
        2 => Level::Debug,
        _ => Level::Trace,
    }
}

/// The optional values that the config file or the environment can supply.
#[derive(Clone, Debug)]
pub struct Settings {
    pub url: Option<String>,
    pub timeout: Option<u64>,
}

/// What looking for the config file came to. A missing file is no error;
/// a file that exists but cannot be read or parsed is.
#[derive(Clone, Debug)]
pub enum FileSettings {
    Missing,
    Malformed,
    Loaded(Settings),
}

/// The already-parsed command-line input: the command to wrap, the job's
/// slug, the flags, and the optional values that compete with the other
/// sources.
#[derive(Clone, Debug)]
pub struct CliSettings {
    pub command: Vec<String>,
    pub slug: String,
    pub quiet: bool,
    pub verbose: u8,
    pub success_only: bool,
    pub timeout: Option<u64>,
    pub url: Option<String>,
}

/// The one fully merged and validated configuration that the run
/// orchestration consumes. It is complete by construction: no later step
/// checks presence again.
#[derive(Clone, Debug)]
pub struct Config {
    pub command: Vec<String>,
    pub slug: String,
    pub success_only: bool,
    pub timeout: u64,
    pub url: String,
    pub verbosity: Level,
}

/// The view of an optional owned string.
pub open spec fn opt_view(o: Option<String>) -> Option<Seq<char>> {
    match o {
        Some(s) => Some(s@),
        None => None,
    }
}

/// The URL that the config file supplies, if it was found and holds one.
pub open spec fn spec_file_url(file: FileSettings) -> Option<Seq<char>> {
    match file {
        FileSettings::Loaded(s) => opt_view(s.url),
        _ => None,
    }
}

/// The timeout that the config file supplies, if it was found and holds one.
pub open spec fn spec_file_timeout(file: FileSettings) -> Option<u64> {
    match file {
        FileSettings::Loaded(s) => s.timeout,
        _ => None,
    }
}

/// The base URL before validation: the highest-precedence source that
/// supplies one.
pub open spec fn spec_chosen_url(cli: CliSettings, file: FileSettings, env: Settings) -> Option<
    Seq<char>,
> {
    if cli.url is Some {
        opt_view(cli.url)
    } else if spec_file_url(file) is Some {
        spec_file_url(file)
    } else {
        opt_view(env.url)
    }
}

/// The timeout in seconds: the highest-precedence source that supplies
/// one, and the built-in default of `10` below all three.
pub open spec fn spec_chosen_timeout(cli: CliSettings, file: FileSettings, env: Settings) -> u64 {
    if cli.timeout is Some {
        cli.timeout->0
    } else if spec_file_timeout(file) is Some {
        spec_file_timeout(file)->0
    } else if env.timeout is Some {
        env.timeout->0
    } else {
        10
    }
}

/// Every base URL that any source supplies parses as an absolute URL.
/// A malformed URL is rejected wherever it stands, also in a source that
/// a higher one would override.
pub open spec fn spec_urls_valid(cli: CliSettings, file: FileSettings, env: Settings) -> bool {
    &&& (cli.url matches Some(u) ==> url_normal_of(u@) is Some)
    &&& (spec_file_url(file) matches Some(u) ==> url_normal_of(u) is Some)
    &&& (env.url matches Some(u) ==> url_normal_of(u@) is Some)
}

/// The verbosity a run gets: the quietest level when the quiet flag is
/// set, else what the count of verbosity flags asks for.
pub open spec fn spec_chosen_verbosity(cli: CliSettings) -> Level {
    if cli.quiet {
        Level::Error
    } else {
        spec_verbosity(cli.verbose)
    }
}

impl Config {
    /// A well-formed configuration: a command to run and a slug that forms
    /// one URL path segment.
    pub open spec fn wf(&self) -> bool {
        &&& self.command@.len() >= 1
        &&& slug_ok(self.slug@)
    }

    /// Merges the three sources into one configuration.
    ///
    /// Precedence per field, highest first: command line, config file,
    /// environment, built-in default. The base URL has no default: its
    /// absence in all three sources is an error, never a silent fallback.
    /// An unreadable or unparseable config file, and a malformed URL in
    /// any source, are errors as well.
    ///
    /// The command and the slug come from the command line alone, already
    /// validated there: a slug that could not stand in a URL path would
    /// have been rejected at parse time (see [`crate::is_valid_slug`]).
    pub fn resolve(cli: CliSettings, file: FileSettings, env: Settings) -> (r: Result<
        Config,
        Error,
    >)
        requires
            cli.command@.len() >= 1,
            slug_ok(cli.slug@),
        ensures
            r is Ok <==> (!(file is Malformed) && spec_urls_valid(cli, file, env)
                && spec_chosen_url(cli, file, env) is Some),
            file is Malformed ==> r == Err::<Config, Error>(Error::Settings),
            !(file is Malformed) && !spec_urls_valid(cli, file, env) ==> r == Err::<Config, Error>(
                Error::InvalidUrl,
            ),
            !(file is Malformed) && spec_urls_valid(cli, file, env) && spec_chosen_url(
                cli,
                file,
                env,
            ) is None ==> r == Err::<Config, Error>(Error::MissingUrl),
            r matches Ok(c) ==> {
                &&& Some(c.url@) == url_normal_of(spec_chosen_url(cli, file, env)->0)
                &&& c.timeout == spec_chosen_timeout(cli, file, env)
                &&& c.command@ == cli.command@
                &&& c.slug@ == cli.slug@
                &&& c.success_only == cli.success_only
                &&& c.verbosity == spec_chosen_verbosity(cli)
                &&& c.wf()
            },
    {
        let file_settings = match file {
            FileSettings::Missing => Settings { url: None, timeout: None },
            FileSettings::Malformed => {
                return Err(Error::Settings);
            },
            FileSettings::Loaded(s) => s,
        };
        let cli_url = match &cli.url {
            Some(u) => match parse_base_url(u.as_str()) {
                Some(n) => Some(n),
                None => {
                    return Err(Error::InvalidUrl);
                },
            },
            None => None,
        };
        let file_url = match &file_settings.url {
            Some(u) => match parse_base_url(u.as_str()) {
                Some(n) => Some(n),
                None => {
                    return Err(Error::InvalidUrl);
                },
            },
            None => None,
        };
        let env_url = match &env.url {
            Some(u) => match parse_base_url(u.as_str()) {
                Some(n) => Some(n),
                None => {
                    return Err(Error::InvalidUrl);
                },
            },
            None => None,
        };
        let url = if let Some(u) = cli_url {
            u
        } else if let Some(u) = file_url {
            u
        } else if let Some(u) = env_url {
            u
        } else {
            return Err(Error::MissingUrl);
        };
        let timeout = match cli.timeout {
            Some(t) => t,
            None => match file_settings.timeout {
                Some(t) => t,
                None => match env.timeout {
                    Some(t) => t,
                    None => 10,
                },
            },
        };
        let verbosity = if cli.quiet {
            Level::Error
        } else {
            parse_verbosity(cli.verbose)
        };
        Ok(
            Config {
                command: cli.command,
                slug: cli.slug,
                success_only: cli.success_only,
                timeout,
                url,
                verbosity,
            },
        )
    }
}

/// The command line wins: where it supplies a value, the config file and
/// the environment cannot change what is chosen, whatever they hold.
pub proof fn law_cli_wins(
    cli: CliSettings,
    file_a: FileSettings,
    env_a: Settings,
    file_b: FileSettings,
    env_b: Settings,
)
    ensures
        cli.url is Some ==> spec_chosen_url(cli, file_a, env_a) == spec_chosen_url(
            cli,
            file_b,
            env_b,
        ),
        cli.timeout is Some ==> spec_chosen_timeout(cli, file_a, env_a) == spec_chosen_timeout(
            cli,
            file_b,
            env_b,
        ),
{
}

/// The config file wins over the environment: where the command line is
/// silent and the file supplies a value, the environment cannot change
/// what is chosen, whatever it holds.
pub proof fn law_file_wins_over_env(
    cli: CliSettings,
    file: FileSettings,
    env_a: Settings,
    env_b: Settings,
)
    ensures
        cli.url is None && spec_file_url(file) is Some ==> spec_chosen_url(cli, file, env_a)
            == spec_chosen_url(cli, file, env_b),
        cli.timeout is None && spec_file_timeout(file) is Some ==> spec_chosen_timeout(
            cli,
            file,
            env_a,
        ) == spec_chosen_timeout(cli, file, env_b),
{
}

/// The built-in default appears exactly when no source supplies a value,
/// and only the timeout has one; the base URL falls through to an error
/// instead (see [`Config::resolve`]).
pub proof fn law_default_below_all_sources(cli: CliSettings, file: FileSettings, env: Settings)
    ensures
        cli.timeout is None && spec_file_timeout(file) is None && env.timeout is None
            ==> spec_chosen_timeout(cli, file, env) == 10,
        cli.url is None && spec_file_url(file) is None && env.url is None ==> spec_chosen_url(
            cli,
            file,
            env,
        ) is None,
{
}

/// Where the config file is looked for: an explicit command-line override
/// wins over the platform's standard per-application location; with
/// neither, no file is read.
pub fn config_search_path(cli_path: Option<String>, standard_path: Option<String>) -> (r: Option<
    String,
>)
    ensures
        opt_view(r) == if cli_path is Some {
            opt_view(cli_path)
        } else {
            opt_view(standard_path)
        },
{
    match cli_path {
        Some(p) => Some(p),
        None => standard_path,
    }
}

/// Whether the file-lookup diagnostic is due: the search path is named
/// only at two verbosity flags or more, since logging is not configured
/// yet while the configuration itself is being resolved.
pub fn wants_search_note(verbose: u8) -> (r: bool)
    ensures
        r == (verbose >= 2),
{
    verbose >= 2
}

} // verus!
