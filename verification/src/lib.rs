//! A verified core for a command-runner that reports each run of a wrapped
//! command to a dead man's switch monitoring endpoint.
//!
//! The library owns the two parts with real decisions in them: resolving a
//! layered configuration (command line over config file over environment
//! over built-in defaults) into one validated [`Config`], and the run
//! orchestration rules: which notification URLs are derived, when the start
//! and end pings are due, how the child's exit status becomes this process's
//! exit code, and why no notification failure may ever change that code.
//! The surrounding binary does the plain I/O: it parses arguments, reads the
//! config file and environment, spawns the child and performs the HTTP calls,
//! each exactly as a function here decided.

mod config;
mod errors;
mod foreign;
mod notify;
mod runner;

pub use config::{
    CliSettings, Config, FileSettings, Level, Settings, config_search_path, law_cli_wins,
    law_default_below_all_sources, law_file_wins_over_env, opt_view, parse_verbosity,
    spec_chosen_timeout, spec_chosen_url, spec_chosen_verbosity, spec_file_timeout, spec_file_url,
    spec_urls_valid, spec_verbosity, wants_search_note,
};
pub use errors::Error;
pub use foreign::url_normal_of;
pub use runner::{
    EndCall, LaunchPlan, Platform, RunOutcome, Verdict, conclude, effective_command, end_ping_due,
    law_pings_never_change_exit_code, prepare, spec_effective_command, spec_exit_code,
    spec_reported, start_ping_due,
};
pub use notify::{
    PingResult, decimal_of_u8, end_url, is_valid_slug, law_single_slash_join, notify_base,
    ping_accepted, ping_warning, slug_ok, spec_decimal, spec_end_url, spec_notify_base,
    spec_start_url, start_url, with_trailing_slash,
};
